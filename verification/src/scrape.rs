//! The acquisition orchestrator: selects the table section for a level,
//! extracts each matched table's cell text from the fetched markup, parses
//! every table, and merges the records into one freshly keyed collection.
//!
//! Fetching the markup is the caller's concern; everything from markup to
//! collection happens here, with the HTML extraction behind a trusted
//! wrapper over the `scraper` crate.

use vstd::prelude::*;

use crate::lines::ShipMap;
use crate::parse::{
    group_at, group_count, parse_table, table_fails_with, table_ok, ship_matches_group,
    ScrapeError,
};
use crate::ship::Ship;

verus! {

/// What the `scraper` crate extracts from an HTML document for a CSS
/// selector: for each matched element, in tree order, the text of its
/// descendant text nodes in traversal order. A pure function of the two
/// strings; stated only through the trusted wrapper below.
pub uninterp spec fn table_texts_of(html: Seq<char>, selector: Seq<char>) -> Seq<Seq<Seq<char>>>;

/// The four selector texts this library ever hands to the extraction, one
/// per stat-snapshot table section.
pub open spec fn is_section_selector(s: Seq<char>) -> bool {
    ||| s == "article:nth-child(1) > table > tbody "@
    ||| s == "article:nth-child(2) > table > tbody "@
    ||| s == "article:nth-child(3) > table > tbody "@
    ||| s == "article:nth-child(4) > table > tbody "@
}

/// Relies on scraper's `Selector::parse`, `Html::parse_document`,
/// `Html::select` and `ElementRef::text`: parses the document, walks the
/// elements the selector matches in tree order, and collects each element's
/// descendant text nodes in traversal order. The outcome depends on the two
/// strings alone. `None` comes only of `Selector::parse` rejecting the
/// selector text; the four section selectors are valid CSS selector groups,
/// which `Selector::parse` accepts, so on them the result is `Some`.
#[verifier::external_body]
fn select_table_texts(html: &str, selector: &str) -> (r: Option<Vec<Vec<String>>>)
    ensures
        r matches Some(tables) ==> tables.deep_view() == table_texts_of(html@, selector@),
        is_section_selector(selector@) ==> r is Some,
{
    let sel = match scraper::Selector::parse(selector) {
        Ok(sel) => sel,
        Err(_) => return None,
    };
    let doc = scraper::Html::parse_document(html);
    Some(
        doc.select(&sel)
            .map(|el| el.text().map(|t| t.to_string()).collect())
            .collect(),
    )
}

/// The CSS selector of the stat-snapshot table section for a level. The
/// levels 1, 100, 120 and 125 select the four sections in order; any other
/// value falls back, silently, to the first section.
pub open spec fn selector_for(level: i32) -> Seq<char> {
    if level == 100 {
        "article:nth-child(2) > table > tbody "@
    } else if level == 120 {
        "article:nth-child(3) > table > tbody "@
    } else if level == 125 {
        "article:nth-child(4) > table > tbody "@
    } else {
        "article:nth-child(1) > table > tbody "@
    }
}

/// The selector text for a level; unrecognized levels fall back to the
/// first section.
pub fn level_selector(level: i32) -> (r: &'static str)
    ensures
        r@ == selector_for(level),
{
    if level == 100 {
        "article:nth-child(2) > table > tbody "
    } else if level == 120 {
        "article:nth-child(3) > table > tbody "
    } else if level == 125 {
        "article:nth-child(4) > table > tbody "
    } else {
        "article:nth-child(1) > table > tbody "
    }
}

/// The complete groups of one table, in table order.
pub open spec fn groups_of_table(cells: Seq<Seq<char>>) -> Seq<Seq<Seq<char>>> {
    Seq::new(group_count(cells) as nat, |n: int| group_at(cells, n))
}

/// The complete groups of a sequence of tables, concatenated in order.
pub open spec fn groups_of_tables(tables: Seq<Seq<Seq<char>>>) -> Seq<Seq<Seq<char>>>
    decreases tables.len(),
{
    if tables.len() == 0 {
        Seq::empty()
    } else {
        groups_of_table(tables.first()) + groups_of_tables(tables.drop_first())
    }
}

/// Whether `ships` is exactly the sequence of records of `groups`, in order.
pub open spec fn ships_match_groups(ships: Seq<Ship>, groups: Seq<Seq<Seq<char>>>) -> bool {
    &&& ships.len() == groups.len()
    &&& forall|n: int|
        0 <= n < ships.len() ==> ship_matches_group(#[trigger] ships[n], groups[n])
}

proof fn lemma_groups_take_succ(tables: Seq<Seq<Seq<char>>>, i: int)
    requires
        0 <= i < tables.len(),
    ensures
        groups_of_tables(tables.take(i + 1)) == groups_of_tables(tables.take(i))
            + groups_of_table(tables[i]),
    decreases i,
{
    let one = tables.take(i + 1);
    if i == 0 {
        assert(one.first() == tables[0]);
        assert(one.drop_first() =~= Seq::<Seq<Seq<char>>>::empty());
        assert(tables.take(0) =~= Seq::<Seq<Seq<char>>>::empty());
        assert(groups_of_tables(tables.take(0)) + groups_of_table(tables[0]) =~= groups_of_table(
            tables[0],
        ));
        assert(groups_of_table(one.first()) + groups_of_tables(one.drop_first())
            =~= groups_of_table(tables[0]));
    } else {
        let rest = tables.drop_first();
        lemma_groups_take_succ(rest, i - 1);
        assert(one.first() == tables.first());
        assert(one.drop_first() =~= rest.take(i));
        assert(tables.take(i).first() == tables.first());
        assert(tables.take(i).drop_first() =~= rest.take(i - 1));
        assert(rest[i - 1] == tables[i]);
        assert(groups_of_table(tables.first()) + (groups_of_tables(rest.take(i - 1))
            + groups_of_table(tables[i])) =~= (groups_of_table(tables.first())
            + groups_of_tables(rest.take(i - 1))) + groups_of_table(tables[i]));
    }
}

/// Parses every extracted table and merges the records into one collection,
/// with keys assigned by a single counter shared across the tables.
/// Fail-fast: the first table that cannot be parsed aborts the whole
/// operation with its error, and no partial collection is returned.
pub fn collect_tables(tables: &Vec<Vec<String>>) -> (r: Result<ShipMap, ScrapeError>)
    ensures
        match r {
            Ok(m) => {
                &&& forall|t: int|
                    0 <= t < tables.deep_view().len() ==> table_ok(#[trigger] tables.deep_view()[t])
                &&& ships_match_groups(m@, groups_of_tables(tables.deep_view()))
            },
            Err(e) => exists|t: int|
                {
                    &&& 0 <= t < tables.deep_view().len()
                    &&& table_fails_with(#[trigger] tables.deep_view()[t], e)
                    &&& forall|u: int| 0 <= u < t ==> table_ok(tables.deep_view()[u])
                },
        },
{
    let nt = tables.len();
    let mut map = ShipMap::new();
    let mut t: usize = 0;
    proof {
        assert(tables.deep_view().len() == tables@.len());
        assert(tables.deep_view().take(0) =~= Seq::<Seq<Seq<char>>>::empty());
        assert(map@ =~= Seq::<Ship>::empty());
    }
    while t < nt
        invariant
            nt == tables@.len(),
            nt == tables.deep_view().len(),
            t <= nt,
            forall|u: int| 0 <= u < t ==> table_ok(#[trigger] tables.deep_view()[u]),
            ships_match_groups(map@, groups_of_tables(tables.deep_view().take(t as int))),
        decreases nt - t,
    {
        let ghost deep = tables.deep_view();
        proof {
            assert(deep[t as int] == tables@[t as int].deep_view());
        }
        match parse_table(&tables[t]) {
            Ok(mut ships) => {
                proof {
                    lemma_groups_take_succ(deep, t as int);
                    assert(groups_of_table(deep[t as int]).len() == group_count(deep[t as int]));
                    assert forall|n: int|
                        0 <= n < ships@.len() implies ship_matches_group(
                        #[trigger] ships@[n],
                        groups_of_table(deep[t as int])[n],
                    ) by {
                        assert(groups_of_table(deep[t as int])[n] == group_at(deep[t as int], n));
                    }
                }
                map.append(&mut ships);
            },
            Err(e) => {
                return Err(e);
            },
        }
        t += 1;
    }
    proof {
        assert(tables.deep_view().take(nt as int) =~= tables.deep_view());
    }
    Ok(map)
}

/// Turns one fetched page of markup into a fresh collection for a level:
/// every table section the level's selector matches is parsed, and the
/// records of all of them are merged under keys `0 .. len` assigned by one
/// shared counter. The level's selector is one of the four fixed section
/// selectors and is never rejected; the one failure left — a table whose
/// class or armor cells do not parse — aborts the whole scrape with its
/// error, so success is owed exactly when every extracted table parses. No
/// partial collection is ever returned, and a previously held collection can
/// be kept untouched by the caller.
pub fn scrape_document(html: &str, level: i32) -> (r: Result<ShipMap, ScrapeError>)
    ensures
        ({
            let tables = table_texts_of(html@, selector_for(level));
            match r {
                Ok(m) => {
                    &&& forall|t: int| 0 <= t < tables.len() ==> table_ok(#[trigger] tables[t])
                    &&& ships_match_groups(m@, groups_of_tables(tables))
                },
                Err(e) => {
                    &&& e != ScrapeError::Selector
                    &&& exists|t: int|
                        {
                            &&& 0 <= t < tables.len()
                            &&& table_fails_with(#[trigger] tables[t], e)
                            &&& forall|u: int| 0 <= u < t ==> table_ok(tables[u])
                        }
                },
            }
        }),
{
    let selector = level_selector(level);
    proof {
        assert(is_section_selector(selector_for(level)));
    }
    match select_table_texts(html, selector) {
        None => vstd::pervasive::unreached(),
        Some(tables) => collect_tables(&tables),
    }
}

} // verus!
