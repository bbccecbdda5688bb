//! The table parser: slices one scraped table body's flattened cell text
//! into fixed-width groups and turns each complete group into a record.

use vstd::prelude::*;

use crate::labels::{armor_of_label, class_of_label};
use crate::ship::{Armor, Class, Ship};
use crate::text::{cell_number, parse_cell, replace, replace_text};

verus! {

/// Number of header cells at the front of a table body's cell sequence
/// (ID, Name, Rarity, Nation, Type), discarded before data begins.
pub const HEADER_CELLS: usize = 5;

/// Number of cells each unit record occupies, equal to the number of fields
/// consumed: id, name, rarity, nation, class, luck, armor, speed, hp,
/// firepower, antiair, torpedo, evasion, aviation, cost, reload,
/// antisubmarine, oxygen, ammunition, accuracy.
pub const GROUP_CELLS: usize = 20;

/// Why a scrape cannot proceed. Numeric cells never fail (they default to
/// 0); only the structural conditions below abort an acquisition.
#[derive(Debug, Clone, Copy, PartialEq, Eq, Structural)]
pub enum ScrapeError {
    /// The table selector was rejected.
    Selector,
    /// A table body holds fewer cells than its header row.
    MissingHeader,
    /// A class cell holds an unrecognized label.
    UnknownClass,
    /// An armor cell holds an unrecognized label.
    UnknownArmor,
}

/// The synthesized icon reference for a unit name: a fixed wiki file prefix,
/// the name with `" (Retrofit)"` replaced by `"Kai"` and spaces replaced by
/// underscores, and a fixed suffix. The reference is never fetched here.
pub open spec fn image_url_of(name: Seq<char>) -> Seq<char> {
    "https://azurlane.koumakan.jp/wiki/File:"@ + replace_text(
        replace_text(name, " (Retrofit)"@, "Kai"@),
        " "@,
        "_"@,
    ) + "Icon.png"@
}

/// Builds the icon reference for a unit name.
pub fn build_image_url(name: &str) -> (r: String)
    ensures
        r@ == image_url_of(name@),
{
    let mut out = "https://azurlane.koumakan.jp/wiki/File:".to_owned();
    let renamed = replace(name, " (Retrofit)", "Kai");
    let underscored = replace(renamed.as_str(), " ", "_");
    out.append(underscored.as_str());
    out.append("Icon.png");
    out
}

/// Whether the class and armor cells of a 20-cell group parse; the other
/// cells cannot fail.
pub open spec fn group_ok(g: Seq<Seq<char>>) -> bool {
    &&& class_of_label(g[4]) is Some
    &&& armor_of_label(g[6]) is Some
}

/// Whether `s` is the record that the 20-cell group `g` describes.
pub open spec fn ship_matches_group(s: Ship, g: Seq<Seq<char>>) -> bool {
    &&& s.id@ == g[0]
    &&& s.name@ == g[1]
    &&& s.rarity@ == g[2]
    &&& s.nation@ == g[3]
    &&& class_of_label(g[4]) == Some(s.class)
    &&& s.luck == cell_number(g[5])
    &&& armor_of_label(g[6]) == Some(s.armor)
    &&& s.speed == cell_number(g[7])
    &&& s.hp == cell_number(g[8])
    &&& s.firepower == cell_number(g[9])
    &&& s.antiair == cell_number(g[10])
    &&& s.torpedo == cell_number(g[11])
    &&& s.evasion == cell_number(g[12])
    &&& s.aviation == cell_number(g[13])
    &&& s.cost == cell_number(g[14])
    &&& s.reload == cell_number(g[15])
    &&& s.antisubmarine == cell_number(g[16])
    &&& s.oxygen == cell_number(g[17])
    &&& s.ammunition == cell_number(g[18])
    &&& s.accuracy == cell_number(g[19])
    &&& s.image@ == image_url_of(g[1])
}

/// The number of complete groups among a table's cells; a trailing partial
/// group is not a record.
pub open spec fn group_count(cells: Seq<Seq<char>>) -> int {
    if cells.len() >= HEADER_CELLS {
        (cells.len() - HEADER_CELLS) / (GROUP_CELLS as int)
    } else {
        0
    }
}

/// The `n`-th complete group of a table's cells.
pub open spec fn group_at(cells: Seq<Seq<char>>, n: int) -> Seq<Seq<char>> {
    cells.subrange(
        HEADER_CELLS + n * GROUP_CELLS,
        HEADER_CELLS + n * GROUP_CELLS + GROUP_CELLS,
    )
}

/// Whether a table has its header cells and every complete group parses.
pub open spec fn table_ok(cells: Seq<Seq<char>>) -> bool {
    &&& cells.len() >= HEADER_CELLS
    &&& forall|n: int| 0 <= n < group_count(cells) ==> group_ok(#[trigger] group_at(cells, n))
}

/// Whether `ships` is exactly the sequence of records of `cells`' complete
/// groups, in table order.
pub open spec fn ships_match_table(ships: Seq<Ship>, cells: Seq<Seq<char>>) -> bool {
    &&& ships.len() == group_count(cells)
    &&& forall|n: int|
        0 <= n < ships.len() ==> ship_matches_group(#[trigger] ships[n], group_at(cells, n))
}

/// The error a table yields when it yields one: fail-fast at the first group
/// whose class or armor cell does not parse.
pub open spec fn table_fails_with(cells: Seq<Seq<char>>, e: ScrapeError) -> bool {
    match e {
        ScrapeError::MissingHeader => cells.len() < HEADER_CELLS,
        ScrapeError::UnknownClass => cells.len() >= HEADER_CELLS && exists|n: int|
            {
                &&& 0 <= n < group_count(cells)
                &&& class_of_label(#[trigger] group_at(cells, n)[4]) is None
                &&& forall|m: int| 0 <= m < n ==> group_ok(#[trigger] group_at(cells, m))
            },
        ScrapeError::UnknownArmor => cells.len() >= HEADER_CELLS && exists|n: int|
            {
                &&& 0 <= n < group_count(cells)
                &&& class_of_label(#[trigger] group_at(cells, n)[4]) is Some
                &&& armor_of_label(group_at(cells, n)[6]) is None
                &&& forall|m: int| 0 <= m < n ==> group_ok(#[trigger] group_at(cells, m))
            },
        ScrapeError::Selector => false,
    }
}

/// Turns the 20 cells at `base` into one record.
fn parse_group(cells: &Vec<String>, base: usize) -> (r: Result<Ship, ScrapeError>)
    requires
        base + GROUP_CELLS <= cells@.len(),
    ensures
        ({
            let g = cells.deep_view().subrange(base as int, base + GROUP_CELLS);
            match r {
                Ok(s) => group_ok(g) && ship_matches_group(s, g),
                Err(ScrapeError::UnknownClass) => class_of_label(g[4]) is None,
                Err(ScrapeError::UnknownArmor) => class_of_label(g[4]) is Some && armor_of_label(
                    g[6],
                ) is None,
                Err(_) => false,
            }
        }),
{
    let total = cells.len();
    let class = match Class::from_label(cells[base + 4].as_str()) {
        Some(c) => c,
        None => {
            return Err(ScrapeError::UnknownClass);
        },
    };
    let armor = match Armor::from_label(cells[base + 6].as_str()) {
        Some(a) => a,
        None => {
            return Err(ScrapeError::UnknownArmor);
        },
    };
    let name = cells[base + 1].clone();
    let image = build_image_url(name.as_str());
    Ok(
        Ship {
            id: cells[base].clone(),
            name,
            rarity: cells[base + 2].clone(),
            nation: cells[base + 3].clone(),
            class,
            luck: parse_cell(cells[base + 5].as_str()),
            armor,
            speed: parse_cell(cells[base + 7].as_str()),
            hp: parse_cell(cells[base + 8].as_str()),
            firepower: parse_cell(cells[base + 9].as_str()),
            antiair: parse_cell(cells[base + 10].as_str()),
            torpedo: parse_cell(cells[base + 11].as_str()),
            evasion: parse_cell(cells[base + 12].as_str()),
            aviation: parse_cell(cells[base + 13].as_str()),
            cost: parse_cell(cells[base + 14].as_str()),
            reload: parse_cell(cells[base + 15].as_str()),
            antisubmarine: parse_cell(cells[base + 16].as_str()),
            oxygen: parse_cell(cells[base + 17].as_str()),
            ammunition: parse_cell(cells[base + 18].as_str()),
            accuracy: parse_cell(cells[base + 19].as_str()),
            image,
        },
    )
}

/// Parses one table body's flattened cell text into unit records. The first
/// `HEADER_CELLS` cells are discarded; each complete `GROUP_CELLS`-cell
/// group then becomes one record, in table order; a trailing partial group
/// is dropped rather than read past the end. Numeric cells that fail to
/// parse yield 0; an unrecognized class or armor label aborts the parse.
pub fn parse_table(cells: &Vec<String>) -> (r: Result<Vec<Ship>, ScrapeError>)
    ensures
        match r {
            Ok(ships) => table_ok(cells.deep_view()) && ships_match_table(
                ships@,
                cells.deep_view(),
            ),
            Err(e) => table_fails_with(cells.deep_view(), e),
        },
{
    let total = cells.len();
    if total < HEADER_CELLS {
        proof {
            assert(cells.deep_view().len() == cells@.len());
        }
        return Err(ScrapeError::MissingHeader);
    }
    let data = total - HEADER_CELLS;
    let count = data / GROUP_CELLS;
    proof {
        assert(cells.deep_view().len() == cells@.len());
        assert(count * GROUP_CELLS <= data) by {
            assert(data as int % (GROUP_CELLS as int) >= 0);
        };
    }
    let mut ships: Vec<Ship> = Vec::new();
    let mut i: usize = 0;
    while i < count
        invariant
            total == cells@.len(),
            total == cells.deep_view().len(),
            total >= HEADER_CELLS,
            data == total - HEADER_CELLS,
            count == group_count(cells.deep_view()),
            HEADER_CELLS + count * GROUP_CELLS <= total,
            i <= count,
            ships@.len() == i,
            forall|n: int|
                0 <= n < i ==> group_ok(#[trigger] group_at(cells.deep_view(), n)),
            forall|n: int|
                0 <= n < i ==> ship_matches_group(
                    #[trigger] ships@[n],
                    group_at(cells.deep_view(), n),
                ),
        decreases count - i,
    {
        proof {
            assert(i * GROUP_CELLS + GROUP_CELLS == (i + 1) * GROUP_CELLS);
            assert((i + 1) * GROUP_CELLS <= count * GROUP_CELLS) by {
                assert((count - (i + 1)) * GROUP_CELLS >= 0) by (nonlinear_arith)
                    requires
                        count - (i + 1) >= 0,
                ;
                assert(count * GROUP_CELLS - (i + 1) * GROUP_CELLS == (count - (i + 1))
                    * GROUP_CELLS) by (nonlinear_arith);
            };
        }
        let base = HEADER_CELLS + i * GROUP_CELLS;
        match parse_group(cells, base) {
            Ok(s) => {
                proof {
                    assert(cells.deep_view().subrange(base as int, base + GROUP_CELLS)
                        =~= group_at(cells.deep_view(), i as int));
                }
                ships.push(s);
            },
            Err(e) => {
                proof {
                    assert(cells.deep_view().subrange(base as int, base + GROUP_CELLS)
                        =~= group_at(cells.deep_view(), i as int));
                }
                return Err(e);
            },
        }
        i += 1;
    }
    Ok(ships)
}

} // verus!
