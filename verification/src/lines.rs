//! The record collection, the classifier that partitions it into the three
//! tactical lines, and the session state the presentation layer drives.

use vstd::prelude::*;
use vstd::seq_lib::lemma_multiset_commutative;

use crate::ship::{line_of, Armor, Class, Line, Ship, SortChoice};

verus! {

/// Whether a record belongs to line `l`.
pub open spec fn in_line(s: Ship, l: Line) -> bool {
    line_of(s.class) == l
}

/// The records of `ships` that belong to line `l`, in input order.
pub open spec fn line_filter(ships: Seq<Ship>, l: Line) -> Seq<Ship> {
    ships.filter(|s: Ship| in_line(s, l))
}

/// The records of a line with the given class, in line order.
pub open spec fn class_filter(line: Seq<Ship>, c: Class) -> Seq<Ship> {
    line.filter(|s: Ship| s.class == c)
}

/// The records of a line with the given armor tier, in line order.
pub open spec fn armor_filter(line: Seq<Ship>, a: Armor) -> Seq<Ship> {
    line.filter(|s: Ship| s.armor == a)
}

/// The record collection: records keyed by the synthetic non-negative
/// integers `0 .. len`, assigned sequentially at import or scrape time. The
/// view is the sequence of records in key order: key `k` is index `k`. Keys
/// are positional and are not kept across an export.
pub struct ShipMap {
    records: Vec<Ship>,
}

impl View for ShipMap {
    type V = Seq<Ship>;

    closed spec fn view(&self) -> Seq<Ship> {
        self.records@
    }
}

impl ShipMap {
    /// An empty collection.
    pub fn new() -> (r: ShipMap)
        ensures
            r@ == Seq::<Ship>::empty(),
    {
        ShipMap { records: Vec::new() }
    }

    /// The number of records.
    pub fn len(&self) -> (r: usize)
        ensures
            r == self@.len(),
    {
        self.records.len()
    }

    /// The record under key `k`, if that key is taken.
    pub fn get(&self, k: usize) -> (r: Option<&Ship>)
        ensures
            match r {
                Some(s) => k < self@.len() && *s == self@[k as int],
                None => k >= self@.len(),
            },
    {
        if k < self.records.len() {
            Some(&self.records[k])
        } else {
            None
        }
    }

    /// Appends a record under the next sequential key.
    pub fn insert_next(&mut self, s: Ship)
        ensures
            final(self)@ == old(self)@.push(s),
    {
        self.records.push(s);
    }

    /// Appends a batch of records in order, each under the next sequential
    /// key; the batch is drained.
    pub fn append(&mut self, ships: &mut Vec<Ship>)
        ensures
            final(self)@ == old(self)@ + old(ships)@,
            final(ships)@ == Seq::<Ship>::empty(),
    {
        self.records.append(ships);
    }

    /// Rebuilds a collection from persisted records: keys `0 .. len` are
    /// assigned in record order, replacing whatever keys a prior session had.
    pub fn import(ships: Vec<Ship>) -> (r: ShipMap)
        ensures
            r@ == ships@,
    {
        ShipMap { records: ships }
    }

    /// The records in key order, keys dropped — exactly what persistence
    /// writes.
    pub fn export(&self) -> (r: Vec<Ship>)
        ensures
            r@ == self@,
    {
        let n = self.records.len();
        let mut out: Vec<Ship> = Vec::new();
        let mut i: usize = 0;
        while i < n
            invariant
                n == self@.len(),
                i <= n,
                out@ == self@.take(i as int),
            decreases n - i,
        {
            out.push(self.records[i].clone());
            proof {
                assert(self@.take(i + 1) =~= self@.take(i as int).push(self@[i as int]));
            }
            i += 1;
        }
        proof {
            assert(self@.take(n as int) =~= self@);
        }
        out
    }
}

/// Round-trip law: exporting a collection and importing what was written
/// yields a collection with the same records. `export` hands back the
/// records in key order and `import` re-keys them `0 .. len` in that order,
/// so the records match field for field even though keys are re-assigned.
pub proof fn lemma_import_export_round_trip(
    original: Seq<Ship>,
    exported: Seq<Ship>,
    reimported: Seq<Ship>,
)
    requires
        exported == original,
        reimported == exported,
    ensures
        reimported == original,
        reimported.to_multiset() == original.to_multiset(),
{
}

/// Partitions a collection's records into the three lines. Each record goes
/// to exactly one line, by its class alone; within a line, key order is
/// kept (callers must not rely on that order).
pub fn find_line(map: &ShipMap) -> (r: (Vec<Ship>, Vec<Ship>, Vec<Ship>))
    ensures
        r.0@ == line_filter(map@, Line::Back),
        r.1@ == line_filter(map@, Line::Front),
        r.2@ == line_filter(map@, Line::Sub),
{
    let n = map.records.len();
    let mut backline: Vec<Ship> = Vec::new();
    let mut frontline: Vec<Ship> = Vec::new();
    let mut subline: Vec<Ship> = Vec::new();
    let mut i: usize = 0;
    while i < n
        invariant
            n == map@.len(),
            i <= n,
            backline@ == line_filter(map@.take(i as int), Line::Back),
            frontline@ == line_filter(map@.take(i as int), Line::Front),
            subline@ == line_filter(map@.take(i as int), Line::Sub),
        decreases n - i,
    {
        let s = &map.records[i];
        match s.class.line() {
            Line::Back => backline.push(s.clone()),
            Line::Front => frontline.push(s.clone()),
            Line::Sub => subline.push(s.clone()),
        }
        proof {
            reveal(Seq::filter);
            assert(map@.take(i + 1).drop_last() =~= map@.take(i as int));
            assert(map@.take(i + 1).last() == map@[i as int]);
        }
        i += 1;
    }
    proof {
        assert(map@.take(n as int) =~= map@);
    }
    (backline, frontline, subline)
}

/// The records of `line` whose class is `filter`, in line order.
pub fn filter_line_class(line: &Vec<Ship>, filter: Class) -> (r: Vec<Ship>)
    ensures
        r@ == class_filter(line@, filter),
{
    let n = line.len();
    let mut out: Vec<Ship> = Vec::new();
    let mut i: usize = 0;
    while i < n
        invariant
            n == line@.len(),
            i <= n,
            out@ == class_filter(line@.take(i as int), filter),
        decreases n - i,
    {
        let s = &line[i];
        if s.class == filter {
            out.push(s.clone());
        }
        proof {
            reveal(Seq::filter);
            assert(line@.take(i + 1).drop_last() =~= line@.take(i as int));
            assert(line@.take(i + 1).last() == line@[i as int]);
        }
        i += 1;
    }
    proof {
        assert(line@.take(n as int) =~= line@);
    }
    out
}

/// The records of `line` whose armor tier is `filter`, in line order.
pub fn filter_line_armor(line: &Vec<Ship>, filter: Armor) -> (r: Vec<Ship>)
    ensures
        r@ == armor_filter(line@, filter),
{
    let n = line.len();
    let mut out: Vec<Ship> = Vec::new();
    let mut i: usize = 0;
    while i < n
        invariant
            n == line@.len(),
            i <= n,
            out@ == armor_filter(line@.take(i as int), filter),
        decreases n - i,
    {
        let s = &line[i];
        if s.armor == filter {
            out.push(s.clone());
        }
        proof {
            reveal(Seq::filter);
            assert(line@.take(i + 1).drop_last() =~= line@.take(i as int));
            assert(line@.take(i + 1).last() == line@[i as int]);
        }
        i += 1;
    }
    proof {
        assert(line@.take(n as int) =~= line@);
    }
    out
}

/// Shuffling one pushed element across a three-way concatenation only moves
/// it in the multiset.
proof fn lemma_push_in_three_concat(a: Seq<Ship>, b: Seq<Ship>, c: Seq<Ship>, x: Ship)
    ensures
        (a.push(x) + b + c).to_multiset() == (a + b + c).to_multiset().insert(x),
        (a + b.push(x) + c).to_multiset() == (a + b + c).to_multiset().insert(x),
        (a + b + c.push(x)).to_multiset() == (a + b + c).to_multiset().insert(x),
{
    broadcast use vstd::multiset::group_multiset_axioms;
    broadcast use vstd::seq_lib::group_to_multiset_ensures;

    lemma_multiset_commutative(a, b);
    lemma_multiset_commutative(a + b, c);
    lemma_multiset_commutative(a.push(x), b);
    lemma_multiset_commutative(a.push(x) + b, c);
    lemma_multiset_commutative(a, b.push(x));
    lemma_multiset_commutative(a + b.push(x), c);
    lemma_multiset_commutative(a + b, c.push(x));

    assert(a.push(x).to_multiset() =~= a.to_multiset().insert(x));
    assert(b.push(x).to_multiset() =~= b.to_multiset().insert(x));
    assert(c.push(x).to_multiset() =~= c.to_multiset().insert(x));

    assert((a.push(x) + b + c).to_multiset() =~= (a + b + c).to_multiset().insert(x));
    assert((a + b.push(x) + c).to_multiset() =~= (a + b + c).to_multiset().insert(x));
    assert((a + b + c.push(x)).to_multiset() =~= (a + b + c).to_multiset().insert(x));
}

/// Partition law: each record of a collection lands in exactly one of the
/// three lines (`line_of` is a total function into a single line), and the
/// concatenation of the three lines is a permutation of the collection's
/// records — nothing lost, nothing duplicated.
pub proof fn lemma_lines_partition(ships: Seq<Ship>)
    ensures
        (line_filter(ships, Line::Back) + line_filter(ships, Line::Front) + line_filter(
            ships,
            Line::Sub,
        )).to_multiset() == ships.to_multiset(),
    decreases ships.len(),
{
    broadcast use vstd::seq_lib::group_to_multiset_ensures;

    reveal(Seq::filter);
    if ships.len() == 0 {
        assert(line_filter(ships, Line::Back) =~= Seq::<Ship>::empty());
        assert(line_filter(ships, Line::Front) =~= Seq::<Ship>::empty());
        assert(line_filter(ships, Line::Sub) =~= Seq::<Ship>::empty());
        assert(line_filter(ships, Line::Back) + line_filter(ships, Line::Front) + line_filter(
            ships,
            Line::Sub,
        ) =~= ships);
    } else {
        let d = ships.drop_last();
        let x = ships.last();
        lemma_lines_partition(d);
        assert(ships =~= d.push(x));
        assert(ships.to_multiset() == d.to_multiset().insert(x));
        let b = line_filter(d, Line::Back);
        let f = line_filter(d, Line::Front);
        let s = line_filter(d, Line::Sub);
        lemma_push_in_three_concat(b, f, s, x);
        match line_of(x.class) {
            Line::Back => {
                assert(line_filter(ships, Line::Back) == b.push(x));
                assert(line_filter(ships, Line::Front) == f);
                assert(line_filter(ships, Line::Sub) == s);
            },
            Line::Front => {
                assert(line_filter(ships, Line::Back) == b);
                assert(line_filter(ships, Line::Front) == f.push(x));
                assert(line_filter(ships, Line::Sub) == s);
            },
            Line::Sub => {
                assert(line_filter(ships, Line::Back) == b);
                assert(line_filter(ships, Line::Front) == f);
                assert(line_filter(ships, Line::Sub) == s.push(x));
            },
        }
    }
}

/// The requests the presentation layer can raise against a session.
#[derive(Debug, Clone)]
pub enum Message {
    ImportShips,
    SortShips,
    ClearLines,
    FrontlineSort(SortChoice),
    BacklineSort(SortChoice),
    SublineSort(SortChoice),
    ImportAllToggle(bool),
    FrontlineClassFilter(Class),
    BacklineClassFilter(Class),
    SublineClassFilter(Class),
}

/// The session state the presentation layer drives: the record collection
/// and the three lines last materialized from it.
pub struct MainState {
    pub map: ShipMap,
    pub backline: Vec<Ship>,
    pub frontline: Vec<Ship>,
    pub subline: Vec<Ship>,
}

impl MainState {
    /// A fresh session: empty collection, empty lines.
    pub fn new() -> (r: MainState)
        ensures
            r.map@ == Seq::<Ship>::empty(),
            r.backline@ == Seq::<Ship>::empty(),
            r.frontline@ == Seq::<Ship>::empty(),
            r.subline@ == Seq::<Ship>::empty(),
    {
        MainState {
            map: ShipMap::new(),
            backline: Vec::new(),
            frontline: Vec::new(),
            subline: Vec::new(),
        }
    }

    /// Discards the materialized lines; the collection is kept.
    pub fn reset_lines(&mut self)
        ensures
            final(self).map == old(self).map,
            final(self).backline@ == Seq::<Ship>::empty(),
            final(self).frontline@ == Seq::<Ship>::empty(),
            final(self).subline@ == Seq::<Ship>::empty(),
    {
        self.frontline = Vec::new();
        self.backline = Vec::new();
        self.subline = Vec::new();
    }

    /// Replaces the whole collection; no merge with prior records. The
    /// materialized lines are left as they are, to be reset or recomputed.
    pub fn set_map(&mut self, map: ShipMap)
        ensures
            final(self).map == map,
            final(self).backline == old(self).backline,
            final(self).frontline == old(self).frontline,
            final(self).subline == old(self).subline,
    {
        self.map = map;
    }

    /// The current collection.
    pub fn get_map(&self) -> (r: &ShipMap)
        ensures
            r == &self.map,
    {
        &self.map
    }
}

} // verus!
