//! The sorter: orders a line descending by a chosen attribute with a stable
//! in-place insertion sort, so records with equal keys keep their input order.

use vstd::prelude::*;
use vstd::seq_lib::lemma_multiset_commutative;
use vstd::pervasive::VecAdditionalExecFns;

use crate::ship::{key_of, Ship, SortChoice};

verus! {

/// Whether `line` is ordered descending by the `choice` attribute.
pub open spec fn sorted_desc_by(line: Seq<Ship>, choice: SortChoice) -> bool {
    forall|p: int, q: int|
        #![trigger line[p], line[q]]
        0 <= p < q < line.len() ==> key_of(line[p], choice) >= key_of(line[q], choice)
}

/// The records of `line` whose `choice` attribute equals `k`, in line order.
/// A sort is stable exactly when it preserves every such slice.
pub open spec fn key_slice(line: Seq<Ship>, choice: SortChoice, k: u32) -> Seq<Ship> {
    line.filter(|s: Ship| key_of(s, choice) == k)
}

/// Filtering an equal-key slice out of a two-record sequence with distinct
/// keys does not depend on the order of the two records.
proof fn lemma_filter_pair(x: Ship, y: Ship, choice: SortChoice, k: u32)
    requires
        key_of(x, choice) != key_of(y, choice),
    ensures
        key_slice(seq![x, y], choice, k) == key_slice(seq![y, x], choice, k),
{
    reveal_with_fuel(Seq::filter, 3);
    assert(seq![x, y].drop_last() =~= seq![x]);
    assert(seq![y, x].drop_last() =~= seq![y]);
    assert(seq![x].drop_last() =~= Seq::<Ship>::empty());
    assert(seq![y].drop_last() =~= Seq::<Ship>::empty());
    if key_of(x, choice) == k {
        assert(key_slice(seq![x, y], choice, k) =~= seq![x]);
        assert(key_slice(seq![y, x], choice, k) =~= seq![x]);
    } else if key_of(y, choice) == k {
        assert(key_slice(seq![x, y], choice, k) =~= seq![y]);
        assert(key_slice(seq![y, x], choice, k) =~= seq![y]);
    } else {
        assert(key_slice(seq![x, y], choice, k) =~= Seq::<Ship>::empty());
        assert(key_slice(seq![y, x], choice, k) =~= Seq::<Ship>::empty());
    }
}

/// Swapping two adjacent records with distinct keys moves nothing within any
/// equal-key slice and keeps the multiset of records.
proof fn lemma_swap_adjacent(s1: Seq<Ship>, i: int, choice: SortChoice)
    requires
        0 <= i,
        i + 1 < s1.len(),
        key_of(s1[i], choice) != key_of(s1[i + 1], choice),
    ensures
        ({
            let s2 = s1.update(i, s1[i + 1]).update(i + 1, s1[i]);
            &&& forall|k: u32| #[trigger] key_slice(s2, choice, k) == key_slice(s1, choice, k)
            &&& s2.to_multiset() == s1.to_multiset()
        }),
{
    broadcast use vstd::multiset::group_multiset_axioms;
    broadcast use vstd::seq_lib::group_to_multiset_ensures;
    broadcast use Seq::filter_distributes_over_add;

    let s2 = s1.update(i, s1[i + 1]).update(i + 1, s1[i]);
    let x = s1[i];
    let y = s1[i + 1];
    let a = s1.take(i);
    let c = s1.skip(i + 2);
    assert(s1 =~= a + (seq![x, y] + c));
    assert(s2 =~= a + (seq![y, x] + c));

    assert(seq![x, y] =~= Seq::<Ship>::empty().push(x).push(y));
    assert(seq![y, x] =~= Seq::<Ship>::empty().push(y).push(x));
    assert(seq![x, y].to_multiset() =~= seq![y, x].to_multiset());
    lemma_multiset_commutative(a, seq![x, y] + c);
    lemma_multiset_commutative(seq![x, y], c);
    lemma_multiset_commutative(a, seq![y, x] + c);
    lemma_multiset_commutative(seq![y, x], c);
    assert(s2.to_multiset() =~= s1.to_multiset());

    assert forall|k: u32| #[trigger] key_slice(s2, choice, k) == key_slice(s1, choice, k) by {
        lemma_filter_pair(x, y, choice, k);
        let pred = |s: Ship| key_of(s, choice) == k;
        assert((a + (seq![x, y] + c)).filter(pred) == a.filter(pred) + (seq![x, y]
            + c).filter(pred));
        assert((seq![x, y] + c).filter(pred) == seq![x, y].filter(pred) + c.filter(pred));
        assert((a + (seq![y, x] + c)).filter(pred) == a.filter(pred) + (seq![y, x]
            + c).filter(pred));
        assert((seq![y, x] + c).filter(pred) == seq![y, x].filter(pred) + c.filter(pred));
    }
}

/// Sorts a line in place, descending by the chosen attribute; for `Armor`
/// the key is the tier's ordinal. The sort is stable: records whose keys are
/// equal keep their relative input order, stated here as every equal-key
/// slice of the line surviving unchanged.
pub fn sort_ships(line: &mut Vec<Ship>, choice: SortChoice)
    ensures
        sorted_desc_by(final(line)@, choice),
        forall|k: u32| #[trigger]
            key_slice(final(line)@, choice, k) == key_slice(old(line)@, choice, k),
        final(line)@.to_multiset() == old(line)@.to_multiset(),
        final(line)@.len() == old(line)@.len(),
{
    let n = line.len();
    if n <= 1 {
        return ;
    }
    let mut i: usize = 1;
    while i < n
        invariant
            n == line@.len(),
            1 <= i <= n,
            forall|p: int, q: int|
                #![trigger line@[p], line@[q]]
                0 <= p < q < i ==> key_of(line@[p], choice) >= key_of(line@[q], choice),
            forall|k: u32| #[trigger]
                key_slice(line@, choice, k) == key_slice(old(line)@, choice, k),
            line@.to_multiset() == old(line)@.to_multiset(),
        decreases n - i,
    {
        let mut j: usize = i;
        while j > 0 && line[j - 1].stat(choice) < line[j].stat(choice)
            invariant
                n == line@.len(),
                0 <= j <= i < n,
                forall|p: int, q: int|
                    #![trigger line@[p], line@[q]]
                    0 <= p < q <= i && p != j && q != j ==> key_of(line@[p], choice) >= key_of(
                        line@[q],
                        choice,
                    ),
                forall|q: int|
                    j < q <= i ==> key_of(line@[j as int], choice) >= key_of(
                        #[trigger] line@[q],
                        choice,
                    ),
                forall|k: u32| #[trigger]
                    key_slice(line@, choice, k) == key_slice(old(line)@, choice, k),
                line@.to_multiset() == old(line)@.to_multiset(),
            decreases j,
        {
            let ghost before = line@;
            let moved = line[j].clone();
            let other = line[j - 1].clone();
            proof {
                lemma_swap_adjacent(before, j - 1, choice);
            }
            line.set(j - 1, moved);
            line.set(j, other);
            proof {
                assert(line@ =~= before.update(j - 1, before[j as int]).update(
                    j as int,
                    before[j - 1],
                ));
            }
            j -= 1;
        }
        i += 1;
    }
    proof {
        assert(line@.to_multiset().len() == line@.len()) by {
            broadcast use vstd::seq_lib::group_to_multiset_ensures;

        }
        assert(old(line)@.to_multiset().len() == old(line)@.len()) by {
            broadcast use vstd::seq_lib::group_to_multiset_ensures;

        }
    }
}

} // verus!
