//! Laws relating selection, breeding and ranking.
//!
//! The elitism law here connects `breed`'s contract (the first `num_best`
//! slots of the bred buffer carry the current population's head
//! unchanged) with `sort_by_fitness`'s contract (the ranked population is
//! a permutation of the bred buffer, in descending score order).

use vstd::prelude::*;
use vstd::seq_lib::group_to_multiset_ensures;
use vstd::seq_lib::lemma_multiset_commutative;
use vstd::seq_lib::to_multiset_len;

use crate::problem::{ranked, Problem};

verus! {

/// A value found at two distinct indices occurs at least twice in the
/// sequence's multiset.
proof fn lemma_two_indices_count_ge_two<A>(s: Seq<A>, a: int, b: int)
    requires
        0 <= a < b < s.len(),
        s[a] == s[b],
    ensures
        s.to_multiset().count(s[a]) >= 2,
{
    broadcast use group_to_multiset_ensures;
    broadcast use vstd::multiset::group_multiset_axioms;

    let left = s.subrange(0, b);
    let right = s.subrange(b, s.len() as int);
    assert(s =~= left + right);
    lemma_multiset_commutative(left, right);
    assert(left.contains(s[a]));
    assert(right.contains(s[a]));
    assert(left.to_multiset().count(s[a]) >= 1);
    assert(right.to_multiset().count(s[a]) >= 1);
}

/// A value found at no more than one index occurs at most once in the
/// sequence's multiset.
proof fn lemma_at_most_one_index_count_le_one<A>(s: Seq<A>, x: A)
    requires
        forall|r1: int, r2: int|
            0 <= r1 < s.len() && 0 <= r2 < s.len() && s[r1] == x && s[r2] == x ==> r1 == r2,
    ensures
        s.to_multiset().count(x) <= 1,
    decreases s.len(),
{
    broadcast use group_to_multiset_ensures;
    broadcast use vstd::multiset::group_multiset_axioms;

    if s.len() == 0 {
        assert(!s.contains(x));
    } else {
        let head = s.drop_last();
        assert(s =~= head.push(s.last()));
        if s.last() == x {
            assert(!head.contains(x));
            assert(head.to_multiset().count(x) == 0);
        } else {
            lemma_at_most_one_index_count_le_one(head, x);
        }
    }
}

/// The elitism law. Take a current population `cur` whose first `k`
/// individuals are its strictly best-ranked head, a bred buffer that
/// carries those `k` individuals unchanged in its first `k` slots and
/// whose remaining individuals all score strictly below the weakest of
/// them, and any ranked permutation `next` of the bred buffer: then
/// `next` still begins with exactly those `k` individuals, unchanged and
/// in the same order.
///
/// The strictness bounds are what make the head's position forced: with
/// a tie between an elite and a bred child, or a child outscoring an
/// elite, a ranked permutation may order the head otherwise.
pub proof fn lemma_elitism<T, I>(cur: Seq<I>, bred: Seq<I>, next: Seq<I>, k: int) where
    T: Problem<Individual = I>,

    requires
        0 <= k <= cur.len(),
        bred.len() == cur.len(),
        forall|i: int| 0 <= i < k ==> bred[i] == cur[i],
        forall|i: int| 0 <= i < k ==> (#[trigger] T::spec_fitness(cur[i])) is Some,
        forall|i: int, j: int|
            0 <= i < j < k ==> (#[trigger] T::spec_fitness(cur[i]))->0 > (
            #[trigger] T::spec_fitness(cur[j]))->0,
        forall|j: int|
            k <= j < bred.len() ==> (#[trigger] T::spec_fitness(bred[j])) is Some && (k > 0
                ==> T::spec_fitness(bred[j])->0 < T::spec_fitness(cur[k - 1])->0),
        next.to_multiset() == bred.to_multiset(),
        ranked::<T>(next),
    ensures
        next.len() == cur.len(),
        forall|i: int| 0 <= i < k ==> next[i] == cur[i],
{
    broadcast use group_to_multiset_ensures;

    to_multiset_len(next);
    to_multiset_len(bred);
    assert(next.len() == bred.len());
    lemma_elitism_prefix::<T, I>(cur, bred, next, k, k);
}

/// Induction for [`lemma_elitism`]: the first `upto` slots of `next` are
/// already forced.
proof fn lemma_elitism_prefix<T, I>(cur: Seq<I>, bred: Seq<I>, next: Seq<I>, k: int, upto: int) where
    T: Problem<Individual = I>,

    requires
        0 <= upto <= k <= cur.len(),
        bred.len() == cur.len(),
        forall|i: int| 0 <= i < k ==> bred[i] == cur[i],
        forall|i: int| 0 <= i < k ==> (#[trigger] T::spec_fitness(cur[i])) is Some,
        forall|i: int, j: int|
            0 <= i < j < k ==> (#[trigger] T::spec_fitness(cur[i]))->0 > (
            #[trigger] T::spec_fitness(cur[j]))->0,
        forall|j: int|
            k <= j < bred.len() ==> (#[trigger] T::spec_fitness(bred[j])) is Some && (k > 0
                ==> T::spec_fitness(bred[j])->0 < T::spec_fitness(cur[k - 1])->0),
        next.to_multiset() == bred.to_multiset(),
        ranked::<T>(next),
    ensures
        forall|i: int| 0 <= i < upto ==> next[i] == cur[i],
    decreases upto,
{
    broadcast use group_to_multiset_ensures;

    if upto > 0 {
        lemma_elitism_prefix::<T, I>(cur, bred, next, k, upto - 1);
        let t = upto - 1;
        to_multiset_len(next);
        to_multiset_len(bred);
        assert(next.len() == bred.len());

        // cur[t] sits somewhere in next, and not before slot t.
        assert(bred.contains(cur[t]));
        assert(next.to_multiset().count(cur[t]) > 0);
        assert(next.contains(cur[t]));
        let p = choose|p: int| 0 <= p < next.len() && next[p] == cur[t];
        if p < t {
            assert(next[p] == cur[p]);
            assert(T::spec_fitness(cur[p])->0 > T::spec_fitness(cur[t])->0);
            assert(false);
        }
        assert(T::spec_fitness(next[t])->0 >= T::spec_fitness(next[p])->0);

        // next[t] is some bred individual scoring at least cur[t]'s
        // score, so it is one of the first t + 1 elites.
        assert(next.contains(next[t]));
        assert(bred.to_multiset().count(next[t]) > 0);
        assert(bred.contains(next[t]));
        let q = choose|q: int| 0 <= q < bred.len() && bred[q] == next[t];
        if q >= k {
            assert(T::spec_fitness(bred[q])->0 < T::spec_fitness(cur[k - 1])->0);
            if t < k - 1 {
                assert(T::spec_fitness(cur[t])->0 > T::spec_fitness(cur[k - 1])->0);
            }
            assert(false);
        }
        if q > t {
            assert(T::spec_fitness(cur[t])->0 > T::spec_fitness(cur[q])->0);
            assert(false);
        }
        if q < t {
            // cur[q] would then fill two slots of next but only one of
            // bred.
            assert(next[q] == cur[q]);
            lemma_two_indices_count_ge_two(next, q, t);
            assert forall|r1: int, r2: int|
                0 <= r1 < bred.len() && 0 <= r2 < bred.len() && bred[r1] == cur[q] && bred[r2]
                    == cur[q] implies r1 == r2 by {
                assert(T::spec_fitness(cur[q]) is Some);
                if r1 >= k || r2 >= k {
                    assert(T::spec_fitness(cur[q])->0 >= T::spec_fitness(cur[k - 1])->0);
                }
            }
            lemma_at_most_one_index_count_le_one(bred, cur[q]);
            assert(false);
        }
        assert(next[t] == cur[t]);
    }
}

} // verus!
