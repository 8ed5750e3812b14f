//! Ranking a population by descending fitness.
//!
//! The sort memoizes every score in a parallel buffer before it starts,
//! so fitness is evaluated exactly once per individual per pass, and the
//! two buffers are then rearranged in lockstep. A non-orderable score is
//! fatal and leaves the population untouched.

use vstd::prelude::*;
use vstd::seq_lib::group_to_multiset_ensures;

use crate::problem::{FatalError, Problem};

verus! {

/// Whether the scores in `s` run in descending order.
pub open spec fn sorted_desc(s: Seq<i64>) -> bool {
    forall|a: int, b: int| 0 <= a <= b < s.len() ==> s[a] >= s[b]
}

/// Sorts `population` by descending fitness: on success the population is
/// ranked, and it holds exactly the individuals it held before, merely
/// reordered. The sort fails if and only if one of the population's
/// scores is non-orderable, and it fails before moving anything.
pub fn sort_by_fitness<I, T>(population: &mut Vec<I>, problem: &mut T) -> (r: Result<
    (),
    FatalError,
>) where T: Problem<Individual = I>
    ensures
        final(population)@.len() == old(population)@.len(),
        r is Ok ==> crate::problem::ranked::<T>(final(population)@),
        r is Ok ==> final(population)@.to_multiset() == old(population)@.to_multiset(),
        r matches Err(e) ==> e == FatalError::NonOrderableFitness && final(population)@ == old(
            population,
        )@,
        (forall|j: int|
            0 <= j < old(population)@.len() ==> (#[trigger] T::spec_fitness(
                old(population)@[j],
            )) is Some) ==> r is Ok,
{
    broadcast use group_to_multiset_ensures;

    let n = population.len();

    // Memoize every score; a non-orderable one aborts before any move.
    let mut scores: Vec<i64> = Vec::new();
    let mut k: usize = 0;
    while k < n
        invariant
            k <= n,
            n == population@.len(),
            population@ == old(population)@,
            scores@.len() == k,
            forall|j: int| 0 <= j < k ==> Some(scores@[j]) == T::spec_fitness(population@[j]),
        decreases n - k,
    {
        match problem.fitness(&population[k]) {
            None => {
                return Err(FatalError::NonOrderableFitness);
            },
            Some(f) => {
                scores.push(f);
            },
        }
        k = k + 1;
    }

    // Insertion sort, moving each score together with its individual.
    let ghost pop0 = population@;
    let mut i: usize = 1;
    while i < n
        invariant
            n == population@.len(),
            n == scores@.len(),
            n >= 1 ==> 1 <= i <= n,
            n == 0 ==> i == 1,
            forall|j: int| 0 <= j < n ==> Some(scores@[j]) == T::spec_fitness(population@[j]),
            population@.to_multiset() == pop0.to_multiset(),
            sorted_desc(scores@.subrange(0, i as int)) || i > n,
        decreases n - i,
    {
        let key = scores[i];
        let mut j: usize = 0;
        while j < i && scores[j] >= key
            invariant
                j <= i < n,
                n == scores@.len(),
                key == scores@[i as int],
                forall|l: int| 0 <= l < j ==> scores@[l] >= key,
            decreases i - j,
        {
            j = j + 1;
        }
        if j < i {
            let ghost scores_pre = scores@;
            let ghost pop_pre = population@;
            let moved_score = scores.remove(i);
            scores.insert(j, moved_score);
            let moved_ind = population.remove(i);
            population.insert(j, moved_ind);
            proof {
                broadcast use group_to_multiset_ensures;
                broadcast use vstd::multiset::group_multiset_axioms;

                assert(pop_pre.contains(pop_pre[i as int]));
                assert(pop_pre.to_multiset().count(pop_pre[i as int]) > 0);
                assert(population@ == pop_pre.remove(i as int).insert(j as int, moved_ind));
                assert(population@.to_multiset() =~= pop_pre.to_multiset());
                scores_pre.remove_ensures(i as int);
                scores_pre.remove(i as int).insert_ensures(j as int, key);
                pop_pre.remove_ensures(i as int);
                pop_pre.remove(i as int).insert_ensures(j as int, moved_ind);
                assert(forall|l: int|
                    0 <= l < j ==> #[trigger] scores@[l] == scores_pre[l] && population@[l]
                        == pop_pre[l]);
                assert(scores@[j as int] == key && population@[j as int] == pop_pre[i as int]);
                assert(forall|l: int|
                    j < l <= i ==> #[trigger] scores@[l] == scores_pre[l - 1] && population@[l]
                        == pop_pre[l - 1]);
                assert(forall|l: int|
                    i < l < n ==> #[trigger] scores@[l] == scores_pre[l] && population@[l]
                        == pop_pre[l]);
                let pre = scores_pre.subrange(0, i as int);
                assert(sorted_desc(pre));
                assert(forall|l: int| 0 <= l < i ==> pre[l] == #[trigger] scores_pre[l]);
                assert(scores_pre[j as int] < key);
                assert(sorted_desc(scores@.subrange(0, i as int + 1)));
            }
        } else {
            proof {
                let pre = scores@.subrange(0, i as int);
                assert(sorted_desc(pre));
                assert(forall|l: int| 0 <= l < i ==> pre[l] == #[trigger] scores@[l]);
                assert(sorted_desc(scores@.subrange(0, i as int + 1)));
            }
        }
        i = i + 1;
    }

    proof {
        assert(scores@.subrange(0, n as int) =~= scores@);
        assert(sorted_desc(scores@));
        assert forall|a: int| 0 <= a < population@.len() implies (#[trigger] T::spec_fitness(
            population@[a],
        )) is Some by {
            assert(Some(scores@[a]) == T::spec_fitness(population@[a]));
        }
        assert forall|a: int, b: int| 0 <= a <= b < population@.len() implies (
        #[trigger] T::spec_fitness(population@[a]))->0 >= (#[trigger] T::spec_fitness(
            population@[b],
        ))->0 by {
            assert(Some(scores@[a]) == T::spec_fitness(population@[a]));
            assert(Some(scores@[b]) == T::spec_fitness(population@[b]));
            assert(scores@[a] >= scores@[b]);
        }
        assert(crate::problem::ranked::<T>(population@));
    }
    Ok(())
}

} // verus!
