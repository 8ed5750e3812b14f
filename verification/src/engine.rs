//! The evolutionary engine.
//!
//! The engine owns one validated configuration, one problem, one current
//! population, and the scratch buffers of the generation in progress. A
//! generation step is: select a breeding parent for every slot, breed the
//! next population (elitism, crossover, probabilistic mutation), rank it
//! by descending fitness, and swap it in; the old population becomes the
//! next step's scratch buffer.

use vstd::prelude::*;
use vstd::seq_lib::group_to_multiset_ensures;

use crate::config::{check_settings, settings_error, settings_ok, ConfigurationError, Settings,
    MUTATION_RATE_UNIT};
use crate::problem::{all_orderable, clones_preserve_value, ranked, FatalError, Problem};
use crate::random::RandomSource;
use crate::ranking::sort_by_fitness;
use crate::selection::tournament;

verus! {

/// An evolutionary engine over problem `T` with individuals `I`, drawing
/// randomness from `R`.
#[verifier::reject_recursive_types(I)]
pub struct Genetic<T, I, R> where T: Problem<Individual = I>, I: Clone, R: RandomSource {
    problem: T,
    population: Vec<I>,
    new_population: Vec<I>,
    pop_size: usize,
    num_best: usize,
    mutation_rate: i64,
    tournament_size: usize,
    chunk_range: core::ops::Range<usize>,
    choices: Vec<usize>,
    rng: R,
}

impl<T, I, R> Genetic<T, I, R> where T: Problem<Individual = I>, I: Clone, R: RandomSource {
    /// The engine is well formed: its configuration satisfies every
    /// construction invariant, its buffers all have length `pop_size`,
    /// and its individuals are value types (copies equal originals).
    /// Construction establishes this and every operation preserves it.
    pub closed spec fn wf(&self) -> bool {
        &&& clones_preserve_value::<I>()
        &&& 0 < self.pop_size
        &&& self.pop_size % 2 == 0
        &&& self.num_best <= self.pop_size
        &&& self.num_best % 2 == 0
        &&& 0 < self.tournament_size
        &&& 0 <= self.mutation_rate <= MUTATION_RATE_UNIT
        &&& 0 < self.chunk_range.start
        &&& self.chunk_range.start < self.chunk_range.end
        &&& self.chunk_range.end <= self.pop_size
        &&& self.population@.len() == self.pop_size
        &&& self.new_population@.len() == self.pop_size
        &&& self.choices@.len() == self.pop_size
    }

    /// The current population.
    pub closed spec fn spec_population(&self) -> Seq<I> {
        self.population@
    }

    /// The configured population size.
    pub closed spec fn spec_pop_size(&self) -> usize {
        self.pop_size
    }

    /// The configured number of elites carried over each generation.
    pub closed spec fn spec_num_best(&self) -> usize {
        self.num_best
    }

    /// Builds an engine from a problem, a source of randomness and run
    /// parameters. Construction fails with the first violated parameter
    /// invariant, or with a size mismatch if the problem's initial
    /// population does not have exactly `pop_size` individuals; an
    /// engine is never created in an invalid state.
    pub fn new(problem: T, settings: Settings, rng: R) -> (r: Result<Self, ConfigurationError>)
        requires
            clones_preserve_value::<I>(),
        ensures
            match r {
                Ok(g) => {
                    &&& settings_ok(settings)
                    &&& g.wf()
                    &&& g.spec_pop_size() == settings.pop_size
                    &&& g.spec_num_best() == settings.num_best
                    &&& g.spec_population().len() == settings.pop_size
                },
                Err(e) => match settings_error(settings) {
                    Some(v) => e == v,
                    None => e == ConfigurationError::InitialPopulationSizeMismatch,
                },
            },
    {
        let mut problem = problem;
        // Validate before the problem is consulted for a population.
        match check_settings(&settings) {
            Some(e) => {
                return Err(e);
            },
            None => {},
        }
        let population = problem.initial_pop(settings.pop_size);
        Self::with_population(problem, population, settings, rng)
    }

    /// Builds an engine from a problem, an explicit starting population,
    /// run parameters and a source of randomness; [`Self::new`] obtains
    /// the population from the problem and delegates here. Construction
    /// fails with the first violated parameter invariant, and with a size
    /// mismatch if and only if the parameters are valid and the given
    /// population does not have exactly `pop_size` individuals.
    pub fn with_population(problem: T, population: Vec<I>, settings: Settings, rng: R) -> (r:
        Result<Self, ConfigurationError>)
        requires
            clones_preserve_value::<I>(),
        ensures
            match r {
                Ok(g) => {
                    &&& settings_ok(settings)
                    &&& population@.len() == settings.pop_size
                    &&& g.wf()
                    &&& g.spec_pop_size() == settings.pop_size
                    &&& g.spec_num_best() == settings.num_best
                    &&& g.spec_population() == population@
                },
                Err(e) => match settings_error(settings) {
                    Some(v) => e == v,
                    None => e == ConfigurationError::InitialPopulationSizeMismatch
                        && population@.len() != settings.pop_size,
                },
            },
    {
        match check_settings(&settings) {
            Some(e) => {
                return Err(e);
            },
            None => {},
        }
        if population.len() != settings.pop_size {
            return Err(ConfigurationError::InitialPopulationSizeMismatch);
        }
        let new_population = population.clone();
        let choices: Vec<usize> = vec![0; settings.pop_size];
        Ok(
            Genetic {
                problem,
                population,
                new_population,
                pop_size: settings.pop_size,
                num_best: settings.num_best,
                mutation_rate: settings.mutation_rate,
                tournament_size: settings.tournament_size,
                chunk_range: settings.chunk_range,
                choices,
                rng,
            },
        )
    }

    /// Runs one tournament per output slot and records the winning
    /// parent index for each. The current population is not changed.
    fn tournaments(&mut self) -> (r: Result<(), FatalError>)
        requires
            old(self).wf(),
        ensures
            final(self).wf(),
            final(self).pop_size == old(self).pop_size,
            final(self).num_best == old(self).num_best,
            final(self).mutation_rate == old(self).mutation_rate,
            final(self).tournament_size == old(self).tournament_size,
            final(self).chunk_range == old(self).chunk_range,
            final(self).population@ == old(self).population@,
            final(self).new_population@ == old(self).new_population@,
            r is Ok ==> forall|j: int|
                0 <= j < final(self).choices@.len() ==> final(self).choices@[j] < final(self).population@.len(),
            (forall|j: int|
                0 <= j < old(self).population@.len() ==> (#[trigger] T::spec_fitness(
                    old(self).population@[j],
                )) is Some) ==> r is Ok,
            r matches Err(e) ==> e == FatalError::NonOrderableFitness,
    {
        let mut i: usize = 0;
        while i < self.pop_size
            invariant
                i <= self.pop_size,
                self.wf(),
                self.pop_size == old(self).pop_size,
                self.num_best == old(self).num_best,
                self.mutation_rate == old(self).mutation_rate,
                self.tournament_size == old(self).tournament_size,
                self.chunk_range == old(self).chunk_range,
                self.population@ == old(self).population@,
                self.new_population@ == old(self).new_population@,
                forall|j: int| 0 <= j < i ==> self.choices@[j] < self.population@.len(),
            decreases self.pop_size - i,
        {
            let picked = tournament(
                &mut self.problem,
                &self.population,
                &self.chunk_range,
                self.tournament_size,
                &mut self.rng,
            );
            match picked {
                Ok(idx) => {
                    self.choices.set(i, idx);
                },
                Err(e) => {
                    return Err(e);
                },
            }
            i = i + 1;
        }
        Ok(())
    }

    /// Fills the next-generation buffer: the first `num_best` slots take
    /// the current population's first `num_best` individuals unchanged,
    /// and every remaining pair of slots takes the crossover of the two
    /// selected parents, each child independently mutated with the
    /// configured probability.
    fn breed(&mut self)
        requires
            old(self).wf(),
            forall|j: int|
                0 <= j < old(self).choices@.len()
                    ==> old(self).choices@[j] < old(self).population@.len(),
        ensures
            final(self).wf(),
            final(self).pop_size == old(self).pop_size,
            final(self).num_best == old(self).num_best,
            final(self).mutation_rate == old(self).mutation_rate,
            final(self).tournament_size == old(self).tournament_size,
            final(self).chunk_range == old(self).chunk_range,
            final(self).population@ == old(self).population@,
            final(self).choices@ == old(self).choices@,
            forall|i: int|
                0 <= i < old(self).num_best
                    ==> final(self).new_population@[i] == old(self).population@[i],
    {
        let mut i: usize = 0;
        while i < self.num_best
            invariant
                i <= self.num_best,
                self.wf(),
                self.pop_size == old(self).pop_size,
                self.num_best == old(self).num_best,
                self.mutation_rate == old(self).mutation_rate,
                self.tournament_size == old(self).tournament_size,
                self.chunk_range == old(self).chunk_range,
                self.population@ == old(self).population@,
                self.choices@ == old(self).choices@,
                forall|j: int| 0 <= j < i ==> self.new_population@[j] == self.population@[j],
            decreases self.num_best - i,
        {
            let elite = self.population[i].clone();
            proof {
                assert(cloned::<I>(self.population@[i as int], elite));
            }
            self.new_population.set(i, elite);
            i = i + 1;
        }
        let mut i: usize = self.num_best;
        while i < self.pop_size
            invariant
                self.num_best <= i <= self.pop_size,
                i % 2 == self.num_best % 2,
                self.wf(),
                self.pop_size == old(self).pop_size,
                self.num_best == old(self).num_best,
                self.mutation_rate == old(self).mutation_rate,
                self.tournament_size == old(self).tournament_size,
                self.chunk_range == old(self).chunk_range,
                self.population@ == old(self).population@,
                self.choices@ == old(self).choices@,
                forall|j: int|
                    0 <= j < old(self).choices@.len()
                        ==> old(self).choices@[j] < old(self).population@.len(),
                forall|j: int| 0 <= j < self.num_best ==> self.new_population@[j]
                    == self.population@[j],
            decreases self.pop_size - i,
        {
            let first_parent = self.choices[i];
            let second_parent = self.choices[i + 1];
            let (mut first_child, mut second_child) = self.problem.crossover(
                &self.population[first_parent],
                &self.population[second_parent],
            );
            let first_draw = self.rng.next_below(MUTATION_RATE_UNIT as u64);
            if (first_draw as i64) < self.mutation_rate {
                self.problem.mutate(&mut first_child);
            }
            let second_draw = self.rng.next_below(MUTATION_RATE_UNIT as u64);
            if (second_draw as i64) < self.mutation_rate {
                self.problem.mutate(&mut second_child);
            }
            self.new_population.set(i, first_child);
            self.new_population.set(i + 1, second_child);
            i = i + 2;
        }
    }

    /// Advances the engine by one generation: selection, breeding,
    /// ranking, buffer swap. On success the population has been wholly
    /// replaced by a ranked new generation that still carries the old
    /// population's first `num_best` individuals; on a non-orderable
    /// fitness the step fails and the population is left as it was. No
    /// generation is partially applied.
    pub fn evolve(&mut self) -> (r: Result<(), FatalError>)
        requires
            old(self).wf(),
        ensures
            final(self).wf(),
            final(self).spec_pop_size() == old(self).spec_pop_size(),
            final(self).spec_num_best() == old(self).spec_num_best(),
            final(self).spec_population().len() == old(self).spec_pop_size(),
            r is Ok ==> ranked::<T>(final(self).spec_population()),
            r is Ok ==> forall|i: int|
                0 <= i < old(self).spec_num_best() ==> final(self).spec_population().contains(
                    old(self).spec_population()[i],
                ),
            r is Ok ==> old(self).spec_population().subrange(
                0,
                old(self).spec_num_best() as int,
            ).to_multiset().subset_of(final(self).spec_population().to_multiset()),
            r matches Err(e) ==> e == FatalError::NonOrderableFitness
                && final(self).spec_population() == old(self).spec_population(),
            all_orderable::<T>() ==> r is Ok,
    {
        match self.tournaments() {
            Ok(()) => {},
            Err(e) => {
                proof {
                    if all_orderable::<T>() {
                        assert(forall|j: int|
                            0 <= j < old(self).population@.len() ==> (#[trigger] T::spec_fitness(
                                old(self).population@[j],
                            )) is Some);
                    }
                }
                return Err(e);
            },
        }
        self.breed();
        let ghost bred = self.new_population@;
        match sort_by_fitness(&mut self.new_population, &mut self.problem) {
            Ok(()) => {},
            Err(e) => {
                proof {
                    if all_orderable::<T>() {
                        assert(forall|j: int|
                            0 <= j < bred.len() ==> (#[trigger] T::spec_fitness(bred[j])) is Some);
                    }
                }
                return Err(e);
            },
        }
        core::mem::swap(&mut self.population, &mut self.new_population);
        proof {
            broadcast use group_to_multiset_ensures;
            broadcast use vstd::multiset::group_multiset_axioms;

            assert forall|i: int| 0 <= i < old(self).num_best implies self.population@.contains(
                old(self).population@[i],
            ) by {
                assert(bred[i] == old(self).population@[i]);
                assert(bred.contains(bred[i]));
                assert(self.population@.to_multiset() == bred.to_multiset());
                assert(self.population@.to_multiset().count(bred[i]) > 0);
            }
            let k = old(self).num_best as int;
            let elites = old(self).population@.subrange(0, k);
            let rest = bred.subrange(k, bred.len() as int);
            assert(bred =~= elites + rest);
            vstd::seq_lib::lemma_multiset_commutative(elites, rest);
            assert forall|v: I| #[trigger] elites.to_multiset().count(v)
                <= self.population@.to_multiset().count(v) by {
                assert(bred.to_multiset().count(v) == elites.to_multiset().count(v)
                    + rest.to_multiset().count(v));
            }
        }
        Ok(())
    }

    /// A read-only view of the current population. Reading it changes
    /// nothing: no engine state, no randomness, no problem state.
    pub fn get(&self) -> (r: &Vec<I>)
        ensures
            r@ == self.spec_population(),
    {
        &self.population
    }

    /// Consumes the engine and hands the current population to the
    /// caller; a terminal operation.
    pub fn take(self) -> (r: Vec<I>)
        ensures
            r@ == self.spec_population(),
    {
        self.population
    }

    /// The scores of the first `min(n, pop_size)` individuals of the
    /// current population, in population order: after a successful
    /// `evolve` these are the top scores in descending order. Fails if
    /// and only if one of those individuals is non-orderable.
    pub fn stats(&mut self, n: usize) -> (r: Result<Vec<i64>, FatalError>)
        requires
            old(self).wf(),
        ensures
            final(self).wf(),
            final(self).spec_population() == old(self).spec_population(),
            final(self).spec_pop_size() == old(self).spec_pop_size(),
            final(self).spec_num_best() == old(self).spec_num_best(),
            match r {
                Ok(scores) => {
                    &&& scores@.len() == vstd::math::min(n as int, old(self).spec_pop_size() as int)
                    &&& forall|i: int|
                        0 <= i < scores@.len() ==> Some(scores@[i]) == T::spec_fitness(
                            old(self).spec_population()[i],
                        )
                },
                Err(e) => {
                    &&& e == FatalError::NonOrderableFitness
                    &&& exists|i: int|
                        0 <= i < vstd::math::min(n as int, old(self).spec_pop_size() as int)
                            && T::spec_fitness(old(self).spec_population()[i]) is None
                },
            },
    {
        let limit = if n <= self.pop_size {
            n
        } else {
            self.pop_size
        };
        let mut scores: Vec<i64> = Vec::new();
        let mut i: usize = 0;
        while i < limit
            invariant
                i <= limit,
                limit == vstd::math::min(n as int, self.pop_size as int),
                self.wf(),
                self.pop_size == old(self).pop_size,
                self.num_best == old(self).num_best,
                self.mutation_rate == old(self).mutation_rate,
                self.tournament_size == old(self).tournament_size,
                self.chunk_range == old(self).chunk_range,
                self.population@ == old(self).population@,
                self.new_population@ == old(self).new_population@,
                self.choices@ == old(self).choices@,
                scores@.len() == i,
                forall|j: int|
                    0 <= j < i ==> Some(scores@[j]) == T::spec_fitness(self.population@[j]),
            decreases limit - i,
        {
            match self.problem.fitness(&self.population[i]) {
                None => {
                    proof {
                        assert(0 <= i < vstd::math::min(n as int, old(self).spec_pop_size() as int)
                            && T::spec_fitness(old(self).spec_population()[i as int]) is None);
                    }
                    return Err(FatalError::NonOrderableFitness);
                },
                Some(f) => {
                    scores.push(f);
                },
            }
            i = i + 1;
        }
        Ok(scores)
    }

    /// The score of the individual in the first slot of the current
    /// population: after a successful `evolve`, the best score.
    pub fn top(&mut self) -> (r: Option<i64>)
        requires
            old(self).wf(),
        ensures
            final(self).wf(),
            final(self).spec_population() == old(self).spec_population(),
            final(self).spec_pop_size() == old(self).spec_pop_size(),
            final(self).spec_num_best() == old(self).spec_num_best(),
            r == T::spec_fitness(old(self).spec_population()[0]),
    {
        self.problem.fitness(&self.population[0])
    }
}

} // verus!
