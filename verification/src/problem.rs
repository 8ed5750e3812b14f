//! The problem capability the engine searches over, and the engine's
//! runtime error.
//!
//! The engine never inspects an individual: it only orders individuals by
//! the score the problem assigns and hands them back to the problem's own
//! operators. Scores are totally ordered integers; a problem whose raw
//! quality measure is finer-grained maps it to such a score through any
//! order-preserving encoding. A score of `None` stands for a
//! non-orderable quality measure and is fatal to the generation step.

use vstd::prelude::*;

verus! {

/// A failure of a generation step. After one, the engine's population is
/// whatever the contract of the failing operation left it as, and the
/// engine should not be advanced again.
///
/// A non-orderable score is the only runtime failure: the other
/// conceivable one, an index leaving the population's bounds, is proved
/// absent, so no variant stands for it.
#[derive(Clone, Copy, Debug, PartialEq, Eq, Structural)]
pub enum FatalError {
    /// A fitness evaluation produced a score that cannot be ordered.
    NonOrderableFitness,
}

/// What a search problem supplies: the initial population, a fitness
/// score, and the two genetic operators.
///
/// The score of an individual must be a function of that individual
/// alone: `fitness` may keep state of its own (a generator, a memo
/// table), but what it returns for a given individual never varies. The
/// two operators are free to use such state, which is how a stochastic
/// crossover or mutation keeps the whole run reproducible: their
/// randomness lives in the problem value itself.
pub trait Problem: Sized {
    /// One candidate solution, opaque to the engine.
    type Individual;

    /// The score the engine orders `ind` by; `None` stands for a
    /// non-orderable score.
    spec fn spec_fitness(ind: Self::Individual) -> Option<i64>;

    /// The starting population. The engine rejects one whose length is
    /// not exactly `pop_size`.
    fn initial_pop(&mut self, pop_size: usize) -> (pop: Vec<Self::Individual>);

    /// Evaluates the score of `individual`. Higher is better; `None` is
    /// treated by the engine as a fatal, non-orderable score.
    fn fitness(&mut self, individual: &Self::Individual) -> (score: Option<i64>)
        ensures
            score == Self::spec_fitness(*individual),
    ;

    /// Combines two parents into two children of the same representation.
    fn crossover(&mut self, a: &Self::Individual, b: &Self::Individual) -> (children: (
        Self::Individual,
        Self::Individual,
    ));

    /// Perturbs `individual` in place.
    fn mutate(&mut self, individual: &mut Self::Individual);
}

/// Whether every copy of an individual equals its original: individuals
/// are value types, so `clone` hands back the same value. The engine
/// requires this of its individual type; it is what "carried over
/// unchanged" means for elitism.
pub open spec fn clones_preserve_value<I: Clone>() -> bool {
    forall|a: I, b: I| #[trigger] cloned::<I>(a, b) ==> b == a
}

/// Whether `s` is ranked: every score is orderable and they run in
/// descending order, best first.
pub open spec fn ranked<T: Problem>(s: Seq<T::Individual>) -> bool {
    &&& forall|i: int| 0 <= i < s.len() ==> (#[trigger] T::spec_fitness(s[i])) is Some
    &&& forall|i: int, j: int|
        0 <= i <= j < s.len() ==> (#[trigger] T::spec_fitness(s[i]))->0 >= (#[trigger] T::spec_fitness(
            s[j],
        ))->0
}

/// Whether every individual the problem can ever score is orderable; a
/// problem with this property never fails a generation step.
pub open spec fn all_orderable<T: Problem>() -> bool {
    forall|x: T::Individual| (#[trigger] T::spec_fitness(x)) is Some
}

} // verus!
