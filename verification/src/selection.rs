//! Tournament selection over randomly placed population windows.
//!
//! Each breeding parent is chosen by a tournament: a contiguous window
//! ("chunk") of the population is drawn at a random width and a random
//! position, and a fixed number of draws inside that window compete by
//! fitness. Bounding the window tunes selection pressure independently of
//! full-population scans; randomising its position keeps every region of
//! the population in play.

use vstd::prelude::*;

use crate::problem::{FatalError, Problem};
use crate::random::{draw_in_range, RandomSource};

verus! {

/// Draws a tournament window: a width from
/// `possible_size.start .. possible_size.end`, then a start offset from
/// `0 ..= pop_size - width`. Every window it returns lies inside the
/// population and respects the configured width bounds.
pub fn make_chunk<R: RandomSource>(
    pop_size: usize,
    possible_size: &core::ops::Range<usize>,
    rng: &mut R,
) -> (chunk: core::ops::Range<usize>)
    requires
        0 < possible_size.start,
        possible_size.start < possible_size.end,
        possible_size.end <= pop_size,
    ensures
        possible_size.start <= chunk.end - chunk.start < possible_size.end,
        chunk.start < chunk.end,
        chunk.end <= pop_size,
{
    let width = draw_in_range(rng, possible_size.start, possible_size.end);
    let start = draw_in_range(rng, 0, pop_size - width + 1);
    start..(start + width)
}

/// One comparison of a running tournament: keeps the drawn index when
/// its score beats or ties the best seen so far, so the most recently
/// drawn index wins ties; a first draw is always kept.
fn keep_better(best: Option<(i64, usize)>, score: i64, idx: usize) -> (r: (i64, usize))
    ensures
        r == (match best {
            None => (score, idx),
            Some((best_score, best_idx)) => if score >= best_score {
                (score, idx)
            } else {
                (best_score, best_idx)
            },
        }),
{
    match best {
        None => (score, idx),
        Some((best_score, best_idx)) => {
            if score >= best_score {
                (score, idx)
            } else {
                (best_score, best_idx)
            }
        },
    }
}

/// Runs one tournament: draws a window, then `tournament_size` indices
/// inside it (with replacement), and keeps the index whose individual
/// scored highest, preferring the most recently drawn index on ties. The
/// winning index always lies inside the population and its individual is
/// orderable; the tournament fails if and only if a drawn individual's
/// score is non-orderable, so a fully orderable population always yields
/// a winner.
pub fn tournament<T, I, R>(
    problem: &mut T,
    population: &Vec<I>,
    chunk_range: &core::ops::Range<usize>,
    tournament_size: usize,
    rng: &mut R,
) -> (r: Result<usize, FatalError>)
    where T: Problem<Individual = I>, R: RandomSource
    requires
        tournament_size > 0,
        0 < chunk_range.start,
        chunk_range.start < chunk_range.end,
        chunk_range.end <= population.len(),
    ensures
        r matches Ok(idx) ==> idx < population.len() && T::spec_fitness(population@[idx as int]) is Some,
        (forall|j: int|
            0 <= j < population@.len() ==> (#[trigger] T::spec_fitness(population@[j])) is Some)
            ==> r is Ok,
        r matches Err(e) ==> e == FatalError::NonOrderableFitness,
{
    let chunk = make_chunk(population.len(), chunk_range, rng);
    let mut best: Option<(i64, usize)> = None;
    let mut k: usize = 0;
    while k < tournament_size
        invariant
            k <= tournament_size,
            chunk.start < chunk.end <= population.len(),
            k > 0 ==> best is Some,
            best matches Some((f, i)) ==> i < population.len()
                && T::spec_fitness(population@[i as int]) == Some(f),
        decreases tournament_size - k,
    {
        let drawn = draw_in_range(rng, chunk.start, chunk.end);
        match problem.fitness(&population[drawn]) {
            None => {
                return Err(FatalError::NonOrderableFitness);
            },
            Some(score) => {
                best = Some(keep_better(best, score, drawn));
            },
        }
        k = k + 1;
    }
    match best {
        Some((_, winner)) => Ok(winner),
        None => Err(FatalError::NonOrderableFitness),
    }
}

} // verus!
