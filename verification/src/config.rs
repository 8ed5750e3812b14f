//! Run parameters for the engine and their validation.
//!
//! Every parameter set is either accepted whole or rejected with the
//! specific invariant it violates; nothing is clamped or defaulted.

use vstd::prelude::*;

verus! {

/// Mutation probabilities are given in millionths: a rate of
/// `MUTATION_RATE_UNIT` means every bred child is mutated, a rate of
/// zero means none is.
pub const MUTATION_RATE_UNIT: i64 = 1_000_000;

/// Parameters of an evolutionary run.
pub struct Settings {
    /// Number of individuals in the population; must be positive and even
    /// (breeding pairs individuals two at a time).
    pub pop_size: usize,
    /// Number of top performers carried over unchanged each generation;
    /// must be even (so the bred slots pair up) and at most `pop_size`.
    pub num_best: usize,
    /// Number of draws in each selection tournament; must be positive.
    pub tournament_size: usize,
    /// Probability that a bred child is mutated, in millionths;
    /// must lie in `0 ..= MUTATION_RATE_UNIT`.
    pub mutation_rate: i64,
    /// Bounds on the width of the population window a tournament draws
    /// from: each tournament uses a width in
    /// `chunk_range.start .. chunk_range.end`. Requires
    /// `0 < start < end <= pop_size`.
    pub chunk_range: core::ops::Range<usize>,
}

/// The invariant a rejected parameter set violates. Construction reports
/// the first violation in the order the checks are listed here.
#[derive(Clone, Copy, Debug, PartialEq, Eq, Structural)]
pub enum ConfigurationError {
    /// `pop_size` is zero.
    PopSizeZero,
    /// `pop_size` is odd.
    PopSizeOdd,
    /// `tournament_size` is zero.
    TournamentSizeZero,
    /// `mutation_rate` lies outside `0 ..= MUTATION_RATE_UNIT`.
    MutationRateOutOfRange,
    /// `chunk_range` does not satisfy `0 < start < end <= pop_size`.
    ChunkRangeInvalid,
    /// `num_best` exceeds `pop_size`.
    NumBestTooLarge,
    /// `num_best` is odd, which would leave an unpaired breeding slot.
    NumBestOdd,
    /// The problem's initial population does not have exactly `pop_size`
    /// individuals.
    InitialPopulationSizeMismatch,
}

/// Whether `s` satisfies every construction invariant.
pub open spec fn settings_ok(s: Settings) -> bool {
    settings_error(s) is None
}

/// The first violated construction invariant of `s`, if any.
/// This decides exactly which error construction reports.
pub open spec fn settings_error(s: Settings) -> Option<ConfigurationError> {
    if s.pop_size == 0 {
        Some(ConfigurationError::PopSizeZero)
    } else if s.pop_size % 2 != 0 {
        Some(ConfigurationError::PopSizeOdd)
    } else if s.tournament_size == 0 {
        Some(ConfigurationError::TournamentSizeZero)
    } else if s.mutation_rate < 0 || s.mutation_rate > MUTATION_RATE_UNIT {
        Some(ConfigurationError::MutationRateOutOfRange)
    } else if s.chunk_range.start == 0 || s.chunk_range.start >= s.chunk_range.end
        || s.chunk_range.end > s.pop_size {
        Some(ConfigurationError::ChunkRangeInvalid)
    } else if s.num_best > s.pop_size {
        Some(ConfigurationError::NumBestTooLarge)
    } else if s.num_best % 2 != 0 {
        Some(ConfigurationError::NumBestOdd)
    } else {
        None
    }
}

/// Checks every construction invariant of `s` in order and reports the
/// first violation. Total: every possible parameter set is either
/// accepted or mapped to one specific error.
pub fn check_settings(s: &Settings) -> (r: Option<ConfigurationError>)
    ensures
        r == settings_error(*s),
{
    if s.pop_size == 0 {
        Some(ConfigurationError::PopSizeZero)
    } else if s.pop_size % 2 != 0 {
        Some(ConfigurationError::PopSizeOdd)
    } else if s.tournament_size == 0 {
        Some(ConfigurationError::TournamentSizeZero)
    } else if s.mutation_rate < 0 || s.mutation_rate > MUTATION_RATE_UNIT {
        Some(ConfigurationError::MutationRateOutOfRange)
    } else if s.chunk_range.start == 0 || s.chunk_range.start >= s.chunk_range.end
        || s.chunk_range.end > s.pop_size {
        Some(ConfigurationError::ChunkRangeInvalid)
    } else if s.num_best > s.pop_size {
        Some(ConfigurationError::NumBestTooLarge)
    } else if s.num_best % 2 != 0 {
        Some(ConfigurationError::NumBestOdd)
    } else {
        None
    }
}

} // verus!
