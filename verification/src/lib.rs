//! A generational evolutionary-search engine.
//!
//! The engine owns a fixed-size population of opaque individuals and
//! advances it one generation at a time: tournament selection over
//! randomly placed population windows picks breeding parents, elitism and
//! crossover with probabilistic mutation produce the next generation, and
//! the result is ranked by descending fitness before it replaces the
//! current population.

mod config;
mod engine;
mod laws;
mod problem;
mod random;
mod ranking;
mod selection;

pub use config::{ConfigurationError, Settings, MUTATION_RATE_UNIT};
pub use config::{check_settings, settings_error, settings_ok};
pub use engine::Genetic;
pub use laws::lemma_elitism;
pub use problem::{FatalError, Problem};
pub use problem::{all_orderable, clones_preserve_value, ranked};
pub use random::{DetRandom, RandomSource, ThreadRandom};
pub use ranking::{sort_by_fitness, sorted_desc};
pub use selection::{make_chunk, tournament};
