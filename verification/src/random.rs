//! Sources of randomness.
//!
//! Randomness is an injected, sequentially owned capability: the engine
//! draws from whatever `RandomSource` it was constructed with. A verified
//! deterministic generator makes runs reproducible from a seed; a
//! thread-local generator backed by the `rand` crate serves ordinary runs.

use vstd::prelude::*;

verus! {

/// A sequentially owned source of bounded random draws.
///
/// Nothing is promised about the distribution or about determinism, only
/// that each draw lands below its bound; callers that need reproducible
/// runs inject a [`DetRandom`] seeded by them.
pub trait RandomSource {
    /// Draws a value from `0 .. bound`.
    fn next_below(&mut self, bound: u64) -> (r: u64)
        requires
            bound > 0,
        ensures
            r < bound,
    ;
}

/// A deterministic generator: the same seed yields the same sequence of
/// draws. It advances a 64-bit xorshift state on every draw.
pub struct DetRandom {
    state: u64,
}

/// The xorshift step that advances a [`DetRandom`] state on every draw.
pub open spec fn xorshift_step(state: u64) -> u64 {
    let a = state ^ (state << 13);
    let b = a ^ (a >> 7);
    b ^ (b << 17)
}

impl DetRandom {
    /// The generator's state: two generators with equal states draw
    /// equal values forever.
    pub closed spec fn spec_state(&self) -> u64 {
        self.state
    }

    /// A generator whose draws are determined by `seed`. A zero seed is
    /// replaced by a fixed nonzero constant, since the all-zero state is
    /// a fixed point of the xorshift step.
    pub fn new(seed: u64) -> (r: DetRandom)
        ensures
            r.spec_state() == if seed == 0 {
                0x9E3779B97F4A7C15u64
            } else {
                seed
            },
    {
        if seed == 0 {
            DetRandom { state: 0x9E3779B97F4A7C15 }
        } else {
            DetRandom { state: seed }
        }
    }
}

impl RandomSource for DetRandom {
    /// The draw is a pure function of the generator's state: this is
    /// what makes a seeded run reproducible.
    fn next_below(&mut self, bound: u64) -> (r: u64)
        ensures
            final(self).spec_state() == xorshift_step(old(self).spec_state()),
            r == xorshift_step(old(self).spec_state()) % bound,
    {
        let mut x: u64 = self.state;
        x = x ^ (x << 13);
        x = x ^ (x >> 7);
        x = x ^ (x << 17);
        self.state = x;
        x % bound
    }
}

#[verifier::external_type_specification]
#[verifier::external_body]
pub struct ExThreadRng(rand::rngs::ThreadRng);

/// Relies on rand::rng: it returns a handle to the thread-local
/// generator. Nothing is assumed of the values it will produce. Seeding
/// that generator panics if the operating system's randomness source
/// fails; that depends on the environment, not on any argument here.
#[verifier::external_body]
fn fresh_thread_rng() -> rand::rngs::ThreadRng {
    rand::rng()
}

/// Relies on rand::RngExt::random_range: a draw from the non-empty range
/// `0 .. bound` lies in that range. Nothing more is assumed: the draw
/// depends on thread-local state, so no two calls need agree. Reseeding
/// of the thread-local generator panics if the operating system's
/// randomness source fails; that depends on the environment, not on the
/// arguments here.
#[verifier::external_body]
fn thread_draw_below(rng: &mut rand::rngs::ThreadRng, bound: u64) -> (r: u64)
    requires
        bound > 0,
    ensures
        r < bound,
{
    rand::RngExt::random_range(rng, 0..bound)
}

/// The thread-local generator of the `rand` crate, seeded by the
/// operating system. Draws are not reproducible across runs.
pub struct ThreadRandom {
    rng: rand::rngs::ThreadRng,
}

impl ThreadRandom {
    /// A source backed by this thread's generator.
    pub fn new() -> ThreadRandom {
        ThreadRandom { rng: fresh_thread_rng() }
    }
}

impl RandomSource for ThreadRandom {
    fn next_below(&mut self, bound: u64) -> (r: u64) {
        thread_draw_below(&mut self.rng, bound)
    }
}

/// Draws a value from `lo .. hi`.
pub(crate) fn draw_in_range<R: RandomSource>(rng: &mut R, lo: usize, hi: usize) -> (r: usize)
    requires
        lo < hi,
    ensures
        lo <= r < hi,
{
    let d = rng.next_below((hi - lo) as u64);
    lo + (d as usize)
}

} // verus!
