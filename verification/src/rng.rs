//! Deterministic pseudo-random sequence generator: a 16-bit xorshift with
//! shift constants (7, 9, 8) and a non-zero state invariant. A state that
//! would become zero is remapped to the fixed reset constant `RESET_SEED`
//! before it is stored or returned, so no output is ever zero.

use vstd::prelude::*;

verus! {

/// The fixed non-zero value that replaces a zero generator state.
pub const RESET_SEED: u16 = 0x1234;

/// One round of the xorshift bit mixer on a 16-bit word: three xor/shift
/// passes with the constants 7, 9 and 8, each truncated to 16 bits.
pub open spec fn mix(s: u16) -> u16 {
    let a = s ^ (s << 7);
    let b = a ^ (a >> 9);
    b ^ (b << 8)
}

/// One full generator step: the mixer followed by the zero-state correction.
/// The result is never zero.
pub open spec fn step(s: u16) -> u16 {
    if mix(s) == 0 {
        RESET_SEED
    } else {
        mix(s)
    }
}

/// The state reached from `s` after `n` generator steps.
pub open spec fn iter_step(n: nat, s: u16) -> u16
    decreases n,
{
    if n == 0 {
        s
    } else {
        iter_step((n - 1) as nat, step(s))
    }
}

/// The seed actually stored by the seeding entry points, which apply the
/// zero remap at set time rather than deferring it to the first step.
pub open spec fn corrected_seed(seed: u16) -> u16 {
    if seed == 0 {
        RESET_SEED
    } else {
        seed
    }
}

/// How two raw 16-bit clock words (hours/minutes and seconds/hundredths) are
/// folded into a single seed word.
pub open spec fn combined_time_seed(high: u16, low: u16) -> u16 {
    high ^ low ^ ((((low & 0xFF) * 100) as u16))
}

/// An instantiable xorshift generator; its whole state is one 16-bit word.
pub struct Rng {
    pub state: u16,
}

impl Rng {
    /// Builds a generator whose state is exactly `seed`. A zero seed is
    /// accepted here and only corrected by the first call to `next`.
    pub fn new(seed: u16) -> (rng: Rng)
        ensures
            rng.state == seed,
    {
        Rng { state: seed }
    }

    /// Builds a generator from two raw clock words, folding them into a seed
    /// and remapping a zero result to `RESET_SEED` immediately.
    pub fn from_time_words(high: u16, low: u16) -> (rng: Rng)
        ensures
            rng.state == corrected_seed(combined_time_seed(high, low)),
            rng.state != 0,
    {
        let hundredths = low & 0xFF;
        assert(hundredths <= 0xFF) by (bit_vector)
            requires
                hundredths == low & 0xFF,
        ;
        let seed = high ^ low ^ (hundredths * 100);
        Rng::new(if seed == 0 { RESET_SEED } else { seed })
    }

    /// Advances the state by one xorshift round and returns the new state.
    /// The new state is a function of the old state alone, and is never zero.
    pub fn next(&mut self) -> (r: u16)
        ensures
            final(self).state == step(old(self).state),
            r == final(self).state,
            r != 0,
    {
        let mut s = self.state;
        s = s ^ (s << 7);
        s = s ^ (s >> 9);
        s = s ^ (s << 8);
        if s == 0 {
            s = RESET_SEED;
        }
        self.state = s;
        s
    }
}

/// The process-wide generator of the demo, held as a single-owner handle
/// rather than hidden global state; execution is single-threaded, so the one
/// handle is threaded through the call graph.
pub struct GlobalRng {
    pub rng: Rng,
}

impl GlobalRng {
    /// The handle starts out with the fixed default seed.
    pub fn new() -> (g: GlobalRng)
        ensures
            g.rng.state == RESET_SEED,
    {
        GlobalRng { rng: Rng { state: RESET_SEED } }
    }

    /// Draws the next value from the shared sequence.
    pub fn random(&mut self) -> (r: u16)
        ensures
            final(self).rng.state == step(old(self).rng.state),
            r == final(self).rng.state,
            r != 0,
    {
        self.rng.next()
    }

    /// Replaces the state with `seed`, remapping zero to `RESET_SEED` at set
    /// time rather than waiting for the next step.
    pub fn set_seed(&mut self, seed: u16)
        ensures
            final(self).rng.state == corrected_seed(seed),
            final(self).rng.state != 0,
    {
        self.rng = Rng::new(if seed == 0 { RESET_SEED } else { seed });
    }

    /// Reseeds from two raw clock words supplied by the platform layer.
    pub fn seed_from_time_words(&mut self, high: u16, low: u16)
        ensures
            final(self).rng.state == corrected_seed(combined_time_seed(high, low)),
            final(self).rng.state != 0,
    {
        self.rng = Rng::from_time_words(high, low);
    }

    /// Reads the current state without advancing it.
    pub fn get_state(&self) -> (s: u16)
        ensures
            s == self.rng.state,
    {
        self.rng.state
    }
}

/// The mixer alone maps a state to zero exactly when the state is zero; the
/// xorshift round is an invertible linear map on the 16-bit word.
pub proof fn lemma_mix_zero_only_at_zero(s: u16)
    ensures
        mix(s) == 0 <==> s == 0,
{
    assert(mix(s) == 0 <==> s == 0) by (bit_vector);
}

/// No generator step ever produces zero, whatever the input state.
pub proof fn lemma_step_nonzero(s: u16)
    ensures
        step(s) != 0,
{
}

/// Determinism: the state after any number of steps is a function of the
/// seed alone, so two generators seeded identically stay equal forever.
pub proof fn lemma_step_deterministic(s1: u16, s2: u16, n: nat)
    requires
        s1 == s2,
    ensures
        iter_step(n, s1) == iter_step(n, s2),
{
}

/// Recovery from a zero seed: the first step remaps the zero state to
/// `RESET_SEED`, so from then on the sequence coincides with the sequence of
/// a generator seeded with `RESET_SEED`, shifted by that one step.
pub proof fn lemma_zero_seed_rejoins(n: nat)
    ensures
        iter_step(n + 1, 0) == iter_step(n, RESET_SEED),
{
    lemma_mix_zero_only_at_zero(0);
    assert(step(0) == RESET_SEED);
}

} // verus!
