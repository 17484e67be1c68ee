//! The seedable source of random draws that the simulation is handed.
//!
//! Every draw is an exact function of the generator's state, so a run is
//! reproducible from its seed: the same seed gives the same rooms, wander
//! targets and reward rolls.

use vstd::prelude::*;

verus! {

/// One xorshift step of the generator state.
pub open spec fn spec_rng_next(s: u64) -> u64 {
    let a = s ^ (s << 13);
    let b = a ^ (a >> 7);
    b ^ (b << 17)
}

/// The state a seed is folded to: zero (the one fixed point of the step
/// function) is replaced by a fixed odd constant.
pub open spec fn spec_rng_seed(seed: u64) -> u64 {
    if seed == 0 {
        0x9E37_79B9_7F4A_7C15u64
    } else {
        seed
    }
}

/// A deterministic pseudo-random generator (xorshift on 64 bits).
pub struct GameRng {
    state: u64,
}

impl GameRng {
    pub closed spec fn view(&self) -> u64 {
        self.state
    }

    pub fn new(seed: u64) -> (r: GameRng)
        ensures
            r@ == spec_rng_seed(seed),
    {
        GameRng { state: if seed == 0 { 0x9E37_79B9_7F4A_7C15u64 } else { seed } }
    }

    /// The next raw draw; the state advances by one step.
    pub fn next_u64(&mut self) -> (r: u64)
        ensures
            final(self)@ == spec_rng_next(old(self)@),
            r == spec_rng_next(old(self)@),
    {
        let s0: u64 = self.state;
        let a: u64 = s0 ^ (s0 << 13u64);
        let b: u64 = a ^ (a >> 7u64);
        let c: u64 = b ^ (b << 17u64);
        self.state = c;
        c
    }

    /// A draw from `[lo, hi)`, uniform over the generator's raw draws.
    pub fn gen_range(&mut self, lo: i64, hi: i64) -> (r: i64)
        requires
            lo < hi,
            hi - lo <= i64::MAX,
        ensures
            final(self)@ == spec_rng_next(old(self)@),
            r == lo + spec_rng_next(old(self)@) as int % (hi - lo),
            lo <= r < hi,
    {
        let d: u64 = self.next_u64();
        let span: u64 = (hi - lo) as u64;
        let off: u64 = d % span;
        lo + (off as i64)
    }

    /// A draw from `[0, len)`, for indexing.
    pub fn gen_index(&mut self, len: usize) -> (r: usize)
        requires
            len > 0,
        ensures
            final(self)@ == spec_rng_next(old(self)@),
            r == spec_rng_next(old(self)@) as int % len as int,
            r < len,
    {
        let d: u64 = self.next_u64();
        (d % (len as u64)) as usize
    }
}

/// The entry a uniform draw picks from `items`, with the generator
/// state after the draw.
pub open spec fn spec_select<T>(items: Seq<T>, rng: u64) -> (T, u64) {
    let r = spec_rng_next(rng);
    (items[r as int % items.len() as int], r)
}

/// A reference to a uniformly drawn entry of `items`.
pub fn select_random<'a, T>(items: &'a Vec<T>, rng: &mut GameRng) -> (r: &'a T)
    requires
        items.len() > 0,
    ensures
        final(rng)@ == spec_rng_next(old(rng)@),
        *r == items@[spec_rng_next(old(rng)@) as int % items@.len() as int],
        (*r, final(rng)@) == spec_select(items@, old(rng)@),
{
    let i: usize = rng.gen_index(items.len());
    &items[i]
}

} // verus!
