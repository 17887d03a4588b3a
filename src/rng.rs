use vstd::prelude::*;

verus! {

/// Seed that scene generation starts from.
pub const DEFAULT_SEED: u32 = 0xE9BE_815E;

/// Number of distinct values `unit_fraction` draws: a fraction `n / 2^23` in `[0, 1)`.
pub const FRACTION_SCALE: u32 = 0x80_0000;

/// One step of the 13/17/5 xorshift generator.
pub open spec fn xorshift_step(x: u32) -> u32 {
    let a = x ^ (x << 13u32);
    let b = a ^ (a >> 17u32);
    b ^ (b << 5u32)
}

/// Explicitly seeded xorshift generator, passed to scene generation.
pub struct Rng {
    pub state: u32,
}

impl Rng {
    pub fn new(seed: u32) -> (r: Self)
        ensures
            r.state == seed,
    {
        Rng { state: seed }
    }

    /// Advances the generator and returns its new state.
    pub fn next_u32(&mut self) -> (r: u32)
        ensures
            r == xorshift_step(old(self).state),
            final(self).state == r,
    {
        let mut x = self.state;
        x = x ^ (x << 13u32);
        x = x ^ (x >> 17u32);
        x = x ^ (x << 5u32);
        self.state = x;
        x
    }
}

/// Draws a uniform fraction in `[0, 1)` with 23 bits of precision, returned as
/// its numerator `n` over `FRACTION_SCALE`: the top 23 bits of the next state.
/// As an `f32`, `n / 2^23` is exact and equals the mantissa-filled value in
/// `[1, 2)` minus one.
pub fn unit_fraction(rng: &mut Rng) -> (r: u32)
    ensures
        final(rng).state == xorshift_step(old(rng).state),
        r == xorshift_step(old(rng).state) >> 9u32,
        r < FRACTION_SCALE,
{
    let x = rng.next_u32();
    let r = x >> 9u32;
    assert(x >> 9u32 < 0x80_0000u32) by (bit_vector);
    r
}

} // verus!
