//! A seeded linear-congruential randomness stream.
//!
//! The renderer owes byte-identical output to a fixed seed, so the stream is
//! an exact function of its state: `next` is specified to the bit, and the
//! derived fixed-point draws are floors of the state's high bits.

use vstd::prelude::*;

use crate::fixed::FX_ONE;
use crate::fixed::Fx;

verus! {

pub const LCG_MUL: u64 = 6364136223846793005;
pub const LCG_INC: u64 = 1442695040888963407;

/// The successor state: `(MUL * s + INC) mod 2^64`.
pub open spec fn lcg_next_v(s: int) -> int {
    ((LCG_MUL as int) * s + (LCG_INC as int)) % 0x1_0000_0000_0000_0000
}

/// The fixed-point draw in `[0, 1)` read off a state.
pub open spec fn unit_draw_v(s: int) -> int {
    s / 0x1_0000_0000_0000
}

/// The fixed-point draw in `[-1, 1)` read off a state.
pub open spec fn sym_draw_v(s: int) -> int {
    s / 0x8000_0000_0000 - (FX_ONE as int)
}

#[derive(Clone, Copy, Debug, PartialEq, Eq, Structural)]
pub struct Rng {
    pub state: u64,
}

impl Rng {
    pub fn new(seed: u64) -> (r: Rng)
        ensures
            r.state == seed,
    {
        Rng { state: seed }
    }

    /// Advance the stream and return the new state.
    pub fn next_raw(&mut self) -> (r: u64)
        ensures
            final(self).state as int == lcg_next_v(old(self).state as int),
            r == final(self).state,
    {
        let m: u128 = LCG_MUL as u128;
        let s0: u128 = self.state as u128;
        proof {
            assert(
                (m as int) * (s0 as int) + 0x1_0000_0000_0000_0000
                    <= 0xffff_ffff_ffff_ffff_ffff_ffff_ffff_ffff
            ) by (nonlinear_arith)
                requires
                    m < 0x1_0000_0000_0000_0000u128,
                    s0 < 0x1_0000_0000_0000_0000u128;
        }
        let p: u128 = m * s0 + (LCG_INC as u128);
        let s: u64 = (p % 0x1_0000_0000_0000_0000u128) as u64;
        self.state = s;
        s
    }

    /// A fixed-point draw uniform over the 65536 values in `[0, 1)`.
    pub fn next_unit(&mut self) -> (r: Fx)
        ensures
            final(self).state as int == lcg_next_v(old(self).state as int),
            r@ == unit_draw_v(final(self).state as int),
            0 <= r@ < FX_ONE as int,
    {
        let s: u64 = self.next_raw();
        Fx { raw: (s / 0x1_0000_0000_0000u64) as i64 }
    }

    /// A fixed-point draw uniform over the 131072 values in `[-1, 1)`.
    pub fn next_sym(&mut self) -> (r: Fx)
        ensures
            final(self).state as int == lcg_next_v(old(self).state as int),
            r@ == sym_draw_v(final(self).state as int),
            -(FX_ONE as int) <= r@ < FX_ONE as int,
    {
        let s: u64 = self.next_raw();
        Fx { raw: (s / 0x8000_0000_0000u64) as i64 - FX_ONE }
    }
}

} // verus!
