//! Saturating fixed-point numbers: a raw `i64` read as a multiple of 1/65536.
//!
//! All operations are total.  Each result is the exact rounded-toward-zero
//! mathematical value, saturated into the symmetric range
//! `[-FX_MAX, FX_MAX]`, and each operation's `ensures` pins the result to a
//! spec-level function of the operands.

use vstd::prelude::*;

verus! {

/// The raw representation of 1: values carry 16 fractional bits.
pub const FX_ONE: i64 = 65536;

/// Largest raw magnitude; arithmetic saturates here, symmetrically.
pub const FX_MAX: i64 = 0x7fff_ffff_ffff_ffff;

/// A fixed-point number with real value `raw / 65536`.
#[derive(Clone, Copy, Debug, PartialEq, Eq, Structural)]
pub struct Fx {
    pub raw: i64,
}

impl View for Fx {
    type V = int;

    open spec fn view(&self) -> int {
        self.raw as int
    }
}

pub open spec fn iabs(x: int) -> int {
    if x < 0 {
        -x
    } else {
        x
    }
}

/// Division rounded toward zero (0 when the divisor is 0).
pub open spec fn sdiv(n: int, d: int) -> int {
    if d == 0 {
        0
    } else if (n < 0) != (d < 0) {
        -(iabs(n) / iabs(d))
    } else {
        iabs(n) / iabs(d)
    }
}

/// Saturate into the symmetric representable range.
pub open spec fn clip(x: int) -> int {
    if x > FX_MAX as int {
        FX_MAX as int
    } else if x < -(FX_MAX as int) {
        -(FX_MAX as int)
    } else {
        x
    }
}

pub open spec fn fx_add_v(a: int, b: int) -> int {
    clip(a + b)
}

pub open spec fn fx_sub_v(a: int, b: int) -> int {
    clip(a - b)
}

pub open spec fn fx_neg_v(a: int) -> int {
    clip(-a)
}

pub open spec fn fx_mul_v(a: int, b: int) -> int {
    clip(sdiv(a * b, FX_ONE as int))
}

pub open spec fn fx_div_v(a: int, b: int) -> int {
    if b == 0 {
        0
    } else {
        clip(sdiv(a * (FX_ONE as int), b))
    }
}

/// The integer square root: the largest `r` with `r * r <= n` (0 for n < 1).
pub open spec fn isqrt(n: int) -> int
    decreases n,
{
    if n < 1 {
        0
    } else if (isqrt(n - 1) + 1) * (isqrt(n - 1) + 1) <= n {
        isqrt(n - 1) + 1
    } else {
        isqrt(n - 1)
    }
}

/// Fixed-point square root: `sqrt(a/65536) * 65536`, floored (0 for a <= 0).
pub open spec fn fx_sqrt_v(a: int) -> int {
    if a <= 0 {
        0
    } else {
        isqrt(a * (FX_ONE as int))
    }
}

pub proof fn lemma_isqrt_bounds(n: int)
    requires
        n >= 0,
    ensures
        isqrt(n) >= 0,
        isqrt(n) * isqrt(n) <= n,
        (isqrt(n) + 1) * (isqrt(n) + 1) > n,
    decreases n,
{
    if n == 0 {
        assert(isqrt(0) == 0);
    } else {
        lemma_isqrt_bounds(n - 1);
        let r = isqrt(n - 1);
        if (r + 1) * (r + 1) <= n {
            assert((r + 1) * (r + 1) > n - 1);
            assert((r + 1) * (r + 1) == n);
            assert((r + 2) * (r + 2) > n) by (nonlinear_arith)
                requires
                    (r + 1) * (r + 1) == n,
                    r >= 0;
        }
    }
}

pub proof fn lemma_isqrt_is(n: int, r: int)
    requires
        n >= 0,
        r >= 0,
        r * r <= n,
        (r + 1) * (r + 1) > n,
    ensures
        isqrt(n) == r,
{
    lemma_isqrt_bounds(n);
    let s = isqrt(n);
    if s < r {
        assert((s + 1) * (s + 1) <= r * r) by (nonlinear_arith)
            requires
                0 <= s,
                s < r;
    }
    if s > r {
        assert((r + 1) * (r + 1) <= s * s) by (nonlinear_arith)
            requires
                0 <= r,
                r < s;
    }
}

proof fn lemma_abs_mul(a: int, b: int)
    ensures
        iabs(a * b) == iabs(a) * iabs(b),
        (a * b < 0) <==> (((a < 0) != (b < 0)) && a != 0 && b != 0),
        (a * b == 0) <==> (a == 0 || b == 0),
{
    assert(iabs(a * b) == iabs(a) * iabs(b)) by (nonlinear_arith);
    assert((a * b < 0) <==> (((a < 0) != (b < 0)) && a != 0 && b != 0)) by (nonlinear_arith);
    assert((a * b == 0) <==> (a == 0 || b == 0)) by (nonlinear_arith);
}

/// Saturate a wide intermediate back into a raw `i64`.
fn wide_clip(x: i128) -> (r: i64)
    ensures
        r as int == clip(x as int),
{
    if x > FX_MAX as i128 {
        FX_MAX
    } else if x < -(FX_MAX as i128) {
        -FX_MAX
    } else {
        x as i64
    }
}

/// Magnitude-and-sign core shared by `mul` and `div`:
/// `q` saturated to `FX_MAX` and negated when `neg` holds.
fn signed_clip(q: u128, neg: bool) -> (r: i64)
    ensures
        neg ==> r as int == clip(-(q as int)),
        !neg ==> r as int == clip(q as int),
{
    let m: i64 = if q > FX_MAX as u128 {
        FX_MAX
    } else {
        q as i64
    };
    if neg {
        -m
    } else {
        m
    }
}

impl Fx {
    /// The fixed-point value of a whole number (saturated).
    pub fn from_int(v: i64) -> (r: Fx)
        ensures
            r@ == clip(v * 65536),
    {
        let w: i128 = v as i128;
        proof {
            assert(-0x8000_0000_0000_0000_0000 <= w * 65536 <= 0x8000_0000_0000_0000_0000)
                by (nonlinear_arith)
                requires
                    -0x8000_0000_0000_0000 <= w <= 0x8000_0000_0000_0000;
        }
        Fx { raw: wide_clip(w * 65536) }
    }

    pub fn add(self, o: Fx) -> (r: Fx)
        ensures
            r@ == fx_add_v(self@, o@),
    {
        Fx { raw: wide_clip(self.raw as i128 + o.raw as i128) }
    }

    pub fn sub(self, o: Fx) -> (r: Fx)
        ensures
            r@ == fx_sub_v(self@, o@),
    {
        Fx { raw: wide_clip(self.raw as i128 - o.raw as i128) }
    }

    pub fn neg(self) -> (r: Fx)
        ensures
            r@ == fx_neg_v(self@),
    {
        Fx { raw: wide_clip(-(self.raw as i128)) }
    }

    pub fn mul(self, o: Fx) -> (r: Fx)
        ensures
            r@ == fx_mul_v(self@, o@),
    {
        let a: i128 = self.raw as i128;
        let b: i128 = o.raw as i128;
        let pa: u128 = (if a < 0 { -a } else { a }) as u128;
        let pb: u128 = (if b < 0 { -b } else { b }) as u128;
        proof {
            assert((pa as int) * (pb as int) <= 0x4000_0000_0000_0000_0000_0000_0000_0000)
                by (nonlinear_arith)
                requires
                    pa <= 0x8000_0000_0000_0000u128,
                    pb <= 0x8000_0000_0000_0000u128;
        }
        let q: u128 = (pa * pb) / (FX_ONE as u128);
        let neg: bool = (a < 0) != (b < 0);
        proof {
            lemma_abs_mul(self@, o@);
            assert(pa as int == iabs(self@));
            assert(pb as int == iabs(o@));
            assert((pa * pb) as int == iabs(self@) * iabs(o@)) by (nonlinear_arith)
                requires
                    pa as int == iabs(self@),
                    pb as int == iabs(o@),
                    pa <= 0x8000_0000_0000_0000u128,
                    pb <= 0x8000_0000_0000_0000u128;
        }
        Fx { raw: signed_clip(q, neg) }
    }

    pub fn div(self, o: Fx) -> (r: Fx)
        ensures
            r@ == fx_div_v(self@, o@),
    {
        if o.raw == 0 {
            return Fx { raw: 0 };
        }
        let a: i128 = self.raw as i128;
        let b: i128 = o.raw as i128;
        let pa: u128 = (if a < 0 { -a } else { a }) as u128;
        let pb: u128 = (if b < 0 { -b } else { b }) as u128;
        let q: u128 = (pa * (FX_ONE as u128)) / pb;
        let neg: bool = (a < 0) != (b < 0);
        proof {
            lemma_abs_mul(self@ * (FX_ONE as int), 1);
            assert(iabs(self@ * (FX_ONE as int)) == iabs(self@) * (FX_ONE as int))
                by (nonlinear_arith);
            assert((self@ * (FX_ONE as int) < 0) <==> (self@ < 0)) by (nonlinear_arith);
            assert(pa as int == iabs(self@));
            assert(pb as int == iabs(o@));
            assert((pa * (FX_ONE as u128)) as int == iabs(self@) * (FX_ONE as int))
                by (nonlinear_arith)
                requires
                    pa as int == iabs(self@),
                    pa <= 0x8000_0000_0000_0000u128;
        }
        Fx { raw: signed_clip(q, neg) }
    }

    /// Integer square root over raw values scaled back up by 65536.
    pub fn sqrt(self) -> (r: Fx)
        ensures
            r@ == fx_sqrt_v(self@),
    {
        if self.raw <= 0 {
            return Fx { raw: 0 };
        }
        let n: u128 = (self.raw as u128) * (FX_ONE as u128);
        let s: u128 = isqrt_u128(n);
        proof {
            lemma_isqrt_is(n as int, s as int);
            assert((s as int) < 0x100_0000_0000) by (nonlinear_arith)
                requires
                    (s as int) * (s as int) <= n as int,
                    (n as int) < 0x10000_0000_0000_0000_0000,
                    s as int >= 0;
        }
        Fx { raw: s as i64 }
    }

    /// Exact comparison of the underlying values.
    pub fn lt(self, o: Fx) -> (r: bool)
        ensures
            r == (self@ < o@),
    {
        self.raw < o.raw
    }

    pub fn le(self, o: Fx) -> (r: bool)
        ensures
            r == (self@ <= o@),
    {
        self.raw <= o.raw
    }
}

/// Division rounded toward zero is exact on multiples of the divisor.
pub proof fn lemma_sdiv_exact(n: int, d: int)
    requires
        d > 0,
    ensures
        sdiv(n * d, d) == n,
{
    if n >= 0 {
        assert(n * d >= 0 && iabs(n * d) == n * d && n * d == d * n) by (nonlinear_arith)
            requires
                n >= 0,
                d > 0;
        vstd::arithmetic::div_mod::lemma_div_multiples_vanish(n, d);
    } else {
        assert(n * d < 0 && iabs(n * d) == (-n) * d && (-n) * d == d * (-n)) by (nonlinear_arith)
            requires
                n < 0,
                d > 0;
        vstd::arithmetic::div_mod::lemma_div_multiples_vanish(-n, d);
    }
}

/// Multiplying by one (or minus one) only saturates.
pub proof fn lemma_fx_mul_one(x: int)
    ensures
        fx_mul_v(FX_ONE as int, x) == clip(x),
        fx_mul_v(x, FX_ONE as int) == clip(x),
        fx_mul_v(-(FX_ONE as int), x) == clip(-x),
{
    lemma_sdiv_exact(x, FX_ONE as int);
    lemma_sdiv_exact(-x, FX_ONE as int);
    assert(x * (FX_ONE as int) == (FX_ONE as int) * x) by (nonlinear_arith);
    assert((-x) * (FX_ONE as int) == -(FX_ONE as int) * x) by (nonlinear_arith);
}

/// Binary-search integer square root on wide unsigned values.
fn isqrt_u128(n: u128) -> (r: u128)
    requires
        n < 0x40_0000_0000_0000_0000_0000_0000u128,
    ensures
        (r as int) * (r as int) <= n as int,
        ((r as int) + 1) * ((r as int) + 1) > n as int,
{
    let mut lo: u128 = 0;
    let mut hi: u128 = 0x8_0000_0000_0000;
    proof {
        assert((hi as int) * (hi as int) > n as int) by (nonlinear_arith)
            requires
                hi == 0x8_0000_0000_0000u128,
                n < 0x40_0000_0000_0000_0000_0000_0000u128;
    }
    while lo + 1 < hi
        invariant
            lo < hi,
            hi <= 0x8_0000_0000_0000u128,
            (lo as int) * (lo as int) <= n as int,
            (hi as int) * (hi as int) > n as int,
        decreases hi - lo,
    {
        let mid: u128 = lo + (hi - lo) / 2;
        proof {
            assert((mid as int) * (mid as int) < 0x8000_0000_0000_0000_0000_0000_0000)
                by (nonlinear_arith)
                requires
                    mid <= 0x8_0000_0000_0000u128;
        }
        if mid * mid <= n {
            lo = mid;
        } else {
            hi = mid;
        }
    }
    lo
}

} // verus!
