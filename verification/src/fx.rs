//! Fixed-point arithmetic and plane vectors.
//!
//! A quantity is stored as an `i64` counting thousandths of a game unit:
//! `FX_ONE` is one unit (one pixel for coordinates, 1.0 for fractions).
//! Multiplying two fixed-point numbers therefore divides the raw product
//! by `FX_ONE`, rounding toward zero.

use vstd::prelude::*;

verus! {

use vstd::arithmetic::div_mod::{lemma_div_is_ordered, lemma_div_by_multiple};

/// One game unit in fixed-point form.
pub const FX_ONE: i64 = 1000;

/// Truncating (toward-zero) division, for a positive divisor.
/// Matches what the machine's signed division produces.
pub open spec fn div_tz(a: int, b: int) -> int {
    if a >= 0 {
        a / b
    } else {
        -((-a) / b)
    }
}

/// The product of two fixed-point numbers, scaled back down.
pub open spec fn spec_fx_mul(a: int, b: int) -> int {
    div_tz(a * b, FX_ONE as int)
}

/// Fixed-point multiplication: `a * b / FX_ONE`, rounding toward zero.
pub fn fx_mul(a: i64, b: i64) -> (r: i64)
    requires
        -0x7fff_ffff_ffff_ffff <= a * b <= 0x7fff_ffff_ffff_ffff,
    ensures
        r == spec_fx_mul(a as int, b as int),
        -9_223_372_036_854_775 <= r <= 9_223_372_036_854_775,
{
    let p: i64 = a * b;
    if p >= 0 {
        let q: i64 = p / FX_ONE;
        proof {
            lemma_div_is_ordered(p as int, i64::MAX as int, FX_ONE as int);
        }
        q
    } else {
        let q: i64 = (-p) / FX_ONE;
        proof {
            lemma_div_is_ordered(-p, i64::MAX as int, FX_ONE as int);
            lemma_div_is_ordered(0, -p, FX_ONE as int);
            assert(0int / (FX_ONE as int) == 0) by (nonlinear_arith);
        }
        -q
    }
}

/// Saturating addition on `i64`.
pub open spec fn spec_sat_add(a: int, b: int) -> int {
    if a + b > i64::MAX {
        i64::MAX as int
    } else if a + b < i64::MIN {
        i64::MIN as int
    } else {
        a + b
    }
}

/// Adds two counters, clamping at the ends of the `i64` range.
pub fn sat_add(a: i64, b: i64) -> (r: i64)
    ensures
        r == spec_sat_add(a as int, b as int),
{
    if b >= 0 {
        if a > i64::MAX - b {
            i64::MAX
        } else {
            a + b
        }
    } else {
        if a < i64::MIN - b {
            i64::MIN
        } else {
            a + b
        }
    }
}

/// A value forced into `[lo, hi]`.
pub open spec fn spec_clamp(v: int, lo: int, hi: int) -> int {
    if v < lo {
        lo
    } else if v > hi {
        hi
    } else {
        v
    }
}

/// Clamps `v` into `[lo, hi]`.
pub fn clamp_i64(v: i64, lo: i64, hi: i64) -> (r: i64)
    requires
        lo <= hi,
    ensures
        r == spec_clamp(v as int, lo as int, hi as int),
{
    if v < lo {
        lo
    } else if v > hi {
        hi
    } else {
        v
    }
}

/// The integer square root: the greatest `r` with `r * r <= n`.
pub open spec fn spec_isqrt(n: int) -> int
    decreases n,
{
    if n < 1 {
        0
    } else {
        let r = spec_isqrt(n - 1);
        if (r + 1) * (r + 1) <= n {
            r + 1
        } else {
            r
        }
    }
}

pub proof fn lemma_isqrt_bounds(n: int)
    requires
        n >= 0,
    ensures
        0 <= spec_isqrt(n),
        spec_isqrt(n) * spec_isqrt(n) <= n,
        n < (spec_isqrt(n) + 1) * (spec_isqrt(n) + 1),
    decreases n,
{
    if n >= 1 {
        lemma_isqrt_bounds(n - 1);
        let p = spec_isqrt(n - 1);
        if (p + 1) * (p + 1) <= n {
            assert(n - 1 < (p + 1) * (p + 1));
            assert(n == (p + 1) * (p + 1));
            assert((p + 2) * (p + 2) > (p + 1) * (p + 1)) by (nonlinear_arith)
                requires p >= 0;
        }
    }
}

pub proof fn lemma_isqrt_unique(n: int, a: int)
    requires
        n >= 0,
        a >= 0,
        a * a <= n,
        n < (a + 1) * (a + 1),
    ensures
        a == spec_isqrt(n),
{
    let r = spec_isqrt(n);
    lemma_isqrt_bounds(n);
    if a < r {
        assert((a + 1) * (a + 1) <= r * r) by (nonlinear_arith)
            requires 0 <= a, a + 1 <= r;
        assert(false);
    }
    if a > r {
        assert((r + 1) * (r + 1) <= a * a) by (nonlinear_arith)
            requires 0 <= r, r + 1 <= a;
        assert(false);
    }
}

/// Computes the integer square root by binary search.
pub fn isqrt(n: i64) -> (r: i64)
    requires
        n >= 0,
    ensures
        r == spec_isqrt(n as int),
        0 <= r <= 3_037_000_499,
        r * r <= n,
        n < (r + 1) * (r + 1),
{
    let mut lo: i64 = 0;
    let mut hi: i64 = 3_037_000_499;
    proof {
        assert((3_037_000_500 as int) * (3_037_000_500 as int) > i64::MAX);
    }
    while lo < hi
        invariant
            0 <= lo <= hi <= 3_037_000_499,
            lo * lo <= n,
            n < (hi + 1) * (hi + 1),
        decreases hi - lo,
    {
        let mid: i64 = lo + (hi - lo + 1) / 2;
        proof {
            assert(lo < mid <= hi);
            assert(mid * mid <= 3_037_000_499 * 3_037_000_499) by (nonlinear_arith)
                requires 0 <= mid <= 3_037_000_499;
        }
        if mid * mid <= n {
            lo = mid;
        } else {
            hi = mid - 1;
        }
    }
    proof {
        lemma_isqrt_unique(n as int, lo as int);
    }
    lo
}

/// A plane vector in fixed-point coordinates.
#[derive(Clone, Copy, PartialEq, Eq, Structural, Debug)]
pub struct Vec2Fx {
    pub x: i64,
    pub y: i64,
}

/// The mathematical value of a plane vector.
pub struct Vec2V {
    pub x: int,
    pub y: int,
}

impl View for Vec2Fx {
    type V = Vec2V;

    open spec fn view(&self) -> Vec2V {
        Vec2V { x: self.x as int, y: self.y as int }
    }
}

impl Vec2V {
    pub open spec fn add(self, o: Vec2V) -> Vec2V {
        Vec2V { x: self.x + o.x, y: self.y + o.y }
    }

    pub open spec fn sub(self, o: Vec2V) -> Vec2V {
        Vec2V { x: self.x - o.x, y: self.y - o.y }
    }

    /// Both components multiplied by the fixed-point factor `s`.
    pub open spec fn scale_fx(self, s: int) -> Vec2V {
        Vec2V { x: spec_fx_mul(self.x, s), y: spec_fx_mul(self.y, s) }
    }

    pub open spec fn clamp(self, lo: Vec2V, hi: Vec2V) -> Vec2V {
        Vec2V { x: spec_clamp(self.x, lo.x, hi.x), y: spec_clamp(self.y, lo.y, hi.y) }
    }

    pub open spec fn len_sq(self) -> int {
        self.x * self.x + self.y * self.y
    }

    /// The vector scaled to length `FX_ONE`, each component rounded
    /// toward zero; the zero vector stays zero.
    pub open spec fn norm(self) -> Vec2V {
        let len = spec_isqrt(self.len_sq());
        if len == 0 {
            Vec2V { x: 0, y: 0 }
        } else {
            Vec2V { x: div_tz(self.x * FX_ONE, len), y: div_tz(self.y * FX_ONE, len) }
        }
    }
}

/// The squared length of the vector `(x, y)`.
pub open spec fn spec_len_sq(x: int, y: int) -> int {
    x * x + y * y
}

impl Vec2Fx {
    pub fn new(x: i64, y: i64) -> (r: Vec2Fx)
        ensures
            r.x == x,
            r.y == y,
    {
        Vec2Fx { x, y }
    }

    pub fn zero() -> (r: Vec2Fx)
        ensures
            r.x == 0,
            r.y == 0,
    {
        Vec2Fx { x: 0, y: 0 }
    }

    pub fn add(self, o: Vec2Fx) -> (r: Vec2Fx)
        requires
            i64::MIN <= self.x + o.x <= i64::MAX,
            i64::MIN <= self.y + o.y <= i64::MAX,
        ensures
            r.x == self.x + o.x,
            r.y == self.y + o.y,
            r@ == self@.add(o@),
    {
        Vec2Fx { x: self.x + o.x, y: self.y + o.y }
    }

    pub fn sub(self, o: Vec2Fx) -> (r: Vec2Fx)
        requires
            i64::MIN <= self.x - o.x <= i64::MAX,
            i64::MIN <= self.y - o.y <= i64::MAX,
        ensures
            r.x == self.x - o.x,
            r.y == self.y - o.y,
            r@ == self@.sub(o@),
    {
        Vec2Fx { x: self.x - o.x, y: self.y - o.y }
    }

    /// Both components multiplied by the fixed-point factor `s`.
    pub fn scale(self, s: i64) -> (r: Vec2Fx)
        requires
            -0x7fff_ffff_ffff_ffff <= self.x * s <= 0x7fff_ffff_ffff_ffff,
            -0x7fff_ffff_ffff_ffff <= self.y * s <= 0x7fff_ffff_ffff_ffff,
        ensures
            r.x == spec_fx_mul(self.x as int, s as int),
            r.y == spec_fx_mul(self.y as int, s as int),
            r@ == self@.scale_fx(s as int),
    {
        Vec2Fx { x: fx_mul(self.x, s), y: fx_mul(self.y, s) }
    }

    /// Each component forced into the rectangle `[lo, hi]`.
    pub fn clamp(self, lo: Vec2Fx, hi: Vec2Fx) -> (r: Vec2Fx)
        requires
            lo.x <= hi.x,
            lo.y <= hi.y,
        ensures
            r.x == spec_clamp(self.x as int, lo.x as int, hi.x as int),
            r.y == spec_clamp(self.y as int, lo.y as int, hi.y as int),
            r@ == self@.clamp(lo@, hi@),
    {
        Vec2Fx {
            x: clamp_i64(self.x, lo.x, hi.x),
            y: clamp_i64(self.y, lo.y, hi.y),
        }
    }

    /// The squared length, exact.
    pub fn len_sq(self) -> (r: i64)
        requires
            spec_len_sq(self.x as int, self.y as int) <= i64::MAX,
        ensures
            r == spec_len_sq(self.x as int, self.y as int),
            r == self@.len_sq(),
            r >= 0,
    {
        proof {
            assert(self.x * self.x >= 0) by (nonlinear_arith);
            assert(self.y * self.y >= 0) by (nonlinear_arith);
        }
        self.x * self.x + self.y * self.y
    }

    /// Scales the vector to length `FX_ONE` (rounded toward zero); the
    /// zero vector is returned unchanged.
    pub fn normalize(self) -> (r: Vec2Fx)
        requires
            spec_len_sq(self.x as int, self.y as int) <= i64::MAX,
        ensures
            r@ == self@.norm(),
            -FX_ONE <= r.x <= FX_ONE,
            -FX_ONE <= r.y <= FX_ONE,
    {
        let ls: i64 = self.len_sq();
        let len: i64 = isqrt(ls);
        if len == 0 {
            proof {
                assert(self.x * self.x >= 0) by (nonlinear_arith);
                assert(self.y * self.y >= 0) by (nonlinear_arith);
            }
            Vec2Fx { x: 0, y: 0 }
        } else {
            proof {
                assert(self.x * self.x >= 0 && self.y * self.y >= 0 && self.x > i64::MIN
                    && self.y > i64::MIN) by (nonlinear_arith)
                    requires
                        self.x * self.x + self.y * self.y <= i64::MAX;
            }
            let x = norm_component(self.x, ls, len);
            let y = norm_component(self.y, ls, len);
            Vec2Fx { x, y }
        }
    }
}

/// One component of a normalized vector: `c * FX_ONE / len`, rounded
/// toward zero, where `len` is the integer square root of `ls`.
fn norm_component(c: i64, ls: i64, len: i64) -> (r: i64)
    requires
        0 < len,
        c > i64::MIN,
        c * c <= ls,
        ls < (len + 1) * (len + 1),
        len <= 3_037_000_500,
    ensures
        r == div_tz(c * FX_ONE, len as int),
        -FX_ONE <= r <= FX_ONE,
{
    let ca: i64 = if c >= 0 { c } else { -c };
    proof {
        assert(ca * ca <= ls) by (nonlinear_arith)
            requires (ca == c || ca == -c) && c * c <= ls;
        assert(ca <= len) by (nonlinear_arith)
            requires ca >= 0, len > 0, ca * ca <= ls, ls < (len + 1) * (len + 1);
    }
    let q: i64 = (ca * FX_ONE) / len;
    proof {
        lemma_div_is_ordered(ca * FX_ONE, len * FX_ONE, len as int);
        lemma_div_by_multiple(FX_ONE as int, len as int);
        assert(len * FX_ONE == FX_ONE * len);
        lemma_div_is_ordered(0, ca * FX_ONE, len as int);
        assert(0int / (len as int) == 0) by (nonlinear_arith)
            requires len > 0;
    }
    if c >= 0 {
        q
    } else {
        -q
    }
}

} // verus!

verus! {

/// Sine over a half turn by a rational approximation: `x` counts
/// thousandths of a half turn, the result is a fixed-point value in
/// `[0, FX_ONE]`.
pub open spec fn spec_sin_half(x: int) -> int {
    (16000 * x * (1000 - x)) / (5_000_000 - 4 * x * (1000 - x))
}

/// Sine over a full turn: `x` counts thousandths of a turn.
pub open spec fn spec_sin_turn(x: int) -> int {
    if x <= 500 {
        spec_sin_half(2 * x)
    } else {
        -spec_sin_half(2 * (x - 500))
    }
}

/// Cosine over a full turn: the sine a quarter turn ahead.
pub open spec fn spec_cos_turn(x: int) -> int {
    spec_sin_turn((x + 250) % 1000)
}

/// Sine of `x` thousandths of a half turn, for `x` in `[0, 1000]`.
pub fn fx_sin_half(x: i64) -> (r: i64)
    requires
        0 <= x <= 1000,
    ensures
        r == spec_sin_half(x as int),
        0 <= r <= FX_ONE,
{
    proof {
        assert(0 <= x * (1000 - x) <= 250_000) by (nonlinear_arith)
            requires 0 <= x <= 1000;
    }
    let a: i64 = x * (1000 - x);
    let num: i64 = 16000 * a;
    let den: i64 = 5_000_000 - 4 * a;
    proof {
        lemma_div_is_ordered(0, num as int, den as int);
        assert(0int / (den as int) == 0) by (nonlinear_arith)
            requires den > 0;
        assert(num <= FX_ONE * den) by (nonlinear_arith)
            requires num == 16000 * a, den == 5_000_000 - 4 * a, 0 <= a <= 250_000;
        lemma_div_is_ordered(num as int, FX_ONE * den, den as int);
        lemma_div_by_multiple(FX_ONE as int, den as int);
        assert(FX_ONE * (den as int) == (FX_ONE as int) * (den as int));
        assert(num == 16000 * (x as int) * (1000 - x as int)) by (nonlinear_arith)
            requires num == 16000 * (x * (1000 - x));
        assert(den == 5_000_000 - 4 * (x as int) * (1000 - x as int)) by (nonlinear_arith)
            requires den == 5_000_000 - 4 * (x * (1000 - x));
    }
    num / den
}

/// Sine of `x` thousandths of a turn, for `x` in `[0, 1000)`.
pub fn fx_sin_turn(x: i64) -> (r: i64)
    requires
        0 <= x < 1000,
    ensures
        r == spec_sin_turn(x as int),
        -FX_ONE <= r <= FX_ONE,
{
    if x <= 500 {
        fx_sin_half(2 * x)
    } else {
        -fx_sin_half(2 * (x - 500))
    }
}

/// Cosine of `x` thousandths of a turn, for `x` in `[0, 1000)`.
pub fn fx_cos_turn(x: i64) -> (r: i64)
    requires
        0 <= x < 1000,
    ensures
        r == spec_cos_turn(x as int),
        -FX_ONE <= r <= FX_ONE,
{
    let y: i64 = (x + 250) % 1000;
    fx_sin_turn(y)
}

/// A quarter-turn rotation: `(x, y)` becomes `(y, -x)`, exact.
pub open spec fn spec_rot90(v: Vec2V) -> Vec2V {
    Vec2V { x: v.y, y: -v.x }
}

impl Vec2Fx {
    /// The vector turned a quarter turn.
    pub fn rot90(self) -> (r: Vec2Fx)
        requires
            self.x > i64::MIN,
        ensures
            r@ == spec_rot90(self@),
    {
        Vec2Fx { x: self.y, y: -self.x }
    }
}

} // verus!

verus! {

/// The squared length of a vector with small components fits the machine.
pub proof fn lemma_len_sq_small(x: int, y: int, b: int)
    requires
        -b <= x <= b,
        -b <= y <= b,
        0 <= b <= 2_000_000_000,
    ensures
        0 <= spec_len_sq(x, y) <= i64::MAX,
{
    assert(0 <= x * x <= b * b && 0 <= y * y <= b * b && b * b <= 4_000_000_000_000_000_000)
        by (nonlinear_arith)
        requires
            -b <= x <= b,
            -b <= y <= b,
            0 <= b <= 2_000_000_000;
}

/// Scaling a speed by a unit-bounded fixed-point factor keeps it within
/// the speed's own bound.
pub proof fn lemma_unit_scale_bound(d: int, s: int, b: int)
    requires
        -FX_ONE <= d <= FX_ONE,
        0 <= s <= b,
    ensures
        -b <= spec_fx_mul(d, s) <= b,
{
    assert(-FX_ONE * s <= d * s <= FX_ONE * s) by (nonlinear_arith)
        requires
            -FX_ONE <= d <= FX_ONE,
            0 <= s;
    let p = d * s;
    lemma_div_by_multiple(s, FX_ONE as int);
    assert(0int / (FX_ONE as int) == 0) by (nonlinear_arith);
    if p >= 0 {
        lemma_div_is_ordered(p, FX_ONE * s, FX_ONE as int);
        lemma_div_is_ordered(0, p, FX_ONE as int);
        assert(FX_ONE * s == s * FX_ONE);
    } else {
        assert(-p <= FX_ONE * s) by (nonlinear_arith)
            requires -FX_ONE * s <= p;
        lemma_div_is_ordered(-p, FX_ONE * s, FX_ONE as int);
        lemma_div_is_ordered(0, -p, FX_ONE as int);
        assert(FX_ONE * s == s * FX_ONE);
    }
}

} // verus!
