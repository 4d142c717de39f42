use vstd::arithmetic::power2::pow2;
use vstd::prelude::*;

verus! {

/// The raw value of `1.0`.
pub const SCALE: i32 = 65536;

/// The raw value of `3.1415`, the approximation of pi the trigonometry is built on.
pub const PI_RAW: i32 = 205881;

/// The raw value of half of pi.
pub const FRAC_PI_2_RAW: i32 = 102940;

/// The raw value of `pi / 180`, the factor from degrees to radians.
pub const DEG2RAD_RAW: i32 = 1143;

/// Clamps an integer into the range of `i32`.
pub open spec fn clamp_i32(x: int) -> int {
    if x > i32::MAX {
        i32::MAX as int
    } else if x < i32::MIN {
        i32::MIN as int
    } else {
        x
    }
}

/// Integer division rounding toward zero, as Rust's `/` does on signed integers.
pub open spec fn trunc_div(a: int, b: int) -> int {
    let q: int = (if a < 0 { -a } else { a }) / (if b < 0 { -b } else { b });
    if (a < 0) != (b < 0) {
        -q
    } else {
        q
    }
}

/// The raw value of the fixed-point product `a * b`.
pub open spec fn mul_raw(a: int, b: int) -> int {
    clamp_i32(trunc_div(a * b, SCALE as int))
}

/// The raw value of the fixed-point quotient `a / b`; division by zero saturates
/// toward the sign of `a`, and `0 / 0` is zero.
pub open spec fn div_raw(a: int, b: int) -> int {
    if b == 0 {
        if a > 0 {
            i32::MAX as int
        } else if a < 0 {
            i32::MIN as int
        } else {
            0
        }
    } else {
        clamp_i32(trunc_div(a * SCALE, b))
    }
}

/// The saturating sum of two fixed-point values.
pub open spec fn fadd(a: Flint, b: Flint) -> Flint {
    Flint { raw: clamp_i32(a.raw + b.raw) as i32 }
}

/// The saturating difference of two fixed-point values.
pub open spec fn fsub(a: Flint, b: Flint) -> Flint {
    Flint { raw: clamp_i32(a.raw - b.raw) as i32 }
}

/// The fixed-point product, rounded toward zero and saturating.
pub open spec fn fmul(a: Flint, b: Flint) -> Flint {
    Flint { raw: mul_raw(a.raw as int, b.raw as int) as i32 }
}

/// The fixed-point quotient, rounded toward zero and saturating.
pub open spec fn fdiv(a: Flint, b: Flint) -> Flint {
    Flint { raw: div_raw(a.raw as int, b.raw as int) as i32 }
}

/// The saturating negation.
pub open spec fn fneg(a: Flint) -> Flint {
    Flint { raw: clamp_i32(-a.raw) as i32 }
}

/// A deterministic signed Q16.16 fixed-point number: its value is `raw / 2^16`.
///
/// Every operation works on the integer representation alone, so two machines
/// that start from the same raw values reach bit-identical results. Arithmetic
/// saturates at the bounds of `i32` instead of overflowing.
#[derive(Copy, Clone, Debug, PartialEq, Eq, Structural, PartialOrd, Ord, Hash)]
pub struct Flint {
    pub raw: i32,
}

impl Flint {
    /// `0.5`, as the fraction argument of `new`.
    pub const POINT_FIVE: u16 = 32768;

    /// The fraction closest below `0.1`, as the fraction argument of `new`.
    pub const POINT_ONE: u16 = 6553;

    pub fn zero() -> (r: Flint)
        ensures
            r.raw == 0,
    {
        Flint { raw: 0 }
    }

    pub fn one() -> (r: Flint)
        ensures
            r.raw == SCALE,
    {
        Flint { raw: SCALE }
    }

    pub fn neg_one() -> (r: Flint)
        ensures
            r.raw == -SCALE,
    {
        Flint { raw: -SCALE }
    }

    pub fn pi() -> (r: Flint)
        ensures
            r.raw == PI_RAW,
    {
        Flint { raw: PI_RAW }
    }

    pub fn frac_pi_2() -> (r: Flint)
        ensures
            r.raw == FRAC_PI_2_RAW,
    {
        Flint { raw: FRAC_PI_2_RAW }
    }

    pub fn deg2rad() -> (r: Flint)
        ensures
            r.raw == DEG2RAD_RAW,
    {
        Flint { raw: DEG2RAD_RAW }
    }

    /// The value `value + fraction / 2^16`, where `fraction` sets the low sixteen bits.
    pub fn new(value: i16, fraction: u16) -> (r: Flint)
        ensures
            r.raw == value * SCALE + fraction,
    {
        Flint { raw: (value as i32) * SCALE + (fraction as i32) }
    }

    pub fn from_raw(raw: i32) -> (r: Flint)
        ensures
            r.raw == raw,
    {
        Flint { raw }
    }

    /// The whole number `value`.
    pub fn from_i16(value: i16) -> (r: Flint)
        ensures
            r.raw == value * SCALE,
    {
        Flint { raw: (value as i32) * SCALE }
    }

    /// The integer part, rounded toward negative infinity.
    pub fn to_i32(self) -> (r: i32)
        ensures
            r == self.raw / SCALE,
    {
        let v = self.raw;
        let r = v >> 16u32;
        assert(r == v / 65536) by (bit_vector)
            requires
                r == v >> 16u32,
        ;
        r
    }

    /// The integer part, rounded toward negative infinity; it always fits in `i16`.
    pub fn to_i16(self) -> (r: i16)
        ensures
            r == self.raw / SCALE,
    {
        let r = self.to_i32();
        r as i16
    }

    /// The square root, by the integer digit-by-digit method on the raw value:
    /// the floor square root of `raw`, shifted into place. Zero for a value that
    /// is not positive.
    pub fn sqrt(self) -> (r: Flint)
        ensures
            self.raw <= 0 ==> r.raw == 0,
            self.raw > 0 ==> r.raw == 256 * isqrt(self.raw as int),
    {
        if self.raw <= 0 {
            return Flint { raw: 0 };
        }
        let n: u64 = self.raw as u64;
        let mut bit: u64 = 0x4000_0000;
        let ghost mut k: nat = 15;
        proof {
            reveal_with_fuel(pow4, 16);
        }
        while bit > n
            invariant
                1 <= n < 0x8000_0000,
                bit == pow4(k),
                n < 4 * bit,
            decreases k,
        {
            proof {
                lemma_pow4_step(k);
            }
            bit = bit / 4;
            proof {
                k = (k - 1) as nat;
            }
        }
        let mut res: u64 = 0;
        let mut copy: u64 = n;
        let ghost mut q: int = 0;
        let ghost mut pw: int = 4 * bit;
        assert(q * q * pw == 0 && (q + 1) * (q + 1) * pw == pw) by (nonlinear_arith)
            requires
                q == 0,
        ;
        while bit != 0
            invariant
                1 <= n < 0x8000_0000,
                bit != 0 ==> pw == 4 * bit,
                bit <= 0x4000_0000,
                bit == 0 || bit == pow4(k),
                pw >= 1,
                bit == 0 ==> pw == 1,
                res == q * pw,
                copy == n - q * q * pw,
                0 <= q,
                q * q * pw <= n < (q + 1) * (q + 1) * pw,
            decreases bit,
        {
            proof {
                lemma_pow4_step(k);
                lemma_sqrt_bounds(q, pw, n as int);
            }
            let tmp = res + bit;
            if copy >= tmp {
                copy = copy - tmp;
                res = (tmp + bit) / 2;
                proof {
                    lemma_sqrt_digit_one(q, bit as int, n as int);
                    q = 2 * q + 1;
                }
            } else {
                res = res / 2;
                proof {
                    lemma_sqrt_digit_zero(q, bit as int, n as int);
                    q = 2 * q;
                }
            }
            bit = bit / 4;
            proof {
                if k > 0 {
                    lemma_pow4_step((k - 1) as nat);
                }
                pw = pw / 4;
                if k > 0 {
                    k = (k - 1) as nat;
                }
            }
        }
        proof {
            assert(pw == 1);
            assert(q * q * pw == q * q && (q + 1) * (q + 1) * pw == (q + 1) * (q + 1));
            assert(res == q);
            lemma_sqrt_bounds(q, pw, n as int);
            lemma_isqrt_unique(n as int, q);
        }
        Flint { raw: (res * 256) as i32 }
    }

    /// Sine and cosine of this angle in radians, by integer-only CORDIC.
    ///
    /// The angle is first brought into `[-pi/2, pi/2]` by whole turns of pi, with
    /// the sign of both results flipped once per turn taken.
    pub fn sin_cos(self) -> (r: (Flint, Flint))
        ensures
            (r.0.raw as int, r.1.raw as int) == sin_cos_raw(self.raw as int),
    {
        let mut z: i32 = self.raw;
        let mut negative = false;
        while z > FRAC_PI_2_RAW
            invariant
                reduce_above(z as int, negative) == reduce_above(self.raw as int, false),
            decreases z - i32::MIN,
        {
            z = z - PI_RAW;
            negative = !negative;
        }
        while z < -FRAC_PI_2_RAW
            invariant
                z <= FRAC_PI_2_RAW,
                reduce_below(z as int, negative) == reduce_angle(self.raw as int),
            decreases i32::MAX - z,
        {
            z = z + PI_RAW;
            negative = !negative;
        }
        let ghost angle = z as int;
        let mut x: i64 = CORDIC_GAIN as i64;
        let mut y: i64 = 0;
        let mut zz: i64 = z as i64;
        let mut i: u64 = 0;
        let ghost mut bound: int = 40000;
        while i < CORDIC_STEPS
            invariant
                i <= 16,
                bound == cordic_bound(i as nat),
                -bound <= x <= bound,
                -bound <= y <= bound,
                -FRAC_PI_2_RAW - 60000 * i <= zz <= FRAC_PI_2_RAW + 60000 * i,
                cordic_rotate(i as nat, x as int, y as int, zz as int) == cordic_rotate(
                    0,
                    CORDIC_GAIN as int,
                    0,
                    angle,
                ),
            decreases 16 - i,
        {
            proof {
                lemma_cordic_bound(i as nat);
                lemma_cordic_bound_le(i as nat);
                vstd::arithmetic::power2::lemma_pow2_pos(i as nat);
                lemma_div_keeps_bound(y as int, pow2(i as nat) as int, bound);
                lemma_div_keeps_bound(x as int, pow2(i as nat) as int, bound);
            }
            let dx = shr_floor_exec(y, i);
            let dy = shr_floor_exec(x, i);
            let a = cordic_atan_at(i);
            if zz < 0 {
                x = x + dx;
                y = y - dy;
                zz = zz + a;
            } else {
                x = x - dx;
                y = y + dy;
                zz = zz - a;
            }
            i = i + 1;
            proof {
                bound = 2 * bound;
            }
        }
        proof {
            lemma_cordic_bound(i as nat);
        }
        let (s, c) = if negative {
            (saturate(-y), saturate(-x))
        } else {
            (saturate(y), saturate(x))
        };
        (Flint { raw: s }, Flint { raw: c })
    }

    /// This value, read as degrees, in radians.
    pub fn to_radians(self) -> (r: Flint)
        ensures
            r.raw == mul_raw(self.raw as int, DEG2RAD_RAW as int),
    {
        self * Flint::deg2rad()
    }
}

proof fn lemma_product_fits(a: int, b: int)
    requires
        i32::MIN <= a <= i32::MAX,
        i32::MIN <= b <= i32::MAX,
    ensures
        -0x4000_0000_0000_0000 <= a * b <= 0x4000_0000_0000_0000,
{
    assert(-0x4000_0000_0000_0000 <= a * b <= 0x4000_0000_0000_0000) by (nonlinear_arith)
        requires
            -0x8000_0000 <= a <= 0x8000_0000,
            -0x8000_0000 <= b <= 0x8000_0000,
    ;
}

/// The CORDIC gain correction: the start length that makes the rotated vector a unit one.
pub const CORDIC_GAIN: i32 = 39796;

/// Number of CORDIC rotation steps.
pub const CORDIC_STEPS: u64 = 16;

/// `atan(2^-i)` in raw units, for the sixteen CORDIC steps.
pub open spec fn cordic_atan(i: int) -> int {
    if i == 0 {
        51471
    } else if i == 1 {
        30385
    } else if i == 2 {
        16054
    } else if i == 3 {
        8149
    } else if i == 4 {
        4090
    } else if i == 5 {
        2047
    } else if i == 6 {
        1023
    } else if i == 7 {
        511
    } else if i == 8 {
        255
    } else if i == 9 {
        127
    } else if i == 10 {
        63
    } else if i == 11 {
        31
    } else if i == 12 {
        16
    } else if i == 13 {
        8
    } else if i == 14 {
        4
    } else {
        2
    }
}

/// `v >> i` on an integer of any width: division by `2^i` rounding toward negative infinity.
pub open spec fn shr_floor(v: int, i: nat) -> int {
    v / (pow2(i) as int)
}

/// Subtracts pi from an angle above half pi, flipping the sign each time.
pub open spec fn reduce_above(z: int, negative: bool) -> (int, bool)
    decreases if z > 0 { z } else { 0 },
{
    if z > FRAC_PI_2_RAW {
        reduce_above(z - PI_RAW, !negative)
    } else {
        (z, negative)
    }
}

/// Adds pi to an angle below minus half pi, flipping the sign each time.
pub open spec fn reduce_below(z: int, negative: bool) -> (int, bool)
    decreases if z < 0 { -z } else { 0 },
{
    if z < -FRAC_PI_2_RAW {
        reduce_below(z + PI_RAW, !negative)
    } else {
        (z, negative)
    }
}

/// The angle brought into `[-pi/2, pi/2]` by whole turns of pi, and whether an odd
/// number of them was taken (which flips the sign of sine and cosine).
pub open spec fn reduce_angle(z: int) -> (int, bool) {
    let (high, negative) = reduce_above(z, false);
    reduce_below(high, negative)
}

/// The CORDIC rotation from step `i` on: `(x, y)` is turned toward angle `z` by
/// `atan(2^-i)` at each step, in the direction of the sign of the remaining angle.
pub open spec fn cordic_rotate(i: nat, x: int, y: int, z: int) -> (int, int)
    decreases 16 - i,
{
    if i >= 16 {
        (x, y)
    } else if z < 0 {
        cordic_rotate(i + 1, x + shr_floor(y, i), y - shr_floor(x, i), z + cordic_atan(i as int))
    } else {
        cordic_rotate(i + 1, x - shr_floor(y, i), y + shr_floor(x, i), z - cordic_atan(i as int))
    }
}

/// The raw `(sin, cos)` that CORDIC gives for a raw angle in radians.
pub open spec fn sin_cos_raw(angle: int) -> (int, int) {
    let (z, negative) = reduce_angle(angle);
    let (x, y) = cordic_rotate(0, CORDIC_GAIN as int, 0, z);
    if negative {
        (clamp_i32(-y), clamp_i32(-x))
    } else {
        (clamp_i32(y), clamp_i32(x))
    }
}

/// A bound on the CORDIC coordinates before step `i`: it at most doubles per step.
spec fn cordic_bound(i: nat) -> int
    decreases i,
{
    if i == 0 {
        40000
    } else {
        2 * cordic_bound((i - 1) as nat)
    }
}

proof fn lemma_cordic_bound_grows(i: nat, j: nat)
    requires
        i <= j,
    ensures
        0 < cordic_bound(i) <= cordic_bound(j),
    decreases j,
{
    if j > i {
        lemma_cordic_bound_grows(i, (j - 1) as nat);
    } else if i > 0 {
        lemma_cordic_bound_grows((i - 1) as nat, (i - 1) as nat);
    }
}

proof fn lemma_cordic_bound(i: nat)
    requires
        i <= 16,
    ensures
        0 < cordic_bound(i) <= 40000 * 65536,
{
    lemma_cordic_bound_grows(i, 16);
    reveal_with_fuel(cordic_bound, 17);
    assert(cordic_bound(16) == 40000 * 65536);
}

proof fn lemma_cordic_bound_le(i: nat)
    requires
        i < 16,
    ensures
        2 * cordic_bound(i) <= 40000 * 65536,
{
    lemma_cordic_bound(i + 1);
}

proof fn lemma_div_keeps_bound(v: int, p: int, b: int)
    requires
        p >= 1,
        -b <= v <= b,
    ensures
        -b <= v / p <= b,
{
    let q = v / p;
    let r = v % p;
    vstd::arithmetic::div_mod::lemma_fundamental_div_mod(v, p);
    assert(-b <= q <= b) by (nonlinear_arith)
        requires
            p >= 1,
            -b <= v <= b,
            v == p * q + r,
            0 <= r < p,
    ;
}

/// `atan(2^-i)` in raw units.
fn cordic_atan_at(i: u64) -> (r: i64)
    requires
        i < 16,
    ensures
        r == cordic_atan(i as int),
{
    if i == 0 {
        51471
    } else if i == 1 {
        30385
    } else if i == 2 {
        16054
    } else if i == 3 {
        8149
    } else if i == 4 {
        4090
    } else if i == 5 {
        2047
    } else if i == 6 {
        1023
    } else if i == 7 {
        511
    } else if i == 8 {
        255
    } else if i == 9 {
        127
    } else if i == 10 {
        63
    } else if i == 11 {
        31
    } else if i == 12 {
        16
    } else if i == 13 {
        8
    } else if i == 14 {
        4
    } else {
        2
    }
}

/// `v >> i` with the rounding of an arithmetic shift, for `i < 64`.
fn shr_floor_exec(v: i64, i: u64) -> (r: i64)
    requires
        i < 63,
        v > i64::MIN,
    ensures
        r == shr_floor(v as int, i as nat),
{
    proof {
        vstd::bits::lemma_u64_pow2_no_overflow(i as nat);
    }
    if v >= 0 {
        let u = v as u64;
        proof {
            vstd::bits::lemma_u64_shr_is_div(u, i);
        }
        (u >> i) as i64
    } else {
        let w = (-v - 1) as u64;
        proof {
            vstd::bits::lemma_u64_shr_is_div(w, i);
            lemma_floor_of_negative(v as int, pow2(i as nat) as int);
        }
        -((w >> i) as i64) - 1
    }
}

proof fn lemma_floor_of_negative(v: int, p: int)
    requires
        v < 0,
        p >= 1,
    ensures
        v / p == -((-v - 1) / p) - 1,
{
    let w = -v - 1;
    let q = w / p;
    let r = w % p;
    vstd::arithmetic::div_mod::lemma_fundamental_div_mod(w, p);
    assert(v == -(q + 1) * p + (p - r - 1)) by (nonlinear_arith)
        requires
            w == -v - 1,
            w == p * q + r,
    ;
    vstd::arithmetic::div_mod::lemma_fundamental_div_mod_converse(v, p, -(q + 1), p - r - 1);
}

/// Two pi in raw units: one full turn.
pub open spec fn tau() -> int {
    2 * PI_RAW
}

/// An angle difference is wrapped when it lies in `(-pi, pi]` and differs from
/// the raw difference by whole turns.
pub open spec fn is_wrapped_delta(w: int, d: int) -> bool {
    &&& -PI_RAW < w <= PI_RAW
    &&& (w - d) % tau() == 0
}

/// Linear interpolation `a + (b - a) * t`, each step saturating.
pub fn lerp(a: Flint, b: Flint, t: Flint) -> (r: Flint)
    ensures
        r.raw == clamp_i32(a.raw + mul_raw(clamp_i32(b.raw - a.raw), t.raw as int)),
{
    a + (b - a) * t
}

/// Interpolates from angle `a` toward angle `b` (radians) along the shorter way
/// round: the difference `b - a` is first wrapped into `(-pi, pi]` by whole
/// turns, so two angles on either side of the `pi` seam meet across it.
pub fn lerp_angle(a: Flint, b: Flint, t: Flint) -> (r: Flint)
    ensures
        exists|w: int| #[trigger]
            is_wrapped_delta(w, b.raw - a.raw) && r.raw == clamp_i32(a.raw + mul_raw(w, t.raw as int)),
{
    let turn: i64 = 2 * PI_RAW as i64;
    let mut delta: i64 = b.raw as i64 - a.raw as i64;
    let ghost d = delta as int;
    assert((delta - d) % tau() == 0) by {
        vstd::arithmetic::div_mod::lemma_mod_self_0(tau());
        assert(delta - d == 0);
        vstd::arithmetic::div_mod::lemma_small_mod(0, tau() as nat);
    }
    while delta > PI_RAW as i64
        invariant
            turn == tau(),
            -0x1_0000_0000 <= delta <= 0x1_0000_0000,
            (delta - d) % tau() == 0,
        decreases delta + 0x1_0000_0000,
    {
        proof {
            lemma_turn(delta as int, d, -1);
        }
        delta = delta - turn;
    }
    while delta <= -(PI_RAW as i64)
        invariant
            turn == tau(),
            -0x1_0000_0000 <= delta <= PI_RAW,
            (delta - d) % tau() == 0,
        decreases 0x1_0000_0000 - delta,
    {
        proof {
            lemma_turn(delta as int, d, 1);
        }
        delta = delta + turn;
    }
    let turned = Flint { raw: delta as i32 };
    let r = a + turned * t;
    assert(is_wrapped_delta(delta as int, b.raw - a.raw));
    r
}

proof fn lemma_turn(w: int, d: int, s: int)
    requires
        (w - d) % tau() == 0,
        s == 1 || s == -1,
    ensures
        (w + s * tau() - d) % tau() == 0,
{
    vstd::arithmetic::div_mod::lemma_mod_multiples_vanish(s, w - d, tau());
    assert(w + s * tau() - d == s * tau() + (w - d)) by (nonlinear_arith);
}

/// The floor square root of a natural number.
pub open spec fn isqrt(n: int) -> int
    recommends
        n >= 0,
{
    choose|q: int| 0 <= q && #[trigger] (q * q) <= n < (q + 1) * (q + 1)
}

spec fn pow4(k: nat) -> int
    decreases k,
{
    if k == 0 {
        1
    } else {
        4 * pow4((k - 1) as nat)
    }
}

proof fn lemma_pow4_step(k: nat)
    ensures
        pow4(k) >= 1,
        k > 0 ==> pow4(k) == 4 * pow4((k - 1) as nat),
        k == 0 ==> pow4(k) == 1,
    decreases k,
{
    if k > 0 {
        lemma_pow4_step((k - 1) as nat);
    }
}

proof fn lemma_sqrt_bounds(q: int, pw: int, n: int)
    requires
        0 <= q,
        pw >= 1,
        q * q * pw <= n < 0x8000_0000,
    ensures
        q * pw <= n,
        q < 0x10000,
{
    assert(q * pw <= q * q * pw || q == 0) by (nonlinear_arith)
        requires
            0 <= q,
            pw >= 1,
    ;
    assert(q < 0x10000) by (nonlinear_arith)
        requires
            0 <= q,
            pw >= 1,
            q * q * pw < 0x8000_0000,
    ;
}

proof fn lemma_sqrt_digit_one(q: int, bit: int, n: int)
    requires
        0 <= q,
        bit >= 1,
        n - q * q * (4 * bit) >= q * (4 * bit) + bit,
        n < (q + 1) * (q + 1) * (4 * bit),
    ensures
        (q * (4 * bit) + bit + bit) / 2 == (2 * q + 1) * bit,
        n - q * q * (4 * bit) - (q * (4 * bit) + bit) == n - (2 * q + 1) * (2 * q + 1) * bit,
        (2 * q + 1) * (2 * q + 1) * bit <= n < (2 * q + 2) * (2 * q + 2) * bit,
{
    assert((q * (4 * bit) + bit + bit) == 2 * ((2 * q + 1) * bit)) by (nonlinear_arith);
    assert(n - q * q * (4 * bit) - (q * (4 * bit) + bit) == n - (2 * q + 1) * (2 * q + 1) * bit)
        by (nonlinear_arith);
    assert((2 * q + 2) * (2 * q + 2) * bit == (q + 1) * (q + 1) * (4 * bit)) by (nonlinear_arith);
}

proof fn lemma_sqrt_digit_zero(q: int, bit: int, n: int)
    requires
        0 <= q,
        bit >= 1,
        q * q * (4 * bit) <= n,
        n - q * q * (4 * bit) < q * (4 * bit) + bit,
    ensures
        (q * (4 * bit)) / 2 == (2 * q) * bit,
        n - q * q * (4 * bit) == n - (2 * q) * (2 * q) * bit,
        (2 * q) * (2 * q) * bit <= n < (2 * q + 1) * (2 * q + 1) * bit,
{
    assert(q * (4 * bit) == 2 * ((2 * q) * bit)) by (nonlinear_arith);
    assert(q * q * (4 * bit) == (2 * q) * (2 * q) * bit) by (nonlinear_arith);
    assert((2 * q + 1) * (2 * q + 1) * bit == q * q * (4 * bit) + q * (4 * bit) + bit)
        by (nonlinear_arith);
}

proof fn lemma_isqrt_unique(n: int, q: int)
    requires
        0 <= q,
        q * q <= n < (q + 1) * (q + 1),
    ensures
        isqrt(n) == q,
{
    assert(0 <= q && q * q <= n < (q + 1) * (q + 1));
    let w = isqrt(n);
    assert(0 <= w && w * w <= n < (w + 1) * (w + 1));
    if w < q {
        assert((w + 1) * (w + 1) <= q * q) by (nonlinear_arith)
            requires
                0 <= w < q,
        ;
    } else if w > q {
        assert((q + 1) * (q + 1) <= w * w) by (nonlinear_arith)
            requires
                0 <= q < w,
        ;
    }
}

/// The raw value of `a` narrowed into `i32`, saturating.
fn saturate(a: i64) -> (r: i32)
    ensures
        r == clamp_i32(a as int),
{
    if a > i32::MAX as i64 {
        i32::MAX
    } else if a < i32::MIN as i64 {
        i32::MIN
    } else {
        a as i32
    }
}

/// `a / b` rounded toward zero, for a divisor that is positive.
fn div_toward_zero(a: i64, b: i64) -> (r: i64)
    requires
        b > 0,
        a > i64::MIN,
    ensures
        r == trunc_div(a as int, b as int),
{
    if a < 0 {
        -((-a) / b)
    } else {
        a / b
    }
}

impl core::ops::Add for Flint {
    type Output = Flint;

    fn add(self, rhs: Flint) -> (r: Flint)
        ensures
            r.raw == clamp_i32(self.raw + rhs.raw),
    {
        Flint { raw: saturate(self.raw as i64 + rhs.raw as i64) }
    }
}

impl vstd::std_specs::ops::AddSpecImpl for Flint {
    open spec fn obeys_add_spec() -> bool {
        true
    }

    open spec fn add_req(self, rhs: Flint) -> bool {
        true
    }

    open spec fn add_spec(self, rhs: Flint) -> Flint {
        fadd(self, rhs)
    }
}

impl core::ops::Sub for Flint {
    type Output = Flint;

    fn sub(self, rhs: Flint) -> (r: Flint)
        ensures
            r.raw == clamp_i32(self.raw - rhs.raw),
    {
        Flint { raw: saturate(self.raw as i64 - rhs.raw as i64) }
    }
}

impl vstd::std_specs::ops::SubSpecImpl for Flint {
    open spec fn obeys_sub_spec() -> bool {
        true
    }

    open spec fn sub_req(self, rhs: Flint) -> bool {
        true
    }

    open spec fn sub_spec(self, rhs: Flint) -> Flint {
        fsub(self, rhs)
    }
}

impl core::ops::Mul for Flint {
    type Output = Flint;

    /// The product, computed on 64-bit intermediates and rounded toward zero.
    fn mul(self, rhs: Flint) -> (r: Flint)
        ensures
            r.raw == mul_raw(self.raw as int, rhs.raw as int),
    {
        proof {
            lemma_product_fits(self.raw as int, rhs.raw as int);
        }
        let wide: i64 = (self.raw as i64) * (rhs.raw as i64);
        Flint { raw: saturate(div_toward_zero(wide, SCALE as i64)) }
    }
}

impl vstd::std_specs::ops::MulSpecImpl for Flint {
    open spec fn obeys_mul_spec() -> bool {
        true
    }

    open spec fn mul_req(self, rhs: Flint) -> bool {
        true
    }

    open spec fn mul_spec(self, rhs: Flint) -> Flint {
        fmul(self, rhs)
    }
}

impl core::ops::Div for Flint {
    type Output = Flint;

    /// The quotient, computed on 64-bit intermediates and rounded toward zero;
    /// a zero divisor saturates instead of trapping.
    fn div(self, rhs: Flint) -> (r: Flint)
        ensures
            r.raw == div_raw(self.raw as int, rhs.raw as int),
    {
        if rhs.raw == 0 {
            if self.raw > 0 {
                Flint { raw: i32::MAX }
            } else if self.raw < 0 {
                Flint { raw: i32::MIN }
            } else {
                Flint { raw: 0 }
            }
        } else {
            proof {
                lemma_product_fits(self.raw as int, SCALE as int);
            }
            let wide: i64 = (self.raw as i64) * (SCALE as i64);
            if rhs.raw < 0 {
                let q = div_toward_zero(wide, -(rhs.raw as i64));
                assert(trunc_div(wide as int, rhs.raw as int) == -trunc_div(
                    wide as int,
                    -(rhs.raw as int),
                ));
                Flint { raw: saturate(-q) }
            } else {
                Flint { raw: saturate(div_toward_zero(wide, rhs.raw as i64)) }
            }
        }
    }
}

impl vstd::std_specs::ops::DivSpecImpl for Flint {
    open spec fn obeys_div_spec() -> bool {
        true
    }

    open spec fn div_req(self, rhs: Flint) -> bool {
        true
    }

    open spec fn div_spec(self, rhs: Flint) -> Flint {
        fdiv(self, rhs)
    }
}

impl core::ops::Neg for Flint {
    type Output = Flint;

    fn neg(self) -> (r: Flint)
        ensures
            r.raw == clamp_i32(-self.raw),
    {
        Flint { raw: saturate(-(self.raw as i64)) }
    }
}

impl vstd::std_specs::ops::NegSpecImpl for Flint {
    open spec fn obeys_neg_spec() -> bool {
        true
    }

    open spec fn neg_req(self) -> bool {
        true
    }

    open spec fn neg_spec(self) -> Flint {
        fneg(self)
    }
}

} // verus!
