//! Double-precision numbers as plain data.
//!
//! A number is held as its IEEE 754 bit pattern. Everything here that compares,
//! limits or rounds numbers works on the pattern and is stated over the value
//! that the pattern stands for.

use vstd::arithmetic::power2::{lemma_pow2_adds, lemma_pow2_pos, lemma_pow2_unfold, pow2};
use vstd::prelude::*;

verus! {

/// The sign bit.
pub const SIGN_BIT: u64 = 0x8000_0000_0000_0000;

/// The pattern of positive infinity; a larger magnitude is not a number.
pub const INFINITY: u64 = 0x7ff0_0000_0000_0000;

/// The number of fraction patterns of one exponent, two to the power 52.
pub const FRACTIONS: u64 = 0x10_0000_0000_0000;

/// The pattern of the number one.
pub const ONE: u64 = 0x3ff0_0000_0000_0000;

/// A double-precision number by its bit pattern.
#[derive(Clone, Copy, Debug, PartialEq, Eq, Structural)]
pub struct Double {
    pub bits: u64,
}

/// The value of a magnitude pattern in units of two to the power -1074, the
/// smallest positive double. Infinity comes out above every finite value.
pub open spec fn magnitude_units(magnitude: nat) -> nat {
    let exponent = magnitude / (FRACTIONS as nat);
    let fraction = magnitude % (FRACTIONS as nat);
    if exponent == 0 {
        fraction
    } else {
        (FRACTIONS as nat + fraction) * pow2((exponent - 1) as nat)
    }
}

/// The value of the whole number `n` in units of two to the power -1074.
pub open spec fn whole(n: int) -> int {
    n * pow2(1074)
}

/// The whole number nearest to the value `units`, halves away from zero.
pub open spec fn nearest_whole(units: int) -> int {
    if units < 0 {
        -((-2 * units + pow2(1074)) / (2 * pow2(1074)) as int)
    } else {
        (2 * units + pow2(1074)) / (2 * pow2(1074)) as int
    }
}

impl Double {
    /// The sign bit is set.
    pub open spec fn negative(self) -> bool {
        self.bits >= SIGN_BIT
    }

    /// The pattern without its sign bit.
    pub open spec fn magnitude(self) -> nat {
        if self.negative() {
            (self.bits - SIGN_BIT) as nat
        } else {
            self.bits as nat
        }
    }

    /// Not a number.
    pub open spec fn is_nan(self) -> bool {
        self.magnitude() > INFINITY
    }

    /// Neither infinite nor not a number.
    pub open spec fn is_finite(self) -> bool {
        self.magnitude() < INFINITY
    }

    /// The value in units of two to the power -1074.
    pub open spec fn units(self) -> int {
        if self.negative() {
            -magnitude_units(self.magnitude())
        } else {
            magnitude_units(self.magnitude()) as int
        }
    }

    /// Both are numbers and this one is the smaller.
    pub open spec fn below(self, other: Double) -> bool {
        !self.is_nan() && !other.is_nan() && self.units() < other.units()
    }

    /// Both are numbers of the same value. The two zeros are equal.
    pub open spec fn equals(self, other: Double) -> bool {
        !self.is_nan() && !other.is_nan() && self.units() == other.units()
    }

    /// The number is zero, of either sign.
    pub open spec fn is_zero(self) -> bool {
        self.equals(Double { bits: 0 })
    }

    /// This number brought into the range from `lo` to `hi`. What is not a
    /// number stays as it is.
    pub open spec fn limited(self, lo: Double, hi: Double) -> Double {
        if self.below(lo) {
            lo
        } else if hi.below(self) {
            hi
        } else {
            self
        }
    }

    fn size(self) -> (r: u64)
        ensures
            r == self.magnitude(),
    {
        if self.bits >= SIGN_BIT {
            self.bits - SIGN_BIT
        } else {
            self.bits
        }
    }

    /// Whether both are numbers and this one is the smaller.
    pub fn less(self, other: Double) -> (r: bool)
        ensures
            r == self.below(other),
    {
        let a: u64 = self.size();
        let b: u64 = other.size();
        proof {
            lemma_units_order(self.magnitude(), other.magnitude());
            lemma_units_order(0, self.magnitude());
            lemma_units_order(0, other.magnitude());
            lemma_units_zero();
        }
        if a > INFINITY || b > INFINITY {
            false
        } else if self.bits >= SIGN_BIT {
            if other.bits >= SIGN_BIT {
                b < a
            } else {
                a > 0 || b > 0
            }
        } else {
            other.bits < SIGN_BIT && a < b
        }
    }

    /// Whether both are numbers of the same value.
    pub fn same(self, other: Double) -> (r: bool)
        ensures
            r == self.equals(other),
    {
        let a: u64 = self.size();
        let b: u64 = other.size();
        proof {
            lemma_units_order(self.magnitude(), other.magnitude());
            lemma_units_order(0, self.magnitude());
            lemma_units_order(0, other.magnitude());
            lemma_units_zero();
        }
        if a > INFINITY || b > INFINITY {
            false
        } else if (self.bits >= SIGN_BIT) == (other.bits >= SIGN_BIT) {
            a == b
        } else {
            a == 0 && b == 0
        }
    }

    /// Whether the number is zero, of either sign.
    pub fn zero(self) -> (r: bool)
        ensures
            r == self.is_zero(),
    {
        self.same(Double { bits: 0 })
    }

    /// This number brought into the range from `lo` to `hi`.
    pub fn clamp(self, lo: Double, hi: Double) -> (r: Double)
        requires
            !lo.is_nan(),
            !hi.is_nan(),
            lo.units() <= hi.units(),
        ensures
            r == self.limited(lo, hi),
    {
        if self.less(lo) {
            lo
        } else if hi.less(self) {
            hi
        } else {
            self
        }
    }

    /// The nearest whole number.
    pub fn quantized(self) -> (r: Double)
        ensures
            self.rounds_to(r),
    {
        let size: u64 = self.size();
        if size >= INFINITY {
            return self;
        }
        let exponent: u64 = size / FRACTIONS;
        let scaled: u64 = FRACTIONS + size % FRACTIONS;
        if exponent < 1022 {
            proof {
                lemma_rounds_to_zero(self);
            }
            return Double { bits: 0 };
        }
        let rounded: u64 = if exponent == 1022 {
            proof {
                lemma_rounds_to_one(self);
            }
            ONE
        } else if exponent >= 1075 {
            proof {
                lemma_already_whole(self);
            }
            size
        } else {
            let k: u64 = 1075 - exponent;
            proof {
                lemma_steps(k);
            }
            let step: u64 = 1u64 << k;
            let half: u64 = step / 2;
            let count: u64 = (scaled + half) / step;
            proof {
                lemma_count_bound(scaled as nat, step as nat, half as nat, count as nat, k as nat);
                lemma_rounds_to_count(self, k as nat, count as nat);
            }
            (exponent - 1) * FRACTIONS + count * step
        };
        proof {
            lemma_whole_negates(nearest_whole(self.units()));
            assert(magnitude_units(rounded as nat) == if self.negative() {
                -whole(nearest_whole(self.units()))
            } else {
                whole(nearest_whole(self.units()))
            });
        }
        if self.bits >= SIGN_BIT {
            Double { bits: rounded + SIGN_BIT }
        } else {
            Double { bits: rounded }
        }
    }

    /// The pattern with its sign bit cleared.
    pub open spec fn unsigned(self) -> Double {
        Double { bits: self.magnitude() as u64 }
    }

    /// The number without its sign.
    pub fn absolute(self) -> (r: Double)
        ensures
            r == self.unsigned(),
    {
        Double { bits: self.size() }
    }

    /// `r` is this number rounded to the nearest whole one, halves away from
    /// zero, with one zero for all that round to zero. What is not finite stays
    /// as it is.
    pub open spec fn rounds_to(self, r: Double) -> bool {
        if self.is_finite() {
            &&& r.is_finite()
            &&& r.units() == whole(nearest_whole(self.units()))
            &&& nearest_whole(self.units()) == 0 ==> r.bits == 0
        } else {
            r == self
        }
    }

    /// The number with the other sign.
    pub fn negate(self) -> (r: Double)
        ensures
            r.magnitude() == self.magnitude(),
            r.negative() == !self.negative(),
            r == self.negated(),
    {
        if self.bits >= SIGN_BIT {
            Double { bits: self.bits - SIGN_BIT }
        } else {
            Double { bits: self.bits + SIGN_BIT }
        }
    }

    /// The pattern with its sign bit flipped.
    pub open spec fn negated(self) -> Double {
        if self.negative() {
            Double { bits: (self.bits - SIGN_BIT) as u64 }
        } else {
            Double { bits: (self.bits + SIGN_BIT) as u64 }
        }
    }
}

pub proof fn lemma_units_zero()
    ensures
        magnitude_units(0) == 0,
{
}

/// The value of a magnitude grows with its pattern.
pub proof fn lemma_units_order(a: nat, b: nat)
    ensures
        a < b ==> magnitude_units(a) < magnitude_units(b),
        b < a ==> magnitude_units(b) < magnitude_units(a),
{
    if a < b {
        lemma_units_increase(a, b);
    }
    if b < a {
        lemma_units_increase(b, a);
    }
}

proof fn lemma_units_increase(a: nat, b: nat)
    requires
        a < b,
    ensures
        magnitude_units(a) < magnitude_units(b),
{
    let n = FRACTIONS as nat;
    let ea = a / n;
    let eb = b / n;
    let fa = a % n;
    let fb = b % n;
    assert(a == ea * n + fa && b == eb * n + fb && ea <= eb && fa < n && fb < n) by (nonlinear_arith)
        requires
            n > 0,
            ea == a / n,
            eb == b / n,
            fa == a % n,
            fb == b % n,
            a < b,
    ;
    if ea == eb {
        assert(fa < fb);
        if ea > 0 {
            let p = pow2((ea - 1) as nat);
            lemma_pow2_pos((ea - 1) as nat);
            assert((n + fa) * p < (n + fb) * p) by (nonlinear_arith)
                requires
                    fa < fb,
                    p > 0,
            ;
        }
    } else {
        let p = pow2((eb - 1) as nat);
        lemma_pow2_pos((eb - 1) as nat);
        assert(n * p <= (n + fb) * p) by (nonlinear_arith)
            requires
                p > 0,
        ;
        assert(n <= n * p) by (nonlinear_arith)
            requires
                p > 0,
        ;
        if ea > 0 {
            let q = pow2((ea - 1) as nat);
            lemma_pow2_pos((ea - 1) as nat);
            lemma_pow2_adds(ea, (eb - 1 - ea) as nat);
            lemma_pow2_unfold(ea);
            lemma_pow2_pos((eb - 1 - ea) as nat);
            let r = pow2((eb - 1 - ea) as nat);
            assert((n + fa) * q < n * p) by (nonlinear_arith)
                requires
                    fa < n,
                    q > 0,
                    r > 0,
                    p == (2 * q) * r,
            ;
        }
    }
}

/// A pattern of exponent `e` with `n * 2^(1075 - e)` as its scaled fraction
/// stands for the whole number `n`.
pub proof fn lemma_whole_pattern(bits: u64, n: nat)
    requires
        bits < INFINITY,
        1 <= bits / FRACTIONS <= 1075,
        n * pow2((1075 - bits / FRACTIONS) as nat) == FRACTIONS + bits % FRACTIONS,
    ensures
        (Double { bits }).units() == whole(n as int),
        !(Double { bits }).is_nan(),
{
    let e = (bits / FRACTIONS) as nat;
    let p = pow2((1075 - e) as nat);
    let q = pow2((e - 1) as nat);
    lemma_pow2_adds((1075 - e) as nat, (e - 1) as nat);
    assert((n * p) * q == n * (p * q)) by (nonlinear_arith);
}

proof fn lemma_whole_negates(n: int)
    ensures
        whole(-n) == -whole(n),
{
    assert((-n) * pow2(1074) == -(n * pow2(1074))) by (nonlinear_arith);
}

proof fn lemma_steps(k: u64)
    requires
        1 <= k <= 52,
    ensures
        (1u64 << k) == pow2(k as nat),
        2 <= (1u64 << k) <= FRACTIONS,
        (1u64 << k) % 2 == 0,
{
    assert(2 <= (1u64 << k) <= 0x10_0000_0000_0000 && (1u64 << k) % 2 == 0) by (bit_vector)
        requires
            1 <= k <= 52,
    ;
    vstd::arithmetic::power2::lemma2_to64();
    vstd::arithmetic::power2::lemma2_to64_rest();
    if k < 52 {
        vstd::arithmetic::power2::lemma_pow2_strictly_increases(k as nat, 52);
    }
    vstd::bits::lemma_u64_shl_is_mul(1, k);
}

/// Rounding a scaled fraction to a multiple of the step keeps it between the
/// two neighbouring exponents.
proof fn lemma_count_bound(scaled: nat, step: nat, half: nat, count: nat, k: nat)
    requires
        1 <= k <= 52,
        step == pow2(k),
        half == step / 2,
        step % 2 == 0,
        FRACTIONS <= scaled < 2 * FRACTIONS,
        count == (scaled + half) / step,
    ensures
        FRACTIONS <= count * step <= 2 * FRACTIONS,
{
    let f = FRACTIONS as nat;
    lemma_pow2_adds(k, (52 - k) as nat);
    lemma_pow2_pos((52 - k) as nat);
    lemma_pow2_pos(k);
    vstd::arithmetic::power2::lemma2_to64_rest();
    let m = pow2((52 - k) as nat);
    assert(f == step * m);
    assert(m <= count <= 2 * m) by (nonlinear_arith)
        requires
            step > 0,
            step % 2 == 0,
            half == step / 2,
            f == step * m,
            f <= scaled < 2 * f,
            count == (scaled + half) / step,
    ;
    assert(step * m <= count * step <= 2 * (step * m)) by (nonlinear_arith)
        requires
            m <= count <= 2 * m,
            step > 0,
    ;
}

proof fn lemma_rounds_to_zero(v: Double)
    requires
        v.magnitude() / (FRACTIONS as nat) < 1022,
    ensures
        nearest_whole(v.units()) == 0,
        whole(0) == 0,
        (Double { bits: 0 }).units() == 0,
{
    let size = v.magnitude();
    let e = size / (FRACTIONS as nat);
    let u = magnitude_units(size);
    lemma_units_order(size, 1022 * FRACTIONS as nat);
    lemma_pow2_adds(52, 1021);
    lemma_pow2_unfold(1074);
    vstd::arithmetic::power2::lemma2_to64_rest();
    assert(2 * u < pow2(1074));
    assert((2 * u + pow2(1074)) / (2 * pow2(1074)) == 0) by (nonlinear_arith)
        requires
            0 <= 2 * u < pow2(1074),
    ;
}

proof fn lemma_rounds_to_one(v: Double)
    requires
        v.magnitude() / (FRACTIONS as nat) == 1022,
    ensures
        nearest_whole(v.units()) == if v.negative() { -1int } else { 1int },
        magnitude_units(ONE as nat) == whole(1),
{
    let size = v.magnitude();
    let u = magnitude_units(size);
    let p = pow2(1074);
    lemma_units_order(size, ONE as nat);
    lemma_units_order(1022 * FRACTIONS as nat, size);
    lemma_pow2_adds(52, 1021);
    lemma_pow2_adds(52, 1022);
    lemma_pow2_unfold(1074);
    vstd::arithmetic::power2::lemma2_to64_rest();
    assert(p <= 2 * u < 2 * p);
    assert((2 * u + p) / (2 * p) == 1) by (nonlinear_arith)
        requires
            p <= 2 * u < 2 * p,
    ;
}

proof fn lemma_already_whole(v: Double)
    requires
        v.magnitude() / (FRACTIONS as nat) >= 1075,
    ensures
        whole(nearest_whole(v.units())) == v.units(),
        nearest_whole(v.units()) != 0,
{
    let f = FRACTIONS as nat;
    let size = v.magnitude();
    let e = size / f;
    let scaled = f + size % f;
    let p = pow2(1074);
    let m = pow2((e - 1075) as nat);
    lemma_pow2_adds(1074, (e - 1075) as nat);
    lemma_pow2_pos((e - 1075) as nat);
    lemma_pow2_pos(1074);
    let n = (scaled * m) as int;
    assert(scaled * (p * m) == n * p) by (nonlinear_arith)
        requires
            n == scaled * m,
    ;
    assert(n > 0) by (nonlinear_arith)
        requires
            n == scaled * m,
            scaled > 0,
            m > 0,
    ;
    assert((2 * (n * p) + p) / (2 * p) as int == n) by (nonlinear_arith)
        requires
            p > 0,
    ;
    assert(-(n * p) == (-n) * p) by (nonlinear_arith);
    assert(n * p > 0) by (nonlinear_arith)
        requires
            n > 0,
            p > 0,
    ;
}

proof fn lemma_rounds_to_count(v: Double, k: nat, count: nat)
    requires
        1 <= k <= 52,
        v.magnitude() / (FRACTIONS as nat) == 1075 - k,
        count == (FRACTIONS + v.magnitude() % (FRACTIONS as nat) + pow2(k) / 2) / pow2(k) as int,
        FRACTIONS <= count * pow2(k) <= 2 * FRACTIONS,
    ensures
        ({
            let size = (1074 - k) * FRACTIONS + count * pow2(k);
            &&& magnitude_units(size as nat) == whole(count as int)
            &&& nearest_whole(v.units()) == if v.negative() { -(count as int) } else { count as int }
            &&& count > 0
            &&& 0 < size < INFINITY
        }),
{
    let f = FRACTIONS as nat;
    let scaled = f + v.magnitude() % f;
    let s = pow2(k);
    let q = pow2((1074 - k) as nat);
    lemma_pow2_adds(k, (1074 - k) as nat);
    lemma_pow2_pos(k);
    lemma_pow2_pos((1074 - k) as nat);
    lemma_pow2_unfold(k);
    lemma_pow2_unfold((1075 - k) as nat);
    let p = pow2(1074);
    assert(p == s * q);
    let u = scaled * q;
    assert(count == (scaled + s / 2) / s);
    assert(s % 2 == 0);
    lemma_scale_division(scaled, s, q, count);
    assert(count * p == (count * s) * q) by (nonlinear_arith)
        requires
            p == s * q,
    ;
    assert(count > 0) by (nonlinear_arith)
        requires
            count * s >= f,
            f > 0,
    ;
    let size = ((1074 - k) * f + count * s) as nat;
    assert(size / f == (if count * s < 2 * f { 1075 - k } else { 1076 - k }) && size % f == (if count * s < 2 * f { count * s - f } else { 0 })) by (nonlinear_arith)
        requires
            size == (1074 - k) * f + count * s,
            f <= count * s <= 2 * f,
            f > 0,
            1 <= k <= 52,
    ;
    if count * s == 2 * f {
        assert(f * (2 * q) == (2 * f) * q) by (nonlinear_arith);
    }
    assert(-(count * p) == (-count) * p) by (nonlinear_arith);
    assert(u > 0) by (nonlinear_arith)
        requires
            u == scaled * q,
            scaled > 0,
            q > 0,
    ;
}

proof fn lemma_scale_division(scaled: nat, s: nat, q: nat, count: nat)
    requires
        s > 0,
        q > 0,
        s % 2 == 0,
        count == (scaled + s / 2) / s,
    ensures
        (2 * (scaled * q) + s * q) / (2 * (s * q)) == count,
{
    let r = (scaled + s / 2) % s;
    assert(scaled + s / 2 == count * s + r && 0 <= r < s) by (nonlinear_arith)
        requires
            s > 0,
            count == (scaled + s / 2) / s,
            r == (scaled + s / 2) % s,
    ;
    let d = 2 * (s * q);
    let x = 2 * (scaled * q) + s * q;
    let rest = 2 * (r * q);
    assert(x == count * d + rest) by (nonlinear_arith)
        requires
            scaled + s / 2 == count * s + r,
            s % 2 == 0,
            x == 2 * (scaled * q) + s * q,
            d == 2 * (s * q),
            rest == 2 * (r * q),
    ;
    assert(0 <= rest < d) by (nonlinear_arith)
        requires
            0 <= r < s,
            q > 0,
            d == 2 * (s * q),
            rest == 2 * (r * q),
    ;
    vstd::arithmetic::div_mod::lemma_fundamental_div_mod_converse(x as int, d as int, count as int, rest as int);
}

/// The value of a pattern: up to twice the number of fractions it is the pattern
/// itself, in the smallest units, and from there on it doubles with every step
/// of the exponent.
pub proof fn values_double_with_exponent(m: nat)
    ensures
        m < 2 * FRACTIONS ==> magnitude_units(m) == m,
        m >= FRACTIONS ==> magnitude_units(m + FRACTIONS as nat) == 2 * magnitude_units(m),
{
    let f = FRACTIONS as nat;
    vstd::arithmetic::power2::lemma2_to64();
    assert(m < f ==> m / f == 0 && m % f == m);
    assert(f <= m < 2 * f ==> m / f == 1 && m % f == m - f);
    if f <= m < 2 * f {
        let p = pow2((m / f - 1) as nat);
        assert(p == 1);
        let s = f + m % f;
        assert(s * p == s) by (nonlinear_arith)
            requires
                p == 1,
        ;
    }
    if m >= f {
        let e = m / f;
        assert((m + f) / f == e + 1 && (m + f) % f == m % f) by {
            vstd::arithmetic::div_mod::lemma_div_plus_one(m as int, f as int);
            vstd::arithmetic::div_mod::lemma_mod_add_multiples_vanish(m as int, f as int);
        }
        assert(e >= 1);
        lemma_pow2_unfold(e);
        let p = pow2((e - 1) as nat);
        let s = f + m % f;
        assert(s * (2 * p) == 2 * (s * p)) by (nonlinear_arith);
    }
}

/// Changing the sign changes the value to its negative, and dropping it leaves
/// the distance from zero; what is not a number stays so.
pub proof fn signs_change_values(v: Double)
    ensures
        v.negated().units() == -v.units(),
        v.negated().is_nan() == v.is_nan(),
        v.negated().negated() == v,
        v.unsigned().units() == if v.units() < 0 {
            -v.units()
        } else {
            v.units()
        },
        v.unsigned().is_nan() == v.is_nan(),
{
}

/// Limiting a number gives the one of the range that is nearest to it, the
/// number itself when it is in the range. What is not a number stays as it is.
pub proof fn limiting_gives_nearest(v: Double, lo: Double, hi: Double, other: Double)
    requires
        !lo.is_nan(),
        !hi.is_nan(),
        lo.units() <= hi.units(),
    ensures
        v.is_nan() ==> v.limited(lo, hi) == v,
        !v.is_nan() && lo.units() <= v.units() <= hi.units() ==> v.limited(lo, hi) == v,
        !v.is_nan() ==> lo.units() <= v.limited(lo, hi).units() <= hi.units(),
        !v.is_nan() && lo.units() <= other.units() <= hi.units() ==> {
            let r = v.limited(lo, hi).units();
            ||| other.units() <= r <= v.units()
            ||| v.units() <= r <= other.units()
            ||| r == v.units()
        },
{
}

/// Rounding gives a whole number that is at most a half away, and of two that
/// are equally near the one farther from zero. What is not finite stays as it
/// is.
pub proof fn rounding_gives_nearest(v: Double, r: Double) -> (n: int)
    requires
        v.rounds_to(r),
    ensures
        !v.is_finite() ==> r == v,
        v.is_finite() ==> {
            &&& r.is_finite()
            &&& r.units() == whole(n)
            &&& -whole(1) <= 2 * (r.units() - v.units()) <= whole(1)
            &&& 2 * (r.units() - v.units()) == whole(1) ==> v.units() >= 0
            &&& 2 * (r.units() - v.units()) == -whole(1) ==> v.units() < 0
            &&& r.units() == 0 ==> r.bits == 0
            &&& v.units() >= 0 ==> r.units() >= 0
            &&& v.units() <= 0 ==> r.units() <= 0
        },
{
    let p = pow2(1074) as int;
    lemma_pow2_pos(1074);
    let u = v.units();
    let n = nearest_whole(u);
    let a = if u < 0 {
        -u
    } else {
        u
    };
    let q = (2 * a + p) / (2 * p);
    let rest = (2 * a + p) % (2 * p);
    vstd::arithmetic::div_mod::lemma_fundamental_div_mod(2 * a + p, 2 * p);
    assert((2 * p) * q == 2 * (q * p)) by (nonlinear_arith);
    assert(0 <= rest < 2 * p);
    assert(q >= 0) by (nonlinear_arith)
        requires
            q == (2 * a + p) / (2 * p),
            a >= 0,
            p > 0,
    ;
    assert(q * p >= 0) by (nonlinear_arith)
        requires
            q >= 0,
            p > 0,
    ;
    assert((-q) * p == -(q * p)) by (nonlinear_arith);
    assert(1 * p == p);
    assert(whole(n) == if u < 0 {
        -(q * p)
    } else {
        q * p
    });
    if n != 0 {
        assert(q != 0);
        assert(q * p >= p) by (nonlinear_arith)
            requires
                q >= 1,
                p > 0,
        ;
    }
    n
}

} // verus!
