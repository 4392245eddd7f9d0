//! IEEE-754 single-precision numbers, held by their bit pattern.
//!
//! Develop parameters are stored, compared and copied, and each of these is a
//! statement about bits: a number equals another, lies above or below it, or
//! truncates to an integer. This module states those comparisons over the exact
//! value that a pattern stands for.
use vstd::arithmetic::div_mod::*;
use vstd::arithmetic::power2::*;
use vstd::bits::*;
use vstd::prelude::*;

verus! {

/// Magnitudes below this are subnormal; each binade holds this many patterns.
pub const BINADE: u32 = 0x80_0000;

/// The magnitude pattern of infinity. Larger magnitudes are not numbers.
pub const INF_MAG: u32 = 0x7f80_0000;

/// Patterns from here on carry the sign bit.
pub const SIGN: u32 = 0x8000_0000;

/// The pattern of zero.
pub const ZERO: u32 = 0;

/// The pattern of one half.
pub const HALF: u32 = 0x3f00_0000;

/// The pattern of one.
pub const ONE: u32 = 0x3f80_0000;

/// A single-precision number, by its bit pattern.
#[derive(Clone, Copy, Debug)]
pub struct F32 {
    pub bits: u32,
}

/// What a magnitude pattern stands for, in units of the smallest subnormal
/// (two to the minus 149). The pattern of infinity continues the scale one step
/// above the largest finite number, so that order is kept there too.
pub open spec fn mag_units(mag: int) -> int {
    if mag < BINADE {
        mag
    } else {
        (BINADE + mag % BINADE as int) * pow2((mag / BINADE as int - 1) as nat)
    }
}

impl F32 {
    /// The pattern without its sign bit.
    pub open spec fn mag(self) -> int {
        if self.bits < SIGN { self.bits as int } else { self.bits - SIGN }
    }

    /// Whether the pattern is no number at all.
    pub open spec fn nan(self) -> bool {
        self.mag() > INF_MAG
    }

    /// The value, in units of two to the minus 149.
    pub open spec fn units(self) -> int {
        if self.bits < SIGN { mag_units(self.mag()) } else { -mag_units(self.mag()) }
    }

    /// Numeric equality: false when either side is not a number, true of the two zeros.
    pub open spec fn eqv(self, other: F32) -> bool {
        !self.nan() && !other.nan() && self.units() == other.units()
    }

    /// Numeric order: false when either side is not a number.
    pub open spec fn ltv(self, other: F32) -> bool {
        !self.nan() && !other.nan() && self.units() < other.units()
    }

    /// Whether this equals the number with the given pattern.
    #[verifier::opaque]
    pub open spec fn is_num(self, bits: u32) -> bool {
        self.eqv(F32 { bits })
    }

    /// Above zero.
    #[verifier::opaque]
    pub open spec fn positive(self) -> bool {
        !self.nan() && self.units() > 0
    }

    /// Zero or below. What is no number is neither this nor positive.
    #[verifier::opaque]
    pub open spec fn not_positive(self) -> bool {
        !self.nan() && self.units() <= 0
    }

    /// Numeric order or equality: false when either side is not a number.
    pub open spec fn lev(self, other: F32) -> bool {
        !self.nan() && !other.nan() && self.units() <= other.units()
    }
}

/// One pattern up is strictly more.
proof fn lemma_mag_step(mag: int)
    requires
        0 <= mag,
    ensures
        mag_units(mag) < mag_units(mag + 1),
{
    let b = BINADE as int;
    if mag + 1 == b {
        assert(pow2(0) == 1) by {
            lemma2_to64();
        }
        assert((b + 0) * 1 == b);
    } else if mag + 1 > b {
        let e = (mag / b - 1) as nat;
        let f = mag % b;
        lemma_pow2_pos(e);
        assert(mag_units(mag) == (b + f) * pow2(e));
        if f + 1 < b {
            assert((mag + 1) / b == mag / b && (mag + 1) % b == f + 1);
            assert(mag_units(mag + 1) == (b + f + 1) * pow2(e));
            assert((b + f) * pow2(e) < (b + f + 1) * pow2(e)) by (nonlinear_arith)
                requires
                    pow2(e) > 0,
            ;
        } else {
            assert((mag + 1) / b == mag / b + 1 && (mag + 1) % b == 0);
            assert(mag_units(mag + 1) == b * pow2(e + 1));
            lemma_pow2_unfold(e + 1);
            assert((b + f) * pow2(e) < b * (2 * pow2(e))) by (nonlinear_arith)
                requires
                    pow2(e) > 0,
                    f < b,
            ;
        }
    }
}

/// The value grows strictly with the magnitude pattern.
pub proof fn lemma_mag_monotone(a: int, b: int)
    requires
        0 <= a < b,
    ensures
        mag_units(a) < mag_units(b),
    decreases b - a,
{
    lemma_mag_step(b - 1);
    if a < b - 1 {
        lemma_mag_monotone(a, b - 1);
    }
}

impl F32 {
    /// The sign-magnitude pattern as an integer that grows with the value.
    spec fn key(self) -> int {
        if self.bits < SIGN { self.mag() } else { -self.mag() }
    }

    proof fn lemma_key(self, other: F32)
        ensures
            self.units() < other.units() <==> self.key() < other.key(),
            self.units() == other.units() <==> self.key() == other.key(),
    {
        let (a, b) = (self.mag(), other.mag());
        if a < b {
            lemma_mag_monotone(a, b);
        }
        if b < a {
            lemma_mag_monotone(b, a);
        }
        if 0 < a {
            lemma_mag_monotone(0, a);
        }
        if 0 < b {
            lemma_mag_monotone(0, b);
        }
    }

    fn key_of(self) -> (k: i64)
        ensures
            k == self.key(),
    {
        if self.bits < SIGN {
            self.bits as i64
        } else {
            -((self.bits - SIGN) as i64)
        }
    }

    /// The number with the given pattern.
    pub fn from_bits(bits: u32) -> (r: F32)
        ensures
            r.bits == bits,
    {
        F32 { bits }
    }

    /// Whether this is no number.
    pub fn is_nan(self) -> (r: bool)
        ensures
            r == self.nan(),
            r <==> 0x7f80_0000 < self.bits < 0x8000_0000 || 0xff80_0000 < self.bits,
    {
        if self.bits < SIGN {
            self.bits > INF_MAG
        } else {
            self.bits - SIGN > INF_MAG
        }
    }

    /// `self == other`, as numbers.
    pub fn num_eq(self, other: F32) -> (r: bool)
        ensures
            r == self.eqv(other),
            r <==> !self.nan() && !other.nan() && self.units() == other.units(),
    {
        proof {
            self.lemma_key(other);
        }
        !self.is_nan() && !other.is_nan() && self.key_of() == other.key_of()
    }

    /// `self < other`, as numbers.
    pub fn num_lt(self, other: F32) -> (r: bool)
        ensures
            r == self.ltv(other),
            r <==> !self.nan() && !other.nan() && self.units() < other.units(),
    {
        proof {
            self.lemma_key(other);
        }
        !self.is_nan() && !other.is_nan() && self.key_of() < other.key_of()
    }

    /// `self <= other`, as numbers.
    pub fn num_le(self, other: F32) -> (r: bool)
        ensures
            r == self.lev(other),
            r <==> !self.nan() && !other.nan() && self.units() <= other.units(),
    {
        proof {
            self.lemma_key(other);
        }
        !self.is_nan() && !other.is_nan() && self.key_of() <= other.key_of()
    }
}

impl F32 {
    /// `self == c`, as numbers, for the number with pattern `bits`.
    pub fn equals(self, bits: u32) -> (r: bool)
        ensures
            r == self.is_num(bits),
    {
        proof {
            reveal(F32::is_num);
        }
        self.num_eq(F32 { bits })
    }

    /// `self > 0`.
    pub fn is_positive(self) -> (r: bool)
        ensures
            r == self.positive(),
    {
        proof {
            reveal(F32::positive);
        }
        (F32 { bits: ZERO }).num_lt(self)
    }

    /// `self <= 0`.
    pub fn is_not_positive(self) -> (r: bool)
        ensures
            r == self.not_positive(),
    {
        proof {
            reveal(F32::not_positive);
        }
        self.num_le(F32 { bits: ZERO })
    }
}

/// What the named patterns stand for: zero, one half and one.
pub proof fn law_named_patterns()
    ensures
        (F32 { bits: ZERO }).units() == 0,
        (F32 { bits: HALF }).units() == pow2(148),
        (F32 { bits: ONE }).units() == pow2(149),
{
    lemma2_to64();
    lemma_pow2_adds(23, 125);
    lemma_pow2_adds(23, 126);
    assert((BINADE + 0) * pow2(125) == pow2(23) * pow2(125));
    assert((BINADE + 0) * pow2(126) == pow2(23) * pow2(126));
}

/// `==` compares as numbers: the two zeros are equal, and what is no number
/// equals nothing.
impl PartialEq for F32 {
    fn eq(&self, other: &F32) -> (r: bool) {
        self.num_eq(*other)
    }
}

impl vstd::std_specs::cmp::PartialEqSpecImpl for F32 {
    open spec fn obeys_eq_spec() -> bool {
        true
    }

    open spec fn eq_spec(&self, other: &F32) -> bool {
        self.eqv(*other)
    }
}

/// How a normal magnitude divides by a power of two, read off its two parts.
proof fn lemma_div_pow2(m: int, k: nat, s: nat)
    requires
        0 <= m,
    ensures
        pow2(s) > 0,
        s <= k ==> (m * pow2(k)) / pow2(s) as int == m * pow2((k - s) as nat),
        s <= k ==> (m * pow2(k)) % pow2(s) as int == 0,
        k < s ==> pow2((s - k) as nat) > 0,
        k < s ==> (m * pow2(k)) / pow2(s) as int == m / pow2((s - k) as nat) as int,
        k < s ==> ((m * pow2(k)) % pow2(s) as int == 0 <==> m % pow2((s - k) as nat) as int == 0),
{
    lemma_pow2_pos(s);
    lemma_pow2_pos(k);
    if s <= k {
        let d = (k - s) as nat;
        lemma_pow2_adds(d, s);
        let q = m * pow2(d);
        assert(m * pow2(k) == q * pow2(s)) by (nonlinear_arith)
            requires
                pow2(k) == pow2(d) * pow2(s),
                q == m * pow2(d),
        ;
        lemma_fundamental_div_mod_converse(m * pow2(k), pow2(s) as int, q, 0);
    } else {
        let d = (s - k) as nat;
        lemma_pow2_pos(d);
        lemma_pow2_adds(d, k);
        let (pk, pd, ps) = (pow2(k) as int, pow2(d) as int, pow2(s) as int);
        let (q, r) = (m / pd, m % pd);
        lemma_fundamental_div_mod(m, pd);
        assert(m * pk == q * ps + r * pk) by (nonlinear_arith)
            requires
                m == pd * q + r,
                ps == pd * pk,
        ;
        assert(0 <= r * pk < ps) by (nonlinear_arith)
            requires
                0 <= r < pd,
                0 < pk,
                ps == pd * pk,
        ;
        lemma_fundamental_div_mod_converse(m * pk, ps, q, r * pk);
        assert(r * pk == 0 <==> r == 0) by (nonlinear_arith)
            requires
                0 < pk,
        ;
    }
}

/// A magnitude divided by a power of two: the quotient, and whether it is exact.
fn mag_div(mag: u32, s: u32) -> (r: (u64, bool))
    requires
        24 <= s,
        mag / BINADE <= s + 32,
    ensures
        pow2(s as nat) > 0,
        r.0 == mag_units(mag as int) / pow2(s as nat) as int,
        r.1 == (mag_units(mag as int) % pow2(s as nat) as int == 0),
        r.0 < 0x200_0000_0000_0000,
{
    proof {
        lemma_pow2_pos(s as nat);
        lemma2_to64();
        lemma2_to64_rest();
    }
    if mag < BINADE {
        proof {
            if s > 24 {
                lemma_pow2_strictly_increases(24, s as nat);
            }
            lemma_small_mod(mag as nat, pow2(s as nat));
            lemma_basic_div(mag as int, pow2(s as nat) as int);
        }
        return (0, mag == 0);
    }
    let k: u32 = mag / BINADE - 1;
    let m: u64 = (BINADE + mag % BINADE) as u64;
    proof {
        lemma_div_pow2(m as int, k as nat, s as nat);
    }
    if s <= k {
        let d: u64 = (k - s) as u64;
        proof {
            if d < 31 {
                lemma_pow2_strictly_increases(d as nat, 31);
            }
            assert(m * pow2(d as nat) < 0x200_0000_0000_0000) by (nonlinear_arith)
                requires
                    m < 0x100_0000,
                    pow2(d as nat) <= 0x8000_0000,
            ;
            lemma_u64_shl_is_mul(m, d);
        }
        (m << d, true)
    } else if s - k >= 24 {
        let ghost d = (s - k) as nat;
        proof {
            if d > 24 {
                lemma_pow2_strictly_increases(24, d);
            }
            lemma_small_mod(m as nat, pow2(d));
            lemma_basic_div(m as int, pow2(d) as int);
        }
        (0, false)
    } else {
        let d: u64 = (s - k) as u64;
        proof {
            lemma_u64_shr_is_div(m, d);
            if d < 24 {
                lemma_pow2_strictly_increases(d as nat, 24);
            }
            lemma_u64_shl_is_mul(1, d);
        }
        let p: u64 = 1u64 << d;
        assert(m as int / pow2(d as nat) as int <= m) by {
            lemma_div_is_ordered_by_denominator(m as int, 1, pow2(d as nat) as int);
        }
        (m >> d, m % p == 0)
    }
}

/// `x` held to the range from `lo` to `hi`.
pub open spec fn clamped(x: int, lo: int, hi: int) -> int {
    if x < lo {
        lo
    } else if x > hi {
        hi
    } else {
        x
    }
}

impl F32 {
    /// The value with its fraction cut off; zero when this is no number.
    pub open spec fn trunc(self) -> int {
        if self.nan() {
            0
        } else if self.bits < SIGN {
            mag_units(self.mag()) / pow2(149) as int
        } else {
            -(mag_units(self.mag()) / pow2(149) as int)
        }
    }

    /// The nearest integer, halves away from zero; zero when this is no number.
    pub open spec fn round(self) -> int {
        if self.nan() {
            0
        } else if self.bits < SIGN {
            (mag_units(self.mag()) + pow2(148)) / pow2(149) as int
        } else {
            -((mag_units(self.mag()) + pow2(148)) / pow2(149) as int)
        }
    }

    /// The pattern without its sign bit.
    fn mag_of(self) -> (m: u32)
        ensures
            m == self.mag(),
    {
        if self.bits < SIGN {
            self.bits
        } else {
            self.bits - SIGN
        }
    }

    /// The value as an integer: the fraction is cut off, a value out of range
    /// goes to the nearer end of it, and what is no number becomes zero.
    pub fn to_i32(self) -> (r: i32)
        ensures
            r == clamped(self.trunc(), i32::MIN as int, i32::MAX as int),
    {
        if self.is_nan() {
            return 0;
        }
        let mag: u32 = self.mag_of();
        let negative: bool = self.bits >= SIGN;
        if mag >= 0x4f00_0000 {
            proof {
                lemma_mag_from_binade(mag as int, 158, 149);
                lemma2_to64();
            }
            return if negative { i32::MIN } else { i32::MAX };
        }
        let (q, _) = mag_div(mag, 149);
        proof {
            lemma_mag_below_binade(mag as int, 158, 149);
            lemma2_to64();
        }
        if negative {
            -(q as i32)
        } else {
            q as i32
        }
    }

    /// The nearest integer, halves away from zero, held to a small range; what is
    /// no number counts as zero.
    pub fn round_clamped(self, lo: u32, hi: u32) -> (r: u32)
        requires
            lo <= hi <= 0x7fff_ffff,
        ensures
            r == clamped(self.round(), lo as int, hi as int),
    {
        if self.is_nan() {
            return lo;
        }
        let mag: u32 = self.mag_of();
        proof {
            lemma_round(mag as int);
        }
        if self.bits >= SIGN {
            return lo;
        }
        if mag >= 0x4f00_0000 {
            proof {
                lemma_mag_from_binade(mag as int, 158, 148);
                lemma2_to64();
            }
            return hi;
        }
        let (q, _) = mag_div(mag, 148);
        let n: u64 = (q + 1) / 2;
        if n < lo as u64 {
            lo
        } else if n > hi as u64 {
            hi
        } else {
            n as u32
        }
    }

    /// Whether `high - low`, computed in single precision, comes to one or more.
    ///
    /// The difference is rounded to nearest, ties to even, and one is the even
    /// neighbour of the largest number below it; so the exact difference need only
    /// reach halfway between the two.
    #[verifier::opaque]
    pub open spec fn spans_one(low: F32, high: F32) -> bool {
        !low.nan() && !high.nan() && high.units() - low.units() >= pow2(149) - pow2(124)
    }

    /// `high - low >= 1` in single precision.
    pub fn reaches_one(low: F32, high: F32) -> (r: bool)
        ensures
            r == F32::spans_one(low, high),
            r <==> !low.nan() && !high.nan() && high.units() - low.units() >= pow2(149) - pow2(124),
    {
        proof {
            reveal(F32::spans_one);
        }
        if low.is_nan() || high.is_nan() {
            return false;
        }
        let (lm, hm) = (low.mag_of(), high.mag_of());
        if lm >= 0x4b80_0000 || hm >= 0x4b80_0000 {
            proof {
                lemma_far_apart(low, high);
            }
            return low.num_lt(high);
        }
        let (lq, lx) = mag_div(lm, 124);
        let (hq, hx) = mag_div(hm, 124);
        // `high` divided by two to the 124, rounded down; `low`, rounded up.
        let hf: i64 = if high.bits < SIGN {
            hq as i64
        } else if hx {
            -(hq as i64)
        } else {
            -(hq as i64) - 1
        };
        let lc: i64 = if low.bits >= SIGN {
            -(lq as i64)
        } else if lx {
            lq as i64
        } else {
            lq as i64 + 1
        };
        proof {
            lemma_near(low, high, hf as int, lc as int);
        }
        hf - lc >= 0x1ff_ffff
    }
}

/// From binade `e` on, a magnitude is at least that binade's first number.
proof fn lemma_mag_from_binade(mag: int, e: nat, s: nat)
    requires
        mag >= e * BINADE,
        s + 1 <= e,
    ensures
        pow2(s) > 0,
        mag_units(mag) >= BINADE * pow2((e - 1) as nat),
        mag_units(mag) / pow2(s) as int >= BINADE * pow2((e - 1 - s) as nat),
{
    let b = BINADE as int;
    lemma_pow2_pos(s);
    if mag > e * b {
        lemma_mag_monotone(e * b, mag);
    }
    assert((e * b) / b == e && (e * b) % b == 0);
    assert(mag_units(e * b) == b * pow2((e - 1) as nat));
    lemma_div_pow2(b, (e - 1) as nat, s);
    lemma_div_is_ordered(b * pow2((e - 1) as nat), mag_units(mag), pow2(s) as int);
}

/// Below binade `e`, a magnitude stays under that binade's first number.
proof fn lemma_mag_below_binade(mag: int, e: nat, s: nat)
    requires
        0 <= mag < e * BINADE,
        s + 1 <= e,
    ensures
        pow2(s) > 0,
        mag_units(mag) < BINADE * pow2((e - 1) as nat),
        mag_units(mag) / (pow2(s) as int) < BINADE * pow2((e - 1 - s) as nat),
{
    let b = BINADE as int;
    lemma_pow2_pos(s);
    lemma_mag_monotone(mag, e * b);
    assert((e * b) / b == e && (e * b) % b == 0);
    assert(mag_units(e * b) == b * pow2((e - 1) as nat));
    lemma_div_pow2(b, (e - 1) as nat, s);
    let (u, p, n) = (mag_units(mag), pow2(s) as int, b * pow2((e - 1 - s) as nat));
    lemma_fundamental_div_mod(b * pow2((e - 1) as nat), p);
    lemma_fundamental_div_mod(u, p);
    assert(u / p < n) by (nonlinear_arith)
        requires
            u == p * (u / p) + u % p,
            0 <= u % p,
            u < p * n,
            p > 0,
    ;
}

/// Rounding to nearest, by way of twice the value.
proof fn lemma_round(mag: int)
    requires
        0 <= mag,
    ensures
        pow2(148) > 0,
        pow2(149) > 0,
        mag_units(mag) >= 0,
        (mag_units(mag) + pow2(148)) / pow2(149) as int == (mag_units(mag) / pow2(148) as int + 1)
            / 2,
{
    let u = mag_units(mag);
    let p = pow2(148) as int;
    lemma_pow2_pos(148);
    lemma_pow2_pos(149);
    lemma_pow2_unfold(149);
    if mag > 0 {
        lemma_mag_monotone(0, mag);
    }
    lemma_div_denominator(u + p, p, 2);
    lemma_fundamental_div_mod(u, p);
    assert(u + p == (u / p + 1) * p + u % p) by (nonlinear_arith)
        requires
            u == p * (u / p) + u % p,
    ;
    lemma_fundamental_div_mod_converse(u + p, p, u / p + 1, u % p);
}

/// Two numbers of which one is huge differ by a lot or not at all.
proof fn lemma_far_apart(low: F32, high: F32)
    requires
        low.mag() >= 0x4b80_0000 || high.mag() >= 0x4b80_0000,
    ensures
        low.units() < high.units() <==> high.units() - low.units() >= pow2(149) - pow2(124),
{
    lemma_pow2_strictly_increases(124, 149);
    let (a, b) = (low.mag(), high.mag());
    low.lemma_key(high);
    if low.units() < high.units() {
        if a > 0 {
            lemma_mag_monotone(0, a);
        }
        if b > 0 {
            lemma_mag_monotone(0, b);
        }
        if a < b {
            lemma_wide_step(a, b);
        } else if b < a {
            lemma_wide_step(b, a);
        } else {
            lemma_mag_from_binade(a, 151, 149);
            lemma2_to64();
            lemma_pow2_unfold(150);
            assert(BINADE * pow2(150) >= pow2(149)) by (nonlinear_arith)
                requires
                    pow2(150) >= pow2(149),
                    BINADE >= 1,
            ;
        }
    }
    lemma_pow2_pos(149);
}

/// In the huge binades one step of the pattern is at least two to the 149 units.
proof fn lemma_wide_step(a: int, b: int)
    requires
        0 <= a < b,
        b >= 0x4b80_0000,
    ensures
        mag_units(b) - mag_units(a) >= pow2(149),
{
    let n = BINADE as int;
    let m = b - 1;
    let e = (m / n - 1) as nat;
    let f = m % n;
    assert(e >= 149);
    lemma_pow2_pos(e);
    if e > 149 {
        lemma_pow2_strictly_increases(149, e);
    }
    assert(mag_units(m) == (n + f) * pow2(e));
    if f + 1 < n {
        assert(b / n == m / n && b % n == f + 1);
        assert(mag_units(b) == (n + f + 1) * pow2(e));
        assert((n + f + 1) * pow2(e) == (n + f) * pow2(e) + pow2(e)) by (nonlinear_arith);
    } else {
        assert(b / n == m / n + 1 && b % n == 0);
        assert(mag_units(b) == n * pow2(e + 1));
        lemma_pow2_unfold(e + 1);
        assert(n * (2 * pow2(e)) == (n + f) * pow2(e) + pow2(e)) by (nonlinear_arith)
            requires
                f + 1 == n,
        ;
    }
    if a < m {
        lemma_mag_monotone(a, m);
    }
}

/// Away from the huge binades the quotients by two to the 124 decide.
proof fn lemma_near(low: F32, high: F32, hf: int, lc: int)
    requires
        low.mag() < 0x4b80_0000,
        high.mag() < 0x4b80_0000,
        pow2(124) > 0,
        high.bits < SIGN ==> hf == mag_units(high.mag()) / pow2(124) as int,
        high.bits >= SIGN ==> hf == -(mag_units(high.mag()) / pow2(124) as int) - (if mag_units(
            high.mag(),
        ) % pow2(124) as int == 0 {
            0int
        } else {
            1
        }),
        low.bits >= SIGN ==> lc == -(mag_units(low.mag()) / pow2(124) as int),
        low.bits < SIGN ==> lc == mag_units(low.mag()) / pow2(124) as int + (if mag_units(
            low.mag(),
        ) % pow2(124) as int == 0 {
            0int
        } else {
            1
        }),
    ensures
        hf - lc >= 0x1ff_ffff <==> high.units() - low.units() >= pow2(149) - pow2(124),
{
    let p = pow2(124) as int;
    let n = BINADE as int;
    let (hu, lu) = (mag_units(high.mag()), mag_units(low.mag()));
    lemma_pow2_adds(25, 124);
    lemma2_to64();
    assert(pow2(149) == 0x200_0000 * p);
    lemma_fundamental_div_mod(hu, p);
    lemma_fundamental_div_mod(lu, p);
    // What the two roundings left out, each at least zero and under one divisor.
    let hr = high.units() - hf * p;
    let lr = lc * p - low.units();
    assert(0 <= hr < p) by (nonlinear_arith)
        requires
            hr == high.units() - hf * p,
            hu == p * (hu / p) + hu % p,
            0 <= hu % p < p,
            (high.units() == hu && hf == hu / p) || (high.units() == -hu && hu % p == 0 && hf == -(hu
                / p)) || (high.units() == -hu && hu % p != 0 && hf == -(hu / p) - 1),
    ;
    assert(0 <= lr < p) by (nonlinear_arith)
        requires
            lr == lc * p - low.units(),
            lu == p * (lu / p) + lu % p,
            0 <= lu % p < p,
            (low.units() == -lu && lc == -(lu / p)) || (low.units() == lu && lu % p == 0 && lc == lu
                / p) || (low.units() == lu && lu % p != 0 && lc == lu / p + 1),
    ;
    let d = hf - lc;
    assert(high.units() - low.units() == d * p + hr + lr) by (nonlinear_arith)
        requires
            hr == high.units() - hf * p,
            lr == lc * p - low.units(),
            d == hf - lc,
    ;
    if hu % p == 0 || lu % p == 0 {
        assert(hr == 0 || lr == 0) by (nonlinear_arith)
            requires
                hr == high.units() - hf * p,
                lr == lc * p - low.units(),
                hu == p * (hu / p) + hu % p,
                lu == p * (lu / p) + lu % p,
                (hu % p == 0 && ((high.units() == hu && hf == hu / p) || (high.units() == -hu && hf
                    == -(hu / p)))) || (lu % p == 0 && ((low.units() == -lu && lc == -(lu / p)) || (
                low.units() == lu && lc == lu / p))),
        ;
        assert(d >= 0x1ff_ffff <==> d * p + hr + lr >= 0x1ff_ffff * p) by (nonlinear_arith)
            requires
                0 <= hr < p,
                0 <= lr < p,
                hr == 0 || lr == 0,
        ;
    } else {
        // Neither is a multiple, so both are small and their distance is too.
        lemma_fraction_is_small(high.mag());
        lemma_fraction_is_small(low.mag());
        assert(d < 0x1ff_ffff && d * p + hr + lr < 0x1ff_ffff * p) by (nonlinear_arith)
            requires
                d * p + hr + lr == high.units() - low.units(),
                high.units() <= hu,
                low.units() >= -lu,
                hu < 0x80_0000 * p,
                lu < 0x80_0000 * p,
                0 <= hr,
                0 <= lr,
                p > 0,
        ;
    }
}

/// A magnitude that two to the 124 does not divide lies below its 23rd doubling.
proof fn lemma_fraction_is_small(mag: int)
    requires
        0 <= mag,
        pow2(124) > 0,
        mag_units(mag) % pow2(124) as int != 0,
    ensures
        0 <= mag_units(mag) < 0x80_0000 * pow2(124),
{
    let n = BINADE as int;
    if mag > 0 {
        lemma_mag_monotone(0, mag);
    }
    if mag >= 125 * n {
        lemma_div_pow2(n + mag % n, (mag / n - 1) as nat, 124);
    } else {
        lemma_mag_below_binade(mag, 125, 124);
    }
}

/// Whether a pattern carries the sign is whether its value is below zero, or it is the
/// negative zero.
proof fn lemma_sign(x: F32)
    ensures
        mag_units(x.mag()) >= 0,
        x.bits < SIGN ==> x.units() == mag_units(x.mag()) && x.units() >= 0,
        x.bits >= SIGN ==> x.units() == -mag_units(x.mag()) && x.units() <= 0,
{
    if x.mag() > 0 {
        lemma_mag_monotone(0, x.mag());
    }
}

/// Rounding gives the nearest integer; of two equally near ones, that farther from zero.
/// What is no number rounds to zero.
pub proof fn law_round_is_the_nearest(x: F32)
    ensures
        pow2(149) > 0,
        x.nan() ==> x.round() == 0,
        !x.nan() ==> 2 * (x.round() * pow2(149) - x.units()) <= pow2(149),
        !x.nan() ==> 2 * (x.units() - x.round() * pow2(149)) <= pow2(149),
        !x.nan() && x.units() >= 0 ==> 2 * (x.units() - x.round() * pow2(149)) < pow2(149),
        !x.nan() && x.units() <= 0 ==> 2 * (x.round() * pow2(149) - x.units()) < pow2(149),
{
    lemma_sign(x);
    lemma_pow2_pos(149);
    lemma_pow2_unfold(149);
    let (u, p, h) = (mag_units(x.mag()), pow2(149) as int, pow2(148) as int);
    let q = (u + h) / p;
    lemma_fundamental_div_mod(u + h, p);
    assert(u == 0 ==> q == 0) by (nonlinear_arith)
        requires
            u + h == p * q + (u + h) % p,
            0 <= (u + h) % p < p,
            0 <= h < p,
    ;
    assert(q * p == p * q) by (nonlinear_arith);
    assert((-q) * p == -(q * p)) by (nonlinear_arith);
}

/// Cutting off the fraction never leaves more than the number, and less than one of it
/// behind; the sign is kept. What is no number becomes zero.
pub proof fn law_trunc_cuts_the_fraction(x: F32)
    ensures
        pow2(149) > 0,
        x.nan() ==> x.trunc() == 0,
        !x.nan() && x.units() >= 0 ==> 0 <= x.units() - x.trunc() * pow2(149) < pow2(149),
        !x.nan() && x.units() <= 0 ==> 0 <= x.trunc() * pow2(149) - x.units() < pow2(149),
{
    lemma_sign(x);
    lemma_pow2_pos(149);
    let (u, p) = (mag_units(x.mag()), pow2(149) as int);
    let q = u / p;
    lemma_fundamental_div_mod(u, p);
    assert(q * p == p * q) by (nonlinear_arith);
    assert((-q) * p == -(q * p)) by (nonlinear_arith);
    assert(u == 0 ==> q == 0) by (nonlinear_arith)
        requires
            u == p * q + u % p,
            0 <= u % p < p,
    ;
}

/// A number equals the one with a given pattern where both are numbers of one value; it is
/// positive where it is a number above zero.
pub proof fn law_comparing_with_a_pattern(x: F32, bits: u32)
    ensures
        x.is_num(bits) <==> !x.nan() && !(F32 { bits }).nan() && x.units() == (F32 {
            bits,
        }).units(),
        x.positive() <==> !x.nan() && x.units() > 0,
        x.not_positive() <==> !x.nan() && x.units() <= 0,
        x.nan() <==> 0x7f80_0000 < x.bits < 0x8000_0000 || 0xff80_0000 < x.bits,
{
    reveal(F32::is_num);
    reveal(F32::positive);
    reveal(F32::not_positive);
}

/// The value of a pattern, from its sign, its exponent and its fraction: a fraction without a
/// leading one where the exponent is zero, and else one with it, doubled with each step of
/// the exponent.
pub proof fn law_value_of_a_pattern(negative: bool, exponent: u32, fraction: u32, x: F32)
    requires
        exponent < 256,
        fraction < 0x80_0000,
        x.bits == (if negative {
            0x8000_0000int
        } else {
            0
        }) + 0x80_0000 * exponent + fraction,
    ensures
        exponent == 0 ==> x.units() == if negative {
            -fraction
        } else {
            fraction as int
        },
        exponent > 0 ==> x.units() == if negative {
            -((0x80_0000 + fraction) * pow2((exponent - 1) as nat))
        } else {
            (0x80_0000 + fraction) * pow2((exponent - 1) as nat)
        },
{
    lemma_fundamental_div_mod_converse(
        x.mag(),
        BINADE as int,
        exponent as int,
        fraction as int,
    );
}

} // verus!
