//! IEEE 754 double-precision numbers as bit patterns, in integer arithmetic.
//!
//! A reading of the device is a double. It is held here as the `u64` of its bit
//! pattern, and every operation on it (rounding, printing, comparing) is exact
//! integer arithmetic on significand and exponent.

use vstd::arithmetic::div_mod::*;
use vstd::arithmetic::mul::*;
use vstd::arithmetic::power2::*;
use vstd::prelude::*;
use crate::text;

verus! {

/// 2^52, the first significand of a normal number.
pub const HIDDEN: u64 = 0x10_0000_0000_0000;

/// 2^63, the sign bit.
pub const SIGN: u64 = 0x8000_0000_0000_0000;

// ---------------------------------------------------------------------------
// the number that a pattern stands for
// ---------------------------------------------------------------------------

pub open spec fn negative(b: u64) -> bool {
    b >= SIGN
}

pub open spec fn exponent_field(b: u64) -> int {
    (b as int / 0x10_0000_0000_0000) % 2048
}

pub open spec fn fraction_field(b: u64) -> int {
    b as int % 0x10_0000_0000_0000
}

pub open spec fn finite(b: u64) -> bool {
    exponent_field(b) != 2047
}

pub open spec fn nan(b: u64) -> bool {
    exponent_field(b) == 2047 && fraction_field(b) != 0
}

/// The magnitude of a finite number is `significand * 2^exponent`.
pub open spec fn significand(b: u64) -> nat {
    if exponent_field(b) == 0 {
        fraction_field(b) as nat
    } else {
        (fraction_field(b) + HIDDEN) as nat
    }
}

pub open spec fn exponent(b: u64) -> int {
    if exponent_field(b) == 0 {
        -1074
    } else {
        exponent_field(b) - 1075
    }
}

/// Sign, significand and exponent of a finite number.
pub struct Parts {
    pub negative: bool,
    pub significand: u64,
    pub exponent: i32,
}

pub fn is_finite(b: u64) -> (r: bool)
    ensures
        r == finite(b),
{
    (b / HIDDEN) % 2048 != 2047
}

pub fn is_nan(b: u64) -> (r: bool)
    ensures
        r == nan(b),
{
    (b / HIDDEN) % 2048 == 2047 && b % HIDDEN != 0
}

/// The pattern that stands for what is not a number.
pub const NOT_A_NUMBER: u64 = 0x7FF8_0000_0000_0000;

/// Whether two patterns, if any, stand for the same double. All that are not
/// numbers are alike.
pub open spec fn same_double(a: Option<u64>, b: Option<u64>) -> bool {
    match (a, b) {
        (Some(x), Some(y)) => x == y || (nan(x) && nan(y)),
        (None, None) => true,
        _ => false,
    }
}

/// A pattern, with one for all that are not numbers.
pub open spec fn settled(b: Option<u64>) -> Option<u64> {
    match b {
        Some(x) => if nan(x) {
            Some(NOT_A_NUMBER)
        } else {
            Some(x)
        },
        None => None,
    }
}

pub fn settle(b: Option<u64>) -> (r: Option<u64>)
    ensures
        r == settled(b),
{
    match b {
        Some(x) => if is_nan(x) {
            Some(NOT_A_NUMBER)
        } else {
            Some(x)
        },
        None => None,
    }
}

pub fn parts(b: u64) -> (r: Parts)
    ensures
        r.negative == negative(b),
        r.significand == significand(b),
        r.exponent == exponent(b),
        r.significand < 2 * HIDDEN,
        -1074 <= r.exponent <= 972,
        r.exponent >= 0 ==> r.significand >= HIDDEN,
{
    let field: u64 = (b / HIDDEN) % 2048;
    let fraction: u64 = b % HIDDEN;
    if field == 0 {
        Parts { negative: b >= SIGN, significand: fraction, exponent: -1074 }
    } else {
        Parts {
            negative: b >= SIGN,
            significand: fraction + HIDDEN,
            exponent: field as i32 - 1075,
        }
    }
}

/// 2^k.
pub fn power(k: u32) -> (r: u128)
    requires
        k < 127,
    ensures
        r == pow2(k as nat),
        r < 0x8000_0000_0000_0000_0000_0000_0000_0000,
{
    let mut p: u128 = 1;
    let mut i: u32 = 0;
    proof {
        lemma2_to64();
        lemma_pow2_strictly_increases(k as nat, 127);
        assert(pow2(127) == 0x8000_0000_0000_0000_0000_0000_0000_0000) by {
            lemma_pow2_adds(63, 64);
            lemma2_to64_rest();
        }
    }
    while i < k
        invariant
            i <= k < 127,
            p == pow2(i as nat),
            pow2(k as nat) < 0x8000_0000_0000_0000_0000_0000_0000_0000,
        decreases k - i,
    {
        proof {
            lemma_pow2_unfold((i + 1) as nat);
            if i + 1 < k {
                lemma_pow2_strictly_increases((i + 1) as nat, k as nat);
            }
        }
        p = 2 * p;
        i = i + 1;
    }
    p
}

// ---------------------------------------------------------------------------
// rounding to an integer
// ---------------------------------------------------------------------------

/// The magnitude of a finite number rounded to an integer, halves away from
/// zero.
pub open spec fn rounded_magnitude(b: u64) -> nat {
    let (m, e) = (significand(b), exponent(b));
    if e >= 0 {
        m * pow2(e as nat)
    } else {
        (2 * m + pow2((-e) as nat)) / (2 * pow2((-e) as nat))
    }
}

/// The magnitude of a finite number without its fraction.
pub open spec fn truncated_magnitude(b: u64) -> nat {
    let (m, e) = (significand(b), exponent(b));
    if e >= 0 {
        m * pow2(e as nat)
    } else {
        m / pow2((-e) as nat)
    }
}

/// The `i64` nearest to a number of the given sign and magnitude.
pub open spec fn saturated(negative: bool, magnitude: nat) -> i64 {
    if negative {
        if magnitude > SIGN {
            i64::MIN
        } else {
            (-magnitude) as i64
        }
    } else if magnitude > i64::MAX {
        i64::MAX
    } else {
        magnitude as i64
    }
}

/// What `x.round() as i64` gives.
pub open spec fn rounded_of(b: u64) -> i64 {
    if nan(b) {
        0
    } else if !finite(b) {
        saturated(negative(b), 0x1_0000_0000_0000_0000)
    } else {
        saturated(negative(b), rounded_magnitude(b))
    }
}

/// What `x as i64` gives.
pub open spec fn truncated_of(b: u64) -> i64 {
    if nan(b) {
        0
    } else if !finite(b) {
        saturated(negative(b), 0x1_0000_0000_0000_0000)
    } else {
        saturated(negative(b), truncated_magnitude(b))
    }
}

/// What `x as u64` gives.
pub open spec fn truncated_unsigned_of(b: u64) -> u64 {
    if nan(b) || negative(b) {
        0
    } else if !finite(b) || truncated_magnitude(b) > u64::MAX {
        u64::MAX
    } else {
        truncated_magnitude(b) as u64
    }
}

fn saturate(negative: bool, magnitude: u128) -> (r: i64)
    ensures
        r == saturated(negative, magnitude as nat),
{
    if negative {
        if magnitude >= SIGN as u128 {
            i64::MIN
        } else {
            (-(magnitude as i128)) as i64
        }
    } else if magnitude > i64::MAX as u128 {
        i64::MAX
    } else {
        magnitude as i64
    }
}

/// `significand * 2^e`, or 2^64 where that is larger.
fn scaled_up(m: u64, e: u32) -> (r: u128)
    requires
        HIDDEN <= m < 2 * HIDDEN,
        e <= 972,
    ensures
        r == m * pow2(e as nat) || (r == 0x1_0000_0000_0000_0000 && m * pow2(e as nat) >= r),
{
    if e > 11 {
        proof {
            lemma2_to64();
            if e > 12 {
                lemma_pow2_strictly_increases(12, e as nat);
            }
            assert(m * pow2(e as nat) >= 0x1_0000_0000_0000_0000) by (nonlinear_arith)
                requires
                    m >= 0x10_0000_0000_0000,
                    pow2(e as nat) >= 4096,
            ;
        }
        0x1_0000_0000_0000_0000
    } else {
        proof {
            lemma2_to64();
            if e < 11 {
                lemma_pow2_strictly_increases(e as nat, 11);
            }
            assert(m * pow2(e as nat) <= 0x20_0000_0000_0000 * 2048) by (nonlinear_arith)
                requires
                    m <= 0x20_0000_0000_0000,
                    pow2(e as nat) <= 2048,
            ;
        }
        m as u128 * power(e)
    }
}

pub proof fn lemma_pow2_beyond(k: nat)
    requires
        k >= 64,
    ensures
        pow2(k) >= 0x1_0000_0000_0000_0000,
{
    lemma2_to64_rest();
    if k > 64 {
        lemma_pow2_strictly_increases(64, k);
    }
}

pub proof fn lemma_pow2_below(k: nat)
    requires
        k < 64,
    ensures
        1 <= pow2(k) <= 0x8000_0000_0000_0000,
{
    lemma_pow2_pos(k);
    lemma2_to64_rest();
    if k < 63 {
        lemma_pow2_strictly_increases(k, 63);
    }
}

pub fn rounded(b: u64) -> (r: i64)
    ensures
        r == rounded_of(b),
{
    if is_nan(b) {
        return 0;
    }
    if !is_finite(b) {
        return saturate(b >= SIGN, 0x1_0000_0000_0000_0000);
    }
    let p = parts(b);
    let magnitude: u128 = if p.exponent >= 0 {
        scaled_up(p.significand, p.exponent as u32)
    } else {
        let k: u32 = (-p.exponent) as u32;
        if k >= 64 {
            proof {
                lemma_pow2_beyond(k as nat);
                lemma_basic_div((2 * significand(b) + pow2(k as nat)) as int, (2 * pow2(k as nat)) as int);
            }
            0
        } else {
            proof {
                lemma_pow2_below(k as nat);
            }
            let q = power(k);
            (2 * p.significand as u128 + q) / (2 * q)
        }
    };
    saturate(p.negative, magnitude)
}

fn truncated_size(b: u64) -> (r: u128)
    requires
        finite(b),
    ensures
        r == truncated_magnitude(b) || (r == 0x1_0000_0000_0000_0000 && truncated_magnitude(b) >= r),
{
    let p = parts(b);
    if p.exponent >= 0 {
        scaled_up(p.significand, p.exponent as u32)
    } else {
        let k: u32 = (-p.exponent) as u32;
        if k >= 64 {
            proof {
                lemma_pow2_beyond(k as nat);
                lemma_basic_div(significand(b) as int, pow2(k as nat) as int);
            }
            0
        } else {
            proof {
                lemma_pow2_below(k as nat);
            }
            p.significand as u128 / power(k)
        }
    }
}

pub fn truncated(b: u64) -> (r: i64)
    ensures
        r == truncated_of(b),
{
    if is_nan(b) {
        0
    } else if !is_finite(b) {
        saturate(b >= SIGN, 0x1_0000_0000_0000_0000)
    } else {
        saturate(b >= SIGN, truncated_size(b))
    }
}

pub fn truncated_unsigned(b: u64) -> (r: u64)
    ensures
        r == truncated_unsigned_of(b),
{
    if is_nan(b) || b >= SIGN {
        0
    } else if !is_finite(b) {
        u64::MAX
    } else {
        let n = truncated_size(b);
        if n > u64::MAX as u128 {
            u64::MAX
        } else {
            n as u64
        }
    }
}

// ---------------------------------------------------------------------------
// printing with a fixed number of decimals
// ---------------------------------------------------------------------------

/// The integer nearest to `n / d`; of two at the same distance the even one.
pub open spec fn nearest_even(n: nat, d: nat) -> nat {
    let (q, r) = (n / d, n % d);
    if 2 * r < d || (2 * r == d && q % 2 == 0) {
        q
    } else {
        q + 1
    }
}

pub fn round_even(n: u128, d: u128) -> (r: u128)
    requires
        0 < d,
        n < u128::MAX,
        d <= u128::MAX / 2,
    ensures
        r == nearest_even(n as nat, d as nat),
{
    let q = n / d;
    let rest = n % d;
    proof {
        lemma_fundamental_div_mod(n as int, d as int);
        lemma_mod_bound(n as int, d as int);
        lemma_div_is_ordered_by_denominator(n as int, 1, d as int);
    }
    if 2 * rest < d || (2 * rest == d && q % 2 == 0) {
        q
    } else {
        q + 1
    }
}

/// 10^decimals, for up to two decimals.
pub open spec fn tens(decimals: int) -> nat {
    if decimals == 0 {
        1
    } else if decimals == 1 {
        10
    } else {
        100
    }
}

/// The magnitude of a finite number in units of its last printed decimal.
pub open spec fn scaled_magnitude(b: u64, decimals: int) -> nat {
    let (m, e) = (significand(b), exponent(b));
    if e >= 0 {
        m * pow2(e as nat) * tens(decimals)
    } else {
        nearest_even(m * tens(decimals), pow2((-e) as nat))
    }
}

/// `n` units of the last decimal, with the decimal point set.
pub open spec fn with_point(n: nat, decimals: int) -> Seq<char> {
    if decimals == 0 {
        text::dec(n)
    } else if decimals == 1 {
        text::dec(n / 10) + "."@ + text::dec(n % 10)
    } else {
        text::dec(n / 100) + "."@ + text::dec2(n % 100)
    }
}

/// What `format!("{:.0}", x)`, `{:.1}` and `{:.2}` print.
pub open spec fn fixed_text(b: u64, decimals: int) -> Seq<char> {
    if nan(b) {
        "NaN"@
    } else {
        let magnitude = if finite(b) {
            with_point(scaled_magnitude(b, decimals), decimals)
        } else {
            "inf"@
        };
        if negative(b) {
            "-"@ + magnitude
        } else {
            magnitude
        }
    }
}

/// The number that decimal digits, the lowest first, stand for.
spec fn low_first(v: Seq<u8>) -> nat
    decreases v.len(),
{
    if v.len() == 0 {
        0
    } else {
        v[0] as nat + 10 * low_first(v.skip(1))
    }
}

spec fn decimal(v: Seq<u8>) -> bool {
    forall|i: int| 0 <= i < v.len() ==> #[trigger] v[i] < 10
}

/// The digits of `v`, the highest first.
spec fn high_first(v: Seq<u8>) -> Seq<char>
    decreases v.len(),
{
    if v.len() == 0 {
        seq![]
    } else {
        high_first(v.skip(1)).push(text::digit(v[0] as int))
    }
}

proof fn lemma_digits_text(v: Seq<u8>)
    requires
        decimal(v),
        v.len() > 0,
        v.last() > 0,
    ensures
        high_first(v) == text::dec(low_first(v)),
        low_first(v) > 0,
    decreases v.len(),
{
    let rest = v.skip(1);
    if v.len() == 1 {
        assert(low_first(rest) == 0);
        assert(high_first(rest) == Seq::<char>::empty());
        assert(high_first(v) == seq![text::digit(v[0] as int)]);
    } else {
        assert(rest.last() == v.last());
        assert forall|i: int| 0 <= i < rest.len() implies #[trigger] rest[i] < 10 by {
            assert(rest[i] == v[i + 1]);
        }
        lemma_digits_text(rest);
        let n = low_first(v);
        assert(n / 10 == low_first(rest));
        assert(n % 10 == v[0]);
    }
}

/// Appending a digit above the highest adds it at its weight.
proof fn lemma_low_first_push(v: Seq<u8>, d: u8)
    ensures
        low_first(v.push(d)) == low_first(v) + d * ten_power(v.len()),
    decreases v.len(),
{
    reveal_with_fuel(low_first, 2);
    if v.len() == 0 {
        assert(low_first(v.push(d).skip(1)) == 0);
        assert(ten_power(0) == 1);
        assert(d * ten_power(0) == d);
    } else {
        lemma_low_first_push(v.skip(1), d);
        assert(v.push(d).skip(1) == v.skip(1).push(d));
        assert(10 * (d * ten_power((v.len() - 1) as nat)) == d * ten_power(v.len()))
            by (nonlinear_arith)
            requires
                ten_power(v.len()) == 10 * ten_power((v.len() - 1) as nat),
        ;
    }
}

spec fn ten_power(n: nat) -> nat
    decreases n,
{
    if n == 0 {
        1
    } else {
        10 * ten_power((n - 1) as nat)
    }
}

/// Doubles a number held as decimal digits, the lowest first.
fn twice(v: &Vec<u8>) -> (r: Vec<u8>)
    requires
        decimal(v@),
        v@.len() > 0,
        v@.last() > 0,
    ensures
        decimal(r@),
        r@.len() > 0,
        r@.last() > 0,
        low_first(r@) == 2 * low_first(v@),
{
    let mut out: Vec<u8> = Vec::new();
    let mut carry: u8 = 0;
    let mut i: usize = 0;
    proof {
        assert(v@.take(0) =~= Seq::<u8>::empty());
        reveal_with_fuel(low_first, 1);
    }
    while i < v.len()
        invariant
            i <= v@.len(),
            out@.len() == i,
            decimal(v@),
            decimal(out@),
            carry <= 1,
            v@.len() > 0,
            v@.last() > 0,
            low_first(out@) + carry * ten_power(i as nat) == 2 * low_first(v@.take(i as int)),
            i == v@.len() ==> out@.last() > 0 || carry > 0,
        decreases v@.len() - i,
    {
        let d: u8 = v[i];
        let t: u8 = 2 * d + carry;
        let low: u8 = t % 10;
        let up: u8 = t / 10;
        proof {
            lemma_low_first_push(out@, low);
            lemma_low_first_push(v@.take(i as int), d);
            assert(v@.take(i + 1) == v@.take(i as int).push(d));
            let w = ten_power(i as nat) as int;
            assert(ten_power((i + 1) as nat) == 10 * w);
            assert(low * w + up * (10 * w) == 2 * (d * w) + carry * w) by (nonlinear_arith)
                requires
                    low + 10 * up == 2 * d + carry,
            ;
        }
        out.push(low);
        carry = up;
        i = i + 1;
    }
    assert(v@.take(v@.len() as int) == v@);
    if carry > 0 {
        proof {
            lemma_low_first_push(out@, carry);
        }
        out.push(carry);
    }
    out
}

/// The decimal digits of `m * 2^e`.
fn dec_shifted(m: u64, e: u32) -> (r: String)
    requires
        m > 0,
    ensures
        r@ == text::dec((m * pow2(e as nat)) as nat),
{
    let mut v: Vec<u8> = Vec::new();
    let mut n: u64 = m;
    proof {
        assert(ten_power(0) == 1);
        assert(n * ten_power(0) == n);
    }
    while n > 0
        invariant
            decimal(v@),
            n > 0 || (v@.len() > 0 && v@.last() > 0),
            low_first(v@) + n * ten_power(v@.len()) == m,
        decreases n,
    {
        let d: u8 = (n % 10) as u8;
        proof {
            lemma_low_first_push(v@, d);
            let w = ten_power(v@.len()) as int;
            assert(ten_power((v@.len() + 1) as nat) == 10 * w);
            assert(n * w == d * w + (n as int / 10) * (10 * w)) by (nonlinear_arith)
                requires
                    d == n as int % 10,
            ;
        }
        v.push(d);
        n = n / 10;
    }
    proof {
        assert(0 * ten_power(v@.len()) == 0);
        lemma2_to64();
        assert(m * pow2(0) == m);
    }
    let mut i: u32 = 0;
    while i < e
        invariant
            i <= e,
            decimal(v@),
            v@.len() > 0,
            v@.last() > 0,
            low_first(v@) == m * pow2(i as nat),
        decreases e - i,
    {
        proof {
            lemma_pow2_unfold((i + 1) as nat);
            assert(2 * (m * pow2(i as nat)) == m * (2 * pow2(i as nat))) by (nonlinear_arith);
        }
        v = twice(&v);
        i = i + 1;
    }
    proof {
        lemma_digits_text(v@);
    }
    let mut out = String::new();
    let mut j: usize = v.len();
    proof {
        assert(v@.skip(j as int) =~= Seq::<u8>::empty());
    }
    while j > 0
        invariant
            j <= v@.len(),
            decimal(v@),
            out@ == high_first(v@.skip(j as int)),
        decreases j,
    {
        assert(v@.skip(j - 1).skip(1) == v@.skip(j as int));
        j = j - 1;
        assert(v@[j as int] < 10);
        out.push((48 + v[j]) as char);
    }
    assert(v@.skip(0) == v@);
    out
}

pub fn put_point(n: u128, decimals: u8) -> (r: String)
    requires
        decimals <= 2,
    ensures
        r@ == with_point(n as nat, decimals as int),
{
    if decimals == 0 {
        text::dec_u128(n)
    } else if decimals == 1 {
        let whole = text::dec_u128(n / 10);
        let rest = text::dec_u128(n % 10);
        text::cat3(whole.as_str(), ".", rest.as_str())
    } else {
        let whole = text::dec_u128(n / 100);
        let rest = text::dec2_u64((n % 100) as u64);
        text::cat3(whole.as_str(), ".", rest.as_str())
    }
}

/// Prints a finite magnitude of at least 2^52, which has no fraction.
fn print_large(m: u64, e: u32, decimals: u8) -> (r: String)
    requires
        m > 0,
        decimals <= 2,
    ensures
        r@ == with_point((m * pow2(e as nat) * tens(decimals as int)) as nat, decimals as int),
{
    let digits = dec_shifted(m, e);
    let ghost whole = (m * pow2(e as nat)) as nat;
    if decimals == 0 {
        assert(whole * 1 == whole);
        digits
    } else if decimals == 1 {
        proof {
            assert((whole * 10) / 10 == whole && (whole * 10) % 10 == 0);
            reveal_strlit(".");
            reveal_strlit(".0");
            assert(text::dec(0) =~= seq!['0']);
            assert(".0"@ =~= "."@ + text::dec(0));
            assert(text::dec(whole) + ".0"@ =~= text::dec(whole) + "."@ + text::dec(0));
        }
        text::cat2(digits.as_str(), ".0")
    } else {
        proof {
            assert((whole * 100) / 100 == whole && (whole * 100) % 100 == 0);
            reveal_strlit(".");
            reveal_strlit("0");
            reveal_strlit(".00");
            assert(text::dec(0) =~= seq!['0']);
            assert(".00"@ =~= "."@ + text::dec2(0));
            assert(text::dec(whole) + ".00"@ =~= text::dec(whole) + "."@ + text::dec2(0));
        }
        text::cat2(digits.as_str(), ".00")
    }
}

pub fn fixed(b: u64, decimals: u8) -> (r: String)
    requires
        decimals <= 2,
    ensures
        r@ == fixed_text(b, decimals as int),
{
    if is_nan(b) {
        return text::owned("NaN");
    }
    let magnitude: String = if !is_finite(b) {
        text::owned("inf")
    } else {
        let p = parts(b);
        if p.exponent >= 0 {
            print_large(p.significand, p.exponent as u32, decimals)
        } else {
            let k: u32 = (-p.exponent) as u32;
            let unit: u128 = if decimals == 0 {
                1
            } else if decimals == 1 {
                10
            } else {
                100
            };
            let n: u128 = p.significand as u128 * unit;
            if k >= 64 {
                proof {
                    lemma_pow2_beyond(k as nat);
                    lemma_basic_div(n as int, pow2(k as nat) as int);
                    lemma_small_mod(n as nat, pow2(k as nat));
                }
                put_point(0, decimals)
            } else {
                proof {
                    lemma_pow2_below(k as nat);
                }
                put_point(round_even(n, power(k)), decimals)
            }
        }
    };
    if b >= SIGN {
        text::cat2("-", magnitude.as_str())
    } else {
        magnitude
    }
}

// ---------------------------------------------------------------------------
// comparing
// ---------------------------------------------------------------------------

/// What `a == b` says of two doubles.
pub open spec fn equal(a: u64, b: u64) -> bool {
    !nan(a) && !nan(b) && (a == b || (a % SIGN == 0 && b % SIGN == 0))
}

pub fn are_equal(a: u64, b: u64) -> (r: bool)
    ensures
        r == equal(a, b),
{
    !is_nan(a) && !is_nan(b) && (a == b || (a % SIGN == 0 && b % SIGN == 0))
}

/// An integer that orders the numbers as their values do.
pub open spec fn order(b: u64) -> int {
    if negative(b) {
        SIGN - b
    } else {
        b as int
    }
}

/// The smaller of two numbers, or the one that is a number.
pub open spec fn smaller(a: u64, b: u64) -> u64 {
    if nan(a) {
        b
    } else if nan(b) || order(a) <= order(b) {
        a
    } else {
        b
    }
}

/// The larger of two numbers, or the one that is a number.
pub open spec fn larger(a: u64, b: u64) -> u64 {
    if nan(a) {
        b
    } else if nan(b) || order(a) >= order(b) {
        a
    } else {
        b
    }
}

fn order_key(b: u64) -> (r: i128)
    ensures
        r == order(b),
{
    if b >= SIGN {
        SIGN as i128 - b as i128
    } else {
        b as i128
    }
}

/// The least of some numbers.
pub open spec fn least(v: Seq<u64>) -> u64
    recommends
        v.len() > 0,
    decreases v.len(),
{
    if v.len() <= 1 {
        v[0]
    } else {
        smaller(least(v.drop_last()), v.last())
    }
}

/// The greatest of some numbers.
pub open spec fn greatest(v: Seq<u64>) -> u64
    recommends
        v.len() > 0,
    decreases v.len(),
{
    if v.len() <= 1 {
        v[0]
    } else {
        larger(greatest(v.drop_last()), v.last())
    }
}

/// The least and the greatest of some numbers.
pub fn extremes(v: &Vec<u64>) -> (r: (u64, u64))
    requires
        v@.len() > 0,
    ensures
        r.0 == least(v@),
        r.1 == greatest(v@),
{
    let mut lo: u64 = v[0];
    let mut hi: u64 = v[0];
    let mut i: usize = 1;
    proof {
        assert(v@.take(1)[0] == v@[0]);
    }
    while i < v.len()
        invariant
            1 <= i <= v@.len(),
            lo == least(v@.take(i as int)),
            hi == greatest(v@.take(i as int)),
        decreases v@.len() - i,
    {
        let x = v[i];
        proof {
            assert(v@.take(i + 1).drop_last() == v@.take(i as int));
            assert(v@.take(i + 1).last() == x);
        }
        if is_nan(lo) {
            lo = x;
        } else if is_nan(x) || order_key(lo) <= order_key(x) {
        } else {
            lo = x;
        }
        if is_nan(hi) {
            hi = x;
        } else if is_nan(x) || order_key(hi) >= order_key(x) {
        } else {
            hi = x;
        }
        i = i + 1;
    }
    assert(v@.take(v@.len() as int) == v@);
    (lo, hi)
}

/// The double nearest to 0.05 is this many times 2^-56.
pub const TWENTIETH: u64 = 3602879701896397;

/// Whether a number lies less than 0.05 from an integer.
pub open spec fn near_whole(b: u64) -> bool {
    &&& finite(b)
    &&& exponent(b) < 0 ==> {
        let unit = pow2((-exponent(b)) as nat);
        let off = rounded_magnitude(b) * unit - significand(b);
        &&& off * pow2(56) < TWENTIETH * unit
        &&& -off * pow2(56) < TWENTIETH * unit
    }
}

pub fn is_near_whole(b: u64) -> (r: bool)
    ensures
        r == near_whole(b),
{
    if !is_finite(b) {
        return false;
    }
    let p = parts(b);
    if p.exponent >= 0 {
        return true;
    }
    let k: u32 = (-p.exponent) as u32;
    let m: u128 = p.significand as u128;
    proof {
        lemma2_to64_rest();
    }
    if k >= 64 {
        proof {
            let unit = pow2(k as nat);
            lemma_pow2_beyond(k as nat);
            lemma_basic_div((2 * m + unit) as int, (2 * unit) as int);
            assert(rounded_magnitude(b) == 0);
            assert(0 * unit == 0);
            let left = m * pow2(56);
            assert(left < TWENTIETH * unit) by (nonlinear_arith)
                requires
                    left == m * pow2(56),
                    pow2(56) == 0x100_0000_0000_0000,
                    m < 0x20_0000_0000_0000,
                    unit >= 0x1_0000_0000_0000_0000,
                    TWENTIETH == 3602879701896397u64,
            ;
            assert(-(m as int) * pow2(56) <= 0) by (nonlinear_arith);
        }
        return true;
    }
    proof {
        lemma_pow2_below(k as nat);
    }
    let unit = power(k);
    let whole: u128 = (2 * m + unit) / (2 * unit);
    proof {
        lemma_fundamental_div_mod((2 * m + unit) as int, (2 * unit) as int);
        lemma_mod_bound((2 * m + unit) as int, (2 * unit) as int);
        let t = whole * unit;
        assert((2 * unit) * whole == 2 * t) by (nonlinear_arith)
            requires
                t == whole * unit,
        ;
        assert(2 * m - unit < 2 * t <= 2 * m + unit);
    }
    let near: u128 = whole * unit;
    let off: u128 = if near >= m {
        near - m
    } else {
        m - near
    };
    proof {
        assert(off <= unit);
        assert(off * 0x100_0000_0000_0000 <= 0x8000_0000_0000_0000 * 0x100_0000_0000_0000);
        let signed: int = near - m;
        assert(off == signed || off == -signed);
        assert(-signed * pow2(56) == -(signed * pow2(56))) by (nonlinear_arith);
    }
    off * 0x100_0000_0000_0000 < TWENTIETH as u128 * unit
}

// ---------------------------------------------------------------------------
// rounding to a double
// ---------------------------------------------------------------------------

/// The distance between neighbouring doubles of the size of the integer `q`, or
/// 1 where they lie closer.
pub open spec fn spacing(q: nat) -> nat
    decreases q,
{
    if q < 0x20_0000_0000_0000 {
        1
    } else {
        2 * spacing(q / 2)
    }
}

/// The double nearest to `n / d`; of two at the same distance the one with the
/// even significand. It holds where it is an integer, so for `d == 1`, or where
/// `n / d` is at least 2^52: fractions are given in units of a power of two.
pub open spec fn nearest_double(n: nat, d: nat) -> nat {
    let unit = spacing(n / d);
    nearest_even(n, d * unit) * unit
}

pub proof fn lemma_spacing(q: nat)
    ensures
        1 <= spacing(q),
        spacing(q) <= q || spacing(q) == 1,
        q / spacing(q) < 0x20_0000_0000_0000,
        q >= 0x20_0000_0000_0000 ==> q / spacing(q) >= 0x10_0000_0000_0000,
    decreases q,
{
    if q < 0x20_0000_0000_0000 {
        lemma_div_basics(q as int);
    } else {
        lemma_spacing(q / 2);
        lemma_div_denominator(q as int, 2, spacing(q / 2) as int);
        if q / 2 < 0x20_0000_0000_0000 {
            lemma_div_basics((q / 2) as int);
        }
    }
}

/// Rounds `n / d` to a double.
pub fn round_double(n: u128, d: u128) -> (r: u128)
    requires
        0 < d <= 1000,
        n < 0x4000_0000_0000_0000_0000_0000_0000_0000,
    ensures
        r == nearest_double(n as nat, d as nat),
        r <= 2 * (n as int / d as int) + 1,
{
    let q: u128 = n / d;
    let mut unit: u128 = 1;
    let mut rest: u128 = q;
    let ghost whole = spacing(q as nat);
    proof {
        lemma_div_is_ordered_by_denominator(n as int, 1, d as int);
        lemma_spacing(q as nat);
        assert(rest * unit <= q);
    }
    while rest >= 0x20_0000_0000_0000
        invariant
            unit >= 1,
            whole == unit * spacing(rest as nat),
            rest * unit <= q,
            q <= n,
            n < 0x4000_0000_0000_0000_0000_0000_0000_0000,
        decreases rest,
    {
        proof {
            let half = spacing((rest / 2) as nat) as int;
            assert(unit * (2 * half) == (2 * unit) * half) by (nonlinear_arith);
            assert((rest / 2) * (2 * unit) <= rest * unit) by (nonlinear_arith)
                requires
                    2 * (rest / 2) <= rest,
                    unit >= 1,
            ;
            assert(2 * unit <= (rest / 2) * (2 * unit)) by (nonlinear_arith)
                requires
                    rest / 2 >= 1,
                    unit >= 1,
            ;
        }
        unit = 2 * unit;
        rest = rest / 2;
    }
    proof {
        assert(spacing(rest as nat) == 1);
        assert(unit * 1 == unit);
        assert(unit == whole);
        lemma_fundamental_div_mod(n as int, d as int);
        assert(0 < d * unit <= n + d) by (nonlinear_arith)
            requires
                1 <= unit <= q + 1,
                d * q <= n,
                d > 0,
        ;
    }
    let size: u128 = d * unit;
    let m = round_even(n, size);
    proof {
        lemma_fundamental_div_mod(n as int, size as int);
        lemma_mod_bound(n as int, size as int);
        let f = n as int / size as int;
        lemma_div_denominator(n as int, d as int, unit as int);
        lemma_fundamental_div_mod(q as int, unit as int);
        lemma_mod_bound(q as int, unit as int);
        assert(f == q as int / unit as int);
        assert(m <= f + 1);
        assert(m * unit <= q + unit) by (nonlinear_arith)
            requires
                m <= f + 1,
                unit * f <= q,
                unit >= 1,
        ;
        assert(q <= n);
    }
    m * unit
}

/// Integers below 2^53 are doubles themselves.
pub proof fn lemma_small_integers_are_doubles(n: nat)
    requires
        n < 0x20_0000_0000_0000,
    ensures
        nearest_double(n, 1) == n,
{
    assert(n / 1 == n && n % 1 == 0);
    assert(spacing(n / 1) == 1);
    assert(nearest_even(n, 1) == n);
    assert(1 * spacing(n / 1) == 1);
    assert(nearest_even(n, 1) * 1 == n);
}

/// The bit pattern of the positive integer `v * 2^e`, which is a double.
pub open spec fn pattern(v: nat, e: int) -> int
    decreases
            (if v >= 0x20_0000_0000_0000 {
                v as int
            } else if v < 0x10_0000_0000_0000 {
                0x10_0000_0000_0000 - v
            } else {
                0
            }),
{
    if v >= 0x20_0000_0000_0000 {
        pattern(v / 2, e + 1)
    } else if 0 < v < 0x10_0000_0000_0000 {
        pattern(2 * v, e - 1)
    } else {
        (e + 1075) * 0x10_0000_0000_0000 + (v - 0x10_0000_0000_0000)
    }
}

/// The bit pattern of `n as f64` for an integer `n`.
pub open spec fn integer_pattern(n: int) -> u64 {
    if n == 0 {
        0
    } else if n < 0 {
        (SIGN + pattern(nearest_double((-n) as nat, 1), 0)) as u64
    } else {
        pattern(nearest_double(n as nat, 1), 0) as u64
    }
}

} // verus!
