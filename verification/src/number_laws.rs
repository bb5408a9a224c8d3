//! Laws of numbers: how doubles are rounded, ordered and printed.

use crate::cli;
use crate::device;
use crate::double;
use crate::laws;
use crate::text;
use crate::trend;
use vstd::arithmetic::div_mod::*;
use vstd::arithmetic::power2::*;
use vstd::prelude::*;

verus! {

// ---------------------------------------------------------------------------
// rounding
// ---------------------------------------------------------------------------

/// A quotient rounded to the nearest integer is off by at most a half, and exact
/// where nothing remains; a half goes to the even neighbour.
pub proof fn law_nearest_is_near(n: nat, d: nat)
    requires
        d > 0,
    ensures
        2 * (d * double::nearest_even(n, d) - n) <= d,
        2 * (n - d * double::nearest_even(n, d)) <= d,
        n % d == 0 ==> d * double::nearest_even(n, d) == n,
        2 * (n % d) == d ==> double::nearest_even(n, d) % 2 == 0,
{
    let q = n / d;
    let r = n % d;
    lemma_fundamental_div_mod(n as int, d as int);
    assert(d * (q + 1) == d * q + d) by (nonlinear_arith);
}

/// A double loses its fraction towards zero, is rounded to the nearest integer
/// with halves away from zero, and is printed to the nearest decimal.
pub proof fn law_fractions(b: u64, decimals: int)
    requires
        double::exponent(b) < 0,
        0 <= decimals <= 2,
    ensures
        ({
            let u = pow2((-double::exponent(b)) as nat) as int;
            let m = double::significand(b) as int;
            let t = double::truncated_magnitude(b) as int;
            let r = double::rounded_magnitude(b) as int;
            let s = double::scaled_magnitude(b, decimals) as int;
            let scale: int = if decimals == 0 {
                1
            } else if decimals == 1 {
                10
            } else {
                100
            };
            &&& u * t <= m < u * (t + 1)
            &&& -u < 2 * (u * r - m) <= u
            &&& -u <= 2 * (u * s - scale * m) <= u
        }),
{
    let k = (-double::exponent(b)) as nat;
    let u = pow2(k) as int;
    lemma_pow2_pos(k);
    let m = double::significand(b) as int;
    lemma_fundamental_div_mod(m, u);
    let t = m / u;
    assert(u * (t + 1) == u * t + u) by (nonlinear_arith);
    lemma_fundamental_div_mod(2 * m + u, 2 * u);
    let r = (2 * m + u) / (2 * u);
    assert((2 * u) * r == 2 * (u * r)) by (nonlinear_arith);
    lemma_mod_bound(2 * m + u, 2 * u);
    lemma_mod_bound(m, u);
    let n = double::significand(b) * double::tens(decimals);
    law_nearest_is_near(n, pow2(k));
    assert(double::significand(b) * double::tens(decimals) == double::tens(decimals)
        * double::significand(b)) by (nonlinear_arith);
}

/// An integer below 2^53 in magnitude, as a double, has no fraction to lose.
pub proof fn law_integers_are_whole(n: int)
    requires
        -0x20_0000_0000_0000 < n < 0x20_0000_0000_0000,
    ensures
        double::truncated_of(double::integer_pattern(n)) == n,
        n >= 0 ==> double::truncated_unsigned_of(double::integer_pattern(n)) == n,
        double::near_whole(double::integer_pattern(n)),
{
    let b = double::integer_pattern(n);
    if n == 0 {
        lemma_pow2_pos(1074);
        lemma_basic_div(0, pow2(1074) as int);
        lemma_zero_is_whole();
    } else {
        let k = laws::lemma_integer_parts(n);
        let v = device::magnitude(n);
        let u = pow2(k) as int;
        lemma_pow2_pos(k);
        laws::law_integers_round_to_themselves(n);
        if k == 0 {
            lemma2_to64();
            assert(v * pow2(0) == v);
            assert(double::significand(b) * pow2(0) == v);
        } else {
            lemma_div_multiples_vanish(v as int, u);
            assert(v * u == u * v) by (nonlinear_arith);
            assert((v * pow2(k)) / pow2(k) == v);
            lemma_rounded_integer(v, k);
            lemma_pow2_pos(56);
            assert(double::TWENTIETH * u > 0) by (nonlinear_arith)
                requires
                    u > 0,
                    double::TWENTIETH > 0,
            ;
            assert(0 * pow2(56) == 0);
        }
    }
}

proof fn lemma_zero_is_whole()
    ensures
        double::near_whole(0),
{
    let unit = pow2(1074) as int;
    lemma_pow2_pos(1074);
    lemma_basic_div(unit, 2 * unit);
    assert(double::rounded_magnitude(0) == 0);
    assert(0 * unit == 0);
    assert(double::TWENTIETH * unit > 0) by (nonlinear_arith)
        requires
            unit > 0,
            double::TWENTIETH > 0,
    ;
}

proof fn lemma_rounded_integer(v: nat, k: nat)
    requires
        k > 0,
    ensures
        (2 * (v * pow2(k)) + pow2(k)) / (2 * pow2(k)) == v,
{
    let u = pow2(k) as int;
    lemma_pow2_pos(k);
    let m = v * u;
    assert(2 * m + u == v * (2 * u) + u) by (nonlinear_arith)
        requires
            m == v * u,
    ;
    lemma_fundamental_div_mod_converse(2 * m + u, 2 * u, v as int, u);
}

// ---------------------------------------------------------------------------
// printing
// ---------------------------------------------------------------------------

proof fn lemma_scaled_integer(n: int, decimals: int)
    requires
        -0x20_0000_0000_0000 < n < 0x20_0000_0000_0000,
        0 <= decimals <= 2,
    ensures
        double::scaled_magnitude(double::integer_pattern(n), decimals) == device::magnitude(n)
            * double::tens(decimals),
{
    let v = device::magnitude(n);
    let c = double::tens(decimals);
    if n == 0 {
        lemma_pow2_pos(1074);
        assert(0 * c == 0);
        law_nearest_is_near(0, pow2(1074));
        lemma_basic_div(0, pow2(1074) as int);
        lemma_small_mod(0, pow2(1074));
    } else {
        let k = laws::lemma_integer_parts(n);
        lemma_pow2_pos(k);
        let u = pow2(k);
        if k == 0 {
            lemma2_to64();
            assert(v * pow2(0) * pow2(0) * c == v * c) by (nonlinear_arith)
                requires
                    pow2(0) == 1,
            ;
        } else {
            assert((v * u) * c == (v * c) * u) by (nonlinear_arith);
            lemma_fundamental_div_mod_converse(
                ((v * u) * c) as int,
                u as int,
                (v * c) as int,
                0,
            );
        }
    }
}

/// A whole number prints as its digits, with as many zeros behind the point as
/// there are decimals; where the decimals are left out for whole numbers it
/// prints as its digits alone.
pub proof fn law_integers_print_as_digits(n: int)
    requires
        -0x20_0000_0000_0000 < n < 0x20_0000_0000_0000,
    ensures
        double::fixed_text(double::integer_pattern(n), 0) == text::dec_int(n),
        double::fixed_text(double::integer_pattern(n), 1) == text::dec_int(n) + ".0"@,
        double::fixed_text(double::integer_pattern(n), 2) == text::dec_int(n) + ".00"@,
        cli::short_number(Some(double::integer_pattern(n))) == text::dec_int(n),
{
    let b = double::integer_pattern(n);
    let v = device::magnitude(n);
    lemma_scaled_integer(n, 0);
    lemma_scaled_integer(n, 1);
    lemma_scaled_integer(n, 2);
    law_integers_are_whole(n);
    if n != 0 {
        let k = laws::lemma_integer_parts(n);
    }
    assert(double::finite(b) && !double::nan(b));
    assert(double::negative(b) == (n < 0));
    reveal_strlit(".");
    reveal_strlit("0");
    reveal_strlit(".0");
    reveal_strlit(".00");
    assert(v * 1 == v);
    assert((v * 10) / 10 == v && (v * 10) % 10 == 0);
    assert((v * 100) / 100 == v && (v * 100) % 100 == 0);
    assert(text::dec(0) =~= seq!['0']);
    assert("."@ + text::dec(0) =~= ".0"@);
    assert("."@ + text::dec2(0) =~= ".00"@);
    let d = text::dec(v);
    assert(d + "."@ + text::dec(0) =~= d + ".0"@);
    assert(d + "."@ + text::dec2(0) =~= d + ".00"@);
    if n < 0 {
        reveal_strlit("-");
        assert("-"@ + (d + ".0"@) =~= ("-"@ + d) + ".0"@);
        assert("-"@ + (d + ".00"@) =~= ("-"@ + d) + ".00"@);
    }
}

/// A power is printed in watts below a kilowatt, and from there on in the tenth
/// of a kilowatt that is nearest to it.
pub proof fn law_power_is_printed(w: int)
    requires
        w <= 0x100_0000_0000,
    ensures
        w < 1000 ==> device::power_text(w) == text::dec_int(w) + " W"@,
        w >= 1000 ==> exists|t: nat|
            #![trigger text::dec(t / 10)]
            -50 <= 100 * t - w <= 50 && device::power_text(w) == text::dec(t / 10) + "."@
                + text::dec(t % 10) + " kW"@,
{
    if w >= 1000 {
        let h: int = 0x10_0000_0000_0000;
        assert(h == double::HIDDEN);
        double::lemma_small_integers_are_doubles(w as nat);
        let n: nat = (w * h) as nat;
        let x = double::nearest_double(n, 1000) as int;
        laws::lemma_rounding_error(n, 1000);
        laws::lemma_spacing_bound(n / 1000);
        let u = double::spacing(n / 1000) as int;
        assert(n <= 0x100_0000_0000 * h);
        assert(u <= 0x1_0000_0000);
        assert(2 * (x * 1000 - n) <= 1000 * 0x1_0000_0000);
        assert(2 * (n - x * 1000) <= 1000 * 0x1_0000_0000);
        law_nearest_is_near((10 * x) as nat, h as nat);
        let t = device::tenths_of_kilowatt(w as nat);
        assert(t == double::nearest_even((10 * x) as nat, h as nat));
        assert(h * t == 0x10_0000_0000_0000 * t);
        assert(-50 <= 100 * t - w <= 50);
        assert(device::power_text(w) == text::dec(t / 10) + "."@ + text::dec(t % 10) + " kW"@);
    }
}

// ---------------------------------------------------------------------------
// order
// ---------------------------------------------------------------------------

/// Whether all of some doubles are numbers.
pub open spec fn all_numbers(v: Seq<u64>) -> bool {
    forall|i: int| 0 <= i < v.len() ==> !double::nan(#[trigger] v[i])
}

/// The least of some numbers is one of them, and no other lies below it; the
/// greatest is one of them, and no other lies above it.
pub proof fn law_least_and_greatest(v: Seq<u64>)
    requires
        v.len() > 0,
        all_numbers(v),
    ensures
        v.contains(double::least(v)),
        v.contains(double::greatest(v)),
        !double::nan(double::least(v)),
        !double::nan(double::greatest(v)),
        forall|i: int|
            0 <= i < v.len() ==> double::order(double::least(v)) <= double::order(
                #[trigger] v[i],
            ) <= double::order(double::greatest(v)),
    decreases v.len(),
{
    if v.len() == 1 {
        assert(v[0] == double::least(v));
        assert(v[0] == double::greatest(v));
    } else {
        let w = v.drop_last();
        assert forall|i: int| 0 <= i < w.len() implies !double::nan(#[trigger] w[i]) by {
            assert(w[i] == v[i]);
        }
        law_least_and_greatest(w);
        let i = choose|i: int| 0 <= i < w.len() && w[i] == double::least(w);
        let j = choose|j: int| 0 <= j < w.len() && w[j] == double::greatest(w);
        assert(v[i] == double::least(w) && v[j] == double::greatest(w));
        assert(v[v.len() - 1] == v.last());
        assert(!double::nan(v.last()));
        assert forall|k: int| 0 <= k < v.len() implies double::order(double::least(v))
            <= double::order(#[trigger] v[k]) <= double::order(double::greatest(v)) by {
            if k < w.len() {
                assert(w[k] == v[k]);
            }
        }
    }
}

// ---------------------------------------------------------------------------
// the trend
// ---------------------------------------------------------------------------

proof fn lemma_degree_above_step(n: int)
    requires
        n >= pow2(1074),
    ensures
        trend::nearest_units(n) > trend::step(),
        trend::nearest_units(-n) < -trend::step(),
{
    let x = double::nearest_double(n as nat, 1) as int;
    laws::lemma_rounding_error(n as nat, 1);
    laws::lemma_spacing_bound(n as nat);
    lemma_div_basics(n);
    assert(x * 1 == x);
    let u = double::spacing(n as nat) as int;
    lemma_pow2_adds(1018, 56);
    lemma_pow2_pos(1018);
    lemma2_to64_rest();
    lemma2_to64();
    let p = pow2(1018) as int;
    assert(pow2(1074) == p * pow2(56));
    assert(p * pow2(56) >= p * 0x100_0000_0000_0000) by (nonlinear_arith)
        requires
            p > 0,
            pow2(56) == 0x100_0000_0000_0000,
    ;
    assert(4 * (double::TWENTIETH * p) < p * 0x100_0000_0000_0000) by (nonlinear_arith)
        requires
            p > 0,
            double::TWENTIETH < 0x40_0000_0000_0000,
    ;
    assert(2 * (n - x) <= u);
    assert(u <= n);
}

/// Where the last reading lies a degree or more above the one before, the trend
/// rises; where it lies as much below, it falls; where they are the same, it is
/// level.
pub proof fn law_trend_direction(history: Seq<u64>)
    requires
        history.len() >= 2,
        double::finite(history.last()),
        double::finite(history[history.len() - 2]),
    ensures
        ({
            let change = trend::units(history.last()) - trend::units(history[history.len() - 2]);
            &&& change >= pow2(1074) ==> trend::slope_in(history) == Some(trend::Slope::Rising)
            &&& change <= -pow2(1074) ==> trend::slope_in(history) == Some(trend::Slope::Falling)
            &&& change == 0 ==> trend::slope_in(history) == Some(trend::Slope::Level)
        }),
{
    let change = trend::units(history.last()) - trend::units(history[history.len() - 2]);
    lemma_pow2_pos(1018);
    lemma_pow2_pos(1074);
    assert(double::TWENTIETH * pow2(1018) >= 0) by (nonlinear_arith);
    if change >= pow2(1074) {
        lemma_degree_above_step(change);
    } else if change <= -pow2(1074) {
        lemma_degree_above_step(-change);
    } else if change == 0 {
        double::lemma_small_integers_are_doubles(0);
    }
}

proof fn lemma_spacing_divides(n: nat, k: nat) -> (m: nat)
    requires
        n < 0x20_0000_0000_0000,
    ensures
        m * double::spacing(n * pow2(k)) == pow2(k),
        double::spacing(n * pow2(k)) > 0,
    decreases k,
{
    let q = n * pow2(k);
    double::lemma_spacing(q);
    if q < 0x20_0000_0000_0000 {
        assert(pow2(k) * 1 == pow2(k));
        pow2(k)
    } else if k == 0 {
        lemma2_to64();
        assert(n * 1 == n);
        0
    } else {
        let m = lemma_spacing_divides(n, (k - 1) as nat);
        lemma_pow2_unfold(k);
        let half = n * pow2((k - 1) as nat);
        assert(q == 2 * half) by (nonlinear_arith)
            requires
                q == n * pow2(k),
                pow2(k) == 2 * pow2((k - 1) as nat),
                half == n * pow2((k - 1) as nat),
        ;
        assert(q / 2 == half);
        let u = double::spacing(half);
        assert(m * (2 * u) == 2 * (m * u)) by (nonlinear_arith);
        m
    }
}

/// A multiple of a power of two with few digits is a double as it is.
proof fn lemma_scaled_is_double(n: nat, k: nat)
    requires
        n < 0x20_0000_0000_0000,
    ensures
        double::nearest_double(n * pow2(k), 1) == n * pow2(k),
{
    let q = n * pow2(k);
    lemma_div_basics(q as int);
    let m = lemma_spacing_divides(n, k);
    let u = double::spacing(q);
    let c = n * m;
    assert(q == c * u) by (nonlinear_arith)
        requires
            q == n * pow2(k),
            m * u == pow2(k),
            c == n * m,
    ;
    assert(1 * u == u);
    lemma_fundamental_div_mod_converse(q as int, u as int, c as int, 0);
}

proof fn lemma_integer_units(n: int)
    requires
        -0x20_0000_0000_0000 < n < 0x20_0000_0000_0000,
    ensures
        trend::units(double::integer_pattern(n)) == n * pow2(1074),
        double::finite(double::integer_pattern(n)),
{
    let b = double::integer_pattern(n);
    if n == 0 {
        assert(0 * pow2(1074) == 0);
        assert(double::significand(b) == 0);
        assert(0 * pow2((double::exponent(b) + 1074) as nat) == 0);
    } else {
        let k = laws::lemma_integer_parts(n);
        let v = device::magnitude(n);
        lemma_pow2_adds(k, (1074 - k) as nat);
        let x = pow2(k);
        let y = pow2((1074 - k) as nat);
        assert((v * x) * y == v * (x * y)) by (nonlinear_arith);
        assert(double::exponent(b) + 1074 == 1074 - k);
        if n < 0 {
            assert(-(v * pow2(1074)) == n * pow2(1074)) by (nonlinear_arith)
                requires
                    v == -n,
            ;
        }
    }
}

/// Of whole degrees the chart shows ten steps for each above the lowest, and the
/// arrow points to where the last reading went.
pub proof fn law_whole_degrees_are_charted(history: Seq<u64>, t: int, lo: int)
    requires
        -0x100_0000_0000 < t < 0x100_0000_0000,
        -0x100_0000_0000 < lo < 0x100_0000_0000,
        history.len() >= 2,
        history.last() == double::integer_pattern(t),
        history[history.len() - 2] == double::integer_pattern(lo),
    ensures
        trend::height_of(double::integer_pattern(t), double::integer_pattern(lo)) == (if t > lo {
            10 * (t - lo)
        } else {
            0
        }),
        t > lo ==> trend::slope_in(history) == Some(trend::Slope::Rising),
        t < lo ==> trend::slope_in(history) == Some(trend::Slope::Falling),
        t == lo ==> trend::slope_in(history) == Some(trend::Slope::Level),
{
    let p = pow2(1074) as int;
    lemma_pow2_pos(1074);
    lemma_integer_units(t);
    lemma_integer_units(lo);
    let n = t - lo;
    assert(t * p - lo * p == n * p) by (nonlinear_arith)
        requires
            n == t - lo,
    ;
    let v = device::magnitude(n);
    lemma_scaled_is_double(v, 1074);
    lemma_scaled_is_double(10 * v, 1074);
    assert((10 * v) * pow2(1074) == 10 * (v * pow2(1074))) by (nonlinear_arith);
    if n < 0 {
        assert(-(n * p) == v * pow2(1074)) by (nonlinear_arith)
            requires
                v == -n,
                p == pow2(1074),
        ;
        assert(n * p < 0) by (nonlinear_arith)
            requires
                n < 0,
                p > 0,
        ;
        assert(n * p <= -p) by (nonlinear_arith)
            requires
                n <= -1,
                p > 0,
        ;
    } else if n == 0 {
        assert(0 * p == 0);
        double::lemma_small_integers_are_doubles(0);
    } else {
        assert(n * p >= p) by (nonlinear_arith)
            requires
                n >= 1,
                p > 0,
        ;
        let tens = 10 * (v * pow2(1074));
        assert(2 * tens + p == (10 * n) * (2 * p) + p) by (nonlinear_arith)
            requires
                tens == 10 * (v * pow2(1074)),
                v == n,
                p == pow2(1074),
        ;
        lemma_fundamental_div_mod_converse(2 * tens + p, 2 * p, 10 * n, p);
    }
    law_trend_direction(history);
}

/// A number equals itself and no other; both zeros are one, and what is not a
/// number equals nothing.
pub proof fn law_equal_doubles(a: u64, b: u64)
    ensures
        !double::nan(a) ==> double::equal(a, a),
        double::nan(a) ==> !double::equal(a, b),
        double::equal(a, b) == double::equal(b, a),
        double::equal(a, b) && a != b ==> a % double::SIGN == 0 && b % double::SIGN == 0,
{
}

} // verus!
