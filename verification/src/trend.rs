//! The trend of the indoor temperature: differences of readings, as
//! double-precision arithmetic gives them.
//!
//! Every finite double is a whole number of units of 2^-1074, and a whole number
//! of units is rounded to a double as an integer is.

use crate::double;
use vstd::arithmetic::div_mod::*;
use vstd::arithmetic::mul::*;
use vstd::arithmetic::power2::*;
use vstd::prelude::*;

verus! {

// ---------------------------------------------------------------------------
// differences
// ---------------------------------------------------------------------------

/// A finite number, in units of 2^-1074.
pub open spec fn units(b: u64) -> int {
    let size = double::significand(b) * pow2((double::exponent(b) + 1074) as nat);
    if double::negative(b) {
        -size
    } else {
        size as int
    }
}

/// The double nearest to a whole number of units.
pub open spec fn nearest_units(n: int) -> int {
    if n < 0 {
        -double::nearest_double((-n) as nat, 1)
    } else {
        double::nearest_double(n as nat, 1) as int
    }
}

/// The difference of two doubles.
pub enum Gap {
    /// Not a number.
    Unknown,
    /// Infinitely far above.
    Above,
    /// Infinitely far below.
    Below,
    /// A number of units. One beyond the largest double is told here too.
    Units(int),
}

/// What `a - b` gives.
pub open spec fn gap(a: u64, b: u64) -> Gap {
    if double::nan(a) || double::nan(b) {
        Gap::Unknown
    } else if double::finite(a) && double::finite(b) {
        Gap::Units(nearest_units(units(a) - units(b)))
    } else if !double::finite(a) && !double::finite(b) && double::negative(a)
        == double::negative(b) {
        Gap::Unknown
    } else {
        // the infinite one decides: the first by its sign, the second against it
        let up = if double::finite(a) {
            double::negative(b)
        } else {
            !double::negative(a)
        };
        if up {
            Gap::Above
        } else {
            Gap::Below
        }
    }
}

proof fn lemma_even_scales(x: nat, u: nat)
    requires
        u > 0,
    ensures
        double::nearest_even(2 * x, 2 * u) == double::nearest_even(x, u),
{
    lemma_div_multiples_vanish_quotient(2, x as int, u as int);
    lemma_truncate_middle(x as int, 2, u as int);
}

/// Twice a number is rounded to twice the double.
proof fn lemma_doubling(x: nat)
    ensures
        double::nearest_double(2 * x, 1) == 2 * double::nearest_double(x, 1),
{
    let y: nat = 2 * x;
    assert(x / 1 == x && y / 1 == y);
    if y < 0x20_0000_0000_0000 {
        double::lemma_small_integers_are_doubles(x);
        double::lemma_small_integers_are_doubles(y);
    } else {
        let u = double::spacing(x);
        double::lemma_spacing(x);
        assert(y / 2 == x);
        assert(double::spacing(y) == 2 * u);
        lemma_even_scales(x, u);
        let q = double::nearest_even(x, u);
        assert(double::nearest_double(y, 1) == q * (2 * u));
        assert(double::nearest_double(x, 1) == q * u);
        assert(q * (2 * u) == 2 * (q * u)) by (nonlinear_arith);
    }
}

/// A number in larger units is rounded in these.
proof fn lemma_scaling(x: nat, j: nat)
    ensures
        double::nearest_double(x * pow2(j), 1) == double::nearest_double(x, 1) * pow2(j),
    decreases j,
{
    if j == 0 {
        lemma2_to64();
        assert(x * 1 == x);
    } else {
        let i = (j - 1) as nat;
        lemma_pow2_unfold(j);
        lemma_scaling(x, i);
        let y = x * pow2(i);
        let d = double::nearest_double(x, 1);
        assert(x * (2 * pow2(i)) == 2 * y) by (nonlinear_arith)
            requires
                y == x * pow2(i),
        ;
        lemma_doubling(y);
        assert(d * (2 * pow2(i)) == 2 * (d * pow2(i))) by (nonlinear_arith);
    }
}

/// How far apart doubles lie, by the power of two below them.
proof fn lemma_spacing_at(q: nat, k: nat)
    requires
        0x10_0000_0000_0000 * pow2(k) <= q < 0x20_0000_0000_0000 * pow2(k),
    ensures
        double::spacing(q) == pow2(k),
    decreases k,
{
    lemma2_to64();
    if k > 0 {
        let i = (k - 1) as nat;
        lemma_pow2_unfold(k);
        lemma_pow2_pos(i);
        assert(q >= 0x20_0000_0000_0000);
        lemma_spacing_at(q / 2, i);
    }
}

/// A number far below the last digit of another does not change it.
proof fn lemma_absorbed(m: nat, k: nat, s: nat)
    requires
        0x10_0000_0000_0000 <= m < 0x20_0000_0000_0000,
        k > 64,
        s < 0x20_0000_0000_0000,
    ensures
        s <= m * pow2(k),
        double::nearest_double((m * pow2(k) + s) as nat, 1) == m * pow2(k),
        double::nearest_double((m * pow2(k) - s) as nat, 1) == m * pow2(k),
{
    let p = pow2(k);
    let half = pow2((k - 1) as nat);
    lemma_pow2_unfold(k);
    double::lemma_pow2_beyond((k - 1) as nat);
    assert(p == 2 * half && half >= 0x1_0000_0000_0000_0000);
    let x = m * p;
    assert(x >= 0x10_0000_0000_0000 * p && x + p <= 0x20_0000_0000_0000 * p) by (nonlinear_arith)
        requires
            x == m * p,
            0x10_0000_0000_0000 <= m,
            m + 1 <= 0x20_0000_0000_0000,
    ;
    let up = (x + s) as nat;
    lemma_spacing_at(up, k);
    lemma_fundamental_div_mod_converse(up as int, p as int, m as int, s as int);
    assert(up / 1 == up);
    if s == 0 {
        assert(x - s == x);
    } else {
        let down = (x - s) as nat;
        assert(down / 1 == down);
        if m > 0x10_0000_0000_0000 {
            assert(x >= 0x10_0000_0000_0000 * p + p) by (nonlinear_arith)
                requires
                    x == m * p,
                    m >= 0x10_0000_0000_0000 + 1,
            ;
            lemma_spacing_at(down, k);
            assert(p * (m - 1) + (p - s) == down) by (nonlinear_arith)
                requires
                    x == m * p,
                    down == x - s,
            ;
            lemma_fundamental_div_mod_converse(down as int, p as int, m - 1, p - s);
            assert(double::nearest_even(down, p) == m);
        } else {
            let top: int = 0x20_0000_0000_0000;
            assert(x == top * half);
            lemma_spacing_at(down, (k - 1) as nat);
            assert(half * (top - 1) + (half - s) == down) by (nonlinear_arith)
                requires
                    x == top * half,
                    down == x - s,
            ;
            lemma_fundamental_div_mod_converse(down as int, half as int, top - 1, half - s);
            assert(double::nearest_even(down, half) == top);
            assert(double::nearest_double(down, 1) == top * half);
        }
    }
}

/// What is not zero is not rounded to zero.
proof fn lemma_rounds_up(x: nat)
    requires
        x > 0,
    ensures
        double::nearest_double(x, 1) > 0,
{
    assert(x / 1 == x);
    if x < 0x20_0000_0000_0000 {
        double::lemma_small_integers_are_doubles(x);
    } else {
        double::lemma_spacing(x);
        let u = double::spacing(x);
        let q = double::nearest_even(x, u);
        assert(q * u >= 1) by (nonlinear_arith)
            requires
                q >= 1,
                u >= 1,
        ;
    }
}

/// A difference that was computed: a size times a power of two, in units.
struct Size {
    negative: bool,
    m: u128,
    j: u32,
}

impl Size {
    spec fn value(self) -> int {
        let size = self.m * pow2(self.j as nat);
        if self.negative {
            -size
        } else {
            size as int
        }
    }

    spec fn bounded(self) -> bool {
        self.m < 0x100_0000_0000_0000_0000_0000_0000_0000 && self.j <= 2046
    }
}

/// The difference of two numbers, the first with the larger exponent.
fn subtract(a: u64, b: u64) -> (r: Size)
    requires
        double::finite(a),
        double::finite(b),
        double::exponent(a) >= double::exponent(b),
    ensures
        r.value() == nearest_units(units(a) - units(b)),
        r.bounded(),
{
    let p = double::parts(a);
    let q = double::parts(b);
    let k: u32 = (p.exponent - q.exponent) as u32;
    let j: u32 = (q.exponent + 1074) as u32;
    let ghost far = p.significand * pow2(k as nat);
    let ghost near = q.significand as int;
    proof {
        lemma_pow2_adds(k as nat, j as nat);
        lemma_pow2_pos(j as nat);
        lemma_pow2_pos(k as nat);
        lemma_mul_is_associative(p.significand as int, pow2(k as nat) as int, pow2(j as nat) as int);
        assert(far * pow2(j as nat) == p.significand * pow2((k + j) as nat));
    }
    if k > 64 {
        proof {
            assert(p.significand >= 0x10_0000_0000_0000);
            lemma_absorbed(p.significand as nat, k as nat, near as nat);
            double::lemma_pow2_beyond(k as nat);
            assert(far > near) by (nonlinear_arith)
                requires
                    far == p.significand * pow2(k as nat),
                    p.significand >= 1,
                    pow2(k as nat) >= 0x1_0000_0000_0000_0000,
                    near < 0x20_0000_0000_0000,
            ;
            let n = if p.negative != q.negative {
                far + near
            } else {
                far - near
            };
            lemma_scaling(n as nat, j as nat);
            lemma_mul_is_distributive_add_other_way(pow2(j as nat) as int, far, near);
            lemma_mul_is_distributive_sub_other_way(pow2(j as nat) as int, far, near);
            lemma_mul_strictly_positive(n, pow2(j as nat) as int);
            let whole = n * pow2(j as nat);
            assert(units(a) - units(b) == if p.negative {
                -whole
            } else {
                whole
            });
        }
        return Size { negative: p.negative, m: p.significand as u128, j: k + j };
    }
    let scale = double::power(k);
    proof {
        lemma2_to64_rest();
        if k < 64 {
            lemma_pow2_strictly_increases(k as nat, 64);
        }
        assert(far <= 0x20_0000_0000_0000 * 0x1_0000_0000_0000_0000) by (nonlinear_arith)
            requires
                far == p.significand * pow2(k as nat),
                p.significand <= 0x20_0000_0000_0000,
                pow2(k as nat) <= 0x1_0000_0000_0000_0000,
        ;
    }
    let x: u128 = p.significand as u128 * scale;
    let y: u128 = q.significand as u128;
    let (negative, n): (bool, u128) = if p.negative != q.negative {
        (p.negative, x + y)
    } else if x >= y {
        (p.negative, x - y)
    } else {
        (!p.negative, y - x)
    };
    proof {
        lemma_scaling(n as nat, j as nat);
        lemma_mul_is_distributive_add_other_way(pow2(j as nat) as int, x as int, y as int);
        lemma_mul_is_distributive_sub_other_way(pow2(j as nat) as int, x as int, y as int);
        lemma_mul_is_distributive_sub_other_way(pow2(j as nat) as int, y as int, x as int);
        lemma_mul_nonnegative(n as int, pow2(j as nat) as int);
        double::lemma_small_integers_are_doubles(0);
        let whole = n * pow2(j as nat);
        assert(units(a) - units(b) == if negative {
            -whole
        } else {
            whole as int
        });
        if n > 0 {
            lemma_mul_strictly_positive(n as int, pow2(j as nat) as int);
        }
    }
    Size { negative, m: double::round_double(n, 1), j }
}

/// A difference of two doubles that was computed.
enum Known {
    Unknown,
    Above,
    Below,
    Units(Size),
}

impl Known {
    spec fn gap(self) -> Gap {
        match self {
            Known::Unknown => Gap::Unknown,
            Known::Above => Gap::Above,
            Known::Below => Gap::Below,
            Known::Units(s) => Gap::Units(s.value()),
        }
    }
}

fn difference(a: u64, b: u64) -> (r: Known)
    ensures
        r.gap() == gap(a, b),
        r matches Known::Units(s) ==> s.bounded(),
{
    if double::is_nan(a) || double::is_nan(b) {
        return Known::Unknown;
    }
    let (whole_a, whole_b) = (double::is_finite(a), double::is_finite(b));
    if whole_a && whole_b {
        return if double::parts(a).exponent >= double::parts(b).exponent {
            Known::Units(subtract(a, b))
        } else {
            let s = subtract(b, a);
            proof {
                double::lemma_small_integers_are_doubles(0);
            }
            Known::Units(Size { negative: !s.negative, m: s.m, j: s.j })
        };
    }
    let (below_a, below_b) = (a >= double::SIGN, b >= double::SIGN);
    if !whole_a && !whole_b && below_a == below_b {
        return Known::Unknown;
    }
    let up = if whole_a {
        below_b
    } else {
        !below_a
    };
    if up {
        Known::Above
    } else {
        Known::Below
    }
}

// ---------------------------------------------------------------------------
// the trend arrow
// ---------------------------------------------------------------------------

/// Where the indoor temperature goes.
#[derive(Debug, Clone, Copy, PartialEq, Eq, Structural)]
pub enum Slope {
    Rising,
    Falling,
    Level,
}

/// The double nearest to 0.05, in units.
pub open spec fn step() -> int {
    double::TWENTIETH * pow2(1018)
}

/// A change of up to 0.05 counts as none.
pub open spec fn slope_of(change: Gap) -> Slope {
    match change {
        Gap::Unknown => Slope::Level,
        Gap::Above => Slope::Rising,
        Gap::Below => Slope::Falling,
        Gap::Units(n) => if n > step() {
            Slope::Rising
        } else if n < -step() {
            Slope::Falling
        } else {
            Slope::Level
        },
    }
}

/// Whether `m * 2^j` is more than 0.05.
fn exceeds_step(m: u128, j: u32) -> (r: bool)
    requires
        m < 0x100_0000_0000_0000_0000_0000_0000_0000,
        j <= 2046,
    ensures
        r == (m * pow2(j as nat) > step()),
{
    proof {
        lemma2_to64();
        lemma2_to64_rest();
        lemma_pow2_pos(1018);
    }
    if j >= 1018 {
        let s: u32 = j - 1018;
        proof {
            lemma_pow2_adds(s as nat, 1018);
            lemma_pow2_pos(s as nat);
            lemma_mul_is_associative(m as int, pow2(s as nat) as int, pow2(1018) as int);
            let (left, right, p) = (m * pow2(s as nat), double::TWENTIETH as int, pow2(1018) as int);
            assert((left * p > right * p) == (left > right)) by (nonlinear_arith)
                requires
                    p > 0,
            ;
        }
        if m > double::TWENTIETH as u128 {
            proof {
                assert(m * pow2(s as nat) >= m) by (nonlinear_arith)
                    requires
                        pow2(s as nat) >= 1,
                ;
            }
            true
        } else if s >= 64 {
            proof {
                double::lemma_pow2_beyond(s as nat);
                assert(m > 0 ==> m * pow2(s as nat) >= pow2(s as nat)) by (nonlinear_arith);
                assert(0 * pow2(s as nat) == 0);
            }
            m > 0
        } else {
            let scale = double::power(s);
            proof {
                double::lemma_pow2_below(s as nat);
                assert(m * pow2(s as nat) <= 0x10_0000_0000_0000 * 0x8000_0000_0000_0000)
                    by (nonlinear_arith)
                    requires
                        m <= 0x10_0000_0000_0000,
                        pow2(s as nat) <= 0x8000_0000_0000_0000,
                ;
            }
            m * scale > double::TWENTIETH as u128
        }
    } else {
        let i: u32 = 1018 - j;
        proof {
            lemma_pow2_adds(i as nat, j as nat);
            lemma_pow2_pos(i as nat);
            lemma_pow2_pos(j as nat);
            lemma_mul_is_associative(
                double::TWENTIETH as int,
                pow2(i as nat) as int,
                pow2(j as nat) as int,
            );
            let (left, right, p) = (
                m as int,
                double::TWENTIETH * pow2(i as nat),
                pow2(j as nat) as int,
            );
            assert((left * p > right * p) == (left > right)) by (nonlinear_arith)
                requires
                    p > 0,
            ;
        }
        if i >= 73 {
            proof {
                lemma_pow2_adds(9, 64);
                if i > 73 {
                    lemma_pow2_strictly_increases(73, i as nat);
                }
                assert(pow2(i as nat) >= 0x200_0000_0000_0000_0000);
                assert(double::TWENTIETH * pow2(i as nat) >= 0x8_0000_0000_0000
                    * 0x200_0000_0000_0000_0000) by (nonlinear_arith)
                    requires
                        double::TWENTIETH == 3602879701896397u64,
                        pow2(i as nat) >= 0x200_0000_0000_0000_0000,
                ;
            }
            false
        } else {
            let scale = double::power(i);
            proof {
                lemma_pow2_adds(9, 64);
                lemma_pow2_strictly_increases(i as nat, 73);
                assert(double::TWENTIETH * pow2(i as nat) <= 0x10_0000_0000_0000
                    * 0x200_0000_0000_0000_0000) by (nonlinear_arith)
                    requires
                        double::TWENTIETH == 3602879701896397u64,
                        pow2(i as nat) <= 0x200_0000_0000_0000_0000,
                ;
            }
            m > double::TWENTIETH as u128 * scale
        }
    }
}

/// Where the temperature goes from one reading to the next.
pub fn slope(before: u64, last: u64) -> (r: Slope)
    ensures
        r == slope_of(gap(last, before)),
{
    match difference(last, before) {
        Known::Unknown => Slope::Level,
        Known::Above => Slope::Rising,
        Known::Below => Slope::Falling,
        Known::Units(s) => {
            proof {
                lemma_pow2_pos(1018);
                lemma_pow2_pos(s.j as nat);
                lemma_mul_nonnegative(double::TWENTIETH as int, pow2(1018) as int);
                lemma_mul_nonnegative(s.m as int, pow2(s.j as nat) as int);
            }
            if !exceeds_step(s.m, s.j) {
                Slope::Level
            } else if s.negative {
                Slope::Falling
            } else {
                Slope::Rising
            }
        },
    }
}

/// Where the temperature goes from the last reading but one to the last, where
/// there are two.
pub open spec fn slope_in(history: Seq<u64>) -> Option<Slope> {
    if history.len() >= 2 {
        Some(slope_of(gap(history.last(), history[history.len() - 2])))
    } else {
        None
    }
}

pub fn last_slope(history: &Vec<u64>) -> (r: Option<Slope>)
    ensures
        r == slope_in(history@),
{
    let n = history.len();
    if n >= 2 {
        Some(slope(history[n - 2], history[n - 1]))
    } else {
        None
    }
}

/// The way back turns the arrow round.
pub proof fn law_slope_turns(a: u64, b: u64)
    ensures
        slope_of(gap(a, b)) == (match slope_of(gap(b, a)) {
            Slope::Rising => Slope::Falling,
            Slope::Falling => Slope::Rising,
            Slope::Level => Slope::Level,
        }),
{
    double::lemma_small_integers_are_doubles(0);
    lemma_pow2_pos(1018);
    lemma_mul_nonnegative(double::TWENTIETH as int, pow2(1018) as int);
}

// ---------------------------------------------------------------------------
// the chart
// ---------------------------------------------------------------------------

/// A positive number of units in tenths, rounded to an integer.
pub open spec fn tenths(n: nat) -> nat {
    (2 * double::nearest_double(10 * n, 1) + pow2(1074)) / (2 * pow2(1074))
}

/// How far a reading lies above another, in tenths: what
/// `((t - lo) * 10.0).round() as u64` gives.
pub open spec fn height_of(t: u64, lo: u64) -> u64 {
    match gap(t, lo) {
        Gap::Unknown => 0,
        Gap::Above => u64::MAX,
        Gap::Below => 0,
        Gap::Units(n) => if n <= 0 {
            0
        } else if tenths(n as nat) > u64::MAX {
            u64::MAX
        } else {
            tenths(n as nat) as u64
        },
    }
}

/// `m * 2^j` in tenths, where that fits.
fn count_tenths(m: u128, j: u32) -> (r: u64)
    requires
        0 < m < 0x100_0000_0000_0000_0000_0000_0000_0000,
        j <= 2046,
    ensures
        r == (if tenths((m * pow2(j as nat)) as nat) > u64::MAX {
            u64::MAX as nat
        } else {
            tenths((m * pow2(j as nat)) as nat)
        }),
{
    let w = double::round_double(10 * m, 1);
    let ghost p = pow2(j as nat);
    let ghost one = pow2(1074);
    proof {
        lemma_pow2_pos(j as nat);
        lemma_pow2_pos(1074);
        lemma_scaling((10 * m) as nat, j as nat);
        assert(10 * (m * p) == (10 * m) * p) by (nonlinear_arith);
        assert(tenths((m * p) as nat) == (2 * (w * p) + one) / (2 * one as int));
        assert(w > 0) by {
            lemma_rounds_up(10 * m as nat);
        }
    }
    if j >= 1074 {
        let s: u32 = j - 1074;
        proof {
            let q = pow2(s as nat);
            lemma_pow2_pos(s as nat);
            lemma_pow2_adds(s as nat, 1074);
            lemma_mul_is_associative(w as int, q as int, one as int);
            let v = w * q;
            assert(2 * (w * p) + one == (2 * one) * v + one) by (nonlinear_arith)
                requires
                    w * p == v * one,
            ;
            lemma_fundamental_div_mod_converse(2 * (w * p) + one, 2 * one as int, v, one as int);
            assert(tenths((m * p) as nat) == v);
            assert(v >= w && v >= q) by (nonlinear_arith)
                requires
                    v == w * q,
                    w >= 1,
                    q >= 1,
            ;
        }
        if w > u64::MAX as u128 {
            return u64::MAX;
        }
        if s >= 64 {
            proof {
                double::lemma_pow2_beyond(s as nat);
            }
            return u64::MAX;
        }
        let scale = double::power(s);
        proof {
            double::lemma_pow2_below(s as nat);
            assert(w * pow2(s as nat) <= 0x1_0000_0000_0000_0000 * 0x8000_0000_0000_0000)
                by (nonlinear_arith)
                requires
                    w <= 0x1_0000_0000_0000_0000,
                    pow2(s as nat) <= 0x8000_0000_0000_0000,
            ;
        }
        let v: u128 = w * scale;
        if v > u64::MAX as u128 {
            u64::MAX
        } else {
            v as u64
        }
    } else {
        let i: u32 = 1074 - j;
        let ghost q = pow2(i as nat);
        proof {
            lemma_pow2_pos(i as nat);
            lemma_pow2_adds(i as nat, j as nat);
            assert(2 * (w * p) + one == p * (2 * w + q)) by (nonlinear_arith)
                requires
                    one == q * p,
            ;
            assert(2 * one == p * (2 * q)) by (nonlinear_arith)
                requires
                    one == q * p,
            ;
            lemma_div_multiples_vanish_quotient(p as int, 2 * w + q, 2 * q as int);
        }
        if i >= 126 {
            proof {
                lemma2_to64_rest();
                lemma_pow2_adds(62, 64);
                if i > 126 {
                    lemma_pow2_strictly_increases(126, i as nat);
                }
                assert(q >= 0x4000_0000_0000_0000_0000_0000_0000_0000);
                lemma_basic_div(2 * w + q, 2 * q as int);
            }
            return 0;
        }
        let scale = double::power(i);
        proof {
            lemma2_to64_rest();
            lemma_pow2_adds(62, 64);
            lemma_pow2_strictly_increases(i as nat, 126);
        }
        let v: u128 = (2 * w + scale) / (2 * scale);
        if v > u64::MAX as u128 {
            u64::MAX
        } else {
            v as u64
        }
    }
}

/// A finite reading lies nothing above itself.
pub proof fn law_lowest_height(lo: u64)
    requires
        double::finite(lo),
    ensures
        height_of(lo, lo) == 0,
{
    double::lemma_small_integers_are_doubles(0);
}

pub fn height(t: u64, lo: u64) -> (r: u64)
    ensures
        r == height_of(t, lo),
{
    match difference(t, lo) {
        Known::Unknown => 0,
        Known::Above => u64::MAX,
        Known::Below => 0,
        Known::Units(s) => {
            proof {
                lemma_pow2_pos(s.j as nat);
                if s.m > 0 {
                    lemma_mul_strictly_positive(s.m as int, pow2(s.j as nat) as int);
                } else {
                    assert(0 * pow2(s.j as nat) == 0);
                }
            }
            if s.negative || s.m == 0 {
                0
            } else {
                count_tenths(s.m, s.j)
            }
        },
    }
}

} // verus!
