//! Laws that hold across the functions of the device model.

use crate::device;
use crate::double;
use crate::json;
use crate::text;
use device::{AcState, Fan, FanDialect, Mode};
use vstd::arithmetic::div_mod::*;
use vstd::arithmetic::power2::*;
use vstd::prelude::*;

verus! {

// ---------------------------------------------------------------------------
// modes and fan speeds
// ---------------------------------------------------------------------------

/// A mode and its `workMode` value determine each other.
pub proof fn law_mode_code(m: Mode, n: int)
    ensures
        Mode::of_code(m.code() as int) == Some(m),
        Mode::of_code(n) == Some(m) ==> n == m.code(),
{
}

proof fn lemma_mode_words()
    ensures
        text::lower("Auto"@) == "auto"@,
        text::lower("Cool"@) == "cool"@,
        text::lower("Dry"@) == "dry"@,
        text::lower("Fan"@) == "fan"@,
        text::lower("Heat"@) == "heat"@,
        text::lower("auto"@) == "auto"@,
        text::lower("cool"@) == "cool"@,
        text::lower("dry"@) == "dry"@,
        text::lower("fan"@) == "fan"@,
        text::lower("heat"@) == "heat"@,
        "cool"@ != "auto"@,
        "dry"@ != "auto"@,
        "dry"@ != "cool"@,
        "fan"@ != "auto"@,
        "fan"@ != "cool"@,
        "fan"@ != "dry"@,
        "fan"@ != "dehumidify"@,
        "fan"@ != "dehumidification"@,
        "heat"@ != "auto"@,
        "heat"@ != "cool"@,
        "heat"@ != "dry"@,
        "heat"@ != "dehumidify"@,
        "heat"@ != "dehumidification"@,
        "heat"@ != "fan"@,
        "heat"@ != "fan_only"@,
        "heat"@ != "fanonly"@,
{
    reveal_strlit("Auto");
    reveal_strlit("Cool");
    reveal_strlit("Dry");
    reveal_strlit("Fan");
    reveal_strlit("Heat");
    reveal_strlit("auto");
    reveal_strlit("cool");
    reveal_strlit("dry");
    reveal_strlit("fan");
    reveal_strlit("heat");
    reveal_strlit("dehumidify");
    reveal_strlit("dehumidification");
    reveal_strlit("fan_only");
    reveal_strlit("fanonly");
    assert("cool"@[0] != "auto"@[0]);
    assert("fan"@[0] != "dry"@[0]);
    assert("heat"@[0] != "auto"@[0]);
    assert("heat"@[0] != "cool"@[0]);
}

/// Both names of a mode, the label and the key, are read back as the mode.
pub proof fn law_mode_names_read_back(m: Mode)
    ensures
        Mode::of_word(m.keyword()) == Some(m),
        Mode::of_word(m.name()) == Some(m),
{
    lemma_mode_words();
}

/// Stepping through the modes visits all five and comes back.
pub proof fn law_mode_cycle(m: Mode)
    ensures
        m.following().following().following().following().following() == m,
        m.following() != m,
        m.following().code() == (m.code() + 1) % 5,
{
}

/// The key of a fan speed is read back as the speed.
pub proof fn law_fan_key_reads_back(f: Fan)
    requires
        f.valid(),
    ensures
        Fan::of_word(f.keyword()) == Some(f),
{
    reveal_strlit("auto");
    reveal_strlit("turbo");
    reveal_strlit("strong");
    reveal_strlit("max");
    reveal_strlit("gear");
    match f {
        Fan::Auto => {
            assert(text::lower("auto"@) =~= "auto"@);
        },
        Fan::Turbo => {
            assert(text::lower("turbo"@) =~= "turbo"@);
            assert("turbo"@.len() != "auto"@.len());
        },
        Fan::Gear(g) => {
            let d = text::digit(g as int);
            assert(text::dec(g as nat) =~= seq![d]);
            let w = f.keyword();
            assert(w =~= seq!['g', 'e', 'a', 'r', d]);
            assert(text::lower(w) =~= w);
            assert(w.len() == 5);
            assert(w[0] != "turbo"@[0]);
            assert(w.subrange(0, 4) =~= "gear"@);
            let rest = w.skip(4);
            assert(rest =~= seq![d]);
            assert(text::without_start(rest, "gear"@) == rest);
            assert(text::without_start(w, "gear"@) == rest);
            text::lemma_dec_reads_back(g as nat);
            assert(text::parsed_nat(rest) == Some(g as nat));
            assert(rest[0] != '+');
        },
    }
}

/// A step forward and a step back undo each other, and eight steps come round.
pub proof fn law_fan_steps(f: Fan)
    requires
        f.valid(),
    ensures
        Fan::of_level((Fan::of_level((f.place() + 1) % 8).place() + 7) % 8) == f,
        Fan::of_level((Fan::of_level((f.place() + 7) % 8).place() + 1) % 8) == f,
        Fan::of_level((f.place() + 8) % 8) == f,
        Fan::of_level(f.level() as int) == f,
{
}

// ---------------------------------------------------------------------------
// a command that the shadow takes up is read back
// ---------------------------------------------------------------------------

/// The members of a document, none where it is no object.
pub open spec fn members(j: Option<json::Json>) -> Map<Seq<char>, json::Json> {
    match j {
        Some(json::Json::Object(m)) => m,
        _ => json::no_members(),
    }
}

/// A shadow document after a patch of its `desired` section.
pub open spec fn patched(shadow: json::Json, patch: Map<Seq<char>, json::Json>) -> json::Json {
    let wanted = members(device::desired(shadow)).union_prefer_right(patch);
    let state = members(json::member(shadow, "state"@)).insert(
        "desired"@,
        json::Json::Object(wanted),
    );
    json::Json::Object(members(Some(shadow)).insert("state"@, json::Json::Object(state)))
}

pub proof fn lemma_patched(shadow: json::Json, patch: Map<Seq<char>, json::Json>)
    ensures
        device::reported(patched(shadow, patch)) == device::reported(shadow),
        device::desired(patched(shadow, patch)) == Some(
            json::Json::Object(members(device::desired(shadow)).union_prefer_right(patch)),
        ),
{
    reveal_strlit("desired");
    reveal_strlit("reported");
    assert("desired"@.len() != "reported"@.len());
}

/// A patched field is read as patched; every other controllable field, and
/// everything reported, as before.
pub proof fn law_patch_is_read(
    shadow: json::Json,
    patch: Map<Seq<char>, json::Json>,
    key: Seq<char>,
)
    requires
        patch.contains_key(key) ==> patch[key] != json::Json::Null,
    ensures
        patch.contains_key(key) ==> device::picked(patched(shadow, patch), key) == Some(patch[key]),
        !patch.contains_key(key) ==> device::picked(patched(shadow, patch), key) == device::picked(
            shadow,
            key,
        ),
        device::reported(patched(shadow, patch)) == device::reported(shadow),
{
    lemma_patched(shadow, patch);
}

/// What a state reads from the sensors does not depend on what is asked of the
/// device.
pub proof fn law_sensors_ignore_requests(st: AcState, a: json::Json, b: json::Json)
    requires
        device::reported(a) == device::reported(b),
    ensures
        st.reads_sensors(a) == st.reads_sensors(b),
{
}

/// A null in the `desired` section counts as nothing asked.
pub proof fn law_null_asks_nothing(shadow: json::Json, key: Seq<char>)
    requires
        json::member_of(device::desired(shadow), key) == Some(json::Json::Null),
    ensures
        device::picked(shadow, key) == json::member_of(device::reported(shadow), key),
{
}

/// The members of a one-field patch.
spec fn one(key: Seq<char>, n: int) -> Map<Seq<char>, json::Json> {
    json::no_members().insert(key, json::whole(n))
}

/// The members of an object.
pub open spec fn fields(patch: json::Json) -> Map<Seq<char>, json::Json> {
    members(Some(patch))
}

/// After the power command the unit is read as on or off.
pub proof fn law_power_reads_back(shadow: json::Json, on: bool)
    ensures
        device::switched(
            patched(shadow, fields(device::patch1("powerSwitch"@, device::bit(on)))),
            "powerSwitch"@,
        ) == on,
{
    law_patch_is_read(shadow, one("powerSwitch"@, device::bit(on)), "powerSwitch"@);
}

/// After a one-field flag command the flag is read as sent.
pub proof fn law_flag_reads_back(shadow: json::Json, key: Seq<char>, on: bool)
    ensures
        device::switched(patched(shadow, fields(device::patch1(key, device::bit(on)))), key) == on,
{
    law_patch_is_read(shadow, one(key, device::bit(on)), key);
}

/// After a flag command the state holds the flag as sent, in the member that
/// belongs to its field.
pub proof fn law_flag_command_sets_its_member(
    shadow: json::Json,
    key: Seq<char>,
    on: bool,
    st: AcState,
)
    requires
        st.reads(patched(shadow, fields(device::patch1(key, device::bit(on))))),
    ensures
        key == "powerSwitch"@ ==> st.power == on,
        key == "ECO"@ ==> st.eco == on,
        key == "healthy"@ ==> st.healthy == on,
        key == "screen"@ ==> st.screen == on,
        key == "beepSwitch"@ ==> st.beep == on,
        key == "selfClean"@ ==> st.self_clean == on,
        key == "antiMoldew"@ ==> st.anti_mold == on,
        key == "eightAddHot"@ ==> st.eight_heat == on,
{
    law_flag_reads_back(shadow, key, on);
}

/// After the mode command the mode is read as sent.
pub proof fn law_mode_reads_back(shadow: json::Json, m: Mode, st: AcState)
    requires
        st.reads(patched(shadow, fields(device::patch1("workMode"@, m.code() as int)))),
    ensures
        Mode::of_code(st.work_mode as int) == Some(m),
{
    law_patch_is_read(shadow, one("workMode"@, m.code() as int), "workMode"@);
}

/// After the sleep command the level is read as sent, within 0 to 3.
pub proof fn law_sleep_reads_back(shadow: json::Json, level: int, st: AcState)
    requires
        st.reads(
            patched(shadow, fields(device::patch1("sleep"@, device::clamped(level, 0, 3)))),
        ),
    ensures
        st.sleep == device::clamped(level, 0, 3),
        0 <= st.sleep <= 3,
{
    law_patch_is_read(shadow, one("sleep"@, device::clamped(level, 0, 3)), "sleep"@);
}

/// After a swing command the vane is read as swinging or not.
pub proof fn law_swing_reads_back(shadow: json::Json, on: bool, v: AcState, h: AcState)
    requires
        v.reads(
            patched(
                shadow,
                fields(
                    device::patch1(
                        "verticalDirection"@,
                        if on {
                            1
                        } else {
                            8
                        },
                    ),
                ),
            ),
        ),
        h.reads(
            patched(
                shadow,
                fields(
                    device::patch1(
                        "horizontalDirection"@,
                        if on {
                            1
                        } else {
                            8
                        },
                    ),
                ),
            ),
        ),
    ensures
        (1 <= v.v_dir <= 3) == on,
        (1 <= h.h_dir <= 4) == on,
        device::fixed_at(v.v_dir) is None,
        device::fixed_at(h.h_dir) is None,
{
    let n: int = if on {
        1
    } else {
        8
    };
    law_patch_is_read(shadow, one("verticalDirection"@, n), "verticalDirection"@);
    law_patch_is_read(shadow, one("horizontalDirection"@, n), "horizontalDirection"@);
}

/// After the vent command both vanes are read as fixed at the aim point, and
/// neither swings.
pub proof fn law_vent_reads_back(shadow: json::Json, h: int, v: int, st: AcState)
    requires
        0 <= h <= 4,
        0 <= v <= 4,
        st.reads(patched(shadow, fields(device::vent_patch(h, v)))),
    ensures
        device::fixed_at(st.h_dir) == Some(h as usize),
        device::fixed_at(st.v_dir) == Some(v as usize),
        !(1 <= st.h_dir <= 4),
        !(1 <= st.v_dir <= 3),
{
    reveal_strlit("horizontalDirection");
    reveal_strlit("verticalDirection");
    assert("horizontalDirection"@.len() != "verticalDirection"@.len());
    let p = fields(device::vent_patch(h, v));
    law_patch_is_read(shadow, p, "horizontalDirection"@);
    law_patch_is_read(shadow, p, "verticalDirection"@);
}

/// After the fan command, in the dialect that the shadow speaks, the speed is
/// read as sent.
pub proof fn law_fan_reads_back(shadow: json::Json, f: Fan, st: AcState)
    requires
        f.valid(),
        st.reads(patched(shadow, f.patch(device::spoken_dialect(shadow)))),
    ensures
        st.fan == f,
        st.dialect == device::spoken_dialect(shadow),
{
    reveal_strlit("windSpeedAutoSwitch");
    reveal_strlit("windSpeed7Gear");
    reveal_strlit("windSpeed");
    reveal_strlit("turbo");
    reveal_strlit("silenceSwitch");
    reveal_strlit("highTemperatureWind");
    assert("windSpeedAutoSwitch"@.len() != "windSpeed7Gear"@.len());
    assert("highTemperatureWind"@[0] != "windSpeedAutoSwitch"@[0]);
    assert("silenceSwitch"@.len() != "windSpeed7Gear"@.len());
    let d = device::spoken_dialect(shadow);
    let p = f.patch(d);
    lemma_patched(shadow, p);
    match d {
        FanDialect::SevenGear => {
            law_patch_is_read(shadow, p, "windSpeedAutoSwitch"@);
            law_patch_is_read(shadow, p, "windSpeed7Gear"@);
            let after = patched(shadow, p);
            assert(p["windSpeed7Gear"@] == json::whole(f.level() as int));
            assert(json::member_of(device::desired(after), "windSpeed7Gear"@) is Some);
            assert(device::chosen(after, "windSpeed7Gear"@) == Some(f.level() as i64));
            assert(device::chosen(after, "windSpeedAutoSwitch"@) == Some(
                device::bit(f is Auto) as i64,
            ));
            law_fan_steps(f);
        },
        FanDialect::Classic => {
            law_patch_is_read(shadow, p, "turbo"@);
            law_patch_is_read(shadow, p, "silenceSwitch"@);
            law_patch_is_read(shadow, p, "windSpeed"@);
            assert(!p.contains_key("windSpeed7Gear"@));
            let after = patched(shadow, p);
            assert(device::spoken_dialect(after) == FanDialect::Classic);
            assert("windSpeed"@.len() == 9 && "turbo"@.len() == 5 && "silenceSwitch"@.len() == 13);
            assert(p["turbo"@] == json::whole(device::bit(f is Turbo)));
            assert(device::chosen(after, "turbo"@) == Some(device::bit(f is Turbo) as i64));
            assert(device::chosen(after, "silenceSwitch"@) == Some(
                device::bit(f == Fan::Gear(1)) as i64,
            ));
            assert(device::chosen(after, "windSpeed"@) == Some(f.classic_speed() as i64));
        },
    }
}

// ---------------------------------------------------------------------------
// temperatures and power
// ---------------------------------------------------------------------------

proof fn lemma_pattern(v: nat, e: int) -> (k: nat)
    requires
        0 < v < 0x20_0000_0000_0000,
    ensures
        k <= 52,
        double::HIDDEN <= v * pow2(k) < 2 * double::HIDDEN,
        double::pattern(v, e) == (e - k + 1075) * 0x10_0000_0000_0000 + (v * pow2(k)
            - 0x10_0000_0000_0000),
    decreases 0x20_0000_0000_0000 - v,
{
    lemma2_to64();
    if v >= 0x10_0000_0000_0000 {
        assert(v * pow2(0) == v);
        0
    } else {
        let j = lemma_pattern(2 * v, e - 1);
        lemma_pow2_unfold(j + 1);
        assert((2 * v) * pow2(j) == v * (2 * pow2(j))) by (nonlinear_arith);
        if j >= 52 {
            lemma2_to64_rest();
            assert((2 * v) * pow2(j) >= 0x20_0000_0000_0000) by (nonlinear_arith)
                requires
                    j == 52,
                    pow2(52) == 0x10_0000_0000_0000,
                    v >= 1,
            ;
        }
        j + 1
    }
}

/// The parts of the double that an integer is.
pub proof fn lemma_integer_parts(n: int) -> (k: nat)
    requires
        -0x20_0000_0000_0000 < n < 0x20_0000_0000_0000,
        n != 0,
    ensures
        k <= 52,
        double::finite(double::integer_pattern(n)),
        double::negative(double::integer_pattern(n)) == (n < 0),
        double::significand(double::integer_pattern(n)) == device::magnitude(n) * pow2(k),
        double::exponent(double::integer_pattern(n)) == -k,
{
    let b = double::integer_pattern(n);
    lemma2_to64();
    let v = device::magnitude(n);
    double::lemma_small_integers_are_doubles(v);
    let k = lemma_pattern(v, 0);
    let m = v * pow2(k);
    let p = (1075 - k) * 0x10_0000_0000_0000 + (m - 0x10_0000_0000_0000);
    assert(double::pattern(v, 0) == p);
    assert(0 <= p < double::SIGN);
    assert(p / 0x10_0000_0000_0000 == 1075 - k);
    assert(p % 0x10_0000_0000_0000 == m - 0x10_0000_0000_0000);
    assert(double::exponent_field(b) == 1075 - k);
    k
}

/// An integer below 2^53 in magnitude, as a double, rounds to itself.
pub proof fn law_integers_round_to_themselves(n: int)
    requires
        -0x20_0000_0000_0000 < n < 0x20_0000_0000_0000,
    ensures
        double::rounded_of(double::integer_pattern(n)) == n,
        double::finite(double::integer_pattern(n)),
{
    let b = double::integer_pattern(n);
    lemma2_to64();
    if n == 0 {
        let p = pow2(1074);
        lemma_pow2_pos(1074);
        lemma_basic_div(p as int, (2 * p) as int);
    } else {
        let v = device::magnitude(n);
        double::lemma_small_integers_are_doubles(v);
        let k = lemma_pattern(v, 0);
        let m = v * pow2(k);
        let p = (1075 - k) * 0x10_0000_0000_0000 + (m - 0x10_0000_0000_0000);
        assert(double::pattern(v, 0) == p);
        assert(0 <= p < double::SIGN);
        assert(p / 0x10_0000_0000_0000 == 1075 - k);
        assert(p % 0x10_0000_0000_0000 == m - 0x10_0000_0000_0000);
        assert(double::exponent_field(b) == 1075 - k);
        assert(double::significand(b) == m);
        assert(double::exponent(b) == -k);
        if k == 0 {
            assert(v * pow2(0) == v);
            assert(m * pow2(0) == m);
        } else {
            let u = pow2(k) as int;
            lemma_pow2_pos(k);
            assert(2 * m + u == v * (2 * u) + u) by (nonlinear_arith)
                requires
                    m == v * u,
            ;
            lemma_fundamental_div_mod_converse(2 * m + u, 2 * u, v as int, u);
        }
        assert(double::rounded_magnitude(b) == v);
    }
}

/// After the temperature command the target is read as the temperature sent,
/// within the limits of the device, with its Fahrenheit mirror.
pub proof fn law_temp_reads_back(
    shadow: json::Json,
    celsius: int,
    t_min: int,
    t_max: int,
    st: AcState,
)
    requires
        -0x20_0000_0000_0000 < t_min <= t_max < 0x20_0000_0000_0000,
        st.reads(patched(shadow, fields(device::temp_patch(celsius, t_min, t_max)))),
    ensures
        st.target_temp is Some,
        double::rounded_of(st.target_temp->0@) == device::clamped(celsius, t_min, t_max),
        st.target_f == Some(device::fahrenheit_of(device::clamped(celsius, t_min, t_max))),
        t_min <= device::clamped(celsius, t_min, t_max) <= t_max,
{
    reveal_strlit("targetTemperature");
    reveal_strlit("targetFahrenheitTemp");
    assert("targetTemperature"@.len() != "targetFahrenheitTemp"@.len());
    let c = device::clamped(celsius, t_min, t_max);
    let p = fields(device::temp_patch(celsius, t_min, t_max));
    law_patch_is_read(shadow, p, "targetTemperature"@);
    law_patch_is_read(shadow, p, "targetFahrenheitTemp"@);
    law_integers_round_to_themselves(c);
    assert(p["targetTemperature"@] == json::whole(c));
}

/// Up to frequencies far beyond any compressor the power estimate is 45 W and
/// 20 W per Hz, without rounding.
pub proof fn law_power_estimate(hz: int)
    requires
        hz <= 0x100_0000_0000,
    ensures
        device::watts_at(hz) == 45 + 20 * (if hz > 0 {
            hz
        } else {
            0
        }),
{
    let h: nat = if hz > 0 {
        hz as nat
    } else {
        0
    };
    double::lemma_small_integers_are_doubles(h);
    double::lemma_small_integers_are_doubles(20 * h);
    double::lemma_small_integers_are_doubles(45 + 20 * h);
}

/// A double lies within half a spacing of the number that it rounds.
pub proof fn lemma_rounding_error(n: nat, d: nat)
    requires
        d > 0,
    ensures
        ({
            let x = double::nearest_double(n, d);
            let u = double::spacing(n / d);
            &&& 2 * (x * d - n) <= d * u
            &&& 2 * (n - x * d) <= d * u
        }),
{
    double::lemma_spacing(n / d);
    let u = double::spacing(n / d) as int;
    let size = d * u;
    assert(size > 0) by (nonlinear_arith)
        requires
            size == d * u,
            d > 0,
            u > 0,
    ;
    lemma_fundamental_div_mod(n as int, size);
    lemma_mod_bound(n as int, size);
    let m = double::nearest_even(n, size as nat) as int;
    let q = n as int / size;
    assert(double::nearest_double(n, d) == m * u);
    assert(size * (q + 1) == size * q + size) by (nonlinear_arith);
    assert((m * u) * d == m * size) by (nonlinear_arith)
        requires
            size == d * u,
    ;
    assert(m * size == size * m) by (nonlinear_arith);
    assert(m == q || m == q + 1);
    if m == q {
        assert(size * m == size * q);
    } else {
        assert(size * m == size * (q + 1));
    }
}

/// The spacing of doubles is a 2^52nd of their size at most.
pub proof fn lemma_spacing_bound(q: nat)
    ensures
        double::spacing(q) == 1 || double::spacing(q) * 0x10_0000_0000_0000 <= q,
{
    double::lemma_spacing(q);
    if q >= 0x20_0000_0000_0000 {
        let u = double::spacing(q) as int;
        lemma_fundamental_div_mod(q as int, u);
        lemma_mod_bound(q as int, u);
        assert(u * 0x10_0000_0000_0000 <= u * (q as int / u)) by (nonlinear_arith)
            requires
                u > 0,
                q as int / u >= 0x10_0000_0000_0000,
        ;
    }
}

/// The Fahrenheit mirror is the degree nearest to 9/5 c + 32, for temperatures
/// up to 2^40 in magnitude.
pub proof fn law_fahrenheit(c: int)
    requires
        -0x100_0000_0000 <= c <= 0x100_0000_0000,
    ensures
        device::fahrenheit_of(c) == (18 * c + 325) / 10,
{
    let d: int = 0x100_0000_0000_0000;
    assert(d == device::DEGREE);
    let a = device::magnitude(c);
    double::lemma_small_integers_are_doubles(a);
    double::lemma_small_integers_are_doubles(9 * a);
    let n: nat = (9 * a * d) as nat;
    let x = device::nine_fifths(c) as int;
    assert(x == double::nearest_double(n, 5));
    lemma_rounding_error(n, 5);
    lemma_spacing_bound(n / 5);
    let slack: int = 0x1000_0000_0000;
    assert(-5 * slack <= 5 * x - n <= 5 * slack);
    let signed: int = if c < 0 {
        -x
    } else {
        x
    };
    let sum = signed + 32 * d;
    assert(-5 * slack <= 5 * sum - (9 * c + 160) * d <= 5 * slack);
    let s = device::magnitude(sum);
    let t = double::nearest_double(s, 1) as int;
    assert(s / 1 == s);
    lemma_rounding_error(s, 1);
    lemma_spacing_bound(s);
    assert(t * 1 == t);
    assert(-slack <= t - s <= slack);
    let units = device::fahrenheit_units(c);
    assert(units == (if sum < 0 {
        -t
    } else {
        t
    }));
    assert(-10 * slack <= 5 * units - (9 * c + 160) * 0x100_0000_0000_0000 <= 10 * slack);
    let k = (18 * c + 325) / 10;
    assert(-2 <= (9 * c + 160) - 5 * k <= 2);
    let w = device::magnitude(units) as int;
    let unsigned: int = if units < 0 {
        -k
    } else {
        k
    };
    let rest = 2 * w + 0x100_0000_0000_0000 - unsigned * 0x200_0000_0000_0000;
    assert(0 <= rest < 0x200_0000_0000_0000);
    lemma_fundamental_div_mod_converse(
        2 * w + 0x100_0000_0000_0000,
        0x200_0000_0000_0000,
        unsigned,
        rest,
    );
}

} // verus!
