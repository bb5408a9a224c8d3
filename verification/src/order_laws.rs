//! Laws of the commands that change a setting: what a unit that takes a command
//! up is read as afterwards, and what else the command leaves alone.

use crate::cli;
use crate::cloud_laws;
use crate::device;
use crate::double;
use crate::fault;
use crate::json;
use crate::laws;
use crate::orders;
use crate::text;
use device::{AcState, Fan, Mode};
use json::Json;
use orders::{OrderView, PowerChoice};
use vstd::prelude::*;

verus! {

// ---------------------------------------------------------------------------
// words
// ---------------------------------------------------------------------------

pub proof fn lemma_lower_again(s: Seq<char>)
    ensures
        text::lower(text::lower(s)) == text::lower(s),
{
    assert(text::lower(text::lower(s)) =~= text::lower(s));
}

/// The words for a switch, in any mix of upper and lower case, each with its
/// opposite.
pub proof fn law_switch_words(s: Seq<char>)
    ensures
        text::lower(s) == "on"@ ==> cli::switch_of(s) == Some(true),
        text::lower(s) == "1"@ ==> cli::switch_of(s) == Some(true),
        text::lower(s) == "true"@ ==> cli::switch_of(s) == Some(true),
        text::lower(s) == "yes"@ ==> cli::switch_of(s) == Some(true),
        text::lower(s) == "off"@ ==> cli::switch_of(s) == Some(false),
        text::lower(s) == "0"@ ==> cli::switch_of(s) == Some(false),
        text::lower(s) == "false"@ ==> cli::switch_of(s) == Some(false),
        text::lower(s) == "no"@ ==> cli::switch_of(s) == Some(false),
        cli::switch_of(s) is Some ==> text::lower(s).len() <= 5,
        cli::switch_of(text::lower(s)) == cli::switch_of(s),
{
    lemma_lower_again(s);
    reveal_strlit("on");
    reveal_strlit("1");
    reveal_strlit("true");
    reveal_strlit("yes");
    reveal_strlit("off");
    reveal_strlit("0");
    reveal_strlit("false");
    reveal_strlit("no");
    assert("off"@[0] != "yes"@[0]);
    assert("0"@[0] != "1"@[0]);
    assert("no"@[0] != "on"@[0]);
}

/// What is printed of a switch is one of the two words that set it.
pub proof fn law_switch_is_printed(b: bool)
    ensures
        cli::on_off(b) == "on"@ <==> b,
        cli::on_off(b) == "off"@ <==> !b,
        cli::switch_of(cli::on_off(b)) == Some(b),
{
    reveal_strlit("on");
    reveal_strlit("off");
    assert("on"@.len() != "off"@.len());
    cloud_laws::law_switch_words_read_back(b);
}

// ---------------------------------------------------------------------------
// power
// ---------------------------------------------------------------------------

/// The power command reads its words as every other switch does, but for `yes`
/// and `no`, and knows `toggle` besides.
pub proof fn law_power_words(s: Seq<char>)
    ensures
        orders::power_chosen(Some(s)) == Ok::<PowerChoice, fault::FaultView>(PowerChoice::On)
            ==> cli::switch_of(s) == Some(true),
        orders::power_chosen(Some(s)) == Ok::<PowerChoice, fault::FaultView>(PowerChoice::Off)
            ==> cli::switch_of(s) == Some(false),
        orders::power_chosen(Some(s)) == Ok::<PowerChoice, fault::FaultView>(PowerChoice::Toggle)
            <==> text::lower(s) == "toggle"@,
        cli::switch_of(s) == Some(true) && text::lower(s) != "yes"@ ==> orders::power_chosen(
            Some(s),
        ) == Ok::<PowerChoice, fault::FaultView>(PowerChoice::On),
        cli::switch_of(s) == Some(false) && text::lower(s) != "no"@ ==> orders::power_chosen(
            Some(s),
        ) == Ok::<PowerChoice, fault::FaultView>(PowerChoice::Off),
        cli::switch_of(s) is None && text::lower(s) != "toggle"@ ==> orders::power_chosen(
            Some(s),
        ) is Err,
        orders::power_chosen(None) is Err,
{
    law_switch_words(s);
    reveal_strlit("toggle");
    reveal_strlit("on");
    reveal_strlit("1");
    reveal_strlit("true");
    reveal_strlit("yes");
    reveal_strlit("off");
    reveal_strlit("0");
    reveal_strlit("false");
    reveal_strlit("no");
}

/// What is printed of the power sets it: with either word the power command, and
/// the command of that name, leave the unit read as on or off, and say so.
pub proof fn law_power_command(
    shadow: Json,
    on: bool,
    more: Seq<Seq<char>>,
    st: AcState,
)
    requires
        st.reads(laws::patched(shadow, laws::fields(orders::power_order(on).desired))),
    ensures
        orders::power_chosen(Some(cli::on_off(on))) == Ok::<PowerChoice, fault::FaultView>(
            if on {
                PowerChoice::On
            } else {
                PowerChoice::Off
            },
        ),
        cli::command_of(seq![cli::on_off(on)] + more) == cli::CommandView::Power(
            Some(cli::on_off(on)),
        ),
        st.power == on,
        orders::power_order(on).action == "power "@ + cli::on_off(on),
        cli::field_text(st, "power"@) == Ok::<Seq<char>, fault::FaultView>(cli::on_off(on)),
        orders::power_order(on).desired == Json::Object(
            json::no_members().insert(
                "powerSwitch"@,
                json::whole(
                    if on {
                        1
                    } else {
                        0
                    },
                ),
            ),
        ),
{
    law_switch_is_printed(on);
    reveal_strlit("on");
    reveal_strlit("off");
    reveal_strlit("yes");
    reveal_strlit("no");
    reveal_strlit("status");
    reveal_strlit("state");
    reveal_strlit("get");
    reveal_strlit("power");
    assert("off"@[0] != "get"@[0]);
    assert("off"@[0] != "yes"@[0]);
    assert("on"@[0] != "no"@[0]);
    assert(text::lower("on"@) =~= "on"@);
    assert(text::lower("off"@) =~= "off"@);
    law_power_words(cli::on_off(on));
    assert((seq![cli::on_off(on)] + more)[0] == cli::on_off(on));
    laws::law_flag_command_sets_its_member(shadow, "powerSwitch"@, on, st);
    assert(text::lower("power"@) =~= "power"@);
}

// ---------------------------------------------------------------------------
// mode
// ---------------------------------------------------------------------------

/// The modes are auto, cool, dry, fan and heat, with the values 0 to 4 in that
/// order; each goes by its own word.
pub proof fn law_mode_values(m: Mode)
    ensures
        0 <= m.code() <= 4,
        m.code() == 0 <==> m.keyword() == "auto"@,
        m.code() == 1 <==> m.keyword() == "cool"@,
        m.code() == 2 <==> m.keyword() == "dry"@,
        m.code() == 3 <==> m.keyword() == "fan"@,
        m.code() == 4 <==> m.keyword() == "heat"@,
        text::lower(m.name()) == m.keyword(),
{
    reveal_strlit("auto");
    reveal_strlit("cool");
    reveal_strlit("dry");
    reveal_strlit("fan");
    reveal_strlit("heat");
    reveal_strlit("Auto");
    reveal_strlit("Cool");
    reveal_strlit("Dry");
    reveal_strlit("Fan");
    reveal_strlit("Heat");
    assert("auto"@[0] == 'a' && "cool"@[0] == 'c' && "heat"@[0] == 'h');
    assert("dry"@[0] == 'd' && "fan"@[0] == 'f');
    assert(text::lower(m.name()) =~= m.keyword());
}

/// A word that the mode command takes sets the mode that it names: the unit is
/// read as in that mode, and both the answer and `get mode` give its name.
pub proof fn law_mode_command(shadow: Json, word: Seq<char>, o: OrderView, st: AcState)
    requires
        orders::mode_order(Some(word)) == Ok::<OrderView, fault::FaultView>(o),
        st.reads(laws::patched(shadow, laws::fields(o.desired))),
    ensures
        Mode::of_word(word) matches Some(m) && st.work_mode == m.code() && o.action == "mode "@
            + m.keyword() && cli::field_text(st, "mode"@) == Ok::<Seq<char>, fault::FaultView>(
            m.keyword(),
        ),
        laws::fields(o.desired).dom() == set!["workMode"@],
{
    let m = Mode::of_word(word)->0;
    laws::law_mode_reads_back(shadow, m, st);
    laws::law_mode_code(m, st.work_mode as int);
    lemma_mode_field(st, m);
    assert(laws::fields(o.desired).dom() =~= set!["workMode"@]);
}

proof fn lemma_mode_field(st: AcState, m: Mode)
    requires
        Mode::of_code(st.work_mode as int) == Some(m),
    ensures
        cli::field_text(st, "mode"@) == Ok::<Seq<char>, fault::FaultView>(m.keyword()),
{
    reveal_strlit("mode");
    assert(text::lower("mode"@) =~= "mode"@);
    reveal_strlit("power");
    reveal_strlit("swing");
    reveal_strlit("vswing");
    reveal_strlit("v_swing");
    reveal_strlit("hswing");
    reveal_strlit("h_swing");
    reveal_strlit("eco");
    reveal_strlit("healthy");
    reveal_strlit("health");
    reveal_strlit("screen");
    reveal_strlit("beep");
    reveal_strlit("self_clean");
    reveal_strlit("selfclean");
    reveal_strlit("anti_mold");
    reveal_strlit("antimold");
    reveal_strlit("eight_heat");
    reveal_strlit("eightheat");
    reveal_strlit("target");
    reveal_strlit("target_c");
    reveal_strlit("current");
    reveal_strlit("current_c");
    reveal_strlit("temp");
    reveal_strlit("outdoor");
    reveal_strlit("outdoor_c");
    reveal_strlit("coil");
    reveal_strlit("coil_c");
    assert("mode"@[0] != "beep"@[0]);
    assert("mode"@[0] != "temp"@[0]);
    assert("mode"@[0] != "coil"@[0]);
}

/// Every mode can be asked for, by its label and by its key; the words for
/// drying and for the fan have longer forms.
pub proof fn law_every_mode_can_be_asked(m: Mode)
    ensures
        orders::mode_order(Some(m.keyword())) matches Ok(o) && o.desired == Json::Object(
            json::no_members().insert("workMode"@, json::whole(m.code() as int)),
        ),
        orders::mode_order(Some(m.name())) == orders::mode_order(Some(m.keyword())),
        Mode::of_word("dehumidify"@) == Some(Mode::Dry),
        Mode::of_word("dehumidification"@) == Some(Mode::Dry),
        Mode::of_word("fan_only"@) == Some(Mode::Fan),
        Mode::of_word("fanonly"@) == Some(Mode::Fan),
{
    laws::law_mode_names_read_back(m);
    reveal_strlit("auto");
    reveal_strlit("cool");
    reveal_strlit("dry");
    reveal_strlit("fan");
    reveal_strlit("dehumidify");
    reveal_strlit("dehumidification");
    reveal_strlit("fan_only");
    reveal_strlit("fanonly");
    assert(text::lower("dehumidify"@) =~= "dehumidify"@);
    assert(text::lower("dehumidification"@) =~= "dehumidification"@);
    assert(text::lower("fan_only"@) =~= "fan_only"@);
    assert(text::lower("fanonly"@) =~= "fanonly"@);
}

// ---------------------------------------------------------------------------
// temperature
// ---------------------------------------------------------------------------

/// Whether `c` is `n` moved into the limits of a device, and not further.
pub open spec fn limited(c: int, n: int, s: AcState) -> bool {
    &&& s.t_min <= c <= s.t_max
    &&& s.t_min <= n <= s.t_max ==> c == n
    &&& n < s.t_min ==> c == s.t_min
    &&& n > s.t_max ==> c == s.t_max
}

/// Whether an order sets the target to `c` degrees, in both units, and sets
/// nothing else.
pub open spec fn sets_target(o: OrderView, c: int) -> bool {
    &&& laws::fields(o.desired).dom() == set!["targetTemperature"@, "targetFahrenheitTemp"@]
    &&& json::member(o.desired, "targetTemperature"@) == Some(json::whole(c))
    &&& json::member(o.desired, "targetFahrenheitTemp"@) == Some(
        json::whole((18 * c + 325) / 10),
    )
    &&& o.action == "temp "@ + text::dec_int(c) + "C"@
}

proof fn lemma_temp_patch(s: AcState, n: int, o: OrderView)
    requires
        -0x100_0000_0000 <= s.t_min <= s.t_max <= 0x100_0000_0000,
        ({
            let c = device::clamped(n, s.t_min as int, s.t_max as int);
            &&& o.action == "temp "@ + text::dec_int(c) + "C"@
            &&& o.desired == device::temp_patch(c, s.t_min as int, s.t_max as int)
        }),
    ensures
        exists|c: int| #[trigger] limited(c, n, s) && sets_target(o, c),
{
    reveal_strlit("targetTemperature");
    reveal_strlit("targetFahrenheitTemp");
    assert("targetTemperature"@.len() != "targetFahrenheitTemp"@.len());
    let c = device::clamped(n, s.t_min as int, s.t_max as int);
    laws::law_fahrenheit(c);
    assert(laws::fields(o.desired).dom() =~= set!["targetTemperature"@, "targetFahrenheitTemp"@]);
    assert(limited(c, n, s) && sets_target(o, c));
}

/// A number of degrees sets that target, moved into the limits of the device.
pub proof fn law_temp_command_absolute(n: i64, s: AcState)
    requires
        0 <= n,
        -0x100_0000_0000 <= s.t_min <= s.t_max <= 0x100_0000_0000,
    ensures
        orders::temp_order(text::dec_int(n as int), s) matches Ok(o) && exists|c: int|
            #[trigger] limited(c, n as int, s) && sets_target(o, c),
{
    text::law_decimal_round_trip(n);
    text::lemma_dec_reads_back(n as nat);
    let arg = text::dec_int(n as int);
    assert(arg.len() > 0 && text::is_digit(arg[0]));
    let o = orders::temp_order(arg, s)->Ok_0;
    lemma_temp_patch(s, n as int, o);
}

/// `+N` raises the target of the device by `N` degrees, and `-N` lowers it by as
/// much, within the limits. A device without a target counts as set to 24.
pub proof fn law_temp_command_relative(n: i64, t: i64, s: AcState)
    requires
        0 <= n <= 0x100_0000_0000,
        -0x100_0000_0000 <= t <= 0x100_0000_0000,
        -0x100_0000_0000 <= s.t_min <= s.t_max <= 0x100_0000_0000,
        json::reading_bits(s.target_temp) == Some(double::integer_pattern(t as int)) || (
        json::reading_bits(s.target_temp) is None && t == 24),
    ensures
        orders::temp_order(seq!['+'] + text::dec_int(n as int), s) matches Ok(o) && exists|c: int|
            #[trigger] limited(c, t + n, s) && sets_target(o, c),
        orders::temp_order(seq!['-'] + text::dec_int(n as int), s) matches Ok(o) && exists|c: int|
            #[trigger] limited(c, t - n, s) && sets_target(o, c),
{
    text::law_decimal_round_trip(n);
    text::lemma_dec_reads_back(n as nat);
    let d = text::dec_int(n as int);
    laws::law_integers_round_to_themselves(t as int);
    assert(orders::target_of(s) == t);
    cloud_laws::law_relative_temperature(d, t as int, n);
    cloud_laws::law_relative_temperature(d, t - n, n);
    lemma_temp_patch(s, t + n, orders::temp_order(seq!['+'] + d, s)->Ok_0);
    lemma_temp_patch(s, t - n, orders::temp_order(seq!['-'] + d, s)->Ok_0);
}

/// A unit that takes the temperature command up is read with that target, in
/// both units.
pub proof fn law_temp_command_is_taken(shadow: Json, o: OrderView, c: int, st: AcState)
    requires
        -0x100_0000_0000 <= c <= 0x100_0000_0000,
        sets_target(o, c),
        o.desired is Object,
        st.reads(laws::patched(shadow, laws::fields(o.desired))),
    ensures
        json::reading_bits(st.target_temp) == Some(double::integer_pattern(c)),
        st.target_f == Some(((18 * c + 325) / 10) as i64),
{
    let p = laws::fields(o.desired);
    laws::law_patch_is_read(shadow, p, "targetTemperature"@);
    laws::law_patch_is_read(shadow, p, "targetFahrenheitTemp"@);
}

// ---------------------------------------------------------------------------
// fan
// ---------------------------------------------------------------------------

/// Every speed can be asked for by its key, which the answer gives back; a unit
/// that takes the command up is read at that speed, and `get fan` prints the key.
pub proof fn law_fan_command(shadow: Json, f: Fan, st: AcState)
    requires
        f.valid(),
        st.reads(
            laws::patched(
                shadow,
                laws::fields(orders::fan_order(f, device::spoken_dialect(shadow)).desired),
            ),
        ),
    ensures
        orders::fan_named(Some(f.keyword())) == Ok::<Fan, fault::FaultView>(f),
        orders::fan_order(f, device::spoken_dialect(shadow)).action == "fan "@ + f.keyword(),
        st.fan == f,
        cli::field_text(st, "fan"@) == Ok::<Seq<char>, fault::FaultView>(f.keyword()),
{
    laws::law_fan_key_reads_back(f);
    laws::law_fan_reads_back(shadow, f, st);
    lemma_fan_field(st);
}

proof fn lemma_fan_field(st: AcState)
    ensures
        cli::field_text(st, "fan"@) == Ok::<Seq<char>, fault::FaultView>(st.fan.keyword()),
{
    reveal_strlit("fan");
    assert(text::lower("fan"@) =~= "fan"@);
    reveal_strlit("power");
    reveal_strlit("swing");
    reveal_strlit("vswing");
    reveal_strlit("v_swing");
    reveal_strlit("hswing");
    reveal_strlit("h_swing");
    reveal_strlit("eco");
    reveal_strlit("healthy");
    reveal_strlit("health");
    reveal_strlit("screen");
    reveal_strlit("beep");
    reveal_strlit("self_clean");
    reveal_strlit("selfclean");
    reveal_strlit("anti_mold");
    reveal_strlit("antimold");
    reveal_strlit("eight_heat");
    reveal_strlit("eightheat");
    reveal_strlit("target");
    reveal_strlit("target_c");
    reveal_strlit("current");
    reveal_strlit("current_c");
    reveal_strlit("temp");
    reveal_strlit("outdoor");
    reveal_strlit("outdoor_c");
    reveal_strlit("coil");
    reveal_strlit("coil_c");
    reveal_strlit("mode");
    reveal_strlit("target_f");
    assert("fan"@[0] != "eco"@[0]);
}

/// The keys of the speeds: auto, the six gears by their numbers, and turbo. A
/// gear also goes by its number alone.
pub proof fn law_fan_words(g: u8)
    requires
        1 <= g <= 6,
    ensures
        Fan::Auto.keyword() == "auto"@,
        Fan::Turbo.keyword() == "turbo"@,
        Fan::Gear(g).keyword() == "gear"@ + text::dec(g as nat),
        Fan::of_word(text::dec(g as nat)) == Some(Fan::Gear(g)),
        Fan::of_word("strong"@) == Some(Fan::Turbo),
        Fan::of_word("max"@) == Some(Fan::Turbo),
{
    reveal_strlit("auto");
    reveal_strlit("turbo");
    reveal_strlit("strong");
    reveal_strlit("max");
    reveal_strlit("gear");
    assert(text::lower("strong"@) =~= "strong"@);
    assert(text::lower("max"@) =~= "max"@);
    let d = text::digit(g as int);
    let w = text::dec(g as nat);
    assert(w =~= seq![d]);
    assert(text::lower(w) =~= w);
    assert(text::without_start(w, "gear"@) == w);
    text::lemma_dec_reads_back(g as nat);
    assert(w[0] != '+');
}

/// In the seven-gear dialect a speed is sent as its level, with the automatic
/// switch set for auto alone. In the classic one turbo and silence have switches
/// of their own, and the wind speed never falls as the gear rises.
pub proof fn law_fan_patches(f: Fan, g: Fan)
    requires
        f.valid(),
        g.valid(),
    ensures
        ({
            let p = f.patch(device::FanDialect::SevenGear);
            &&& p.dom() == set!["windSpeedAutoSwitch"@, "windSpeed7Gear"@]
            &&& p["windSpeed7Gear"@] == json::whole(f.level() as int)
            &&& p["windSpeedAutoSwitch"@] == json::whole(
                if f is Auto {
                    1
                } else {
                    0
                },
            )
        }),
        ({
            let p = f.patch(device::FanDialect::Classic);
            &&& p.dom() == set![
                "highTemperatureWind"@,
                "turbo"@,
                "silenceSwitch"@,
                "windSpeed"@,
            ]
            &&& p["highTemperatureWind"@] == json::whole(0)
            &&& p["turbo"@] == json::whole(
                if f is Turbo {
                    1
                } else {
                    0
                },
            )
            &&& p["silenceSwitch"@] == json::whole(
                if f == Fan::Gear(1) {
                    1
                } else {
                    0
                },
            )
        }),
        f.level() <= g.level() ==> f.classic_speed() <= g.classic_speed(),
        f is Auto <==> f.classic_speed() == 0,
        0 <= f.classic_speed() <= 6,
        f is Gear && f.level() > 1 ==> f.classic_speed() == f.level(),
{
    reveal_strlit("windSpeedAutoSwitch");
    reveal_strlit("windSpeed7Gear");
    reveal_strlit("highTemperatureWind");
    reveal_strlit("turbo");
    reveal_strlit("silenceSwitch");
    reveal_strlit("windSpeed");
    assert("windSpeedAutoSwitch"@.len() != "windSpeed7Gear"@.len());
    assert("turbo"@.len() == 5 && "silenceSwitch"@.len() == 13 && "windSpeed"@.len() == 9);
    assert("highTemperatureWind"@.len() == 19);
    assert(f.patch(device::FanDialect::SevenGear).dom() =~= set![
        "windSpeedAutoSwitch"@,
        "windSpeed7Gear"@,
    ]);
    assert(f.patch(device::FanDialect::Classic).dom() =~= set![
        "highTemperatureWind"@,
        "turbo"@,
        "silenceSwitch"@,
        "windSpeed"@,
    ]);
}

// ---------------------------------------------------------------------------
// vanes
// ---------------------------------------------------------------------------

/// The swing commands set the sweep of their own vane, and leave the other as it
/// was. The answer names the command.
pub proof fn law_swing_command(
    shadow: Json,
    word: Seq<char>,
    on: bool,
    horizontal: bool,
    before: AcState,
    st: AcState,
)
    requires
        cli::switch_of(word) == Some(on),
        before.reads(shadow),
        st.reads(
            laws::patched(
                shadow,
                laws::fields(orders::swing_order(Some(word), horizontal)->Ok_0.desired),
            ),
        ),
    ensures
        orders::swing_order(Some(word), horizontal) matches Ok(o) && o.action == (if horizontal {
            "hswing"@
        } else {
            "swing"@
        }) + " "@ + cli::on_off(on),
        horizontal ==> (1 <= st.h_dir <= 4) == on && st.v_dir == before.v_dir,
        !horizontal ==> (1 <= st.v_dir <= 3) == on && st.h_dir == before.h_dir,
        horizontal ==> device::fixed_at(st.h_dir) is None,
        !horizontal ==> device::fixed_at(st.v_dir) is None,
{
    reveal_strlit("horizontalDirection");
    reveal_strlit("verticalDirection");
    assert("horizontalDirection"@.len() != "verticalDirection"@.len());
    let p = laws::fields(orders::swing_order(Some(word), horizontal)->Ok_0.desired);
    laws::law_patch_is_read(shadow, p, "horizontalDirection"@);
    laws::law_patch_is_read(shadow, p, "verticalDirection"@);
}

/// The place of an aim point, 1 to 5, names it on both axes.
pub proof fn law_vent_places(horizontal: bool, i: nat)
    requires
        i < 5,
    ensures
        orders::vent_of(horizontal, text::dec(i + 1)) == Some(i),
{
    text::lemma_dec_reads_back(i + 1);
    let w = text::dec(i + 1);
    assert(w =~= seq![text::digit(i as int + 1)]);
    assert(w[0] != '+');
}

/// The labels of the aim points, from left to right and from top to bottom.
pub proof fn law_vent_labels(i: int)
    ensures
        i == 0 ==> device::h_name(i) == "left"@ && device::v_name(i) == "top"@,
        i == 1 ==> device::h_name(i) == "mid-left"@ && device::v_name(i) == "upper"@,
        i == 2 ==> device::h_name(i) == "center"@ && device::v_name(i) == "middle"@,
        i == 3 ==> device::h_name(i) == "mid-right"@ && device::v_name(i) == "lower"@,
        i == 4 ==> device::h_name(i) == "right"@ && device::v_name(i) == "bottom"@,
{
}

/// The vent command takes a horizontal and a vertical point, in that order, and
/// fixes each vane at its own: 9 is the left or the top, 13 the right or the
/// bottom.
pub proof fn law_vent_command(shadow: Json, h: nat, v: nat, hs: Seq<char>, vs: Seq<char>, st: AcState)
    requires
        h < 5,
        v < 5,
        orders::vent_of(true, hs) == Some(h),
        orders::vent_of(false, vs) == Some(v),
        st.reads(
            laws::patched(
                shadow,
                laws::fields(orders::vent_order(Some(hs), Some(vs))->Ok_0.desired),
            ),
        ),
    ensures
        orders::vent_order(Some(hs), Some(vs)) matches Ok(o) && o.action == "vent "@
            + device::h_name(h as int) + " · "@ + device::v_name(v as int),
        st.h_dir == 9 + h,
        st.v_dir == 9 + v,
        orders::vent_order(None, Some(vs)) is Err,
        orders::vent_order(Some(hs), None) is Err,
{
    reveal_strlit("horizontalDirection");
    reveal_strlit("verticalDirection");
    assert("horizontalDirection"@.len() != "verticalDirection"@.len());
    let p = laws::fields(orders::vent_order(Some(hs), Some(vs))->Ok_0.desired);
    laws::law_patch_is_read(shadow, p, "horizontalDirection"@);
    laws::law_patch_is_read(shadow, p, "verticalDirection"@);
}

// ---------------------------------------------------------------------------
// features
// ---------------------------------------------------------------------------

/// Whether a name stands for a feature, in any mix of upper and lower case.
pub open spec fn goes_by(name: Seq<char>, w: Seq<char>) -> bool {
    text::lower(name) == w
}

proof fn lemma_feature_words()
    ensures
        "eco"@.len() == 3,
        "health"@.len() == 6,
        "health"@[0] == 'h',
        "healthy"@.len() == 7,
        "screen"@.len() == 6,
        "screen"@[0] == 's',
        "display"@.len() == 7,
        "display"@[0] == 'd',
        "healthy"@[0] == 'h',
        "beep"@.len() == 4,
        "selfclean"@.len() == 9,
        "selfclean"@[0] == 's',
        "self-clean"@.len() == 10,
        "self-clean"@[0] == 's',
        "self_clean"@.len() == 10,
        "self_clean"@[0] == 's',
        "antimold"@.len() == 8,
        "anti-mold"@.len() == 9,
        "anti-mold"@[0] == 'a',
        "anti_mold"@.len() == 9,
        "anti_mold"@[0] == 'a',
        "eightheat"@.len() == 9,
        "eightheat"@[0] == 'e',
        "8heat"@.len() == 5,
        "8heat"@[0] == '8',
        "8c-heat"@.len() == 7,
        "8c-heat"@[0] == '8',
        "eight_heat"@.len() == 10,
        "eight_heat"@[0] == 'e',
        "sleep"@.len() == 5,
        "sleep"@[0] == 's',
{
    reveal_strlit("eco");
    reveal_strlit("health");
    reveal_strlit("healthy");
    reveal_strlit("screen");
    reveal_strlit("display");
    reveal_strlit("beep");
    reveal_strlit("selfclean");
    reveal_strlit("self-clean");
    reveal_strlit("self_clean");
    reveal_strlit("antimold");
    reveal_strlit("anti-mold");
    reveal_strlit("anti_mold");
    reveal_strlit("eightheat");
    reveal_strlit("8heat");
    reveal_strlit("8c-heat");
    reveal_strlit("eight_heat");
    reveal_strlit("sleep");
}

/// The feature command sets the feature that it names: a unit that takes it up
/// is read with that feature on or off, in the member of the state that belongs
/// to the name, and the answer says which.
pub proof fn law_feature_command(
    shadow: Json,
    name: Seq<char>,
    word: Seq<char>,
    on: bool,
    o: OrderView,
    st: AcState,
)
    requires
        cli::switch_of(word) == Some(on),
        orders::feature_order(Some(name), Some(word)) == Ok::<OrderView, fault::FaultView>(o),
        st.reads(laws::patched(shadow, laws::fields(o.desired))),
    ensures
        goes_by(name, "eco"@) ==> st.eco == on,
        goes_by(name, "health"@) || goes_by(name, "healthy"@) ==> st.healthy == on,
        goes_by(name, "screen"@) || goes_by(name, "display"@) ==> st.screen == on,
        goes_by(name, "beep"@) ==> st.beep == on,
        goes_by(name, "selfclean"@) || goes_by(name, "self-clean"@) || goes_by(name, "self_clean"@)
            ==> st.self_clean == on,
        goes_by(name, "antimold"@) || goes_by(name, "anti-mold"@) || goes_by(name, "anti_mold"@)
            ==> st.anti_mold == on,
        goes_by(name, "eightheat"@) || goes_by(name, "8heat"@) || goes_by(name, "8c-heat"@)
            || goes_by(name, "eight_heat"@) ==> st.eight_heat == on,
        !goes_by(name, "sleep"@) ==> o.action == name + " "@ + cli::on_off(on),
        laws::fields(o.desired).dom().len() == 1,
{
    lemma_feature_words();
    if !goes_by(name, "sleep"@) {
        let field = cli::field_of(name)->0;
        laws::law_flag_command_sets_its_member(shadow, field, on, st);
        assert(laws::fields(o.desired).dom() =~= Set::empty().insert(field));
    } else {
        assert(laws::fields(o.desired).dom() =~= Set::empty().insert("sleep"@));
    }
}

/// Every feature can be switched, by each of its names and every word for a
/// switch; other names and other words are refused.
pub proof fn law_every_feature_can_be_set(name: Seq<char>, word: Seq<char>)
    ensures
        cli::switch_of(word) is Some && (goes_by(name, "eco"@) || goes_by(name, "health"@)
            || goes_by(name, "healthy"@) || goes_by(name, "screen"@) || goes_by(name, "display"@)
            || goes_by(name, "beep"@) || goes_by(name, "selfclean"@) || goes_by(
            name,
            "self-clean"@,
        ) || goes_by(name, "self_clean"@) || goes_by(name, "antimold"@) || goes_by(
            name,
            "anti-mold"@,
        ) || goes_by(name, "anti_mold"@) || goes_by(name, "eightheat"@) || goes_by(name, "8heat"@)
            || goes_by(name, "8c-heat"@) || goes_by(name, "eight_heat"@)) ==> orders::feature_order(
            Some(name),
            Some(word),
        ) is Ok,
        cli::switch_of(word) is None && !goes_by(name, "sleep"@) ==> orders::feature_order(
            Some(name),
            Some(word),
        ) is Err,
        orders::feature_order(None, Some(word)) is Err,
        orders::feature_order(Some(name), None) is Err,
{
    lemma_feature_words();
}

/// The sleep command takes the levels 0 to 3, and `on` and `off` for the first
/// two; a unit that takes it up is read at that level.
pub proof fn law_sleep_command(
    shadow: Json,
    name: Seq<char>,
    word: Seq<char>,
    level: int,
    st: AcState,
)
    requires
        goes_by(name, "sleep"@),
        (0 <= level <= 3 && word == text::dec_int(level)) || (text::lower(word) == "on"@ && level
            == 1) || (text::lower(word) == "off"@ && level == 0),
        st.reads(
            laws::patched(
                shadow,
                laws::fields(orders::feature_order(Some(name), Some(word))->Ok_0.desired),
            ),
        ),
    ensures
        orders::feature_order(Some(name), Some(word)) matches Ok(o) && o.action == "sleep "@
            + text::dec_int(level),
        st.sleep == level,
{
    reveal_strlit("on");
    reveal_strlit("off");
    if word == text::dec_int(level) {
        text::law_decimal_round_trip(level as i64);
        assert(word =~= seq![text::digit(level)]);
        assert(text::lower(word) =~= word);
    }
    let o = orders::feature_order(Some(name), Some(word))->Ok_0;
    laws::law_patch_is_read(shadow, laws::fields(o.desired), "sleep"@);
}

/// A sleep level beyond 3 or below 0 is refused.
pub proof fn law_sleep_levels_are_bounded(name: Seq<char>, n: i64)
    requires
        goes_by(name, "sleep"@),
        n < 0 || n > 3,
    ensures
        orders::feature_order(Some(name), Some(text::dec_int(n as int))) is Err,
{
    reveal_strlit("on");
    reveal_strlit("off");
    reveal_strlit("-");
    text::law_decimal_round_trip(n);
    let word = text::dec_int(n as int);
    text::lemma_dec_reads_back(device::magnitude(n as int));
    assert forall|i: int| 0 <= i < word.len() implies !('A' <= #[trigger] word[i] <= 'Z') by {
        if n < 0 {
            if i > 0 {
                assert(word[i] == text::dec(device::magnitude(n as int))[i - 1]);
            }
        }
    }
    assert(text::lower(word) =~= word);
    assert(word[0] != 'o');
}

/// A command leaves every setting that its patch does not name as it was.
pub proof fn law_command_leaves_the_rest(
    shadow: Json,
    patch: Map<Seq<char>, Json>,
    before: AcState,
    after: AcState,
)
    requires
        before.reads(shadow),
        after.reads(laws::patched(shadow, patch)),
    ensures
        !patch.contains_key("powerSwitch"@) ==> after.power == before.power,
        !patch.contains_key("workMode"@) ==> after.work_mode == before.work_mode,
        !patch.contains_key("targetTemperature"@) ==> json::reading_bits(after.target_temp)
            == json::reading_bits(before.target_temp),
        !patch.contains_key("targetFahrenheitTemp"@) ==> after.target_f == before.target_f,
        !patch.contains_key("verticalDirection"@) ==> after.v_dir == before.v_dir,
        !patch.contains_key("horizontalDirection"@) ==> after.h_dir == before.h_dir,
        !patch.contains_key("ECO"@) ==> after.eco == before.eco,
        !patch.contains_key("sleep"@) ==> after.sleep == before.sleep,
        !patch.contains_key("healthy"@) ==> after.healthy == before.healthy,
        !patch.contains_key("screen"@) ==> after.screen == before.screen,
        !patch.contains_key("beepSwitch"@) ==> after.beep == before.beep,
        !patch.contains_key("selfClean"@) ==> after.self_clean == before.self_clean,
        !patch.contains_key("antiMoldew"@) ==> after.anti_mold == before.anti_mold,
        !patch.contains_key("eightAddHot"@) ==> after.eight_heat == before.eight_heat,
        json::reading_bits(after.current_temp) == json::reading_bits(before.current_temp),
        after.compressor_hz == before.compressor_hz,
        after.t_min == before.t_min,
        after.t_max == before.t_max,
{
    assert forall|key: Seq<char>| !patch.contains_key(key) implies #[trigger] device::picked(
        laws::patched(shadow, patch),
        key,
    ) == device::picked(shadow, key) by {
        laws::law_patch_is_read(shadow, patch, key);
    }
    laws::law_patch_is_read(shadow, json::no_members(), "powerSwitch"@);
    let after_doc = laws::patched(shadow, patch);
    assert(device::reported(after_doc) == device::reported(shadow)) by {
        laws::lemma_patched(shadow, patch);
    }
}

/// A temperature that is no number of 64 bits is refused, and told why: it is too
/// large, too small, empty, or no number at all.
pub proof fn law_bad_temperatures(n: nat, s: AcState)
    requires
        n > i64::MAX,
    ensures
        orders::number_fault(text::dec(n)) == "number too large to fit in target type"@,
        n > i64::MAX + 1 ==> orders::number_fault(seq!['-'] + text::dec(n))
            == "number too small to fit in target type"@,
        orders::number_fault(Seq::empty()) == "cannot parse integer from empty string"@,
        orders::number_fault(seq!['x']) == "invalid digit found in string"@,
        orders::temp_order(text::dec(n), s) == Err::<OrderView, fault::FaultView>(
            fault::FaultView::Wrapping(
                "temp must be a number, +N, or -N"@,
                Box::new(fault::FaultView::Plain("number too large to fit in target type"@)),
            ),
        ),
{
    let d = text::dec(n);
    text::lemma_dec_reads_back(n);
    assert(text::parsed_nat(d) == Some(n));
    assert(d[0] != '-' && d[0] != '+') by {
        assert(text::is_digit(d[0]));
    }
    lemma_all_leading(d);
    assert((seq!['-'] + d).skip(1) =~= d);
    let x = seq!['x'];
    assert(text::leading_digits(x) =~= Seq::<char>::empty());
}

proof fn lemma_all_leading(s: Seq<char>)
    requires
        text::all_digits(s),
    ensures
        text::leading_digits(s) == s,
    decreases s.len(),
{
    if s.len() > 0 {
        assert(text::is_digit(s[0]));
        assert forall|i: int| 0 <= i < s.skip(1).len() implies text::is_digit(
            #[trigger] s.skip(1)[i],
        ) by {
            assert(s.skip(1)[i] == s[i + 1]);
        }
        lemma_all_leading(s.skip(1));
        assert(seq![s[0]] + s.skip(1) =~= s);
    } else {
        assert(text::leading_digits(s) =~= s);
    }
}

/// What is missing or unknown is told, with the words that were given.
pub proof fn law_refusals(word: Seq<char>, other: Seq<char>)
    ensures
        Mode::of_word(word) is None ==> orders::mode_order(Some(word)) == Err::<
            OrderView,
            fault::FaultView,
        >(fault::FaultView::Plain("unknown mode `"@ + word + "`"@)),
        Fan::of_word(word) is None ==> orders::fan_named(Some(word)) == Err::<
            Fan,
            fault::FaultView,
        >(fault::FaultView::Plain("unknown fan speed `"@ + word + "`"@)),
        orders::mode_order(None) is Err,
        orders::fan_named(None) is Err,
        orders::swing_order(None, true) is Err,
        orders::swing_order(None, false) is Err,
        cli::switch_of(word) is None ==> orders::swing_order(Some(word), true) is Err,
        orders::vent_of(true, word) is None ==> orders::vent_order(Some(word), Some(other)) is Err,
        orders::vent_of(false, word) is None ==> orders::vent_order(Some(other), Some(word)) is Err,
{
}

/// Every mode has a sign of its own.
pub proof fn law_mode_signs(m: Mode, n: Mode)
    ensures
        m.glyph() == n.glyph() <==> m == n,
{
    reveal_strlit("◎");
    reveal_strlit("❆");
    reveal_strlit("≈");
    reveal_strlit("≋");
    reveal_strlit("☀");
    assert("◎"@[0] == '◎' && "❆"@[0] == '❆' && "≈"@[0] == '≈' && "≋"@[0] == '≋');
    assert("☀"@[0] == '☀');
}

/// No other words than these stand for a switch.
pub proof fn law_only_switch_words(s: Seq<char>)
    ensures
        cli::switch_of(s) == Some(true) ==> text::lower(s) == "on"@ || text::lower(s) == "1"@
            || text::lower(s) == "true"@ || text::lower(s) == "yes"@,
        cli::switch_of(s) == Some(false) ==> text::lower(s) == "off"@ || text::lower(s) == "0"@
            || text::lower(s) == "false"@ || text::lower(s) == "no"@,
{
}

/// No other words than these stand for a mode.
pub proof fn law_only_mode_words(s: Seq<char>, m: Mode)
    requires
        Mode::of_word(s) == Some(m),
    ensures
        text::lower(s) == m.keyword() || (m is Dry && (text::lower(s) == "dehumidify"@
            || text::lower(s) == "dehumidification"@)) || (m is Fan && (text::lower(s)
            == "fan_only"@ || text::lower(s) == "fanonly"@)),
{
}

/// No other words than these stand for a speed: the names of auto and turbo, and
/// the numbers of the gears.
pub proof fn law_only_fan_words(s: Seq<char>, f: Fan)
    requires
        Fan::of_word(s) == Some(f),
    ensures
        f.valid(),
        f is Auto ==> text::lower(s) == "auto"@,
        f is Turbo ==> text::lower(s) == "turbo"@ || text::lower(s) == "strong"@ || text::lower(s)
            == "max"@,
        f is Gear ==> text::parsed_unsigned(text::without_start(text::lower(s), "gear"@), 255)
            == Some(f.level() as int),
{
}

/// No other names than these stand for a feature.
pub proof fn law_only_feature_names(name: Seq<char>)
    requires
        cli::field_of(name) is Some,
    ensures
        goes_by(name, "eco"@) || goes_by(name, "health"@) || goes_by(name, "healthy"@) || goes_by(name, "screen"@) || goes_by(name, "display"@) || goes_by(name, "beep"@) || goes_by(name, "selfclean"@) || goes_by(name, "self-clean"@) || goes_by(name, "self_clean"@) || goes_by(name, "antimold"@) || goes_by(name, "anti-mold"@) || goes_by(name, "anti_mold"@) || goes_by(name, "eightheat"@) || goes_by(name, "8heat"@) || goes_by(name, "8c-heat"@) || goes_by(name, "eight_heat"@),
{
}

proof fn lemma_labelled(horizontal: bool, w: Seq<char>, from: nat)
    ensures
        orders::vent_labelled(horizontal, w, from) matches Some(i) ==> from <= i < 5
            && text::undashed(orders::vent_name(horizontal, i as int)) == w,
    decreases 5 - from,
{
    if from < 5 {
        lemma_labelled(horizontal, w, from + 1);
    }
}

/// An aim point goes by its place or by its label, and by nothing else.
pub proof fn law_only_vent_words(horizontal: bool, arg: Seq<char>, i: nat)
    requires
        orders::vent_of(horizontal, arg) == Some(i),
    ensures
        i < 5,
        text::parsed_unsigned(arg, u64::MAX as int) == Some(i as int + 1) || text::undashed(
            text::lower(arg),
        ) == text::undashed(orders::vent_name(horizontal, i as int)),
{
    lemma_labelled(horizontal, text::undashed(text::lower(arg)), 0);
}

} // verus!
