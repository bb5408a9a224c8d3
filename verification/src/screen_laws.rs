//! Laws of the dashboard's picture: what of the state each part of it shows.

use crate::airflow;
use crate::app;
use crate::device;
use crate::double;
use crate::json;
use crate::panels;
use crate::readouts;
use crate::style;
use crate::text;
use crate::ui;
use app::{AppView, PendingCmd, PendingKind};
use device::{AcState, Fan, Mode};
use panels::Glyph;
use style::{Color, Rect, SpanView};
use vstd::prelude::*;

verus! {

// ---------------------------------------------------------------------------
// switches
// ---------------------------------------------------------------------------

/// Whether a span is a chip with a label, lit or dark, and the next one the key
/// that switches it.
pub open spec fn is_chip(
    line: Seq<SpanView>,
    i: int,
    label: Seq<char>,
    lit: bool,
    key: Seq<char>,
) -> bool {
    &&& line[i].text == " "@ + label + " "@
    &&& line[i].style.bg == (if lit {
        Some(Color::Good)
    } else {
        None
    })
    &&& line[i].style.bold == lit
    &&& line[i + 1].text == "["@ + key + "]"@
}

/// Every comfort feature has its chip, lit exactly where the feature is on, with
/// the key that switches it beside it.
#[verifier::rlimit(40)]
pub proof fn law_feature_chips(a: AppView, st: AcState)
    requires
        a.state == Some(st),
    ensures
        ({
            let f = readouts::toggles_first(a);
            let s = readouts::toggles_second(a);
            &&& f.len() == 13 && s.len() == 14
            &&& is_chip(f, 1, "ECO"@, st.eco, "e"@)
            &&& is_chip(f, 7, "HEALTH"@, st.healthy, "g"@)
            &&& is_chip(f, 10, "SELF-CLEAN"@, st.self_clean, "c"@)
            &&& is_chip(s, 1, "ANTI-MOLD"@, st.anti_mold, "n"@)
            &&& is_chip(s, 4, "8°C-HEAT"@, st.eight_heat, "8"@)
            &&& is_chip(s, 7, "SCREEN"@, st.screen, "d"@)
            &&& is_chip(s, 10, "BEEP"@, st.beep, "b"@)
            &&& st.sleep == 0 ==> is_chip(f, 4, "SLEEP·"@ + "Off"@, false, "z"@)
            &&& st.sleep == 1 ==> is_chip(f, 4, "SLEEP·"@ + "Standard"@, true, "z"@)
            &&& st.sleep == 2 ==> is_chip(f, 4, "SLEEP·"@ + "Elderly"@, true, "z"@)
            &&& st.sleep == 3 ==> is_chip(f, 4, "SLEEP·"@ + "Child"@, true, "z"@)
        }),
{
}

/// The errors of the device are listed, in the color of trouble; where it has
/// none, that is said.
#[verifier::rlimit(40)]
pub proof fn law_error_chip(a: AppView, st: AcState)
    requires
        a.state == Some(st),
    ensures
        ({
            let chip = readouts::toggles_second(a)[13];
            &&& st.errors@.len() > 0 ==> chip.text == " ⚠ errors "@ + readouts::list_text(
                st.errors@,
            ) + " "@ && chip.style.bg == Some(Color::Bad)
            &&& st.errors@.len() == 0 ==> chip.text == " ✔ no errors "@ && chip.style.fg == Some(
                Color::Good,
            )
        }),
{
}

// ---------------------------------------------------------------------------
// sensors
// ---------------------------------------------------------------------------

/// Whether a text shows a temperature to one decimal, or that there is none.
pub open spec fn shows_celsius(t: Seq<char>, bits: Option<u64>) -> bool {
    match bits {
        Some(b) => t == double::fixed_text(b, 1) + "°C"@,
        None => t == "—"@,
    }
}

/// The indoor, the outdoor and the coil temperature stand on lines of their own,
/// and so does the estimated power.
pub proof fn law_temperature_panel(a: AppView, st: AcState)
    requires
        a.state == Some(st),
    ensures
        ({
            let l = readouts::temps_lines(a);
            &&& l.len() == 4
            &&& l[0][0].text == " "@ + text::padded_right("Indoor"@, 10) + " "@
            &&& shows_celsius(l[0][1].text, json::reading_bits(st.current_temp))
            &&& l[1][0].text == " "@ + text::padded_right("Outdoor"@, 10) + " "@
            &&& shows_celsius(l[1][1].text, json::reading_bits(st.external_temp))
            &&& l[2][0].text == " "@ + text::padded_right("Coil"@, 10) + " "@
            &&& shows_celsius(l[2][1].text, json::reading_bits(st.coil_temp))
            &&& st.estimated_watts() matches Some(w) ==> l[3][1].text == device::power_text(
                w as int,
            )
            &&& st.estimated_watts() is None ==> l[3][1].text == "—"@
        }),
{
}

/// Whether a text shows a number, or that there is none.
pub open spec fn shows_number(t: Seq<char>, n: Option<i64>) -> bool {
    match n {
        Some(x) => t == text::dec_int(x as int),
        None => t == "—"@,
    }
}

/// The outdoor unit is shown with its compressor, as a bar of eight cells for
/// 120 Hz and in numbers, its fan, its valve, its heater, the wind, the filter
/// and the self-cleaning.
pub proof fn law_outdoor_panel(a: AppView, st: AcState, run: Seq<char>, target: Seq<char>)
    requires
        a.state == Some(st),
        shows_number(run, st.comp_run_hz),
        shows_number(target, st.comp_target_hz),
    ensures
        ({
            let l = readouts::outdoor_lines(a);
            &&& l.len() == 4
            &&& st.compressor_hz matches Some(hz) ==> l[0][3].text == " "@ + text::dec_int(
                hz as int,
            ) + "Hz (run "@ + run + " / tgt "@ + target + ")"@
            &&& st.compressor_hz matches Some(hz) ==> (0 <= hz < 120 ==> l[0][1].text
                == text::repeated("█"@, (hz / 15) as nat) && l[0][2].text == text::repeated(
                "░"@,
                (8 - hz / 15) as nat,
            ))
            &&& st.compressor_hz matches Some(hz) ==> (hz >= 120 ==> l[0][1].text
                == text::repeated("█"@, 8))
            &&& st.outdoor_fan matches Some(n) ==> l[1][1].text == text::padded_right(
                text::dec_int(n as int),
                7,
            )
            &&& shows_number(l[1][3].text, st.eev)
            &&& l[2][1].text == text::padded_right(
                if st.ptc {
                    "on"@
                } else {
                    "off"@
                },
                7,
            )
            &&& st.wind_pct matches Some(p) ==> l[2][3].text == text::dec_int(p as int) + "%"@
            &&& st.filter_alert ==> l[3][1].text == "CLEAN NEEDED"@ && l[3][1].style.fg == Some(
                Color::Bad,
            )
            &&& !st.filter_alert ==> l[3][1].text == "ok"@ && l[3][1].style.fg == Some(
                Color::Good,
            )
            &&& st.self_clean_pct matches Some(p) ==> l[3][2].text == "   Self-clean "@
                + text::dec_int(p as int) + "%"@
        }),
{
}

/// The trend is titled with the lowest and the highest temperature of the
/// history, and charts the latest of it that fit, each one higher than its
/// height above the lowest.
pub proof fn law_trend_panel(a: AppView, area: Rect, i: int)
    requires
        a.temp_hist.len() > 1,
        area.width > 3,
        0 <= i < readouts::charted(a.temp_hist, area.width).len(),
    ensures
        readouts::trend_title(a) == "Trend "@ + double::fixed_text(double::least(a.temp_hist), 1)
            + "–"@ + double::fixed_text(double::greatest(a.temp_hist), 1) + "°"@,
        ({
            let data = readouts::charted(a.temp_hist, area.width);
            let n = a.temp_hist.len();
            &&& data.len() == (if n > area.width - 2 {
                area.width - 2
            } else {
                n as int
            })
            &&& data[i] == (crate::trend::height_of(
                a.temp_hist[n - data.len() + i],
                double::least(a.temp_hist),
            ) + 1) as u64
        }),
{
}

// ---------------------------------------------------------------------------
// header and footer
// ---------------------------------------------------------------------------

/// The header names the device, by the name of its owner or else by its type,
/// with its id, whether it is online, its firmware and the time.
pub proof fn law_header(a: AppView, clock: Seq<char>)
    ensures
        ({
            let h = panels::header_line(a, clock);
            let d = a.device;
            &&& h.len() == 6
            &&& d.nick_name.len() > 0 ==> h[1].text == "  "@ + d.nick_name + " "@
            &&& d.nick_name.len() == 0 ==> h[1].text == "  "@ + d.device_name + " "@
            &&& h[2].text == "("@ + d.device_id + ")"@
            &&& d.is_online ==> h[3].text == " ● online"@ && h[3].style.fg == Some(Color::Good)
            &&& !d.is_online ==> h[3].text == " ● offline"@ && h[3].style.fg == Some(Color::Bad)
            &&& d.firmware_version.len() > 0 ==> h[4].text == "  fw "@ + d.firmware_version
            &&& d.firmware_version.len() == 0 ==> h[4].text == ""@
            &&& h[5].text == "   "@ + clock
        }),
{
}

/// The footer shows the status, marked while a command runs and in the color of
/// trouble where it tells of an error, and then the age of the read and the
/// animations.
pub proof fn law_footer(a: AppView, now: u64)
    ensures
        ({
            let f = panels::footer_line(a, now);
            &&& f.len() == 2
            &&& a.busy ==> f[0].text == " "@ + "⟳ "@ + a.status
            &&& !a.busy ==> f[0].text == " "@ + ""@ + a.status
            &&& text::has_part(a.status, "error"@) || text::has_prefix(a.status, "Error"@)
                ==> f[0].style.fg == Some(Color::Bad)
            &&& !text::has_part(a.status, "error"@) && !text::has_prefix(a.status, "Error"@)
                ==> f[0].style.fg == Some(panels::accent_of(a))
            &&& a.anim && a.state is None ==> f[1].text == "  ·  updated "@ + app::App::age_text(
                a.last_refresh,
                now,
            ) + "  ·  anim "@ + "on"@ + "  ·  "@ + ""@
            &&& !a.anim && a.state is None ==> f[1].text == "  ·  updated "@
                + app::App::age_text(a.last_refresh, now) + "  ·  anim "@ + "off"@ + "  ·  "@ + ""@
            &&& a.state matches Some(s) ==> panels::shadow_text(a) == "shadow v"@ + text::dec_int(
                s.shadow_version as int,
            ) + " · "@ + text::dec(s.capabilities@.len()) + " capabilities"@
        }),
{
}

/// The dashboard takes the color of the mode that the unit runs in, and one of
/// its own while the unit is off or unknown.
pub proof fn law_accent(a: AppView, st: AcState)
    requires
        a.state == Some(st),
    ensures
        !st.power ==> panels::accent_of(a) == Color::Off,
        st.power && st.work_mode == 0 ==> panels::accent_of(a) == Color::Auto,
        st.power && st.work_mode == 1 ==> panels::accent_of(a) == Color::Cool,
        st.power && st.work_mode == 2 ==> panels::accent_of(a) == Color::Dry,
        st.power && st.work_mode == 3 ==> panels::accent_of(a) == Color::Fan,
        st.power && st.work_mode == 4 ==> panels::accent_of(a) == Color::Heat,
        st.power && !(0 <= st.work_mode <= 4) ==> panels::accent_of(a) == Color::Unknown,
        panels::accent_of(AppView { state: None, ..a }) == Color::Off,
{
}

// ---------------------------------------------------------------------------
// mode and power
// ---------------------------------------------------------------------------

/// The modes are listed in the order of their values, each with the number key
/// that asks for it; an arrow marks the one that the unit is in, and a ring one
/// that waits.
#[verifier::rlimit(40)]
pub proof fn law_mode_list(a: AppView, st: AcState, m: Mode)
    requires
        a.state == Some(st),
    ensures
        ({
            let l = panels::mode_lines(a)[2 + m.code()];
            let waits = a.pending matches Some(PendingCmd { kind: PendingKind::Mode(p), .. }) && p
                == m;
            &&& l.len() == 3
            &&& st.work_mode == m.code() ==> l[0].text == " "@ + "▶"@ + " "@ && l[1].style.bold
            &&& st.work_mode != m.code() && waits ==> l[0].text == " "@ + "◌"@ + " "@
            &&& st.work_mode != m.code() && !waits ==> l[0].text == " "@ + " "@ + " "@
                && l[1].style.fg == Some(Color::Dim)
            &&& l[1].text == m.glyph() + " "@ + text::padded_right(m.name(), 5)
            &&& l[2].text == "["@ + text::dec((m.code() + 1) as nat) + "]"@
        }),
        !(0 <= st.work_mode <= 4) && st.work_mode >= 0 ==> panels::mode_lines(a).len() == 8
            && panels::mode_lines(a)[7][0].text == " raw workMode="@ + text::dec_int(
            st.work_mode as int,
        ),
        0 <= st.work_mode <= 4 ==> panels::mode_lines(a).len() == 7,
{
    reveal_strlit("1");
    reveal_strlit("2");
    reveal_strlit("3");
    reveal_strlit("4");
    reveal_strlit("5");
    assert(text::dec(1) =~= "1"@);
    assert(text::dec(2) =~= "2"@);
    assert(text::dec(3) =~= "3"@);
    assert(text::dec(4) =~= "4"@);
    assert(text::dec(5) =~= "5"@);
}

/// The power chip tells whether the unit is on.
pub proof fn law_power_chip(a: AppView, st: AcState)
    requires
        a.state == Some(st),
    ensures
        st.power ==> panels::power_line(a)[1].text == " "@ + "◉ POWER ON "@ + " "@
            && panels::power_line(a)[1].style.bg == Some(Color::Good),
        !st.power ==> panels::power_line(a)[1].text == " "@ + "○ POWER OFF"@ + " "@
            && panels::power_line(a)[1].style.bg == Some(Color::PowerOff),
        panels::mode_lines(a)[0] == panels::power_line(a),
{
}

// ---------------------------------------------------------------------------
// the target
// ---------------------------------------------------------------------------

/// The number that digits stand for.
pub open spec fn digits_read(g: Seq<Glyph>) -> nat
    decreases g.len(),
{
    if g.len() == 0 {
        0
    } else {
        10 * digits_read(g.drop_last()) + (match g.last() {
            Glyph::Digit(d) => d as nat,
            _ => 0,
        })
    }
}

proof fn lemma_digits_read(n: nat)
    ensures
        digits_read(panels::digit_glyphs(n)) == n,
        panels::digit_glyphs(n).len() > 0,
        forall|i: int|
            0 <= i < panels::digit_glyphs(n).len() ==> (#[trigger] panels::digit_glyphs(
                n,
            )[i]) is Digit,
    decreases n,
{
    let g = panels::digit_glyphs(n);
    if n < 10 {
        assert(g.drop_last() =~= Seq::<Glyph>::empty());
        assert(digits_read(g.drop_last()) == 0);
    } else {
        lemma_digits_read(n / 10);
        assert(g.drop_last() =~= panels::digit_glyphs(n / 10));
    }
}

/// A temperature is drawn as its digits, a degree sign and its unit; an unknown
/// one as two dashes.
pub proof fn law_temperature_is_drawn(n: i64, fahrenheit: bool)
    requires
        n >= 0,
    ensures
        ({
            let g = panels::temp_glyphs(Some(n), fahrenheit);
            let k = g.len() - 2;
            &&& k > 0
            &&& digits_read(g.take(k)) == n
            &&& g[k] == Glyph::Degree
            &&& g[k + 1] == (if fahrenheit {
                Glyph::Fahrenheit
            } else {
                Glyph::Celsius
            })
        }),
        panels::temp_glyphs(None, fahrenheit).take(2) == seq![Glyph::Dash, Glyph::Dash],
{
    lemma_digits_read(n as nat);
    let g = panels::temp_glyphs(Some(n), fahrenheit);
    assert(g.take(g.len() - 2) =~= panels::digit_glyphs(n as nat));
    assert(panels::temp_glyphs(None, fahrenheit).take(2) =~= seq![Glyph::Dash, Glyph::Dash]);
}

/// The target that is drawn is the one that waits or, where none does, the one
/// of the device; in its unit.
pub proof fn law_target_is_drawn(a: AppView, st: AcState, c: i64)
    requires
        a.state == Some(st),
        -0x100_0000_0000 <= c <= 0x100_0000_0000,
    ensures
        ({
            let waits = a.pending matches Some(PendingCmd { kind: PendingKind::Temp(p), .. }) && p
                == c;
            let none_waits = a.pending is None || !(a.pending->0.kind is Temp);
            let shown = panels::shown_target(a, st);
            &&& waits && !st.temp_is_f ==> shown == Some(c)
            &&& waits && st.temp_is_f ==> shown == Some(((18 * c + 325) / 10) as i64)
            &&& none_waits && st.temp_is_f ==> shown == st.target_f
            &&& none_waits && !st.temp_is_f && json::reading_bits(st.target_temp) == Some(
                double::integer_pattern(c as int),
            ) ==> shown == Some(c)
            &&& none_waits && !st.temp_is_f && json::reading_bits(st.target_temp) is None
                ==> shown is None
        }),
{
    crate::laws::law_fahrenheit(c as int);
    crate::laws::law_integers_round_to_themselves(c as int);
}

/// Below the target stand the temperature now with its trend, and the range of
/// the device; an hourglass where a target waits.
pub proof fn law_target_info(a: AppView, st: AcState, now: Seq<char>)
    requires
        a.state == Some(st),
        shows_celsius(now, json::reading_bits(st.current_temp)),
    ensures
        ({
            let l = panels::temp_lines(a)[6];
            let waits = a.pending is Some && a.pending->0.kind is Temp;
            &&& panels::temp_lines(a).len() == 7
            &&& l[0].text == "now "@ + now + " "@ + panels::trend_mark(a)
            &&& st.target_f is None ==> l[1].text == "   range "@ + text::dec_int(
                st.t_min as int,
            ) + "–"@ + text::dec_int(st.t_max as int) + "°C  "@ + ""@
            &&& st.target_f matches Some(f) ==> l[1].text == "   range "@ + text::dec_int(
                st.t_min as int,
            ) + "–"@ + text::dec_int(st.t_max as int) + "°C  "@ + ("= "@ + text::dec_int(
                f as int,
            ) + "°F"@)
            &&& waits ==> l.len() == 3 && l[2].text == "  ⏳"@
            &&& !waits ==> l.len() == 2
        }),
{
}

/// The trend is an arrow that points up, down or along.
pub proof fn law_trend_arrow(a: AppView)
    ensures
        crate::trend::slope_in(a.temp_hist) == Some(crate::trend::Slope::Rising)
            ==> panels::trend_mark(a) == "↗"@,
        crate::trend::slope_in(a.temp_hist) == Some(crate::trend::Slope::Falling)
            ==> panels::trend_mark(a) == "↘"@,
        crate::trend::slope_in(a.temp_hist) == Some(crate::trend::Slope::Level)
            ==> panels::trend_mark(a) == "→"@,
        a.temp_hist.len() < 2 ==> panels::trend_mark(a) == " "@,
{
}

// ---------------------------------------------------------------------------
// the fan
// ---------------------------------------------------------------------------

/// The speed that is shown is the one that waits or, where none does, the one of
/// the device. As many of the seven bars are lit as its level says; the badges
/// tell auto and turbo.
pub proof fn law_fan_bars(a: AppView, st: AcState, f: Fan, wave: Seq<usize>, i: int)
    requires
        a.state == Some(st),
        0 <= i < 7,
        match a.pending {
            Some(PendingCmd { kind: PendingKind::Fan(p), .. }) => p == f,
            _ => st.fan == f,
        },
    ensures
        airflow::shown_fan(a) == f,
        f != Fan::Auto && i < f.level() ==> airflow::gear_bar(a, wave, i).style.fg == Some(
            panels::accent_of(a),
        ),
        f != Fan::Auto && i >= f.level() ==> airflow::gear_bar(a, wave, i).style.fg == Some(
            Color::Track,
        ),
        (airflow::badge_line(a)[1].style.bold) == (f == Fan::Auto),
        (airflow::badge_line(a)[3].style.bold) == (f == Fan::Turbo),
        airflow::badge_line(a)[1].text == " "@ + "AUTO"@ + " "@,
        airflow::badge_line(a)[3].text == " "@ + "TURBO"@ + " "@,
{
}

proof fn lemma_gear_bars(a: AppView, wave: Seq<usize>, n: nat, i: int)
    requires
        0 <= i < n,
    ensures
        airflow::gear_bars(a, wave, n).len() == n + 1,
        airflow::gear_bars(a, wave, n)[i + 1] == airflow::gear_bar(a, wave, i),
    decreases n,
{
    reveal_with_fuel(airflow::gear_bars, 2);
    if n > 1 {
        if i < n - 1 {
            lemma_gear_bars(a, wave, (n - 1) as nat, i);
        } else {
            lemma_gear_bars(a, wave, (n - 1) as nat, n - 2);
        }
    }
}

/// The line of the fan holds the seven bars and then the name of the speed, with
/// an hourglass where it waits.
pub proof fn law_fan_line(a: AppView, wave: Seq<usize>, i: int)
    requires
        0 <= i < 7,
    ensures
        ({
            let l = airflow::gear_line(a, wave);
            let label = "  "@ + airflow::spin_mark(a) + " "@ + airflow::shown_fan(a).name();
            let waits = a.pending is Some && a.pending->0.kind is Fan;
            &&& l.len() == 11
            &&& l[1 + i] == airflow::gear_bar(a, wave, i)
            &&& waits ==> l[8].text == label + " ⏳"@
            &&& !waits ==> l[8].text == label
            &&& l[10].text == "["@ + "f/F"@ + "]"@
        }),
{
    lemma_gear_bars(a, wave, 7, i);
}

/// The output of the fan is a bar of fourteen cells for 100 percent, and the
/// number.
pub proof fn law_output_bar(p: int, ac: Color)
    requires
        0 <= p <= 100,
    ensures
        ({
            let l = airflow::output_line(p, ac);
            &&& l[1].text == text::repeated("█"@, (p * 14 / 100) as nat)
            &&& l[2].text == text::repeated("░"@, (14 - p * 14 / 100) as nat)
            &&& l[3].text == " "@ + text::padded_left(text::dec_int(p), 3) + "%"@
        }),
{
}

/// The spinner turns only while the unit is on and the animations are.
pub proof fn law_spinner_rests(a: AppView)
    ensures
        !a.anim ==> airflow::spin_mark(a) == " "@,
        a.state matches Some(s) ==> (!s.power ==> airflow::spin_mark(a) == " "@),
        a.state is None ==> airflow::spin_mark(a) == " "@,
{
}

// ---------------------------------------------------------------------------
// the vanes
// ---------------------------------------------------------------------------

/// Whether a mark stands between two points.
pub open spec fn in_range(mark: Option<int>, lo: int, hi: int) -> bool {
    mark matches Some(k) && lo <= k <= hi
}

/// A vane that is fixed is marked at its point and nowhere else; one that is not
/// set is marked nowhere; one that sweeps is marked within its range, in the
/// middle of the five while it does not move.
pub proof fn law_vane_markers(dir: int, frame: nat, i: int)
    requires
        0 <= i <= 4,
    ensures
        dir == 9 + i ==> airflow::v_marker(dir, true, frame) == Some(i) && airflow::h_marker(
            dir,
            true,
            frame,
        ) == Some(i),
        dir == 9 + i ==> airflow::v_marker(dir, false, frame) == Some(i) && airflow::h_marker(
            dir,
            false,
            frame,
        ) == Some(i),
        !(1 <= dir <= 3) && !(9 <= dir <= 13) ==> airflow::v_marker(dir, true, frame) is None,
        !(1 <= dir <= 4) && !(9 <= dir <= 13) ==> airflow::h_marker(dir, true, frame) is None,
        1 <= dir <= 3 ==> airflow::v_marker(dir, false, frame) == Some(2int),
        1 <= dir <= 4 ==> airflow::h_marker(dir, false, frame) == Some(2int),
        dir == 1 ==> in_range(airflow::v_marker(dir, true, frame), 0, 4),
        dir == 2 ==> in_range(airflow::v_marker(dir, true, frame), 0, 2),
        dir == 3 ==> in_range(airflow::v_marker(dir, true, frame), 2, 4),
        dir == 1 ==> in_range(airflow::h_marker(dir, true, frame), 0, 4),
        dir == 2 ==> in_range(airflow::h_marker(dir, true, frame), 0, 2),
        dir == 3 ==> in_range(airflow::h_marker(dir, true, frame), 1, 3),
        dir == 4 ==> in_range(airflow::h_marker(dir, true, frame), 2, 4),
{
    airflow::law_ping_pong_stays(frame / 3, 5);
    airflow::law_ping_pong_stays(frame / 3, 3);
}

/// The louver and the cell that are marked are those of the state; the words
/// tell whether a vane sweeps, is fixed or is off.
pub proof fn law_vanes_are_shown(a: AppView, st: AcState, i: int)
    requires
        a.state == Some(st),
        0 <= i <= 4,
    ensures
        ({
            let l = airflow::swing_lines(a);
            &&& l.len() == 7
            &&& 9 <= st.v_dir <= 13 ==> (l[i][0].text == "  ▶ ━━━━━━━━"@ && l[i][0].style.bold
                <==> st.v_dir == 9 + i)
            &&& 9 <= st.h_dir <= 13 ==> (l[6][1 + i].style.fg == Some(Color::Track) <==> st.h_dir
                != 9 + i)
            &&& 1 <= st.v_dir <= 3 ==> l[0][1].text == "  V:"@ + "sweep"@
            &&& 9 <= st.v_dir <= 13 ==> l[0][1].text == "  V:"@ + "fixed"@
            &&& !(1 <= st.v_dir <= 3) && !(9 <= st.v_dir <= 13) ==> l[0][1].text == "  V:"@
                + "off"@
            &&& 1 <= st.h_dir <= 4 ==> l[6][6].text == "  H:"@ + "sweep"@
            &&& 9 <= st.h_dir <= 13 ==> l[6][6].text == "  H:"@ + "fixed"@
            &&& !(1 <= st.h_dir <= 4) && !(9 <= st.h_dir <= 13) ==> l[6][6].text == "  H:"@
                + "off"@
        }),
{
    let l = airflow::swing_lines(a);
    assert(l[i] == airflow::louver_line(a, i));
    assert(l[6] == airflow::h_line(a));
    assert(l[6][1 + i] == airflow::h_cell(a, i));
    assert(panels::accent_of(a) != Color::Track);
}

// ---------------------------------------------------------------------------
// the aim overlay
// ---------------------------------------------------------------------------

/// In the aim overlay the crosshair and the point at which the vanes are fixed
/// have marks of their own, and one more where they meet.
pub proof fn law_aim_marks(a: AppView, st: AcState, col: int, row: int)
    requires
        a.state == Some(st),
        0 <= col <= 4,
        0 <= row <= 4,
    ensures
        ({
            let mark = ui::grid_point(a, col, row).text;
            let aimed = col == a.aim_h && row == a.aim_v;
            let fixed = st.h_dir == 9 + col && st.v_dir == 9 + row;
            &&& aimed && fixed ==> mark == "◉"@
            &&& aimed && !fixed ==> mark == "◎"@
            &&& !aimed && fixed ==> mark == "●"@
            &&& !aimed && !fixed ==> mark == "·"@
        }),
        ui::aim_label(a)[1].text == device::v_name(a.aim_v as int) + " · "@ + device::h_name(
            a.aim_h as int,
        ),
        (ui::aim_label(a).len() == 3) == (1 <= st.v_dir <= 3 || 1 <= st.h_dir <= 4),
{
}

/// The overlay lies within the screen, in its middle.
pub proof fn law_overlay_is_centered(term: Rect)
    requires
        term.x + term.width <= u16::MAX,
        term.y + term.height <= u16::MAX,
    ensures
        ({
            let p = ui::popup_of(term);
            let left = p.x - term.x;
            let right = (term.x + term.width) - (p.x + p.width);
            let above = p.y - term.y;
            let below = (term.y + term.height) - (p.y + p.height);
            &&& 0 <= left <= right <= left + 1
            &&& 0 <= above <= below <= above + 1
        }),
{
}

// ---------------------------------------------------------------------------
// log and keys
// ---------------------------------------------------------------------------

/// The log shows its latest lines that fit, the last one last.
pub proof fn law_log_shows_the_latest(a: AppView, height: u16, i: int)
    requires
        height > 2,
        0 <= i < readouts::log_lines(a, height).len(),
    ensures
        ({
            let l = readouts::log_lines(a, height);
            &&& l.len() == (if a.log.len() > height - 2 {
                height - 2
            } else {
                a.log.len() as int
            })
            &&& l[i][0].text == " "@ + a.log[a.log.len() - l.len() + i]
        }),
{
}

/// A line of the log has the color of what it tells: a failure, a command, or a
/// change of state.
pub proof fn law_log_colors(line: Seq<char>)
    ensures
        text::has_part(line, " ✗"@) ==> readouts::log_line(line)[0].style.fg == Some(Color::Bad),
        !text::has_part(line, " ✗"@) && text::has_part(line, " →"@) ==> readouts::log_line(
            line,
        )[0].style.fg == Some(Color::Good),
        !text::has_part(line, " ✗"@) && !text::has_part(line, " →"@) && text::has_part(
            line,
            " ◆"@,
        ) ==> readouts::log_line(line)[0].style.fg == Some(Color::Dry),
        !text::has_part(line, " ✗"@) && !text::has_part(line, " →"@) && !text::has_part(
            line,
            " ◆"@,
        ) ==> readouts::log_line(line)[0].style.fg == Some(Color::Dim),
{
}

/// A screen that is too small is told its size.
pub proof fn law_small_screen(area: Rect)
    ensures
        ui::too_small_lines(area)[3][0].text == "Resize to at least 106×32  (now "@ + text::dec(
            area.width as nat,
        ) + "×"@ + text::dec(area.height as nat) + ")."@,
{
}

/// Whether a panel of lines stands in an area, under a title.
pub open spec fn holds(
    d: style::DrawView,
    place: Rect,
    title: Seq<char>,
    shown: Seq<Seq<SpanView>>,
) -> bool {
    d matches style::DrawView::Text { area, block: Some(b), lines, .. } && area == place
        && b.title.text == " "@ + title + " "@ && lines == shown
}

proof fn lemma_concatenated<T>(
    header: T,
    main: Seq<T>,
    toggles: T,
    sensors: Seq<T>,
    bottom: Seq<T>,
    footer: T,
    over: Seq<T>,
)
    requires
        main.len() == 4,
        sensors.len() == 3,
        bottom.len() == 2,
    ensures
        ({
            let body = seq![header] + main + seq![toggles] + sensors + bottom + seq![footer];
            let d = body + over;
            &&& body.len() == 12
            &&& d.len() == 12 + over.len()
            &&& d[0] == header
            &&& d[1] == main[0] && d[2] == main[1] && d[3] == main[2] && d[4] == main[3]
            &&& d[5] == toggles
            &&& d[6] == sensors[0] && d[7] == sensors[1] && d[8] == sensors[2]
            &&& d[9] == bottom[0] && d[10] == bottom[1]
            &&& d[11] == footer
            &&& d.skip(12) == over
            &&& over.len() == 0 ==> d == body
        }),
{
    let body = seq![header] + main + seq![toggles] + sensors + bottom + seq![footer];
    let d = body + over;
    assert(d.skip(12) =~= over);
    if over.len() == 0 {
        assert(d =~= body);
    }
}

#[verifier::rlimit(60)]
proof fn lemma_panels(
    a: AppView,
    cols: Seq<Rect>,
    art: airflow::FanArt,
    below: Seq<Rect>,
    low: Seq<Rect>,
    row: Rect,
)
    ensures
        ({
            let main = ui::main_panels(a, cols, art);
            &&& main.len() == 4
            &&& main[0] == panels::temp_panel(a, cols[0])
            &&& holds(main[1], cols[1], "Mode & Power"@, panels::mode_lines(a))
            &&& main[2] == airflow::fan_panel(a, cols[2], art)
            &&& holds(main[3], cols[3], "Swing"@, airflow::swing_lines(a))
        }),
        ({
            let sensors = readouts::sensor_panels(a, below);
            &&& sensors.len() == 3
            &&& holds(sensors[0], below[0], "Temps"@, readouts::temps_lines(a))
            &&& holds(sensors[1], below[1], "Outdoor unit"@, readouts::outdoor_lines(a))
            &&& sensors[2] == readouts::trend_panel(a, below[2])
        }),
        ({
            let bottom = readouts::bottom_panels(a, low);
            &&& bottom.len() == 2
            &&& holds(bottom[0], low[0], "Activity"@, readouts::log_lines(a, low[0].height))
            &&& holds(bottom[1], low[1], "Keys"@, readouts::key_lines(panels::accent_of(a)))
        }),
        holds(
            readouts::toggles_panel(a, row),
            row,
            "Comfort & Extras"@,
            seq![readouts::toggles_first(a), readouts::toggles_second(a)],
        ),
{
}

/// The dashboard holds its panels, each in its own place, from the header to the
/// footer; the aim overlay lies on top while it is open.
#[verifier::rlimit(100)]
pub proof fn law_dashboard_panels(
    a: AppView,
    area: Rect,
    areas: ui::Areas,
    art: airflow::FanArt,
    now: u64,
    clock: Seq<char>,
)
    ensures
        ({
            let d = ui::dashboard(a, area, areas, art, now, clock);
            &&& d.len() == 12 + (if a.aim_open {
                2int
            } else {
                0int
            })
            &&& d[0] == style::bare(areas.rows@[0], seq![panels::header_line(a, clock)], false)
            &&& d[1] == panels::temp_panel(a, areas.main@[0])
            &&& holds(d[2], areas.main@[1], "Mode & Power"@, panels::mode_lines(a))
            &&& d[3] == airflow::fan_panel(a, areas.main@[2], art)
            &&& holds(d[4], areas.main@[3], "Swing"@, airflow::swing_lines(a))
            &&& holds(
                d[5],
                areas.rows@[2],
                "Comfort & Extras"@,
                seq![readouts::toggles_first(a), readouts::toggles_second(a)],
            )
            &&& holds(d[6], areas.sensors@[0], "Temps"@, readouts::temps_lines(a))
            &&& holds(d[7], areas.sensors@[1], "Outdoor unit"@, readouts::outdoor_lines(a))
            &&& d[8] == readouts::trend_panel(a, areas.sensors@[2])
            &&& holds(
                d[9],
                areas.bottom@[0],
                "Activity"@,
                readouts::log_lines(a, areas.bottom@[0].height),
            )
            &&& holds(
                d[10],
                areas.bottom@[1],
                "Keys"@,
                readouts::key_lines(panels::accent_of(a)),
            )
            &&& d[11] == style::bare(areas.rows@[5], seq![panels::footer_line(a, now)], false)
            &&& a.aim_open ==> d.skip(12) == ui::aim_draws(a, area)
        }),
{
    let main = ui::main_panels(a, areas.main@, art);
    let sensors = readouts::sensor_panels(a, areas.sensors@);
    let bottom = readouts::bottom_panels(a, areas.bottom@);
    lemma_panels(a, areas.main@, art, areas.sensors@, areas.bottom@, areas.rows@[2]);
    let over = if a.aim_open {
        ui::aim_draws(a, area)
    } else {
        Seq::empty()
    };
    lemma_concatenated(
        style::bare(areas.rows@[0], seq![panels::header_line(a, clock)], false),
        main,
        readouts::toggles_panel(a, areas.rows@[2]),
        sensors,
        bottom,
        style::bare(areas.rows@[5], seq![panels::footer_line(a, now)], false),
        over,
    );
}

/// The fan turns the faster the higher its gear.
pub proof fn law_spinner_pace(g: u8, h: u8)
    requires
        1 <= g < h <= 6,
    ensures
        airflow::spin_pace(Fan::Gear(g)) > airflow::spin_pace(Fan::Gear(h)),
        airflow::spin_pace(Fan::Gear(h)) > airflow::spin_pace(Fan::Turbo) > 0,
        airflow::spin_pace(Fan::Auto) > 0,
{
}

/// The dashboard needs exactly what its rows, and the widest of them, ask for
/// together: 106 columns and 32 rows. The other rows need no more.
pub proof fn law_least_screen()
    ensures
        ui::MIN_W == 106 && ui::MIN_H == 32,
        least_sum(ui::asked_rows()) == ui::MIN_H,
        least_sum(ui::asked_main()) == ui::MIN_W,
        least_sum(ui::asked_sensors()) <= ui::MIN_W,
        least_sum(ui::asked_bottom()) <= ui::MIN_W,
{
    reveal_with_fuel(least_sum, 7);
    assert(ui::asked_rows().drop_last().len() == 5);
    assert(ui::asked_main().drop_last().len() == 3);
    assert(ui::asked_sensors().drop_last().len() == 2);
    assert(ui::asked_bottom().drop_last().len() == 1);
}

/// The least room that parts need together.
pub open spec fn least_sum(parts: Seq<style::Part>) -> int
    decreases parts.len(),
{
    if parts.len() == 0 {
        0
    } else {
        least_sum(parts.drop_last()) + (match parts.last() {
            style::Part::Length(n) => n as int,
            style::Part::Min(n) => n as int,
            style::Part::Percentage(_) => 0,
        })
    }
}

proof fn lemma_grid_cells(a: AppView, line: int, n: nat, col: int)
    requires
        0 <= col < n,
    ensures
        ui::grid_cells(a, line, n).len() == 3 * n,
        ui::grid_cells(a, line, n)[3 * col + 1] == ui::grid_cell(a, line, col),
    decreases n,
{
    reveal_with_fuel(ui::grid_cells, 2);
    if n > 1 {
        if col < n - 1 {
            lemma_grid_cells(a, line, (n - 1) as nat, col);
        } else {
            lemma_grid_cells(a, line, (n - 1) as nat, n - 2);
        }
    }
}

proof fn lemma_with_grid(before: Seq<Seq<SpanView>>, a: AppView, n: nat, line: int)
    requires
        0 <= line < n,
    ensures
        ui::with_grid(before, a, n).len() == before.len() + n,
        ui::with_grid(before, a, n)[before.len() + line] == ui::grid_cells(a, line, 5),
    decreases n,
{
    reveal_with_fuel(ui::with_grid, 2);
    if n > 1 {
        if line < n - 1 {
            lemma_with_grid(before, a, (n - 1) as nat, line);
        } else {
            lemma_with_grid(before, a, (n - 1) as nat, n - 2);
        }
    }
}

/// The points of the aim overlay stand in a grid, row under row with a line
/// between, and in each row from left to right.
pub proof fn law_aim_grid(a: AppView, col: int, row: int)
    requires
        0 <= col <= 4,
        0 <= row <= 4,
    ensures
        ui::aim_lines(a).len() == 14,
        ui::aim_lines(a)[2 + 2 * row].len() == 15,
        ui::aim_lines(a)[2 + 2 * row][3 * col + 1] == ui::grid_point(a, col, row),
        ui::aim_lines(a)[12] == ui::aim_label(a),
{
    let before = seq![ui::unit_line(panels::accent_of(a)), style::blank()];
    lemma_with_grid(before, a, 9, 2 * row);
    lemma_grid_cells(a, 2 * row, 5, col);
    assert(ui::AIM_GRID_H as nat == 9);
    assert((2 * row) % 2 == 0 && (2 * row) / 2 == row);
}

/// A row of a picture has a cell for each bit, from the highest to the lowest:
/// full for a one, blank for a zero.
pub proof fn law_picture_rows(bits: int, n: nat, i: int)
    requires
        bits >= 0,
        0 <= i < n,
    ensures
        panels::cells_of(bits, n).len() == n,
        panels::cells_of(2 * bits, n + 1).last() == ' ',
        panels::cells_of(2 * bits + 1, n + 1).last() == '█',
        panels::cells_of(2 * bits, n + 1)[i] == panels::cells_of(bits, n)[i],
        panels::cells_of(2 * bits + 1, n + 1)[i] == panels::cells_of(bits, n)[i],
{
    lemma_cells(bits, n);
    assert((2 * bits) / 2 == bits && (2 * bits + 1) / 2 == bits);
}

proof fn lemma_cells(bits: int, n: nat)
    ensures
        panels::cells_of(bits, n).len() == n,
    decreases n,
{
    if n > 0 {
        lemma_cells(bits / 2, (n - 1) as nat);
    }
}

/// No two digits, signs or units are drawn alike.
pub proof fn law_pictures_differ(g: Glyph, h: Glyph)
    requires
        g matches Glyph::Digit(d) ==> d <= 9,
        h matches Glyph::Digit(d) ==> d <= 9,
    ensures
        g.picture() == h.picture() <==> g == h,
{
}

/// The rotor stands in the middle of its panel.
pub proof fn law_rotor_is_centered(width: u16)
    ensures
        width >= 20 ==> ({
            let left = airflow::fan_pad(width) as int;
            let right = width - 2 - 18 - left;
            0 <= left <= right <= left + 1
        }),
        width < 20 ==> airflow::fan_pad(width) == 0,
{
}

/// A marker that sweeps starts at its lowest place, rests three frames in each, and
/// moves on to the next one until it has reached the highest.
pub proof fn law_sweep_pace(frame: nat, lo: nat, hi: nat)
    requires
        lo <= hi,
    ensures
        airflow::swept(0, lo, hi) == lo,
        airflow::swept(3 * (hi - lo) as nat, lo, hi) == hi,
        lo <= airflow::swept(frame, lo, hi) <= hi,
        frame % 3 != 2 ==> airflow::swept(frame + 1, lo, hi) == airflow::swept(frame, lo, hi),
        frame % 3 == 2 && lo < hi ==> airflow::swept(frame + 1, lo, hi) - airflow::swept(
            frame,
            lo,
            hi,
        ) == 1 || airflow::swept(frame, lo, hi) - airflow::swept(frame + 1, lo, hi) == 1,
{
    let n = (hi - lo + 1) as nat;
    airflow::law_ping_pong_stays(frame / 3, n);
    if frame % 3 == 2 {
        assert((frame + 1) / 3 == frame / 3 + 1);
    } else {
        assert((frame + 1) / 3 == frame / 3);
    }
    if n > 1 {
        let m = (2 * (n - 1)) as nat;
        vstd::arithmetic::div_mod::lemma_small_mod(0, m);
        vstd::arithmetic::div_mod::lemma_small_mod((n - 1) as nat, m);
        assert((3 * (hi - lo) as nat) / 3 == n - 1);
    }
}

} // verus!
