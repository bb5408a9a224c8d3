//! The lower panels: toggles, sensors, activity log and key reference.

use crate::app;
use crate::device;
use crate::double;
use crate::json;
use crate::panels;
use crate::style;
use crate::text;
use crate::trend;
use app::{App, AppView};
use device::AcState;
use style::{Color, Draw, Line, Lines, Rect, Span, Style};
use vstd::prelude::*;

verus! {

// ---------------------------------------------------------------------------
// toggles
// ---------------------------------------------------------------------------

/// Integers in brackets, with commas between.
pub open spec fn list_text(v: Seq<i64>) -> Seq<char> {
    "["@ + text::joined(v.map_values(|n: i64| text::dec_int(n as int)), ", "@) + "]"@
}

pub fn fmt_list(v: &Vec<i64>) -> (r: String)
    ensures
        r@ == list_text(v@),
{
    let mut parts: Vec<String> = Vec::new();
    let ghost all = v@.map_values(|n: i64| text::dec_int(n as int));
    let mut i: usize = 0;
    assert(text::view_all(parts@) =~= all.take(0));
    while i < v.len()
        invariant
            all == v@.map_values(|n: i64| text::dec_int(n as int)),
            i <= v@.len(),
            text::view_all(parts@) == all.take(i as int),
        decreases v@.len() - i,
    {
        let ghost before = parts@;
        parts.push(text::dec_i64(v[i]));
        assert(text::view_all(parts@) =~= text::view_all(before).push(all[i as int]));
        assert(all.take(i + 1) =~= all.take(i as int).push(all[i as int]));
        i = i + 1;
    }
    assert(all.take(all.len() as int) == all);
    let list = text::join(&parts, ", ");
    text::cat3("[", list.as_str(), "]")
}

/// The sleep level of a state. One out of range has the name of the last.
pub open spec fn sleep_of(a: AppView) -> i64 {
    match a.state {
        Some(s) => s.sleep,
        None => 0,
    }
}

/// A toggle: its label, lit where it is on, and its key.
pub open spec fn with_toggle(
    line: Seq<style::SpanView>,
    label: Seq<char>,
    on: bool,
    key: Seq<char>,
) -> Seq<style::SpanView> {
    line.push(panels::chip_of(label, on, Color::Good)).push(panels::hint_of(key)).push(
        style::raw("  "@),
    )
}

fn push_toggle(line: &mut Line, label: &str, on: bool, key: &str)
    ensures
        final(line)@ == with_toggle(old(line)@, label@, on, key@),
{
    line.push_span(panels::chip(label, on, Color::Good));
    line.push_span(panels::key_hint(key));
    line.push_raw("  ");
}

pub open spec fn toggles_first(a: AppView) -> Seq<style::SpanView> {
    let l0 = seq![style::raw(" "@)];
    let l1 = with_toggle(l0, "ECO"@, a.state matches Some(s) && s.eco, "e"@);
    let l2 = with_toggle(
        l1,
        "SLEEP·"@ + device::sleep_name(sleep_of(a) as int),
        sleep_of(a) > 0,
        "z"@,
    );
    let l3 = with_toggle(l2, "HEALTH"@, a.state matches Some(s) && s.healthy, "g"@);
    with_toggle(l3, "SELF-CLEAN"@, a.state matches Some(s) && s.self_clean, "c"@)
}

/// Whether the device reports errors.
pub open spec fn error_chip(a: AppView) -> style::SpanView {
    match a.state {
        Some(s) => if s.errors@.len() > 0 {
            style::span(
                " ⚠ errors "@ + list_text(s.errors@) + " "@,
                style::bold_on(Color::Ink, Color::Bad),
            )
        } else {
            style::span(" ✔ no errors "@, style::colored(Color::Good))
        },
        None => style::raw(""@),
    }
}

pub open spec fn toggles_second(a: AppView) -> Seq<style::SpanView> {
    let l0 = seq![style::raw(" "@)];
    let l1 = with_toggle(l0, "ANTI-MOLD"@, a.state matches Some(s) && s.anti_mold, "n"@);
    let l2 = with_toggle(l1, "8°C-HEAT"@, a.state matches Some(s) && s.eight_heat, "8"@);
    let l3 = with_toggle(l2, "SCREEN"@, a.state matches Some(s) && s.screen, "d"@);
    with_toggle(l3, "BEEP"@, a.state matches Some(s) && s.beep, "b"@).push(error_chip(a))
}

pub open spec fn toggles_panel(a: AppView, area: Rect) -> style::DrawView {
    style::boxed(
        area,
        panels::framed("Comfort & Extras"@, panels::accent_of(a)),
        seq![toggles_first(a), toggles_second(a)],
    )
}

fn error_span(app: &App) -> (r: Span)
    ensures
        r@ == error_chip(app@),
{
    match &app.state {
        Some(s) => if s.errors.len() > 0 {
            let list = fmt_list(&s.errors);
            let told = text::cat3(" ⚠ errors ", list.as_str(), " ");
            Span::styled(told.as_str(), Style::bold_on(Color::Ink, Color::Bad))
        } else {
            Span::styled(" ✔ no errors ", Style::colored(Color::Good))
        },
        None => Span::styled("", Style::plain()),
    }
}

/// The settings that are on or off, in the order of the panel.
struct Settings {
    eco: bool,
    healthy: bool,
    self_clean: bool,
    anti_mold: bool,
    eight_heat: bool,
    screen: bool,
    beep: bool,
    sleep: i64,
}

fn settings(app: &App) -> (r: Settings)
    ensures
        r.eco == (app@.state matches Some(s) && s.eco),
        r.healthy == (app@.state matches Some(s) && s.healthy),
        r.self_clean == (app@.state matches Some(s) && s.self_clean),
        r.anti_mold == (app@.state matches Some(s) && s.anti_mold),
        r.eight_heat == (app@.state matches Some(s) && s.eight_heat),
        r.screen == (app@.state matches Some(s) && s.screen),
        r.beep == (app@.state matches Some(s) && s.beep),
        r.sleep == sleep_of(app@),
{
    match &app.state {
        Some(s) => Settings {
            eco: s.eco,
            healthy: s.healthy,
            self_clean: s.self_clean,
            anti_mold: s.anti_mold,
            eight_heat: s.eight_heat,
            screen: s.screen,
            beep: s.beep,
            sleep: s.sleep,
        },
        None => Settings {
            eco: false,
            healthy: false,
            self_clean: false,
            anti_mold: false,
            eight_heat: false,
            screen: false,
            beep: false,
            sleep: 0,
        },
    }
}

pub fn render_toggles(area: Rect, app: &App) -> (r: Draw)
    ensures
        r@ == toggles_panel(app@, area),
{
    let set = settings(app);
    let level: usize = if 0 <= set.sleep && set.sleep <= 3 {
        set.sleep as usize
    } else {
        3
    };
    let sleep = text::cat2("SLEEP·", device::sleep_label(level));
    let mut first = Line::of(" ", Style::plain());
    push_toggle(&mut first, "ECO", set.eco, "e");
    push_toggle(&mut first, sleep.as_str(), set.sleep > 0, "z");
    push_toggle(&mut first, "HEALTH", set.healthy, "g");
    push_toggle(&mut first, "SELF-CLEAN", set.self_clean, "c");
    let mut second = Line::of(" ", Style::plain());
    push_toggle(&mut second, "ANTI-MOLD", set.anti_mold, "n");
    push_toggle(&mut second, "8°C-HEAT", set.eight_heat, "8");
    push_toggle(&mut second, "SCREEN", set.screen, "d");
    push_toggle(&mut second, "BEEP", set.beep, "b");
    second.push_span(error_span(app));
    let mut lines = Lines::new();
    lines.push(first);
    lines.push(second);
    assert(lines@ =~= seq![toggles_first(app@), toggles_second(app@)]);
    Draw::boxed(area, panels::panel("Comfort & Extras", panels::accent(app)), lines)
}

// ---------------------------------------------------------------------------
// sensors
// ---------------------------------------------------------------------------

/// A number, or a dash.
pub open spec fn number_text(n: Option<i64>) -> Seq<char> {
    match n {
        Some(x) => text::dec_int(x as int),
        None => "—"@,
    }
}

fn fmt_number(n: Option<i64>) -> (r: String)
    ensures
        r@ == number_text(n),
{
    match n {
        Some(x) => text::dec_i64(x),
        None => text::owned("—"),
    }
}

/// A reading with its label.
pub open spec fn sensor_of(label: Seq<char>, value: Seq<char>, color: Color) -> Seq<
    style::SpanView,
> {
    seq![
        style::span(" "@ + text::padded_right(label, 10) + " "@, style::colored(Color::Dim)),
        style::span(value, style::bold(color)),
    ]
}

pub fn sensor_line(label: &str, value: &str, color: Color) -> (r: Line)
    ensures
        r@ == sensor_of(label@, value@, color),
{
    let padded = text::pad_right(label, 10);
    let name = text::cat3(" ", padded.as_str(), " ");
    let mut line = Line::new();
    line.push(name.as_str(), Style::colored(Color::Dim));
    line.push(value, Style::bold(color));
    line
}

/// Two label:value pairs on one line.
pub open spec fn pair_of(l1: Seq<char>, v1: Seq<char>, l2: Seq<char>, v2: Seq<char>) -> Seq<
    style::SpanView,
> {
    seq![
        style::span(" "@ + text::padded_right(l1, 11) + " "@, style::colored(Color::Dim)),
        style::span(text::padded_right(v1, 7), style::colored(Color::Text)),
        style::span(l2 + " "@, style::colored(Color::Dim)),
        style::span(v2, style::colored(Color::Text)),
    ]
}

pub fn kv2(l1: &str, v1: &str, l2: &str, v2: &str) -> (r: Line)
    ensures
        r@ == pair_of(l1@, v1@, l2@, v2@),
{
    let padded = text::pad_right(l1, 11);
    let first = text::cat3(" ", padded.as_str(), " ");
    let value = text::pad_right(v1, 7);
    let second = text::cat2(l2, " ");
    let mut line = Line::new();
    line.push(first.as_str(), Style::colored(Color::Dim));
    line.push(value.as_str(), Style::colored(Color::Text));
    line.push(second.as_str(), Style::colored(Color::Dim));
    line.push(v2, Style::colored(Color::Text));
    line
}

/// The estimated power draw, marked as an estimate.
pub open spec fn power_estimate(s: AcState, ac: Color) -> Seq<style::SpanView> {
    seq![
        style::span(" Power ~    "@, style::colored(Color::Dim)),
        style::span(
            match s.estimated_watts() {
                Some(w) => device::power_text(w as int),
                None => "—"@,
            },
            style::bold(ac),
        ),
        style::span(" est"@, style::colored(Color::Track)),
    ]
}

pub open spec fn temps_lines(a: AppView) -> Seq<Seq<style::SpanView>> {
    match a.state {
        Some(s) => seq![
            sensor_of(
                "Indoor"@,
                panels::celsius_text(json::reading_bits(s.current_temp)),
                Color::Text,
            ),
            sensor_of(
                "Outdoor"@,
                panels::celsius_text(json::reading_bits(s.external_temp)),
                Color::Text,
            ),
            sensor_of(
                "Coil"@,
                panels::celsius_text(json::reading_bits(s.coil_temp)),
                Color::Dim,
            ),
            power_estimate(s, panels::accent_of(a)),
        ],
        None => seq![seq![style::span(" loading…"@, style::colored(Color::Dim))]],
    }
}

fn power_row(s: &AcState, ac: Color) -> (r: Line)
    ensures
        r@ == power_estimate(*s, ac),
{
    let watts = match s.est_power_w() {
        Some(w) => device::fmt_power(w),
        None => text::owned("—"),
    };
    let mut line = Line::new();
    line.push(" Power ~    ", Style::colored(Color::Dim));
    line.push(watts.as_str(), Style::bold(ac));
    line.push(" est", Style::colored(Color::Track));
    line
}

fn temps(app: &App) -> (r: Lines)
    ensures
        r@ == temps_lines(app@),
{
    let mut lines = Lines::new();
    match &app.state {
        Some(s) => {
            let indoor = panels::fmt_celsius(&s.current_temp);
            lines.push(sensor_line("Indoor", indoor.as_str(), Color::Text));
            let outdoor = panels::fmt_celsius(&s.external_temp);
            lines.push(sensor_line("Outdoor", outdoor.as_str(), Color::Text));
            let coil = panels::fmt_celsius(&s.coil_temp);
            lines.push(sensor_line("Coil", coil.as_str(), Color::Dim));
            lines.push(power_row(s, panels::accent(app)));
        },
        None => {
            lines.push(Line::of(" loading…", Style::colored(Color::Dim)));
        },
    }
    assert(lines@ =~= temps_lines(app@));
    lines
}

/// The compressor frequency, with a bar of eight cells for up to 120 Hz.
pub open spec fn compressor_line(s: AcState, ac: Color) -> Seq<style::SpanView> {
    let hz = match s.compressor_hz {
        Some(x) => x as int,
        None => 0,
    };
    let filled = device::clamped(hz, 0, 120) / 15;
    seq![
        style::span(" Comp "@, style::colored(Color::Dim)),
        style::span(text::repeated("█"@, filled as nat), style::colored(ac)),
        style::span(text::repeated("░"@, (8 - filled) as nat), style::colored(Color::Track)),
        style::span(
            " "@ + text::dec_int(hz) + "Hz (run "@ + number_text(s.comp_run_hz) + " / tgt "@
                + number_text(s.comp_target_hz) + ")"@,
            style::colored(Color::Text),
        ),
    ]
}

pub open spec fn filter_line(s: AcState) -> Seq<style::SpanView> {
    seq![
        style::span(" Filter      "@, style::colored(Color::Dim)),
        if s.filter_alert {
            style::span("CLEAN NEEDED"@, style::bold(Color::Bad))
        } else {
            style::span("ok"@, style::bold(Color::Good))
        },
        style::span(
            "   Self-clean "@ + number_text(s.self_clean_pct) + "%"@,
            style::colored(Color::Dim),
        ),
    ]
}

pub open spec fn outdoor_lines(a: AppView) -> Seq<Seq<style::SpanView>> {
    match a.state {
        Some(s) => seq![
            compressor_line(s, panels::accent_of(a)),
            pair_of("Outdoor fan"@, number_text(s.outdoor_fan), "EEV"@, number_text(s.eev)),
            pair_of(
                "PTC heat"@,
                if s.ptc {
                    "on"@
                } else {
                    "off"@
                },
                "Wind"@,
                match s.wind_pct {
                    Some(p) => text::dec_int(p as int) + "%"@,
                    None => "—"@,
                },
            ),
            filter_line(s),
        ],
        None => seq![seq![style::span(" …"@, style::colored(Color::Dim))]],
    }
}

fn compressor_row(s: &AcState, ac: Color) -> (r: Line)
    ensures
        r@ == compressor_line(*s, ac),
{
    let hz: i64 = match s.compressor_hz {
        Some(x) => x,
        None => 0,
    };
    let filled: usize = (device::clamp(hz, 0, 120) / 15) as usize;
    let full = text::repeat("█", filled);
    let free = text::repeat("░", 8 - filled);
    let number = text::dec_i64(hz);
    let run = fmt_number(s.comp_run_hz);
    let target = fmt_number(s.comp_target_hz);
    let start = text::cat5(" ", number.as_str(), "Hz (run ", run.as_str(), " / tgt ");
    let told = text::cat3(start.as_str(), target.as_str(), ")");
    let mut line = Line::new();
    line.push(" Comp ", Style::colored(Color::Dim));
    line.push(full.as_str(), Style::colored(ac));
    line.push(free.as_str(), Style::colored(Color::Track));
    line.push(told.as_str(), Style::colored(Color::Text));
    line
}

fn filter_row(s: &AcState) -> (r: Line)
    ensures
        r@ == filter_line(*s),
{
    let percent = fmt_number(s.self_clean_pct);
    let cleaned = text::cat3("   Self-clean ", percent.as_str(), "%");
    let mut line = Line::new();
    line.push(" Filter      ", Style::colored(Color::Dim));
    if s.filter_alert {
        line.push("CLEAN NEEDED", Style::bold(Color::Bad));
    } else {
        line.push("ok", Style::bold(Color::Good));
    }
    line.push(cleaned.as_str(), Style::colored(Color::Dim));
    line
}

fn outdoor(app: &App) -> (r: Lines)
    ensures
        r@ == outdoor_lines(app@),
{
    let mut lines = Lines::new();
    match &app.state {
        Some(s) => {
            lines.push(compressor_row(s, panels::accent(app)));
            let fan = fmt_number(s.outdoor_fan);
            let eev = fmt_number(s.eev);
            lines.push(kv2("Outdoor fan", fan.as_str(), "EEV", eev.as_str()));
            let ptc = if s.ptc {
                "on"
            } else {
                "off"
            };
            let wind = match s.wind_pct {
                Some(p) => {
                    let number = text::dec_i64(p);
                    text::cat2(number.as_str(), "%")
                },
                None => text::owned("—"),
            };
            lines.push(kv2("PTC heat", ptc, "Wind", wind.as_str()));
            lines.push(filter_row(s));
        },
        None => {
            lines.push(Line::of(" …", Style::colored(Color::Dim)));
        },
    }
    assert(lines@ =~= outdoor_lines(app@));
    lines
}

/// The title of the temperature history: its range, where there is one.
pub open spec fn trend_title(a: AppView) -> Seq<char> {
    if a.temp_hist.len() > 1 {
        "Trend "@ + double::fixed_text(double::least(a.temp_hist), 1) + "–"@ + double::fixed_text(
            double::greatest(a.temp_hist),
            1,
        ) + "°"@
    } else {
        "Trend"@
    }
}

/// The part of a history that a chart of a width shows: the last points that fit
/// within its border, at least one.
pub open spec fn in_view(history: Seq<u64>, width: u16) -> Seq<u64> {
    app::recent(
        history,
        if width > 3 {
            (width - 2) as nat
        } else {
            1
        },
    )
}

/// The lowest point of a history.
pub open spec fn lowest(history: Seq<u64>) -> u64 {
    if history.len() > 0 {
        double::least(history)
    } else {
        0
    }
}

/// Whether the chart of a history can count the height of every point in view.
pub open spec fn chartable(history: Seq<u64>, width: u16) -> bool {
    forall|i: int|
        0 <= i < in_view(history, width).len() ==> trend::height_of(
            #[trigger] in_view(history, width)[i],
            lowest(history),
        ) < u64::MAX
}

/// The chart of a history: one more than the tenths of a degree of each point in
/// view above the lowest of all.
pub open spec fn charted(history: Seq<u64>, width: u16) -> Seq<u64> {
    in_view(history, width).map_values(
        |t: u64| (trend::height_of(t, lowest(history)) + 1) as u64,
    )
}

pub open spec fn trend_panel(a: AppView, area: Rect) -> style::DrawView {
    style::DrawView::Spark {
        area,
        frame: panels::framed(trend_title(a), panels::accent_of(a)),
        style: style::colored(panels::accent_of(a)),
        data: charted(a.temp_hist, area.width),
    }
}

fn trend_range(app: &App) -> (r: String)
    ensures
        r@ == trend_title(app@),
{
    if app.temp_hist.len() > 1 {
        let (lo, hi) = double::extremes(&app.temp_hist);
        let low = double::fixed(lo, 1);
        let high = double::fixed(hi, 1);
        text::cat5("Trend ", low.as_str(), "–", high.as_str(), "°")
    } else {
        text::owned("Trend")
    }
}

/// The chart of a history, where every point in view can be counted.
fn chart(history: &Vec<u64>, width: u16) -> (r: Option<Vec<u64>>)
    ensures
        r is Some == chartable(history@, width),
        r matches Some(data) ==> data@ == charted(history@, width),
{
    let fits: usize = if width > 3 {
        (width - 2) as usize
    } else {
        1
    };
    let from: usize = if history.len() > fits {
        history.len() - fits
    } else {
        0
    };
    let lo: u64 = if history.len() > 0 {
        double::extremes(history).0
    } else {
        0
    };
    let ghost shown = in_view(history@, width);
    let mut out: Vec<u64> = Vec::new();
    let mut i: usize = from;
    while i < history.len()
        invariant
            from <= i <= history@.len(),
            lo == lowest(history@),
            shown == in_view(history@, width),
            shown == history@.skip(from as int),
            out@ == shown.take(i - from).map_values(
                |t: u64| (trend::height_of(t, lowest(history@)) + 1) as u64,
            ),
            forall|k: int|
                0 <= k < i - from ==> trend::height_of(#[trigger] shown[k], lo) < u64::MAX,
        decreases history@.len() - i,
    {
        let h = trend::height(history[i], lo);
        assert(shown[i - from] == history@[i as int]);
        if h == u64::MAX {
            return None;
        }
        assert(shown.take(i + 1 - from) =~= shown.take(i - from).push(history@[i as int]));
        out.push(h + 1);
        i = i + 1;
    }
    assert(shown.take(shown.len() as int) =~= shown);
    Some(out)
}

/// Whether the chart of the temperature history can be drawn in a width.
pub fn can_chart(app: &App, width: u16) -> (r: bool)
    ensures
        r == chartable(app@.temp_hist, width),
{
    chart(&app.temp_hist, width).is_some()
}

/// The three sensor panels, in columns.
pub open spec fn sensor_panels(a: AppView, cols: Seq<Rect>) -> Seq<style::DrawView> {
    seq![
        style::boxed(cols[0], panels::framed("Temps"@, panels::accent_of(a)), temps_lines(a)),
        style::boxed(
            cols[1],
            panels::framed("Outdoor unit"@, panels::accent_of(a)),
            outdoor_lines(a),
        ),
        trend_panel(a, cols[2]),
    ]
}

pub fn render_sensors(out: &mut style::Screen, cols: &Vec<Rect>, app: &App)
    requires
        cols@.len() == 3,
        chartable(app@.temp_hist, cols@[2].width),
    ensures
        final(out)@ == old(out)@ + sensor_panels(app@, cols@),
{
    let ac = panels::accent(app);
    out.push(Draw::boxed(cols[0], panels::panel("Temps", ac), temps(app)));
    out.push(Draw::boxed(cols[1], panels::panel("Outdoor unit", ac), outdoor(app)));
    let title = trend_range(app);
    out.push(
        Draw::Spark {
            area: cols[2],
            frame: panels::panel(title.as_str(), ac),
            style: Style::colored(ac),
            data: chart(&app.temp_hist, cols[2].width).unwrap(),
        },
    );
    assert(out@ =~= old(out)@ + sensor_panels(app@, cols@));
}

// ---------------------------------------------------------------------------
// log + keys
// ---------------------------------------------------------------------------

/// The colour of a log line: failures, own commands and observed changes differ.
pub open spec fn log_color(line: Seq<char>) -> Color {
    if text::has_part(line, " ✗"@) {
        Color::Bad
    } else if text::has_part(line, " →"@) {
        Color::Good
    } else if text::has_part(line, " ◆"@) {
        Color::Dry
    } else {
        Color::Dim
    }
}

pub open spec fn log_line(line: Seq<char>) -> Seq<style::SpanView> {
    seq![style::span(" "@ + line, style::colored(log_color(line)))]
}

/// The last log lines, as many as a panel of a height shows.
pub open spec fn log_lines(a: AppView, height: u16) -> Seq<Seq<style::SpanView>> {
    app::recent(
        a.log,
        if height > 2 {
            (height - 2) as nat
        } else {
            0
        },
    ).map_values(|l: Seq<char>| log_line(l))
}

fn log_row(l: &str) -> (r: Line)
    ensures
        r@ == log_line(l@),
{
    let color = if text::contains(l, " ✗") {
        Color::Bad
    } else if text::contains(l, " →") {
        Color::Good
    } else if text::contains(l, " ◆") {
        Color::Dry
    } else {
        Color::Dim
    };
    let told = text::cat2(" ", l);
    Line::of(told.as_str(), Style::colored(color))
}

fn activity(app: &App, height: u16) -> (r: Lines)
    ensures
        r@ == log_lines(app@, height),
{
    let fits: usize = if height > 2 {
        (height - 2) as usize
    } else {
        0
    };
    let start: usize = if app.log.len() > fits {
        app.log.len() - fits
    } else {
        0
    };
    let ghost all = text::view_all(app.log@);
    let mut lines = Lines::new();
    let mut i: usize = start;
    while i < app.log.len()
        invariant
            all == text::view_all(app.log@),
            start <= i <= app.log@.len(),
            lines@ == all.subrange(start as int, i as int).map_values(
                |l: Seq<char>| log_line(l),
            ),
        decreases app.log@.len() - i,
    {
        lines.push(log_row(app.log[i].as_str()));
        proof {
            assert(all.subrange(start as int, i + 1) =~= all.subrange(start as int, i as int).push(
                all[i as int],
            ));
            assert(lines@ =~= all.subrange(start as int, i + 1).map_values(
                |l: Seq<char>| log_line(l),
            ));
        }
        i = i + 1;
    }
    assert(all.subrange(start as int, all.len() as int) =~= app::recent(all, fits as nat));
    lines
}

/// Two keys and what they do.
pub open spec fn key_line(
    k1: Seq<char>,
    v1: Seq<char>,
    k2: Seq<char>,
    v2: Seq<char>,
    ac: Color,
) -> Seq<style::SpanView> {
    seq![
        style::span(" "@ + text::padded_left(k1, 5) + " "@, style::colored(ac)),
        style::span(text::padded_right(v1, 11), style::colored(Color::Dim)),
        style::span(text::padded_left(k2, 5) + " "@, style::colored(ac)),
        style::span(v2, style::colored(Color::Dim)),
    ]
}

pub open spec fn key_lines(ac: Color) -> Seq<Seq<style::SpanView>> {
    seq![
        key_line("p"@, "power"@, "m 1-5"@, "mode"@, ac),
        key_line("+/-"@, "temp"@, "f/F"@, "fan ±"@, ac),
        key_line("s"@, "v-swing"@, "h"@, "h-swing"@, ac),
        key_line("v"@, "aim vents"@, "e"@, "eco"@, ac),
        key_line("z"@, "sleep"@, "d"@, "screen"@, ac),
        key_line("b"@, "beep"@, "g"@, "health"@, ac),
        key_line("c"@, "self-clean"@, "n"@, "anti-mold"@, ac),
        key_line("8"@, "8°C-heat"@, "a"@, "animations"@, ac),
        key_line("r"@, "refresh"@, "q"@, "quit"@, ac),
    ]
}

fn key_row(k1: &str, v1: &str, k2: &str, v2: &str, ac: Color) -> (r: Line)
    ensures
        r@ == key_line(k1@, v1@, k2@, v2@, ac),
{
    let p1 = text::pad_left(k1, 5);
    let first = text::cat3(" ", p1.as_str(), " ");
    let does = text::pad_right(v1, 11);
    let p2 = text::pad_left(k2, 5);
    let second = text::cat2(p2.as_str(), " ");
    let mut line = Line::new();
    line.push(first.as_str(), Style::colored(ac));
    line.push(does.as_str(), Style::colored(Color::Dim));
    line.push(second.as_str(), Style::colored(ac));
    line.push(v2, Style::colored(Color::Dim));
    line
}

fn keys(ac: Color) -> (r: Lines)
    ensures
        r@ == key_lines(ac),
{
    let mut lines = Lines::new();
    lines.push(key_row("p", "power", "m 1-5", "mode", ac));
    lines.push(key_row("+/-", "temp", "f/F", "fan ±", ac));
    lines.push(key_row("s", "v-swing", "h", "h-swing", ac));
    lines.push(key_row("v", "aim vents", "e", "eco", ac));
    lines.push(key_row("z", "sleep", "d", "screen", ac));
    lines.push(key_row("b", "beep", "g", "health", ac));
    lines.push(key_row("c", "self-clean", "n", "anti-mold", ac));
    lines.push(key_row("8", "8°C-heat", "a", "animations", ac));
    lines.push(key_row("r", "refresh", "q", "quit", ac));
    assert(lines@ =~= key_lines(ac));
    lines
}

/// The activity log and the key reference, in columns.
pub open spec fn bottom_panels(a: AppView, cols: Seq<Rect>) -> Seq<style::DrawView> {
    seq![
        style::DrawView::Text {
            area: cols[0],
            block: Some(panels::framed("Activity"@, panels::accent_of(a))),
            lines: log_lines(a, cols[0].height),
            centered: false,
            wrapped: true,
            padded: false,
        },
        style::boxed(
            cols[1],
            panels::framed("Keys"@, panels::accent_of(a)),
            key_lines(panels::accent_of(a)),
        ),
    ]
}

pub fn render_bottom(out: &mut style::Screen, cols: &Vec<Rect>, app: &App)
    requires
        cols@.len() == 2,
    ensures
        final(out)@ == old(out)@ + bottom_panels(app@, cols@),
{
    let ac = panels::accent(app);
    out.push(
        Draw::Text {
            area: cols[0],
            block: Some(panels::panel("Activity", ac)),
            lines: activity(app, cols[0].height),
            centered: false,
            wrapped: true,
            padded: false,
        },
    );
    out.push(Draw::boxed(cols[1], panels::panel("Keys", ac), keys(ac)));
    assert(out@ =~= old(out)@ + bottom_panels(app@, cols@));
}

} // verus!
