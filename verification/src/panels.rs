//! The panels of the main row, with the header and the footer.

use crate::app;
use crate::device;
use crate::double;
use crate::json;
use crate::rest;
use crate::style;
use crate::text;
use crate::trend;
use app::{App, AppView, PendingCmd, PendingKind};
use device::{Fan, Mode};
use style::{Block, Color, Draw, Line, Lines, Rect, Span, Style};
use trend::Slope;
use vstd::prelude::*;

verus! {

// ---------------------------------------------------------------------------
// theme
// ---------------------------------------------------------------------------

/// The accent colour follows the active mode (grey when off / unknown).
pub open spec fn accent_of(a: AppView) -> Color {
    match a.state {
        Some(s) => if s.power {
            match Mode::of_code(s.work_mode as int) {
                Some(Mode::Cool) => Color::Cool,
                Some(Mode::Heat) => Color::Heat,
                Some(Mode::Dry) => Color::Dry,
                Some(Mode::Fan) => Color::Fan,
                Some(Mode::Auto) => Color::Auto,
                None => Color::Unknown,
            }
        } else {
            Color::Off
        },
        None => Color::Off,
    }
}

pub fn accent(app: &App) -> (r: Color)
    ensures
        r == accent_of(app@),
{
    match &app.state {
        Some(s) => if s.power {
            match s.mode() {
                Some(Mode::Cool) => Color::Cool,
                Some(Mode::Heat) => Color::Heat,
                Some(Mode::Dry) => Color::Dry,
                Some(Mode::Fan) => Color::Fan,
                Some(Mode::Auto) => Color::Auto,
                None => Color::Unknown,
            }
        } else {
            Color::Off
        },
        None => Color::Off,
    }
}

/// The border of a panel, with its title in the accent colour.
pub open spec fn framed(title: Seq<char>, ac: Color) -> style::BlockView {
    style::BlockView {
        title: style::span(" "@ + title + " "@, style::bold(ac)),
        border: style::colored(Color::Faint),
    }
}

pub fn panel(title: &str, ac: Color) -> (r: Block)
    ensures
        r@ == framed(title@, ac),
{
    let spaced = text::cat3(" ", title, " ");
    Block {
        title: Span::styled(spaced.as_str(), Style::bold(ac)),
        border: Style::colored(Color::Faint),
    }
}

/// A label, on a coloured ground where it is on.
pub open spec fn chip_of(label: Seq<char>, on: bool, on_bg: Color) -> style::SpanView {
    style::span(
        " "@ + label + " "@,
        if on {
            style::bold_on(Color::Ink, on_bg)
        } else {
            style::colored(Color::Dim)
        },
    )
}

pub fn chip(label: &str, on: bool, on_bg: Color) -> (r: Span)
    ensures
        r@ == chip_of(label@, on, on_bg),
{
    let spaced = text::cat3(" ", label, " ");
    Span::styled(
        spaced.as_str(),
        if on {
            Style::bold_on(Color::Ink, on_bg)
        } else {
            Style::colored(Color::Dim)
        },
    )
}

/// The key that changes something.
pub open spec fn hint_of(k: Seq<char>) -> style::SpanView {
    style::span("["@ + k + "]"@, style::colored(Color::Faint))
}

pub fn key_hint(k: &str) -> (r: Span)
    ensures
        r@ == hint_of(k@),
{
    let bracketed = text::cat3("[", k, "]");
    Span::styled(bracketed.as_str(), Style::colored(Color::Faint))
}

// ---------------------------------------------------------------------------
// header / footer
// ---------------------------------------------------------------------------

/// The header: the program, the device, whether it is online, its firmware and
/// the time.
pub open spec fn header_line(a: AppView, clock: Seq<char>) -> Seq<style::SpanView> {
    let d = a.device;
    seq![
        style::span(" ❆ tclac "@, style::bold_on(Color::Ink, accent_of(a))),
        style::span("  "@ + d.shown_name() + " "@, style::bold(Color::Text)),
        style::span("("@ + d.device_id + ")"@, style::colored(Color::Dim)),
        if d.is_online {
            style::span(" ● online"@, style::colored(Color::Good))
        } else {
            style::span(" ● offline"@, style::colored(Color::Bad))
        },
        style::span(
            if d.firmware_version.len() == 0 {
                ""@
            } else {
                "  fw "@ + d.firmware_version
            },
            style::colored(Color::Dim),
        ),
        style::span("   "@ + clock, style::colored(Color::Dim)),
    ]
}

pub fn render_header(area: Rect, app: &App, clock: &str) -> (r: Draw)
    ensures
        r@ == style::bare(area, seq![header_line(app@, clock@)], false),
{
    let ac = accent(app);
    let d = &app.device;
    let name = text::cat3("  ", rest::display_name(d), " ");
    let id = text::cat3("(", d.device_id.as_str(), ")");
    let fw = if text::is_empty(d.firmware_version.as_str()) {
        text::owned("")
    } else {
        text::cat2("  fw ", d.firmware_version.as_str())
    };
    let time = text::cat2("   ", clock);
    let mut line = Line::new();
    line.push(" ❆ tclac ", Style::bold_on(Color::Ink, ac));
    line.push(name.as_str(), Style::bold(Color::Text));
    line.push(id.as_str(), Style::colored(Color::Dim));
    if d.is_online {
        line.push(" ● online", Style::colored(Color::Good));
    } else {
        line.push(" ● offline", Style::colored(Color::Bad));
    }
    line.push(fw.as_str(), Style::colored(Color::Dim));
    line.push(time.as_str(), Style::colored(Color::Dim));
    assert(line@ =~= header_line(app@, clock@));
    let mut lines = Lines::new();
    lines.push(line);
    Draw::bare(area, lines, false)
}

/// What the footer says of the shadow.
pub open spec fn shadow_text(a: AppView) -> Seq<char> {
    match a.state {
        Some(s) => "shadow v"@ + text::dec_int(s.shadow_version as int) + " · "@ + text::dec(
            s.capabilities@.len(),
        ) + " capabilities"@,
        None => ""@,
    }
}

/// Whether a status tells of an error.
pub open spec fn tells_error(status: Seq<char>) -> bool {
    text::has_prefix(status, "Error"@) || text::has_part(status, "error"@)
}

/// The footer: the status, and how fresh the state is.
pub open spec fn footer_line(a: AppView, now: u64) -> Seq<style::SpanView> {
    seq![
        style::span(
            " "@ + (if a.busy {
                "⟳ "@
            } else {
                ""@
            }) + a.status,
            style::colored(
                if tells_error(a.status) {
                    Color::Bad
                } else {
                    accent_of(a)
                },
            ),
        ),
        style::span(
            "  ·  updated "@ + App::age_text(a.last_refresh, now) + "  ·  anim "@ + (if a.anim {
                "on"@
            } else {
                "off"@
            }) + "  ·  "@ + shadow_text(a),
            style::colored(Color::Dim),
        ),
    ]
}

pub fn render_footer(area: Rect, app: &App, now: u64) -> (r: Draw)
    ensures
        r@ == style::bare(area, seq![footer_line(app@, now)], false),
{
    let busy = if app.busy {
        "⟳ "
    } else {
        ""
    };
    let status = app.status.as_str();
    let color = if text::starts_with(status, "Error") || text::contains(status, "error") {
        Color::Bad
    } else {
        accent(app)
    };
    let shadow = match &app.state {
        Some(s) => {
            let version = text::dec_i64(s.shadow_version);
            let count = text::dec_u64(s.capabilities.len() as u64);
            text::cat5("shadow v", version.as_str(), " · ", count.as_str(), " capabilities")
        },
        None => text::owned(""),
    };
    let age = app.refresh_age(now);
    let anim = if app.anim {
        "on"
    } else {
        "off"
    };
    let told = text::cat3(" ", busy, status);
    let fresh = text::cat4("  ·  updated ", age.as_str(), "  ·  anim ", anim);
    let rest = text::cat3(fresh.as_str(), "  ·  ", shadow.as_str());
    let mut line = Line::new();
    line.push(told.as_str(), Style::colored(color));
    line.push(rest.as_str(), Style::colored(Color::Dim));
    assert(line@ =~= footer_line(app@, now));
    let mut lines = Lines::new();
    lines.push(line);
    Draw::bare(area, lines, false)
}

// ---------------------------------------------------------------------------
// big digits
// ---------------------------------------------------------------------------

/// A large character of five rows.
#[derive(Debug, Clone, Copy, PartialEq, Eq, Structural)]
pub enum Glyph {
    Digit(u8),
    Dash,
    Degree,
    Celsius,
    Fahrenheit,
}

impl Glyph {
    pub open spec fn width(self) -> nat {
        match self {
            Glyph::Degree => 2,
            _ => 4,
        }
    }

    /// The picture of a glyph: one hexadecimal digit for each row, from the top,
    /// whose bits are the cells from the right.
    pub open spec fn picture(self) -> u32 {
        match self {
            Glyph::Digit(d) => if d == 0 {
                0xF999F
            } else if d == 1 {
                0x26227
            } else if d == 2 {
                0xF1F8F
            } else if d == 3 {
                0xF171F
            } else if d == 4 {
                0x99F11
            } else if d == 5 {
                0xF8F1F
            } else if d == 6 {
                0xF8F9F
            } else if d == 7 {
                0xF1244
            } else if d == 8 {
                0xF9F9F
            } else {
                0xF9F1F
            },
            Glyph::Dash => 0x00F00,
            Glyph::Degree => 0x33000,
            Glyph::Celsius => 0xF888F,
            Glyph::Fahrenheit => 0xF8E88,
        }
    }

    /// The bits of a row.
    pub open spec fn row_bits(self, row: int) -> int {
        let p = self.picture() as int;
        if row == 0 {
            p / 0x1_0000
        } else if row == 1 {
            p / 0x1000 % 16
        } else if row == 2 {
            p / 0x100 % 16
        } else if row == 3 {
            p / 0x10 % 16
        } else {
            p % 16
        }
    }

    /// A row of the picture.
    pub open spec fn row_text(self, row: int) -> Seq<char> {
        cells_of(self.row_bits(row), self.width())
    }

    fn picture_of(self) -> (r: u32)
        ensures
            r == self.picture(),
    {
        match self {
            Glyph::Digit(d) => if d == 0 {
                0xF999F
            } else if d == 1 {
                0x26227
            } else if d == 2 {
                0xF1F8F
            } else if d == 3 {
                0xF171F
            } else if d == 4 {
                0x99F11
            } else if d == 5 {
                0xF8F1F
            } else if d == 6 {
                0xF8F9F
            } else if d == 7 {
                0xF1244
            } else if d == 8 {
                0xF9F9F
            } else {
                0xF9F1F
            },
            Glyph::Dash => 0x00F00,
            Glyph::Degree => 0x33000,
            Glyph::Celsius => 0xF888F,
            Glyph::Fahrenheit => 0xF8E88,
        }
    }

    fn row(self, row: u8) -> (r: String)
        requires
            row < 5,
        ensures
            r@ == self.row_text(row as int),
    {
        let p = self.picture_of();
        let bits: u32 = if row == 0 {
            p / 0x1_0000
        } else if row == 1 {
            p / 0x1000 % 16
        } else if row == 2 {
            p / 0x100 % 16
        } else if row == 3 {
            p / 0x10 % 16
        } else {
            p % 16
        };
        let w: u8 = match self {
            Glyph::Degree => 2,
            _ => 4,
        };
        cells(bits, w)
    }
}

/// The cells of the `n` lowest bits of a number: full for 1, blank for 0.
pub open spec fn cells_of(bits: int, n: nat) -> Seq<char>
    decreases n,
{
    if n == 0 {
        seq![]
    } else {
        cells_of(bits / 2, (n - 1) as nat).push(
            if bits % 2 == 1 {
                '█'
            } else {
                ' '
            },
        )
    }
}

fn cells(bits: u32, n: u8) -> (r: String)
    ensures
        r@ == cells_of(bits as int, n as nat),
    decreases n,
{
    if n == 0 {
        let out = String::new();
        assert(out@ =~= Seq::<char>::empty());
        out
    } else {
        let mut out = cells(bits / 2, n - 1);
        out.push(
            if bits % 2 == 1 {
                '█'
            } else {
                ' '
            },
        );
        out
    }
}

/// The decimal digits of a number.
pub open spec fn digit_glyphs(n: nat) -> Seq<Glyph>
    decreases n,
{
    if n < 10 {
        seq![Glyph::Digit(n as u8)]
    } else {
        digit_glyphs(n / 10).push(Glyph::Digit((n % 10) as u8))
    }
}

/// A temperature in large characters: its digits, or dashes where there is none,
/// with its unit. Below zero it shows as zero.
pub open spec fn temp_glyphs(value: Option<i64>, fahrenheit: bool) -> Seq<Glyph> {
    let number = match value {
        Some(v) => digit_glyphs(
            if v > 0 {
                v as nat
            } else {
                0
            },
        ),
        None => seq![Glyph::Dash, Glyph::Dash],
    };
    number.push(Glyph::Degree).push(
        if fahrenheit {
            Glyph::Fahrenheit
        } else {
            Glyph::Celsius
        },
    )
}

fn push_digits(n: u64) -> (r: Vec<Glyph>)
    ensures
        r@ == digit_glyphs(n as nat),
    decreases n,
{
    let d: u8 = (n % 10) as u8;
    if n < 10 {
        let mut out: Vec<Glyph> = Vec::new();
        out.push(Glyph::Digit(d));
        assert(out@ =~= seq![Glyph::Digit(n as u8)]);
        out
    } else {
        let mut out = push_digits(n / 10);
        out.push(Glyph::Digit(d));
        out
    }
}

/// One row of glyphs, with a blank between each and the next.
pub open spec fn glyph_row(glyphs: Seq<Glyph>, row: int) -> Seq<char> {
    text::joined(glyphs.map_values(|g: Glyph| g.row_text(row)), " "@)
}

fn join_row(glyphs: &Vec<Glyph>, row: u8) -> (r: String)
    requires
        row < 5,
    ensures
        r@ == glyph_row(glyphs@, row as int),
{
    let mut parts: Vec<String> = Vec::new();
    let ghost all = glyphs@.map_values(|g: Glyph| g.row_text(row as int));
    let mut i: usize = 0;
    assert(text::view_all(parts@) =~= all.take(0));
    while i < glyphs.len()
        invariant
            row < 5,
            all == glyphs@.map_values(|g: Glyph| g.row_text(row as int)),
            i <= glyphs@.len(),
            text::view_all(parts@) == all.take(i as int),
        decreases glyphs@.len() - i,
    {
        let ghost before = parts@;
        parts.push(glyphs[i].row(row));
        assert(text::view_all(parts@) =~= text::view_all(before).push(all[i as int]));
        assert(all.take(i + 1) =~= all.take(i as int).push(all[i as int]));
        i = i + 1;
    }
    assert(all.take(all.len() as int) == all);
    text::join(&parts, " ")
}

/// A temperature in large characters, row by row.
pub fn big_temp_rows(value: Option<i64>, fahrenheit: bool) -> (r: Vec<String>)
    ensures
        r@.len() == 5,
        forall|i: int|
            0 <= i < 5 ==> (#[trigger] r@[i])@ == glyph_row(temp_glyphs(value, fahrenheit), i),
{
    let mut glyphs = match value {
        Some(v) => push_digits(
            if v > 0 {
                v as u64
            } else {
                0
            },
        ),
        None => {
            let mut dashes: Vec<Glyph> = Vec::new();
            dashes.push(Glyph::Dash);
            dashes.push(Glyph::Dash);
            assert(dashes@ =~= seq![Glyph::Dash, Glyph::Dash]);
            dashes
        },
    };
    glyphs.push(Glyph::Degree);
    glyphs.push(
        if fahrenheit {
            Glyph::Fahrenheit
        } else {
            Glyph::Celsius
        },
    );
    let mut rows: Vec<String> = Vec::new();
    let mut i: u8 = 0;
    while i < 5
        invariant
            i <= 5,
            glyphs@ == temp_glyphs(value, fahrenheit),
            rows@.len() == i,
            forall|k: int|
                0 <= k < i ==> (#[trigger] rows@[k])@ == glyph_row(
                    temp_glyphs(value, fahrenheit),
                    k,
                ),
        decreases 5 - i,
    {
        rows.push(join_row(&glyphs, i));
        i = i + 1;
    }
    rows
}

// ---------------------------------------------------------------------------
// target temperature
// ---------------------------------------------------------------------------

/// The arrow for where the indoor temperature goes, from the last two history
/// points.
pub open spec fn trend_mark(a: AppView) -> Seq<char> {
    match trend::slope_in(a.temp_hist) {
        Some(Slope::Rising) => "↗"@,
        Some(Slope::Falling) => "↘"@,
        Some(Slope::Level) => "→"@,
        None => " "@,
    }
}

/// The temperature waiting to be published.
pub open spec fn waiting_temp(a: AppView) -> Option<i64> {
    match a.pending {
        Some(PendingCmd { kind: PendingKind::Temp(c), .. }) => Some(c),
        _ => None,
    }
}

/// The target that is shown: one that waits to be published wins.
pub open spec fn shown_target(a: AppView, s: device::AcState) -> Option<i64> {
    if s.temp_is_f {
        match waiting_temp(a) {
            Some(c) => Some(device::fahrenheit_of(c as int)),
            None => s.target_f,
        }
    } else {
        match waiting_temp(a) {
            Some(c) => Some(c),
            None => match json::reading_bits(s.target_temp) {
                Some(b) => Some(double::rounded_of(b)),
                None => None,
            },
        }
    }
}

/// A temperature to one decimal, with its unit.
pub open spec fn celsius_text(t: Option<u64>) -> Seq<char> {
    match t {
        Some(b) => double::fixed_text(b, 1) + "°C"@,
        None => "—"@,
    }
}

pub fn fmt_celsius(t: &Option<json::Reading>) -> (r: String)
    ensures
        r@ == celsius_text(json::reading_bits(*t)),
{
    match t {
        Some(x) => {
            let number = double::fixed(x.bits(), 1);
            text::cat2(number.as_str(), "°C")
        },
        None => text::owned("—"),
    }
}

/// The line below the large target.
pub open spec fn temp_info(a: AppView, s: device::AcState) -> Seq<style::SpanView> {
    let told = seq![
        style::span(
            "now "@ + celsius_text(json::reading_bits(s.current_temp)) + " "@ + trend_mark(a),
            style::colored(Color::Text),
        ),
        style::span(
            "   range "@ + text::dec_int(s.t_min as int) + "–"@ + text::dec_int(s.t_max as int)
                + "°C  "@ + (match s.target_f {
                Some(v) => "= "@ + text::dec_int(v as int) + "°F"@,
                None => ""@,
            }),
            style::colored(Color::Dim),
        ),
    ];
    if waiting_temp(a) is Some {
        told.push(style::span("  ⏳"@, style::bold(accent_of(a))))
    } else {
        told
    }
}

pub open spec fn temp_lines(a: AppView) -> Seq<Seq<style::SpanView>> {
    match a.state {
        None => seq![seq![style::span("loading…"@, style::colored(Color::Dim))]],
        Some(s) => {
            let glyphs = temp_glyphs(shown_target(a, s), s.temp_is_f);
            let look = if s.power {
                style::bold(accent_of(a))
            } else {
                style::colored(Color::Dim)
            };
            seq![
                seq![style::span(glyph_row(glyphs, 0), look)],
                seq![style::span(glyph_row(glyphs, 1), look)],
                seq![style::span(glyph_row(glyphs, 2), look)],
                seq![style::span(glyph_row(glyphs, 3), look)],
                seq![style::span(glyph_row(glyphs, 4), look)],
                style::blank(),
                temp_info(a, s),
            ]
        },
    }
}

pub open spec fn temp_panel(a: AppView, area: Rect) -> style::DrawView {
    style::DrawView::Text {
        area,
        block: Some(framed("Target"@, accent_of(a))),
        lines: temp_lines(a),
        centered: true,
        wrapped: false,
        padded: false,
    }
}

fn info_line(app: &App, s: &device::AcState) -> (r: Line)
    ensures
        r@ == temp_info(app@, *s),
{
    let mark = match trend::last_slope(&app.temp_hist) {
        Some(Slope::Rising) => "↗",
        Some(Slope::Falling) => "↘",
        Some(Slope::Level) => "→",
        None => " ",
    };
    let now = fmt_celsius(&s.current_temp);
    let told = text::cat4("now ", now.as_str(), " ", mark);
    let lo = text::dec_i64(s.t_min);
    let hi = text::dec_i64(s.t_max);
    let range = text::cat5("   range ", lo.as_str(), "–", hi.as_str(), "°C  ");
    let alt = match s.target_f {
        Some(v) => {
            let number = text::dec_i64(v);
            text::cat3("= ", number.as_str(), "°F")
        },
        None => text::owned(""),
    };
    let limits = text::cat2(range.as_str(), alt.as_str());
    let mut info = Line::new();
    info.push(told.as_str(), Style::colored(Color::Text));
    info.push(limits.as_str(), Style::colored(Color::Dim));
    if app.pending_temp().is_some() {
        info.push("  ⏳", Style::bold(accent(app)));
    }
    info
}

fn target_to_show(app: &App, s: &device::AcState) -> (r: Option<i64>)
    ensures
        r == shown_target(app@, *s),
{
    if s.temp_is_f {
        match app.pending_temp() {
            Some(c) => Some(device::fahrenheit(c)),
            None => s.target_f,
        }
    } else {
        match app.pending_temp() {
            Some(c) => Some(c),
            None => match &s.target_temp {
                Some(t) => Some(double::rounded(t.bits())),
                None => None,
            },
        }
    }
}

pub fn render_temp(area: Rect, app: &App) -> (r: Draw)
    ensures
        r@ == temp_panel(app@, area),
{
    let ac = accent(app);
    let mut lines = Lines::new();
    match &app.state {
        None => {
            lines.push(Line::of("loading…", Style::colored(Color::Dim)));
        },
        Some(s) => {
            let rows = big_temp_rows(target_to_show(app, s), s.temp_is_f);
            let look = if s.power {
                Style::bold(ac)
            } else {
                Style::colored(Color::Dim)
            };
            lines.push(Line::of(rows[0].as_str(), look));
            lines.push(Line::of(rows[1].as_str(), look));
            lines.push(Line::of(rows[2].as_str(), look));
            lines.push(Line::of(rows[3].as_str(), look));
            lines.push(Line::of(rows[4].as_str(), look));
            lines.push_blank();
            lines.push(info_line(app, s));
        },
    }
    assert(lines@ =~= temp_lines(app@));
    Draw::Text {
        area,
        block: Some(panel("Target", ac)),
        lines,
        centered: true,
        wrapped: false,
        padded: false,
    }
}

// ---------------------------------------------------------------------------
// mode and power
// ---------------------------------------------------------------------------

pub open spec fn active_mode(a: AppView) -> Option<Mode> {
    match a.state {
        Some(s) => Mode::of_code(s.work_mode as int),
        None => None,
    }
}

/// The mode waiting to be published.
pub open spec fn waiting_mode(a: AppView) -> Option<Mode> {
    match a.pending {
        Some(PendingCmd { kind: PendingKind::Mode(m), .. }) => Some(m),
        _ => None,
    }
}

/// The line of one mode, with the key that selects it.
pub open spec fn mode_line(a: AppView, m: Mode, key: Seq<char>) -> Seq<style::SpanView> {
    let active = active_mode(a) == Some(m);
    let queued = waiting_mode(a) == Some(m) && !active;
    let marker = if active {
        "▶"@
    } else if queued {
        "◌"@
    } else {
        " "@
    };
    let look = if active {
        style::bold(accent_of(a))
    } else if queued {
        style::colored(accent_of(a))
    } else {
        style::colored(Color::Dim)
    };
    seq![
        style::span(" "@ + marker + " "@, look),
        style::span(m.glyph() + " "@ + text::padded_right(m.name(), 5), look),
        hint_of(key),
    ]
}

pub open spec fn power_line(a: AppView) -> Seq<style::SpanView> {
    let on = a.state matches Some(s) && s.power;
    seq![
        style::raw(" "@),
        if on {
            chip_of("◉ POWER ON "@, true, Color::Good)
        } else {
            chip_of("○ POWER OFF"@, true, Color::PowerOff)
        },
        style::raw(" "@),
        hint_of("p"@),
    ]
}

/// Whether the device reports a mode that is not known.
pub open spec fn has_unknown_mode(a: AppView) -> bool {
    active_mode(a) is None && (a.state matches Some(s) && s.work_mode >= 0)
}

pub open spec fn mode_lines(a: AppView) -> Seq<Seq<style::SpanView>> {
    let known = seq![
        power_line(a),
        style::blank(),
        mode_line(a, Mode::Auto, "1"@),
        mode_line(a, Mode::Cool, "2"@),
        mode_line(a, Mode::Dry, "3"@),
        mode_line(a, Mode::Fan, "4"@),
        mode_line(a, Mode::Heat, "5"@),
    ];
    if has_unknown_mode(a) {
        known.push(
            seq![
                style::span(
                    " raw workMode="@ + text::dec_int(a.state->0.work_mode as int),
                    style::colored(Color::Bad),
                ),
            ],
        )
    } else {
        known
    }
}

fn one_mode(app: &App, m: Mode, key: &str) -> (r: Line)
    ensures
        r@ == mode_line(app@, m, key@),
{
    let ac = accent(app);
    let active = match &app.state {
        Some(s) => match s.mode() {
            Some(x) => x == m,
            None => false,
        },
        None => false,
    };
    let waits = match app.pending_mode() {
        Some(x) => x == m,
        None => false,
    };
    let queued = waits && !active;
    let marker = if active {
        "▶"
    } else if queued {
        "◌"
    } else {
        " "
    };
    let look = if active {
        Style::bold(ac)
    } else if queued {
        Style::colored(ac)
    } else {
        Style::colored(Color::Dim)
    };
    let mark = text::cat3(" ", marker, " ");
    let label = text::pad_right(m.label(), 5);
    let name = text::cat3(m.icon(), " ", label.as_str());
    let mut line = Line::new();
    line.push(mark.as_str(), look);
    line.push(name.as_str(), look);
    line.push_span(key_hint(key));
    line
}

fn power_row(app: &App) -> (r: Line)
    ensures
        r@ == power_line(app@),
{
    let on = match &app.state {
        Some(s) => s.power,
        None => false,
    };
    let mut line = Line::new();
    line.push_raw(" ");
    if on {
        line.push_span(chip("◉ POWER ON ", true, Color::Good));
    } else {
        line.push_span(chip("○ POWER OFF", true, Color::PowerOff));
    }
    line.push_raw(" ");
    line.push_span(key_hint("p"));
    line
}

pub fn render_mode(area: Rect, app: &App) -> (r: Draw)
    ensures
        r@ == style::boxed(area, framed("Mode & Power"@, accent_of(app@)), mode_lines(app@)),
{
    let mut lines = Lines::new();
    lines.push(power_row(app));
    lines.push_blank();
    lines.push(one_mode(app, Mode::Auto, "1"));
    lines.push(one_mode(app, Mode::Cool, "2"));
    lines.push(one_mode(app, Mode::Dry, "3"));
    lines.push(one_mode(app, Mode::Fan, "4"));
    lines.push(one_mode(app, Mode::Heat, "5"));
    if let Some(s) = &app.state {
        if s.mode().is_none() && s.work_mode >= 0 {
            let number = text::dec_i64(s.work_mode);
            let told = text::cat2(" raw workMode=", number.as_str());
            lines.push(Line::of(told.as_str(), Style::colored(Color::Bad)));
        }
    }
    assert(lines@ =~= mode_lines(app@));
    Draw::boxed(area, panel("Mode & Power", accent(app)), lines)
}

} // verus!
