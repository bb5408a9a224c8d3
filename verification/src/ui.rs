//! The dashboard: what the screen shows of an application state.
//!
//! ```text
//!   header
//!   [ big temp ][ mode & power ][ fan ][ swing ]
//!   [ toggles / extras ]
//!   [ sensors | indoor-temp sparkline ]
//!   [ activity log | key reference ]
//!   footer
//! ```

use crate::airflow;
use crate::app;
use crate::clock;
use crate::device;
use crate::panels;
use crate::readouts;
use crate::style;
use crate::text;
use airflow::FanArt;
use app::{App, AppView};
use style::{Color, Draw, Line, Lines, Part, Rect, Screen, Style};
use vstd::prelude::*;

verus! {

pub const MIN_W: u16 = 106;

pub const MIN_H: u16 = 32;

// ---------------------------------------------------------------------------
// geometry of the aim-airflow overlay
// ---------------------------------------------------------------------------

/// Grid cell footprint (chars).
pub const AIM_CELL_W: u16 = 7;

pub const AIM_CELL_H: u16 = 2;

/// Five cells.
pub const AIM_GRID_W: u16 = 35;

/// Dot rows at 0, 2, 4, 6 and 8.
pub const AIM_GRID_H: u16 = 9;

/// Borders and one column of padding on each side.
pub const AIM_POP_W: u16 = 39;

/// Borders, AC line, gaps, label and hint.
pub const AIM_POP_H: u16 = 16;

/// How far a part of a length starts from the start of the whole to be centered.
pub open spec fn centered(whole: u16, part: u16) -> int {
    (whole - style::least(part as int, whole as int)) / 2
}

/// Whether the corner of the popup, and that of its grid, are positions.
pub open spec fn aim_fits(term: Rect) -> bool {
    &&& term.x + centered(term.width, AIM_POP_W) + 2 <= u16::MAX
    &&& term.y + centered(term.height, AIM_POP_H) + 3 <= u16::MAX
}

/// The centered popup of the aim overlay.
pub open spec fn popup_of(term: Rect) -> Rect {
    Rect::at(
        (term.x + centered(term.width, AIM_POP_W)) as u16,
        (term.y + centered(term.height, AIM_POP_H)) as u16,
        style::least(AIM_POP_W as int, term.width as int) as u16,
        style::least(AIM_POP_H as int, term.height as int) as u16,
    )
}

/// Centered popup rect for the aim overlay.
pub fn aim_popup_rect(term: Rect) -> (r: Rect)
    requires
        aim_fits(term),
    ensures
        r == popup_of(term),
{
    let w = style::smaller(AIM_POP_W, term.width);
    let h = style::smaller(AIM_POP_H, term.height);
    Rect::new(term.x + (term.width - w) / 2, term.y + (term.height - h) / 2, w, h)
}

/// Top-left terminal cell of the 5×5 grid inside the popup: below and right of
/// the border, a column of padding, the AC line and a gap.
pub open spec fn grid_origin(term: Rect) -> (int, int) {
    (popup_of(term).x + 2, popup_of(term).y + 3)
}

fn aim_grid_origin(term: Rect) -> (r: (u16, u16))
    requires
        aim_fits(term),
    ensures
        (r.0 as int, r.1 as int) == grid_origin(term),
{
    let p = aim_popup_rect(term);
    (p.x + 2, p.y + 3)
}

/// The grid cell, column and row, of a position: cells are seven columns wide,
/// and a spacer line belongs to the row below it.
pub open spec fn cell_of(term: Rect, x: int, y: int) -> Option<(int, int)> {
    let (ox, oy) = grid_origin(term);
    if ox <= x < ox + AIM_GRID_W && oy <= y < oy + AIM_GRID_H {
        Some(((x - ox) / (AIM_CELL_W as int), (y - oy + 1) / (AIM_CELL_H as int)))
    } else {
        None
    }
}

/// Which grid cell (h, v) a terminal click at (x, y) lands in, if any.
pub fn aim_cell_at(term: Rect, x: u16, y: u16) -> (r: Option<(usize, usize)>)
    requires
        aim_fits(term),
    ensures
        match cell_of(term, x as int, y as int) {
            Some((h, v)) => r == Some((h as usize, v as usize)) && 0 <= h < 5 && 0 <= v < 5,
            None => r is None,
        },
{
    let (ox, oy) = aim_grid_origin(term);
    if x < ox || y < oy || x as u32 >= ox as u32 + AIM_GRID_W as u32 || y as u32 >= oy as u32
        + AIM_GRID_H as u32 {
        return None;
    }
    let h = (x - ox) / AIM_CELL_W;
    let v = (y - oy + 1) / AIM_CELL_H;
    Some((h as usize, v as usize))
}

/// The dot at the center of a grid cell belongs to that cell.
pub proof fn law_dots_lie_in_their_cells(term: Rect, h: int, v: int)
    requires
        0 <= h < 5,
        0 <= v < 5,
    ensures
        ({
            let (ox, oy) = grid_origin(term);
            cell_of(term, ox + 7 * h + 3, oy + 2 * v) == Some((h, v))
        }),
{
}

// ---------------------------------------------------------------------------
// aim-airflow overlay: a square "room" seen from the AC; pick a point and the
// vanes are fixed to the matching 5×5 protocol position (dirs 9..13 × 9..13).
// ---------------------------------------------------------------------------

/// Where the vanes are fixed, column and row.
pub open spec fn fixed_point(a: AppView) -> (Option<usize>, Option<usize>) {
    match a.state {
        Some(s) => (device::fixed_at(s.h_dir), device::fixed_at(s.v_dir)),
        None => (None, None),
    }
}

/// A grid point: the crosshair, where the vanes point, both or neither.
pub open spec fn grid_point(a: AppView, col: int, row: int) -> style::SpanView {
    let cursor = col == a.aim_h && row == a.aim_v;
    let (fix_h, fix_v) = fixed_point(a);
    let applied = fix_h == Some(col as usize) && fix_v == Some(row as usize);
    if cursor && applied {
        style::span("◉"@, style::bold(panels::accent_of(a)))
    } else if cursor {
        style::span("◎"@, style::bold(panels::accent_of(a)))
    } else if applied {
        style::span("●"@, style::colored(Color::Good))
    } else {
        style::span("·"@, style::colored(Color::Faint))
    }
}

/// A cell of a grid line: points on even lines, and between them the stream from
/// the AC down to the crosshair.
pub open spec fn grid_cell(a: AppView, line: int, col: int) -> style::SpanView {
    if line % 2 == 0 {
        grid_point(a, col, line / 2)
    } else if col == a.aim_h && line < 2 * a.aim_v {
        style::span("┊"@, style::colored(panels::accent_of(a)))
    } else {
        style::raw(" "@)
    }
}

/// The first `n` cells of a grid line.
pub open spec fn grid_cells(a: AppView, line: int, n: nat) -> Seq<style::SpanView>
    decreases n,
{
    if n == 0 {
        seq![]
    } else {
        grid_cells(a, line, (n - 1) as nat).push(style::raw("   "@)).push(
            grid_cell(a, line, n - 1),
        ).push(style::raw("   "@))
    }
}

/// `before`, and below it the first `n` grid lines.
pub open spec fn with_grid(
    before: Seq<Seq<style::SpanView>>,
    a: AppView,
    n: nat,
) -> Seq<Seq<style::SpanView>>
    decreases n,
{
    if n == 0 {
        before
    } else {
        with_grid(before, a, (n - 1) as nat).push(grid_cells(a, n - 1, 5))
    }
}

/// The AC unit on the wall at the top (air source).
pub open spec fn unit_line(ac: Color) -> Seq<style::SpanView> {
    seq![
        style::span(text::repeated("▬"@, 13), style::colored(Color::Track)),
        style::span("[ ❆ AC ]"@, style::bold(ac)),
        style::span(text::repeated("▬"@, 14), style::colored(Color::Track)),
    ]
}

/// Where the crosshair points, with a warning where that stops a swing.
pub open spec fn aim_label(a: AppView) -> Seq<style::SpanView> {
    let told = seq![
        style::span(" aim "@, style::colored(Color::Dim)),
        style::span(
            device::v_name(a.aim_v as int) + " · "@ + device::h_name(a.aim_h as int),
            style::bold(panels::accent_of(a)),
        ),
    ];
    if a.swinging() {
        told.push(style::span("   swing on → will stop"@, style::colored(Color::Dim)))
    } else {
        told
    }
}

pub open spec fn aim_lines(a: AppView) -> Seq<Seq<style::SpanView>> {
    with_grid(seq![unit_line(panels::accent_of(a)), style::blank()], a, AIM_GRID_H as nat).push(
        style::blank(),
    ).push(aim_label(a)).push(
        seq![style::span(" click · ←↑↓→ · Enter apply · Esc"@, style::colored(Color::Faint))],
    )
}

pub open spec fn aim_draws(a: AppView, term: Rect) -> Seq<style::DrawView> {
    seq![
        style::DrawView::Clear { area: popup_of(term) },
        style::DrawView::Text {
            area: popup_of(term),
            block: Some(panels::framed("Aim airflow"@, panels::accent_of(a))),
            lines: aim_lines(a),
            centered: false,
            wrapped: false,
            padded: true,
        },
    ]
}

fn push_cell(line: &mut Line, app: &App, gy: u16, col: usize)
    requires
        app@.inv(),
        gy < 9,
        col < 5,
    ensures
        final(line)@ == old(line)@.push(grid_cell(app@, gy as int, col as int)),
{
    let ac = panels::accent(app);
    if gy % 2 == 0 {
        let row: usize = (gy / 2) as usize;
        let cursor = col == app.aim_h && row == app.aim_v;
        let applied = match &app.state {
            Some(s) => match s.h_fix() {
                Some(h) => match s.v_fix() {
                    Some(v) => h == col && v == row,
                    None => false,
                },
                None => false,
            },
            None => false,
        };
        if cursor && applied {
            line.push("◉", Style::bold(ac));
        } else if cursor {
            line.push("◎", Style::bold(ac));
        } else if applied {
            line.push("●", Style::colored(Color::Good));
        } else {
            line.push("·", Style::colored(Color::Faint));
        }
    } else if col == app.aim_h && (gy as usize) < 2 * app.aim_v {
        line.push("┊", Style::colored(ac));
    } else {
        line.push_raw(" ");
    }
}

fn grid_line(app: &App, gy: u16) -> (r: Line)
    requires
        app@.inv(),
        gy < 9,
    ensures
        r@ == grid_cells(app@, gy as int, 5),
{
    let mut line = Line::new();
    let mut col: usize = 0;
    while col < 5
        invariant
            app@.inv(),
            gy < 9,
            col <= 5,
            line@ == grid_cells(app@, gy as int, col as nat),
        decreases 5 - col,
    {
        line.push_raw("   ");
        push_cell(&mut line, app, gy, col);
        line.push_raw("   ");
        col = col + 1;
    }
    line
}

fn aim_overlay(app: &App) -> (r: Lines)
    requires
        app@.inv(),
    ensures
        r@ == aim_lines(app@),
{
    let ac = panels::accent(app);
    let mut lines = Lines::new();
    let left = text::repeat("▬", 13);
    let right = text::repeat("▬", 14);
    let mut unit = Line::new();
    unit.push(left.as_str(), Style::colored(Color::Track));
    unit.push("[ ❆ AC ]", Style::bold(ac));
    unit.push(right.as_str(), Style::colored(Color::Track));
    lines.push(unit);
    lines.push_blank();
    let ghost top = seq![unit_line(ac), style::blank()];
    assert(unit@ =~= unit_line(ac));
    assert(lines@ =~= top);
    let mut gy: u16 = 0;
    while gy < AIM_GRID_H
        invariant
            app@.inv(),
            gy <= AIM_GRID_H,
            lines@ == with_grid(top, app@, gy as nat),
        decreases AIM_GRID_H - gy,
    {
        lines.push(grid_line(app, gy));
        gy = gy + 1;
    }
    lines.push_blank();
    let point = text::cat3(device::v_label(app.aim_v), " · ", device::h_label(app.aim_h));
    let mut label = Line::new();
    label.push(" aim ", Style::colored(Color::Dim));
    label.push(point.as_str(), Style::bold(ac));
    if app.is_swinging() {
        label.push("   swing on → will stop", Style::colored(Color::Dim));
    }
    assert(label@ =~= aim_label(app@));
    lines.push(label);
    lines.push(Line::of(" click · ←↑↓→ · Enter apply · Esc", Style::colored(Color::Faint)));
    lines
}

pub fn render_aim(out: &mut Screen, term: Rect, app: &App)
    requires
        app@.inv(),
        aim_fits(term),
    ensures
        final(out)@ == old(out)@ + aim_draws(app@, term),
{
    let pop = aim_popup_rect(term);
    out.push(Draw::Clear { area: pop });
    out.push(
        Draw::Text {
            area: pop,
            block: Some(panels::panel("Aim airflow", panels::accent(app))),
            lines: aim_overlay(app),
            centered: false,
            wrapped: false,
            padded: true,
        },
    );
    assert(out@ =~= old(out)@ + aim_draws(app@, term));
}

// ---------------------------------------------------------------------------
// root
// ---------------------------------------------------------------------------

pub open spec fn too_small_lines(area: Rect) -> Seq<Seq<style::SpanView>> {
    seq![
        seq![style::span("❆ tclac"@, style::bold(Color::Cool))],
        style::blank(),
        seq![
            style::span("Terminal too small for the dashboard."@, style::colored(Color::Text)),
        ],
        seq![
            style::span(
                "Resize to at least 106×32  (now "@ + text::dec(area.width as nat) + "×"@
                    + text::dec(area.height as nat) + ")."@,
                style::colored(Color::Dim),
            ),
        ],
    ]
}

/// The message on a terminal that is too small, in the part of it meant for the
/// message.
pub fn render_too_small(area: Rect, part: Rect) -> (r: Draw)
    ensures
        r@ == style::bare(part, too_small_lines(area), true),
{
    let w = text::dec_u64(area.width as u64);
    let h = text::dec_u64(area.height as u64);
    let told = text::cat5(
        "Resize to at least 106×32  (now ",
        w.as_str(),
        "×",
        h.as_str(),
        ").",
    );
    let mut lines = Lines::new();
    lines.push(Line::of("❆ tclac", Style::bold(Color::Cool)));
    lines.push_blank();
    lines.push(Line::of("Terminal too small for the dashboard.", Style::colored(Color::Text)));
    lines.push(Line::of(told.as_str(), Style::colored(Color::Dim)));
    assert(lines@ =~= too_small_lines(area));
    Draw::bare(part, lines, true)
}

/// The rows of the dashboard: header, main panels (fits the Braille fan), toggles,
/// sensors and outdoor unit, log and keys, footer.
pub open spec fn asked_rows() -> Seq<Part> {
    seq![
        Part::Length(1),
        Part::Length(14),
        Part::Length(4),
        Part::Length(7),
        Part::Min(5),
        Part::Length(1),
    ]
}

/// The columns of the main row: temperature, mode, fan, swing.
pub open spec fn asked_main() -> Seq<Part> {
    seq![Part::Length(30), Part::Length(22), Part::Min(28), Part::Length(26)]
}

/// The columns of the sensors: temperatures, outdoor unit, trend.
pub open spec fn asked_sensors() -> Seq<Part> {
    seq![Part::Length(26), Part::Length(34), Part::Min(16)]
}

/// The columns of the bottom row: log, keys.
pub open spec fn asked_bottom() -> Seq<Part> {
    seq![Part::Min(40), Part::Length(42)]
}

/// The rows of a terminal that is too small: the message stands in the second.
pub open spec fn asked_message() -> Seq<Part> {
    seq![Part::Percentage(40), Part::Length(4), Part::Min(0)]
}

/// How the screen is divided.
pub struct Areas {
    pub rows: Vec<Rect>,
    pub main: Vec<Rect>,
    pub sensors: Vec<Rect>,
    pub bottom: Vec<Rect>,
}

impl Areas {
    pub open spec fn valid(self) -> bool {
        &&& self.rows@.len() == 6
        &&& self.main@.len() == 4
        &&& self.sensors@.len() == 3
        &&& self.bottom@.len() == 2
    }

    /// Whether the rows divide an area, and the columns their rows, as asked.
    pub open spec fn divide(self, area: Rect) -> bool {
        &&& style::stacked(self.rows@, area, 6)
        &&& style::rows_split(asked_rows(), area, self.rows@)
        &&& style::side_by_side(self.main@, self.rows@[1], 4)
        &&& style::columns_split(asked_main(), self.rows@[1], self.main@)
        &&& style::side_by_side(self.sensors@, self.rows@[3], 3)
        &&& style::columns_split(asked_sensors(), self.rows@[3], self.sensors@)
        &&& style::side_by_side(self.bottom@, self.rows@[4], 2)
        &&& style::columns_split(asked_bottom(), self.rows@[4], self.bottom@)
    }
}

impl Areas {
    /// Whether the panels have what they show: the chart can count its points.
    pub open spec fn show(self, a: AppView) -> bool {
        readouts::chartable(a.temp_hist, self.sensors@[2].width)
    }
}

/// The panels of the main row.
pub open spec fn main_panels(a: AppView, cols: Seq<Rect>, art: FanArt) -> Seq<style::DrawView> {
    seq![
        panels::temp_panel(a, cols[0]),
        style::boxed(
            cols[1],
            panels::framed("Mode & Power"@, panels::accent_of(a)),
            panels::mode_lines(a),
        ),
        airflow::fan_panel(a, cols[2], art),
        style::boxed(
            cols[3],
            panels::framed("Swing"@, panels::accent_of(a)),
            airflow::swing_lines(a),
        ),
    ]
}

pub fn render_main(out: &mut Screen, cols: &Vec<Rect>, app: &App, art: &FanArt)
    requires
        app@.inv(),
        art.valid(),
        cols@.len() == 4,
    ensures
        final(out)@ == old(out)@ + main_panels(app@, cols@, *art),
{
    out.push(panels::render_temp(cols[0], app));
    out.push(panels::render_mode(cols[1], app));
    out.push(airflow::render_fan(cols[2], app, art));
    out.push(airflow::render_swing(cols[3], app));
    assert(out@ =~= old(out)@ + main_panels(app@, cols@, *art));
}

/// The dashboard, in given areas.
pub open spec fn dashboard(
    a: AppView,
    area: Rect,
    areas: Areas,
    art: FanArt,
    now: u64,
    clock: Seq<char>,
) -> Seq<style::DrawView> {
    let header = seq![style::bare(areas.rows@[0], seq![panels::header_line(a, clock)], false)];
    let body = header + main_panels(a, areas.main@, art) + seq![
        readouts::toggles_panel(a, areas.rows@[2]),
    ] + readouts::sensor_panels(a, areas.sensors@) + readouts::bottom_panels(
        a,
        areas.bottom@,
    ) + seq![style::bare(areas.rows@[5], seq![panels::footer_line(a, now)], false)];
    if a.aim_open {
        body + aim_draws(a, area)
    } else {
        body
    }
}

pub fn render_in(
    area: Rect,
    areas: &Areas,
    app: &App,
    art: &FanArt,
    now: u64,
    clock: &str,
) -> (r: Screen)
    requires
        app@.inv(),
        art.valid(),
        areas.valid(),
        areas.show(app@),
        app@.aim_open ==> aim_fits(area),
    ensures
        r@ == dashboard(app@, area, *areas, *art, now, clock@),
{
    let mut out = Screen::new();
    out.push(panels::render_header(areas.rows[0], app, clock));
    let ghost header = out@;
    render_main(&mut out, &areas.main, app, art);
    out.push(readouts::render_toggles(areas.rows[2], app));
    readouts::render_sensors(&mut out, &areas.sensors, app);
    readouts::render_bottom(&mut out, &areas.bottom, app);
    out.push(panels::render_footer(areas.rows[5], app, now));
    assert(header =~= seq![
        style::bare(areas.rows@[0], seq![panels::header_line(app@, clock@)], false),
    ]);
    assert(out@ =~= header + main_panels(app@, areas.main@, *art) + seq![
        readouts::toggles_panel(app@, areas.rows@[2]),
    ] + readouts::sensor_panels(app@, areas.sensors@) + readouts::bottom_panels(
        app@,
        areas.bottom@,
    ) + seq![style::bare(areas.rows@[5], seq![panels::footer_line(app@, now)], false)]);
    if app.aim_open {
        render_aim(&mut out, area, app);
    }
    out
}

fn divide_area(area: Rect) -> (r: Areas)
    ensures
        r.divide(area),
        r.valid(),
{
    let mut parts: Vec<Part> = Vec::new();
    parts.push(Part::Length(1));  // header
    parts.push(Part::Length(14));  // main panels (fits the Braille fan)
    parts.push(Part::Length(4));  // toggles
    parts.push(Part::Length(7));  // sensors + outdoor unit
    parts.push(Part::Min(5));  // log + keys
    parts.push(Part::Length(1));  // footer
    assert(parts@ =~= asked_rows());
    let rows = style::split_rows(&parts, area);

    let mut main: Vec<Part> = Vec::new();
    main.push(Part::Length(30));
    main.push(Part::Length(22));
    main.push(Part::Min(28));
    main.push(Part::Length(26));

    let mut sensors: Vec<Part> = Vec::new();
    sensors.push(Part::Length(26));
    sensors.push(Part::Length(34));
    sensors.push(Part::Min(16));

    let mut bottom: Vec<Part> = Vec::new();
    bottom.push(Part::Min(40));
    bottom.push(Part::Length(42));

    assert(main@ =~= asked_main());
    assert(sensors@ =~= asked_sensors());
    assert(bottom@ =~= asked_bottom());
    let main_cols = style::split_columns(&main, rows[1]);
    let sensor_cols = style::split_columns(&sensors, rows[3]);
    let bottom_cols = style::split_columns(&bottom, rows[4]);
    Areas { rows, main: main_cols, sensors: sensor_cols, bottom: bottom_cols }
}

/// The screen for a terminal: the dashboard, or a message where it does not fit.
/// Where the panels stand is left to the layout solver. `None` where the chart of
/// the temperature history cannot count a point that would be in view.
pub fn render(area: Rect, app: &App, art: &FanArt, now: u64) -> (r: Option<Screen>)
    requires
        app@.inv(),
        art.valid(),
        app@.aim_open ==> aim_fits(area),
    ensures
        area.width < MIN_W || area.height < MIN_H ==> r is Some && exists|parts: Seq<Rect>|
            #[trigger] style::stacked(parts, area, 3) && style::rows_split(
                asked_message(),
                area,
                parts,
            ) && r->0@ == seq![
                style::bare(parts[1], too_small_lines(area), true),
            ],
        area.width >= MIN_W && area.height >= MIN_H ==> exists|areas: Areas, clock: Seq<char>|
            #![trigger dashboard(app@, area, areas, *art, now, clock)]
            areas.divide(area) && clock::time_of_day(clock) && match r {
                Some(s) => areas.show(app@) && s@ == dashboard(
                    app@,
                    area,
                    areas,
                    *art,
                    now,
                    clock,
                ),
                None => !areas.show(app@),
            },
{
    if area.width < MIN_W || area.height < MIN_H {
        let mut parts: Vec<Part> = Vec::new();
        parts.push(Part::Percentage(40));
        parts.push(Part::Length(4));
        parts.push(Part::Min(0));
        let v = style::split_rows(&parts, area);
        let mut out = Screen::new();
        out.push(render_too_small(area, v[1]));
        assert(parts@ =~= asked_message());
        assert(style::stacked(v@, area, 3));
        assert(out@ =~= seq![style::bare(v@[1], too_small_lines(area), true)]);
        return Some(out);
    }
    let areas = divide_area(area);
    let clock = clock::local_time();
    let ghost told = dashboard(app@, area, areas, *art, now, clock@);
    if readouts::can_chart(app, areas.sensors[2].width) {
        Some(render_in(area, &areas, app, art, now, clock.as_str()))
    } else {
        None
    }
}

} // verus!
