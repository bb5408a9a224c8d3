//! The fan and the swing panel.

use crate::app;
use crate::device;
use crate::panels;
use crate::style;
use crate::text;
use app::{App, AppView, PendingCmd, PendingKind};
use device::Fan;
use style::{Color, Draw, Line, Lines, Rect, Style};
use vstd::prelude::*;

verus! {

// ---------------------------------------------------------------------------
// the fan canvas
// ---------------------------------------------------------------------------

/// Canvas width in characters: 36 dot columns.
pub const FAN_CW: usize = 18;

/// Canvas height in characters: 36 dot rows (square).
pub const FAN_CH: usize = 9;

pub const FAN_CELLS: usize = 162;

pub const FAN_DOTS: usize = 1296;

/// A Braille pixel canvas (2×4 dots per character). `layer` records what drew each
/// cell (1 guard, 2 blade, 3 hub) so the cell can be colored by the topmost
/// element.
pub struct FanCanvas {
    pub bits: Vec<u8>,
    pub layer: Vec<u8>,
}

#[verifier::ext_equal]
pub struct CanvasView {
    pub bits: Seq<u8>,
    pub layer: Seq<u8>,
}

impl View for FanCanvas {
    type V = CanvasView;

    open spec fn view(&self) -> CanvasView {
        CanvasView { bits: self.bits@, layer: self.layer@ }
    }
}

/// The bit of a dot, row 0 to 3 and column 0 to 1, within a Braille cell (base
/// U+2800).
pub open spec fn dot(row: int, col: int) -> u8 {
    if row == 0 {
        if col == 0 {
            0x01
        } else {
            0x08
        }
    } else if row == 1 {
        if col == 0 {
            0x02
        } else {
            0x10
        }
    } else if row == 2 {
        if col == 0 {
            0x04
        } else {
            0x20
        }
    } else {
        if col == 0 {
            0x40
        } else {
            0x80
        }
    }
}

fn dot_bit(row: i32, col: i32) -> (r: u8)
    ensures
        r == dot(row as int, col as int),
{
    if row == 0 {
        if col == 0 {
            0x01
        } else {
            0x08
        }
    } else if row == 1 {
        if col == 0 {
            0x02
        } else {
            0x10
        }
    } else if row == 2 {
        if col == 0 {
            0x04
        } else {
            0x20
        }
    } else {
        if col == 0 {
            0x40
        } else {
            0x80
        }
    }
}

/// Whether a dot lies on the canvas.
pub open spec fn on_canvas(px: int, py: int) -> bool {
    0 <= px < 2 * FAN_CW && 0 <= py < 4 * FAN_CH
}

/// The cell of a dot.
pub open spec fn cell_at(px: int, py: int) -> int {
    py / 4 * FAN_CW + px / 2
}

impl CanvasView {
    pub open spec fn wf(self) -> bool {
        self.bits.len() == FAN_CELLS && self.layer.len() == FAN_CELLS
    }

    /// Whether a dot is set.
    pub open spec fn lit(self, px: int, py: int) -> bool {
        on_canvas(px, py) && self.bits[cell_at(px, py)] & dot(py % 4, px % 2) != 0
    }

    /// The canvas with one more dot. Dots beyond it are left out.
    pub open spec fn plotted(self, px: int, py: int, layer: u8) -> CanvasView {
        if on_canvas(px, py) {
            let i = cell_at(px, py);
            CanvasView {
                bits: self.bits.update(i, self.bits[i] | dot(py % 4, px % 2)),
                layer: self.layer.update(
                    i,
                    if layer > self.layer[i] {
                        layer
                    } else {
                        self.layer[i]
                    },
                ),
            }
        } else {
            self
        }
    }
}

impl FanCanvas {
    pub fn new() -> (r: FanCanvas)
        ensures
            r@.wf(),
            r@.bits == Seq::new(FAN_CELLS as nat, |i: int| 0u8),
            r@.layer == Seq::new(FAN_CELLS as nat, |i: int| 0u8),
    {
        let mut bits: Vec<u8> = Vec::new();
        let mut layer: Vec<u8> = Vec::new();
        let mut i: usize = 0;
        while i < FAN_CELLS
            invariant
                i <= FAN_CELLS,
                bits@ == Seq::new(i as nat, |i: int| 0u8),
                layer@ == Seq::new(i as nat, |i: int| 0u8),
            decreases FAN_CELLS - i,
        {
            bits.push(0);
            layer.push(0);
            i = i + 1;
        }
        FanCanvas { bits, layer }
    }

    pub fn plot(&mut self, px: i32, py: i32, layer: u8)
        requires
            old(self)@.wf(),
        ensures
            final(self)@ == old(self)@.plotted(px as int, py as int, layer),
            final(self)@.wf(),
    {
        if px < 0 || py < 0 {
            return;
        }
        if px / 2 >= 18 || py / 4 >= 9 {
            return;
        }
        let idx = ((py / 4) * 18 + px / 2) as usize;
        let lit = self.bits[idx] | dot_bit(py % 4, px % 2);
        self.bits.set(idx, lit);
        if layer > self.layer[idx] {
            self.layer.set(idx, layer);
        }
        assert(self@ =~= old(self)@.plotted(px as int, py as int, layer));
    }
}

proof fn lemma_dots_are_distinct(r1: int, c1: int, r2: int, c2: int)
    requires
        0 <= r1 < 4,
        0 <= r2 < 4,
        0 <= c1 < 2,
        0 <= c2 < 2,
        (r1, c1) != (r2, c2),
    ensures
        dot(r1, c1) & dot(r2, c2) == 0,
{
    let d = dot(r1, c1);
    let e = dot(r2, c2);
    assert(d & e == 0) by (bit_vector)
        requires
            d == 1 || d == 2 || d == 4 || d == 8 || d == 16 || d == 32 || d == 64 || d == 128,
            e == 1 || e == 2 || e == 4 || e == 8 || e == 16 || e == 32 || e == 64 || e == 128,
            d != e,
    ;
}

/// Plotting a dot of the canvas sets it, and leaves every other dot as it was.
pub proof fn law_plot_sets_one_dot(c: CanvasView, px: int, py: int, layer: u8, x: int, y: int)
    requires
        c.wf(),
    ensures
        c.plotted(px, py, layer).lit(x, y) == (c.lit(x, y) || (on_canvas(px, py) && x == px && y
            == py)),
{
    if on_canvas(px, py) && on_canvas(x, y) && cell_at(px, py) == cell_at(x, y) {
        let b = c.bits[cell_at(px, py)];
        let d = dot(py % 4, px % 2);
        let e = dot(y % 4, x % 2);
        assert(0 <= px / 2 < 18 && 0 <= x / 2 < 18);
        assert(py / 4 == y / 4);
        assert(px / 2 == x / 2);
        if x == px && y == py {
            assert((b | d) & d != 0) by (bit_vector)
                requires
                    d == 1 || d == 2 || d == 4 || d == 8 || d == 16 || d == 32 || d == 64 || d
                        == 128,
            ;
        } else {
            assert((py % 4, px % 2) != (y % 4, x % 2));
            lemma_dots_are_distinct(py % 4, px % 2, y % 4, x % 2);
            assert((b | d) & e == b & e) by (bit_vector)
                requires
                    d & e == 0,
            ;
        }
    }
}

// ---------------------------------------------------------------------------
// the rotor
// ---------------------------------------------------------------------------

/// Four times the square of the distance between a dot and the middle of the
/// canvas.
pub open spec fn spread(px: int, py: int) -> int {
    (2 * px - 35) * (2 * px - 35) + (2 * py - 35) * (2 * py - 35)
}

/// Whether a dot lies within a percentage of the radius, which is 17 dots.
pub open spec fn inside(px: int, py: int, percent: int) -> bool {
    10_000 * spread(px, py) <= percent * percent * (4 * 17 * 17)
}

/// Whether a dot lies at a percentage of the radius or farther out.
pub open spec fn outside(px: int, py: int, percent: int) -> bool {
    10_000 * spread(px, py) >= percent * percent * (4 * 17 * 17)
}

/// What a dot belongs to: the circular guard rim (1), a blade (2), the hub (3) or
/// nothing (0). Blades reach from near the hub to near the rim.
pub open spec fn rotor_layer(px: int, py: int, blade: bool) -> u8 {
    if !inside(px, py, 103) {
        0
    } else if outside(px, py, 90) {
        1
    } else if inside(px, py, 17) {
        3
    } else if outside(px, py, 20) && inside(px, py, 86) && blade {
        2
    } else {
        0
    }
}

/// The canvas with the first `n` dots of the rotor, row by row.
pub open spec fn drawn(blades: Seq<bool>, n: nat) -> CanvasView
    decreases n,
{
    if n == 0 {
        CanvasView {
            bits: Seq::new(FAN_CELLS as nat, |i: int| 0u8),
            layer: Seq::new(FAN_CELLS as nat, |i: int| 0u8),
        }
    } else {
        let before = drawn(blades, (n - 1) as nat);
        let (px, py) = ((n - 1) % 36, (n - 1) / 36);
        let layer = rotor_layer(px, py, blades[n - 1]);
        if layer == 0 {
            before
        } else {
            before.plotted(px, py, layer)
        }
    }
}

/// Rasterise the fan, given which dots a blade would cover.
pub fn draw_fan(blades: &Vec<bool>) -> (r: FanCanvas)
    requires
        blades@.len() == FAN_DOTS,
    ensures
        r@ == drawn(blades@, FAN_DOTS as nat),
        r@.wf(),
{
    let mut cv = FanCanvas::new();
    let mut n: usize = 0;
    while n < 1296
        invariant
            n <= 1296,
            blades@.len() == 1296,
            cv@ == drawn(blades@, n as nat),
            cv@.wf(),
        decreases 1296 - n,
    {
        let px: i32 = (n % 36) as i32;
        let py: i32 = (n / 36) as i32;
        let (a, b): (i32, i32) = (2 * px - 35, 2 * py - 35);
        assert(0 <= a * a <= 1225 && 0 <= b * b <= 1225) by (nonlinear_arith)
            requires
                -35 <= a <= 35,
                -35 <= b <= 35,
        ;
        let reach: i32 = 10_000 * (a * a + b * b);
        if reach <= 103 * 103 * 1156 {
            if reach >= 90 * 90 * 1156 {
                cv.plot(px, py, 1);  // circular guard rim
            } else if reach <= 17 * 17 * 1156 {
                cv.plot(px, py, 3);  // hub
            } else if reach >= 20 * 20 * 1156 && reach <= 86 * 86 * 1156 && blades[n] {
                cv.plot(px, py, 2);
            }
        }
        n = n + 1;
    }
    cv
}

proof fn lemma_drawn_dots(blades: Seq<bool>, n: nat, px: int, py: int)
    requires
        n <= FAN_DOTS,
        on_canvas(px, py),
    ensures
        drawn(blades, n).wf(),
        drawn(blades, n).lit(px, py) == (py * 36 + px < n && rotor_layer(
            px,
            py,
            blades[py * 36 + px],
        ) != 0),
    decreases n,
{
    if n == 0 {
        let d = dot(py % 4, px % 2);
        assert(0u8 & d == 0) by (bit_vector);
    } else {
        let m = (n - 1) as nat;
        let (x, y) = (m as int % 36, m as int / 36);
        lemma_drawn_dots(blades, m, px, py);
        law_plot_sets_one_dot(
            drawn(blades, m),
            x,
            y,
            rotor_layer(x, y, blades[m as int]),
            px,
            py,
        );
    }
}

/// A dot of the fan is lit exactly where the rim, the hub or a blade is.
pub proof fn law_fan_shows_the_rotor(blades: Seq<bool>, px: int, py: int)
    requires
        on_canvas(px, py),
    ensures
        drawn(blades, FAN_DOTS as nat).lit(px, py) == (rotor_layer(
            px,
            py,
            blades[py * 36 + px],
        ) != 0),
{
    lemma_drawn_dots(blades, FAN_DOTS as nat, px, py);
}

// ---------------------------------------------------------------------------
// the fan picture
// ---------------------------------------------------------------------------

/// How a cell of the fan looks, by what drew it.
pub open spec fn layer_look(layer: u8, ac: Color, power: bool) -> style::Style {
    if layer == 3 {
        style::bold(
            if power {
                Color::Text
            } else {
                Color::Faint
            },
        )
    } else if layer == 2 {
        if power {
            style::bold(ac)
        } else {
            style::colored(Color::Track)
        }
    } else {
        style::colored(
            if power {
                Color::Dim
            } else {
                Color::Track
            },
        )
    }
}

fn look_of(layer: u8, ac: Color, power: bool) -> (r: Style)
    ensures
        r == layer_look(layer, ac, power),
{
    if layer == 3 {
        Style::bold(
            if power {
                Color::Text
            } else {
                Color::Faint
            },
        )
    } else if layer == 2 {
        if power {
            Style::bold(ac)
        } else {
            Style::colored(Color::Track)
        }
    } else {
        Style::colored(
            if power {
                Color::Dim
            } else {
                Color::Track
            },
        )
    }
}

/// One cell of the fan: the Braille pattern of its dots, or a blank.
pub open spec fn fan_cell(c: CanvasView, i: int, ac: Color, power: bool) -> style::SpanView {
    if c.bits[i] == 0 {
        style::raw(" "@)
    } else {
        style::span(
            seq![(0x2800 + c.bits[i]) as char],
            layer_look(c.layer[i], ac, power),
        )
    }
}

/// The first `n` cells of a row of the fan, after the padding.
pub open spec fn fan_row(
    c: CanvasView,
    row: int,
    n: nat,
    pad: nat,
    ac: Color,
    power: bool,
) -> Seq<style::SpanView>
    decreases n,
{
    if n == 0 {
        seq![style::raw(text::repeated(" "@, pad))]
    } else {
        fan_row(c, row, (n - 1) as nat, pad, ac, power).push(
            fan_cell(c, row * FAN_CW + n - 1, ac, power),
        )
    }
}

/// The first `n` rows of the fan.
pub open spec fn fan_rows(c: CanvasView, n: nat, pad: nat, ac: Color, power: bool) -> Seq<
    Seq<style::SpanView>,
>
    decreases n,
{
    if n == 0 {
        seq![]
    } else {
        fan_rows(c, (n - 1) as nat, pad, ac, power).push(
            fan_row(c, n - 1, FAN_CW as nat, pad, ac, power),
        )
    }
}

fn fan_line(cv: &FanCanvas, row: usize, pad: usize, ac: Color, power: bool) -> (r: Line)
    requires
        cv@.wf(),
        row < FAN_CH,
    ensures
        r@ == fan_row(cv@, row as int, FAN_CW as nat, pad as nat, ac, power),
{
    let spaces = text::repeat(" ", pad);
    let mut line = Line::of(spaces.as_str(), Style::plain());
    let mut cx: usize = 0;
    while cx < FAN_CW
        invariant
            cv@.wf(),
            row < FAN_CH,
            cx <= FAN_CW,
            line@ == fan_row(cv@, row as int, cx as nat, pad as nat, ac, power),
        decreases FAN_CW - cx,
    {
        let idx = row * FAN_CW + cx;
        let bits = cv.bits[idx];
        if bits == 0 {
            line.push_raw(" ");
        } else {
            let mut cell = String::new();
            match text::char_of(0x2800 + bits as u32) {
                Some(c) => {
                    cell.push(c);
                    assert(cell@ =~= seq![(0x2800 + bits) as char]);
                },
                None => {},
            }
            line.push(cell.as_str(), look_of(cv.layer[idx], ac, power));
        }
        cx = cx + 1;
    }
    line
}

pub fn fan_lines(cv: &FanCanvas, pad: usize, ac: Color, power: bool) -> (r: Lines)
    requires
        cv@.wf(),
    ensures
        r@ == fan_rows(cv@, FAN_CH as nat, pad as nat, ac, power),
{
    let mut lines = Lines::new();
    let mut cy: usize = 0;
    while cy < FAN_CH
        invariant
            cv@.wf(),
            cy <= FAN_CH,
            lines@ == fan_rows(cv@, cy as nat, pad as nat, ac, power),
        decreases FAN_CH - cy,
    {
        lines.push(fan_line(cv, cy, pad, ac, power));
        cy = cy + 1;
    }
    lines
}

// ---------------------------------------------------------------------------
// the fan panel
// ---------------------------------------------------------------------------

/// What is drawn of the fan from angles: which dots of the canvas, row by row, a
/// blade would cover, and the heights of the wave that stands for automatic
/// speed.
pub struct FanArt {
    pub blades: Vec<bool>,
    pub wave: Vec<usize>,
}

impl FanArt {
    pub open spec fn valid(self) -> bool {
        self.blades@.len() == FAN_DOTS && self.wave@.len() == 7
    }
}

/// The bar of a height of 0 to 6.
pub open spec fn bar(i: int) -> Seq<char> {
    if i == 0 {
        "▁"@
    } else if i == 1 {
        "▂"@
    } else if i == 2 {
        "▃"@
    } else if i == 3 {
        "▄"@
    } else if i == 4 {
        "▅"@
    } else if i == 5 {
        "▆"@
    } else {
        "█"@
    }
}

fn bar_text(i: usize) -> (r: &'static str)
    ensures
        r@ == bar(i as int),
{
    if i == 0 {
        "▁"
    } else if i == 1 {
        "▂"
    } else if i == 2 {
        "▃"
    } else if i == 3 {
        "▄"
    } else if i == 4 {
        "▅"
    } else if i == 5 {
        "▆"
    } else {
        "█"
    }
}

/// A frame of the spinner, 0 to 9.
pub open spec fn spinner(i: int) -> Seq<char> {
    if i == 0 {
        "⠋"@
    } else if i == 1 {
        "⠙"@
    } else if i == 2 {
        "⠹"@
    } else if i == 3 {
        "⠸"@
    } else if i == 4 {
        "⠼"@
    } else if i == 5 {
        "⠴"@
    } else if i == 6 {
        "⠦"@
    } else if i == 7 {
        "⠧"@
    } else if i == 8 {
        "⠇"@
    } else {
        "⠏"@
    }
}

fn spinner_text(i: u64) -> (r: &'static str)
    ensures
        r@ == spinner(i as int),
{
    if i == 0 {
        "⠋"
    } else if i == 1 {
        "⠙"
    } else if i == 2 {
        "⠹"
    } else if i == 3 {
        "⠸"
    } else if i == 4 {
        "⠼"
    } else if i == 5 {
        "⠴"
    } else if i == 6 {
        "⠦"
    } else if i == 7 {
        "⠧"
    } else if i == 8 {
        "⠇"
    } else {
        "⠏"
    }
}

/// The speed waiting to be published.
pub open spec fn waiting_fan(a: AppView) -> Option<Fan> {
    match a.pending {
        Some(PendingCmd { kind: PendingKind::Fan(f), .. }) => Some(f),
        _ => None,
    }
}

/// The speed that is shown: one that waits to be published wins.
pub open spec fn shown_fan(a: AppView) -> Fan {
    match waiting_fan(a) {
        Some(f) => f,
        None => match a.state {
            Some(s) => s.fan,
            None => Fan::Auto,
        },
    }
}

pub fn fan_to_show(app: &App) -> (r: Fan)
    ensures
        r == shown_fan(app@),
{
    match app.pending_fan() {
        Some(f) => f,
        None => match &app.state {
            Some(s) => s.fan,
            None => Fan::Auto,
        },
    }
}

pub open spec fn is_powered(a: AppView) -> bool {
    a.state matches Some(s) && s.power
}

/// How many frames the spinner stands still, by the speed of the fan.
pub open spec fn spin_pace(f: Fan) -> int {
    match f {
        Fan::Turbo => 2,
        Fan::Gear(g) => if g < 7 {
            9 - g
        } else {
            2
        },
        Fan::Auto => 4,
    }
}

pub open spec fn spin_mark(a: AppView) -> Seq<char> {
    if is_powered(a) && a.anim {
        spinner((a.frame as int / spin_pace(shown_fan(a))) % 10)
    } else {
        " "@
    }
}

/// One of the seven bars: for automatic speed those of the wave, and else those
/// up to the level of the fan. The bars of turbo flash.
pub open spec fn gear_bar(a: AppView, wave: Seq<usize>, i: int) -> style::SpanView {
    let f = shown_fan(a);
    let ac = accent(a);
    if f == Fan::Auto {
        let b = bar(style::least(wave[i] as int, 6));
        style::span(b + b, style::bold(ac))
    } else {
        let flash = f == Fan::Turbo && is_powered(a) && a.anim && a.frame / 3 % 2 == 0;
        style::span(
            bar(i) + bar(i),
            style::Style {
                fg: Some(
                    if f.level() > i {
                        ac
                    } else {
                        Color::Track
                    },
                ),
                bg: None,
                bold: flash,
            },
        )
    }
}

pub open spec fn accent(a: AppView) -> Color {
    panels::accent_of(a)
}

/// The first `n` bars, after a blank.
pub open spec fn gear_bars(a: AppView, wave: Seq<usize>, n: nat) -> Seq<style::SpanView>
    decreases n,
{
    if n == 0 {
        seq![style::raw(" "@)]
    } else {
        gear_bars(a, wave, (n - 1) as nat).push(gear_bar(a, wave, n - 1))
    }
}

/// The line of bars, with the spinner and the name of the speed.
pub open spec fn gear_line(a: AppView, wave: Seq<usize>) -> Seq<style::SpanView> {
    let label = "  "@ + spin_mark(a) + " "@ + shown_fan(a).name();
    gear_bars(a, wave, 7).push(
        style::span(
            if waiting_fan(a) is Some {
                label + " ⏳"@
            } else {
                label
            },
            style::bold(Color::Text),
        ),
    ).push(style::raw("  "@)).push(panels::hint_of("f/F"@))
}

/// The bar of the wind output in percent, 14 cells wide.
pub open spec fn output_line(p: int, ac: Color) -> Seq<style::SpanView> {
    let filled = device::clamped(p, 0, 100) * 14 / 100;
    seq![
        style::span(" output "@, style::colored(Color::Dim)),
        style::span(text::repeated("█"@, filled as nat), style::colored(ac)),
        style::span(text::repeated("░"@, (14 - filled) as nat), style::colored(Color::Track)),
        style::span(
            " "@ + text::padded_left(text::dec_int(p), 3) + "%"@,
            style::colored(Color::Text),
        ),
    ]
}

pub open spec fn badge_line(a: AppView) -> Seq<style::SpanView> {
    seq![
        style::raw(" "@),
        panels::chip_of("AUTO"@, shown_fan(a) == Fan::Auto, accent(a)),
        style::raw(" "@),
        panels::chip_of("TURBO"@, shown_fan(a) == Fan::Turbo, Color::Turbo),
    ]
}

/// The blanks that center the rotor in a panel of a width.
pub open spec fn fan_pad(width: u16) -> nat {
    if width >= 2 + FAN_CW {
        ((width - 2 - FAN_CW) / 2) as nat
    } else {
        0
    }
}

pub open spec fn fan_panel_lines(
    a: AppView,
    width: u16,
    canvas: CanvasView,
    wave: Seq<usize>,
) -> Seq<Seq<style::SpanView>> {
    let rotor = fan_rows(canvas, FAN_CH as nat, fan_pad(width), accent(a), is_powered(a));
    let geared = rotor.push(gear_line(a, wave));
    let told = match a.state {
        Some(s) => match s.wind_pct {
            Some(p) => geared.push(output_line(p as int, accent(a))),
            None => geared,
        },
        None => geared,
    };
    told.push(badge_line(a))
}

pub open spec fn fan_panel(a: AppView, area: Rect, art: FanArt) -> style::DrawView {
    style::boxed(
        area,
        panels::framed("Fan"@, accent(a)),
        fan_panel_lines(a, area.width, drawn(art.blades@, FAN_DOTS as nat), art.wave@),
    )
}

fn gear_row(app: &App, wave: &Vec<usize>) -> (r: Line)
    requires
        app@.inv(),
        wave@.len() == 7,
    ensures
        r@ == gear_line(app@, wave@),
{
    let ac = panels::accent(app);
    let fan = fan_to_show(app);
    let level = fan.gear_level();
    let power = match &app.state {
        Some(s) => s.power,
        None => false,
    };
    let spinning = power && app.anim;
    let flash = fan == Fan::Turbo && spinning && app.frame / 3 % 2 == 0;
    let mut line = Line::of(" ", Style::plain());
    let mut i: usize = 0;
    while i < 7
        invariant
            i <= 7,
            wave@.len() == 7,
            ac == accent(app@),
            fan == shown_fan(app@),
            level == fan.level(),
            flash == (fan == Fan::Turbo && is_powered(app@) && app@.anim && app@.frame / 3 % 2
                == 0),
            line@ == gear_bars(app@, wave@, i as nat),
        decreases 7 - i,
    {
        if fan == Fan::Auto {
            let height: usize = if wave[i] < 6 {
                wave[i]
            } else {
                6
            };
            let b = bar_text(height);
            let two = text::cat2(b, b);
            line.push(two.as_str(), Style::bold(ac));
        } else {
            let b = bar_text(i);
            let two = text::cat2(b, b);
            let fg = if level as usize > i {
                ac
            } else {
                Color::Track
            };
            line.push(two.as_str(), Style { fg: Some(fg), bg: None, bold: flash });
        }
        i = i + 1;
    }
    let pace: u64 = match fan {
        Fan::Turbo => 2,
        Fan::Gear(g) => if g < 7 {
            9 - g as u64
        } else {
            2
        },
        Fan::Auto => 4,
    };
    let spin = if spinning {
        spinner_text((app.frame / pace) % 10)
    } else {
        " "
    };
    let name = fan.label();
    let mut label = text::cat4("  ", spin, " ", name.as_str());
    if app.pending_fan().is_some() {
        label.append(" ⏳");
    }
    line.push(label.as_str(), Style::bold(Color::Text));
    line.push_raw("  ");
    line.push_span(panels::key_hint("f/F"));
    line
}

fn output_row(p: i64, ac: Color) -> (r: Line)
    ensures
        r@ == output_line(p as int, ac),
{
    let filled: usize = (device::clamp(p, 0, 100) * 14 / 100) as usize;
    let full = text::repeat("█", filled);
    let free = text::repeat("░", 14 - filled);
    let number = text::dec_i64(p);
    let padded = text::pad_left(number.as_str(), 3);
    let percent = text::cat3(" ", padded.as_str(), "%");
    let mut line = Line::new();
    line.push(" output ", Style::colored(Color::Dim));
    line.push(full.as_str(), Style::colored(ac));
    line.push(free.as_str(), Style::colored(Color::Track));
    line.push(percent.as_str(), Style::colored(Color::Text));
    line
}

fn badge_row(app: &App) -> (r: Line)
    ensures
        r@ == badge_line(app@),
{
    let fan = fan_to_show(app);
    let mut line = Line::new();
    line.push_raw(" ");
    line.push_span(panels::chip("AUTO", fan == Fan::Auto, panels::accent(app)));
    line.push_raw(" ");
    line.push_span(panels::chip("TURBO", fan == Fan::Turbo, Color::Turbo));
    line
}

pub fn render_fan(area: Rect, app: &App, art: &FanArt) -> (r: Draw)
    requires
        app@.inv(),
        art.valid(),
    ensures
        r@ == fan_panel(app@, area, *art),
{
    let ac = panels::accent(app);
    let power = match &app.state {
        Some(s) => s.power,
        None => false,
    };
    let pad: usize = if area.width >= 20 {
        (area.width as usize - 20) / 2
    } else {
        0
    };
    let canvas = draw_fan(&art.blades);
    let mut lines = fan_lines(&canvas, pad, ac, power);
    lines.push(gear_row(app, &art.wave));
    if let Some(s) = &app.state {
        if let Some(p) = s.wind_pct {
            lines.push(output_row(p, ac));
        }
    }
    lines.push(badge_row(app));
    Draw::boxed(area, panels::panel("Fan", ac), lines)
}

// ---------------------------------------------------------------------------
// the swing panel
// ---------------------------------------------------------------------------

/// Ping-pong 0..n-1..0 over time t.
pub open spec fn bounced(t: nat, n: nat) -> nat {
    if n <= 1 {
        0
    } else {
        let p = t % (2 * (n - 1)) as nat;
        if p < n {
            p
        } else {
            (2 * (n - 1) - p) as nat
        }
    }
}

pub fn ping_pong(t: u64, n: u64) -> (r: u64)
    requires
        2 * (n - 1) <= u64::MAX,
    ensures
        r == bounced(t as nat, n as nat),
{
    if n <= 1 {
        return 0;
    }
    let m = 2 * (n - 1);
    let p = t % m;
    if p < n {
        p
    } else {
        m - p
    }
}

/// Sweep position within an inclusive row range, one step every three frames.
pub open spec fn swept(frame: nat, lo: nat, hi: nat) -> nat {
    lo + bounced(frame / 3, (hi - lo + 1) as nat)
}

pub fn sweep(frame: u64, lo: u64, hi: u64) -> (r: u64)
    requires
        lo <= hi,
        2 * (hi - lo) <= u64::MAX,
    ensures
        r == swept(frame as nat, lo as nat, hi as nat),
        lo <= r <= hi,
{
    let n: u64 = hi - lo;
    if n == 0 {
        return lo;
    }
    proof {
        law_ping_pong_stays(frame as nat / 3, (n + 1) as nat);
    }
    lo + ping_pong(frame / 3, n + 1)
}

/// The position stays below `n`, and moves by exactly one at a time where there is
/// room to move.
pub proof fn law_ping_pong_stays(t: nat, n: nat)
    requires
        n > 0,
    ensures
        bounced(t, n) < n,
        n >= 2 ==> bounced(t + 1, n) - bounced(t, n) == 1 || bounced(t, n) - bounced(t + 1, n) == 1,
{
    if n > 1 {
        let m: int = 2 * (n - 1);
        let p = t as int % m;
        vstd::arithmetic::div_mod::lemma_mod_bound(t as int, m);
        vstd::arithmetic::div_mod::lemma_mod_bound((t + 1) as int, m);
        vstd::arithmetic::div_mod::lemma_add_mod_noop(t as int, 1, m);
        if p + 1 < m {
            vstd::arithmetic::div_mod::lemma_small_mod((p + 1) as nat, m as nat);
            if m > 1 {
                vstd::arithmetic::div_mod::lemma_small_mod(1, m as nat);
            }
            assert((t + 1) as int % m == p + 1);
        } else {
            vstd::arithmetic::div_mod::lemma_small_mod(1, m as nat);
            vstd::arithmetic::div_mod::lemma_mod_self_0(m);
            assert((t + 1) as int % m == 0);
        }
    }
}

/// The position comes back after a full swing.
pub proof fn law_ping_pong_repeats(t: nat, n: nat)
    requires
        n > 1,
    ensures
        bounced((t + 2 * (n - 1)) as nat, n) == bounced(t, n),
{
    vstd::arithmetic::div_mod::lemma_mod_add_multiples_vanish(t as int, 2 * (n - 1));
}

/// Where the marker of the vertical vane stands. A vane that swings sweeps over
/// all rows, the upper or the lower ones, or parks in the middle without
/// animation; a fixed one stands at its row.
pub open spec fn v_marker(dir: int, animate: bool, frame: nat) -> Option<int> {
    if dir == 1 && animate {
        Some(swept(frame, 0, 4) as int)
    } else if dir == 2 && animate {
        Some(swept(frame, 0, 2) as int)
    } else if dir == 3 && animate {
        Some(swept(frame, 2, 4) as int)
    } else if 1 <= dir <= 3 {
        Some(2)
    } else if 9 <= dir <= 13 {
        Some(dir - 9)
    } else {
        None
    }
}

/// Where the marker of the horizontal vane stands: it sweeps over all columns, the
/// left, the middle or the right ones.
pub open spec fn h_marker(dir: int, animate: bool, frame: nat) -> Option<int> {
    if dir == 1 && animate {
        Some(swept(frame, 0, 4) as int)
    } else if dir == 2 && animate {
        Some(swept(frame, 0, 2) as int)
    } else if dir == 3 && animate {
        Some(swept(frame, 1, 3) as int)
    } else if dir == 4 && animate {
        Some(swept(frame, 2, 4) as int)
    } else if 1 <= dir <= 4 {
        Some(2)
    } else if 9 <= dir <= 13 {
        Some(dir - 9)
    } else {
        None
    }
}

pub open spec fn swing_word(dir: int, sweeps: int) -> Seq<char> {
    if 1 <= dir <= sweeps {
        "sweep"@
    } else if 9 <= dir <= 13 {
        "fixed"@
    } else {
        "off"@
    }
}

pub open spec fn v_dir_of(a: AppView) -> i64 {
    match a.state {
        Some(s) => s.v_dir,
        None => 8,
    }
}

pub open spec fn h_dir_of(a: AppView) -> i64 {
    match a.state {
        Some(s) => s.h_dir,
        None => 8,
    }
}

/// One louver row. The first also tells what the vane does.
pub open spec fn louver_line(a: AppView, row: int) -> Seq<style::SpanView> {
    let dir = v_dir_of(a) as int;
    let active = v_marker(dir, is_powered(a) && a.anim, a.frame as nat) == Some(row);
    let vane = if active {
        seq![style::span("  ▶ ━━━━━━━━"@, style::bold(accent(a)))]
    } else {
        seq![style::span("    ────────"@, style::colored(Color::Track))]
    };
    if row == 0 {
        vane.push(style::span("  V:"@ + swing_word(dir, 3), style::colored(Color::Dim))).push(
            style::raw(" "@),
        ).push(panels::hint_of("s"@))
    } else {
        vane
    }
}

pub open spec fn h_cell(a: AppView, cell: int) -> style::SpanView {
    if h_marker(h_dir_of(a) as int, is_powered(a) && a.anim, a.frame as nat) == Some(cell) {
        style::span("██"@, style::colored(accent(a)))
    } else {
        style::span("░░"@, style::colored(Color::Track))
    }
}

pub open spec fn h_line(a: AppView) -> Seq<style::SpanView> {
    seq![
        style::raw("    "@),
        h_cell(a, 0),
        h_cell(a, 1),
        h_cell(a, 2),
        h_cell(a, 3),
        h_cell(a, 4),
        style::span("  H:"@ + swing_word(h_dir_of(a) as int, 4), style::colored(Color::Dim)),
        style::raw(" "@),
        panels::hint_of("h"@),
        style::span("  aim"@, style::colored(Color::Dim)),
        style::raw(" "@),
        panels::hint_of("v"@),
    ]
}

pub open spec fn swing_lines(a: AppView) -> Seq<Seq<style::SpanView>> {
    seq![
        louver_line(a, 0),
        louver_line(a, 1),
        louver_line(a, 2),
        louver_line(a, 3),
        louver_line(a, 4),
        style::blank(),
        h_line(a),
    ]
}

fn v_position(dir: i64, animate: bool, frame: u64) -> (r: Option<u64>)
    ensures
        match v_marker(dir as int, animate, frame as nat) {
            Some(p) => r == Some(p as u64) && 0 <= p < 5,
            None => r is None,
        },
{
    if dir == 1 && animate {
        Some(sweep(frame, 0, 4))
    } else if dir == 2 && animate {
        Some(sweep(frame, 0, 2))
    } else if dir == 3 && animate {
        Some(sweep(frame, 2, 4))
    } else if 1 <= dir && dir <= 3 {
        Some(2)
    } else if 9 <= dir && dir <= 13 {
        Some((dir - 9) as u64)
    } else {
        None
    }
}

fn h_position(dir: i64, animate: bool, frame: u64) -> (r: Option<u64>)
    ensures
        match h_marker(dir as int, animate, frame as nat) {
            Some(p) => r == Some(p as u64) && 0 <= p < 5,
            None => r is None,
        },
{
    if dir == 1 && animate {
        Some(sweep(frame, 0, 4))
    } else if dir == 2 && animate {
        Some(sweep(frame, 0, 2))
    } else if dir == 3 && animate {
        Some(sweep(frame, 1, 3))
    } else if dir == 4 && animate {
        Some(sweep(frame, 2, 4))
    } else if 1 <= dir && dir <= 4 {
        Some(2)
    } else if 9 <= dir && dir <= 13 {
        Some((dir - 9) as u64)
    } else {
        None
    }
}

fn swing_text(dir: i64, sweeps: i64) -> (r: &'static str)
    ensures
        r@ == swing_word(dir as int, sweeps as int),
{
    if 1 <= dir && dir <= sweeps {
        "sweep"
    } else if 9 <= dir && dir <= 13 {
        "fixed"
    } else {
        "off"
    }
}

fn louver_row(app: &App, row: u64) -> (r: Line)
    requires
        row < 5,
    ensures
        r@ == louver_line(app@, row as int),
{
    let (dir, power): (i64, bool) = match &app.state {
        Some(s) => (s.v_dir, s.power),
        None => (8, false),
    };
    let active = match v_position(dir, power && app.anim, app.frame) {
        Some(p) => p == row,
        None => false,
    };
    let mut line = if active {
        Line::of("  ▶ ━━━━━━━━", Style::bold(panels::accent(app)))
    } else {
        Line::of("    ────────", Style::colored(Color::Track))
    };
    if row == 0 {
        let told = text::cat2("  V:", swing_text(dir, 3));
        line.push(told.as_str(), Style::colored(Color::Dim));
        line.push_raw(" ");
        line.push_span(panels::key_hint("s"));
    }
    line
}

fn push_h_cell(line: &mut Line, app: &App, at: Option<u64>, cell: u64)
    requires
        match h_marker(h_dir_of(app@) as int, is_powered(app@) && app@.anim, app@.frame as nat) {
            Some(p) => at == Some(p as u64) && 0 <= p < 5,
            None => at is None,
        },
        cell < 5,
    ensures
        final(line)@ == old(line)@.push(h_cell(app@, cell as int)),
{
    let here = match at {
        Some(p) => p == cell,
        None => false,
    };
    if here {
        line.push("██", Style::colored(panels::accent(app)));
    } else {
        line.push("░░", Style::colored(Color::Track));
    }
}

fn h_row(app: &App) -> (r: Line)
    ensures
        r@ == h_line(app@),
{
    let (dir, power): (i64, bool) = match &app.state {
        Some(s) => (s.h_dir, s.power),
        None => (8, false),
    };
    let at = h_position(dir, power && app.anim, app.frame);
    let mut line = Line::new();
    line.push_raw("    ");
    push_h_cell(&mut line, app, at, 0);
    push_h_cell(&mut line, app, at, 1);
    push_h_cell(&mut line, app, at, 2);
    push_h_cell(&mut line, app, at, 3);
    push_h_cell(&mut line, app, at, 4);
    let told = text::cat2("  H:", swing_text(dir, 4));
    line.push(told.as_str(), Style::colored(Color::Dim));
    line.push_raw(" ");
    line.push_span(panels::key_hint("h"));
    line.push("  aim", Style::colored(Color::Dim));
    line.push_raw(" ");
    line.push_span(panels::key_hint("v"));
    line
}

pub fn render_swing(area: Rect, app: &App) -> (r: Draw)
    ensures
        r@ == style::boxed(area, panels::framed("Swing"@, accent(app@)), swing_lines(app@)),
{
    let mut lines = Lines::new();
    lines.push(louver_row(app, 0));
    lines.push(louver_row(app, 1));
    lines.push(louver_row(app, 2));
    lines.push(louver_row(app, 3));
    lines.push(louver_row(app, 4));
    lines.push_blank();
    lines.push(h_row(app));
    assert(lines@ =~= swing_lines(app@));
    Draw::boxed(area, panels::panel("Swing", panels::accent(app)), lines)
}

} // verus!
