//! What the screen shows, as plain values: rectangles, colours, styled text and
//! the widgets made of them.

use crate::text;
use ratatui::layout::{Constraint, Layout};
use vstd::prelude::*;

verus! {

// ---------------------------------------------------------------------------
// rectangles
// ---------------------------------------------------------------------------

#[derive(Debug, Clone, Copy, PartialEq, Eq, Structural)]
pub struct Rect {
    pub x: u16,
    pub y: u16,
    pub width: u16,
    pub height: u16,
}

/// The lesser of two numbers.
pub open spec fn least(a: int, b: int) -> int {
    if a < b {
        a
    } else {
        b
    }
}

pub fn smaller(a: u16, b: u16) -> (r: u16)
    ensures
        r == least(a as int, b as int),
{
    if a < b {
        a
    } else {
        b
    }
}

impl Rect {
    /// The rectangle at a corner, its size cut so that the opposite corner
    /// stays within `u16`.
    pub open spec fn at(x: u16, y: u16, width: u16, height: u16) -> Rect {
        Rect {
            x,
            y,
            width: least(width as int, u16::MAX - x) as u16,
            height: least(height as int, u16::MAX - y) as u16,
        }
    }

    pub fn new(x: u16, y: u16, width: u16, height: u16) -> (r: Rect)
        ensures
            r == Rect::at(x, y, width, height),
    {
        Rect {
            x,
            y,
            width: smaller(width, u16::MAX - x),
            height: smaller(height, u16::MAX - y),
        }
    }
}

/// How long one part of a split is.
#[derive(Debug, Clone, Copy, PartialEq, Eq, Structural)]
pub enum Part {
    Length(u16),
    Min(u16),
    Percentage(u16),
}

/// What holds of the parts of a vertical split: one for each request, each as
/// wide as the whole and within it from top to bottom.
pub open spec fn stacked(parts: Seq<Rect>, area: Rect, n: nat) -> bool {
    &&& parts.len() == n
    &&& forall|i: int|
        0 <= i < n ==> (#[trigger] parts[i]).x == area.x && parts[i].width == area.width && area.y
            <= parts[i].y && parts[i].y + parts[i].height <= area.y + area.height
}

/// What holds of the parts of a horizontal split: one for each request, each as
/// high as the whole and within it from left to right.
pub open spec fn side_by_side(parts: Seq<Rect>, area: Rect, n: nat) -> bool {
    &&& parts.len() == n
    &&& forall|i: int|
        0 <= i < n ==> (#[trigger] parts[i]).y == area.y && parts[i].height == area.height && area.x
            <= parts[i].x && parts[i].x + parts[i].width <= area.x + area.width
}

/// Whether the layout solver, asked to split an area into rows, can give these.
pub uninterp spec fn rows_split(asked: Seq<Part>, area: Rect, parts: Seq<Rect>) -> bool;

/// Whether the layout solver, asked to split an area into columns, can give these.
pub uninterp spec fn columns_split(asked: Seq<Part>, area: Rect, parts: Seq<Rect>) -> bool;

/// `ratatui::layout::Layout::split` of a vertical layout. It gives one part for
/// each request, at the left edge and of the width of the whole, within it from
/// top to bottom. Which rows it gives for the requests is left to its solver, and
/// only told by the name [`rows_split`]. That one row ends where the next starts is
/// a wish of the layout that the solver weighs against others, and not stated.
#[verifier::external_body]
pub(crate) fn split_rows(parts: &Vec<Part>, area: Rect) -> (r: Vec<Rect>)
    ensures
        stacked(r@, area, parts@.len()),
        rows_split(parts@, area, r@),
{
    let constraints = parts.iter().map(
        |p|
            match p {
                Part::Length(n) => Constraint::Length(*n),
                Part::Min(n) => Constraint::Min(*n),
                Part::Percentage(n) => Constraint::Percentage(*n),
            },
    );
    let whole = ratatui::layout::Rect { x: area.x, y: area.y, width: area.width, height: area.height };
    let split = Layout::vertical(constraints).split(whole);
    split.iter().map(|p| Rect { x: p.x, y: p.y, width: p.width, height: p.height }).collect()
}

/// `ratatui::layout::Layout::split` of a horizontal layout. It gives one part for
/// each request, at the top edge and of the height of the whole, within it from
/// left to right. Which columns it gives for the requests is left to its solver,
/// and only told by the name [`columns_split`]. That one column ends where the next
/// starts is a wish of the layout that the solver weighs against others, and not
/// stated.
#[verifier::external_body]
pub(crate) fn split_columns(parts: &Vec<Part>, area: Rect) -> (r: Vec<Rect>)
    ensures
        side_by_side(r@, area, parts@.len()),
        columns_split(parts@, area, r@),
{
    let constraints = parts.iter().map(
        |p|
            match p {
                Part::Length(n) => Constraint::Length(*n),
                Part::Min(n) => Constraint::Min(*n),
                Part::Percentage(n) => Constraint::Percentage(*n),
            },
    );
    let whole = ratatui::layout::Rect { x: area.x, y: area.y, width: area.width, height: area.height };
    let split = Layout::horizontal(constraints).split(whole);
    split.iter().map(|p| Rect { x: p.x, y: p.y, width: p.width, height: p.height }).collect()
}

// ---------------------------------------------------------------------------
// styled text
// ---------------------------------------------------------------------------

/// A colour of the theme.
#[derive(Debug, Clone, Copy, PartialEq, Eq, Structural)]
pub enum Color {
    /// Primary text (near-white).
    Text,
    /// Secondary text, legible on dark.
    Dim,
    /// Borders / inactive decoration.
    Faint,
    /// Empty bar track (non-text only).
    Track,
    Good,
    Bad,
    /// Text on a coloured ground.
    Ink,
    Cool,
    Heat,
    Dry,
    Fan,
    Auto,
    /// A mode that is not known.
    Unknown,
    /// Switched off, or no state yet.
    Off,
    PowerOff,
    Turbo,
}

impl Color {
    /// Red, green and blue.
    pub open spec fn parts(self) -> (u8, u8, u8) {
        match self {
            Color::Text => (232, 236, 243),
            Color::Dim => (176, 184, 200),
            Color::Faint => (126, 134, 152),
            Color::Track => (88, 95, 112),
            Color::Good => (112, 214, 140),
            Color::Bad => (255, 110, 110),
            Color::Ink => (15, 18, 24),
            Color::Cool => (90, 175, 255),
            Color::Heat => (255, 125, 95),
            Color::Dry => (235, 200, 105),
            Color::Fan => (120, 220, 150),
            Color::Auto => (195, 150, 255),
            Color::Unknown => (150, 160, 180),
            Color::Off => (120, 128, 145),
            Color::PowerOff => (200, 80, 80),
            Color::Turbo => (255, 140, 90),
        }
    }

    pub fn rgb(self) -> (r: (u8, u8, u8))
        ensures
            r == self.parts(),
    {
        match self {
            Color::Text => (232, 236, 243),
            Color::Dim => (176, 184, 200),
            Color::Faint => (126, 134, 152),
            Color::Track => (88, 95, 112),
            Color::Good => (112, 214, 140),
            Color::Bad => (255, 110, 110),
            Color::Ink => (15, 18, 24),
            Color::Cool => (90, 175, 255),
            Color::Heat => (255, 125, 95),
            Color::Dry => (235, 200, 105),
            Color::Fan => (120, 220, 150),
            Color::Auto => (195, 150, 255),
            Color::Unknown => (150, 160, 180),
            Color::Off => (120, 128, 145),
            Color::PowerOff => (200, 80, 80),
            Color::Turbo => (255, 140, 90),
        }
    }
}

#[derive(Debug, Clone, Copy, PartialEq, Eq, Structural)]
pub struct Style {
    pub fg: Option<Color>,
    pub bg: Option<Color>,
    pub bold: bool,
}

pub open spec fn plain() -> Style {
    Style { fg: None, bg: None, bold: false }
}

pub open spec fn colored(c: Color) -> Style {
    Style { fg: Some(c), bg: None, bold: false }
}

pub open spec fn bold(c: Color) -> Style {
    Style { fg: Some(c), bg: None, bold: true }
}

pub open spec fn bold_on(c: Color, bg: Color) -> Style {
    Style { fg: Some(c), bg: Some(bg), bold: true }
}

impl Style {
    pub fn plain() -> (r: Style)
        ensures
            r == plain(),
    {
        Style { fg: None, bg: None, bold: false }
    }

    pub fn colored(c: Color) -> (r: Style)
        ensures
            r == colored(c),
    {
        Style { fg: Some(c), bg: None, bold: false }
    }

    pub fn bold(c: Color) -> (r: Style)
        ensures
            r == bold(c),
    {
        Style { fg: Some(c), bg: None, bold: true }
    }

    pub fn bold_on(c: Color, bg: Color) -> (r: Style)
        ensures
            r == bold_on(c, bg),
    {
        Style { fg: Some(c), bg: Some(bg), bold: true }
    }
}

/// A piece of text in one style.
pub struct Span {
    pub text: String,
    pub style: Style,
}

pub struct SpanView {
    pub text: Seq<char>,
    pub style: Style,
}

pub open spec fn span(text: Seq<char>, style: Style) -> SpanView {
    SpanView { text, style }
}

pub open spec fn raw(text: Seq<char>) -> SpanView {
    SpanView { text, style: plain() }
}

impl View for Span {
    type V = SpanView;

    open spec fn view(&self) -> SpanView {
        SpanView { text: self.text@, style: self.style }
    }
}

impl Span {
    pub fn styled(text: &str, style: Style) -> (r: Span)
        ensures
            r@ == span(text@, style),
    {
        Span { text: text::owned(text), style }
    }
}

/// A line of text.
pub struct Line {
    pub spans: Vec<Span>,
}

impl View for Line {
    type V = Seq<SpanView>;

    open spec fn view(&self) -> Seq<SpanView> {
        self.spans@.map_values(|s: Span| s@)
    }
}

impl Line {
    pub fn new() -> (r: Line)
        ensures
            r@ == Seq::<SpanView>::empty(),
    {
        let r = Line { spans: Vec::new() };
        assert(r@ =~= Seq::<SpanView>::empty());
        r
    }

    pub fn push(&mut self, text: &str, style: Style)
        ensures
            final(self)@ == old(self)@.push(span(text@, style)),
    {
        self.push_span(Span::styled(text, style));
    }

    pub fn push_raw(&mut self, text: &str)
        ensures
            final(self)@ == old(self)@.push(raw(text@)),
    {
        self.push_span(Span::styled(text, Style::plain()));
    }

    pub fn push_span(&mut self, s: Span)
        ensures
            final(self)@ == old(self)@.push(s@),
    {
        self.spans.push(s);
        assert(self@ =~= old(self)@.push(s@));
    }

    /// The line of one piece.
    pub fn of(text: &str, style: Style) -> (r: Line)
        ensures
            r@ == seq![span(text@, style)],
    {
        let mut r = Line::new();
        r.push(text, style);
        r
    }
}

/// Lines of text, one below the other.
pub struct Lines {
    pub lines: Vec<Line>,
}

impl View for Lines {
    type V = Seq<Seq<SpanView>>;

    open spec fn view(&self) -> Seq<Seq<SpanView>> {
        self.lines@.map_values(|l: Line| l@)
    }
}

/// A line without text.
pub open spec fn blank() -> Seq<SpanView> {
    Seq::empty()
}

impl Lines {
    pub fn new() -> (r: Lines)
        ensures
            r@ == Seq::<Seq<SpanView>>::empty(),
    {
        let r = Lines { lines: Vec::new() };
        assert(r@ =~= Seq::<Seq<SpanView>>::empty());
        r
    }

    pub fn push(&mut self, line: Line)
        ensures
            final(self)@ == old(self)@.push(line@),
    {
        self.lines.push(line);
        assert(self@ =~= old(self)@.push(line@));
    }

    pub fn push_blank(&mut self)
        ensures
            final(self)@ == old(self)@.push(blank()),
    {
        self.push(Line::new());
    }
}

// ---------------------------------------------------------------------------
// widgets
// ---------------------------------------------------------------------------

/// A rounded border with a title.
pub struct Block {
    pub title: Span,
    pub border: Style,
}

pub struct BlockView {
    pub title: SpanView,
    pub border: Style,
}

impl View for Block {
    type V = BlockView;

    open spec fn view(&self) -> BlockView {
        BlockView { title: self.title@, border: self.border }
    }
}

/// One thing to draw.
pub enum Draw {
    /// Blank out an area.
    Clear { area: Rect },
    /// Lines of text.
    Text {
        area: Rect,
        block: Option<Block>,
        lines: Lines,
        centered: bool,
        /// Long lines are wrapped and their leading space trimmed.
        wrapped: bool,
        /// One column is left free inside the border on each side.
        padded: bool,
    },
    /// A bar chart of small numbers.
    Spark { area: Rect, frame: Block, style: Style, data: Vec<u64> },
}

pub enum DrawView {
    Clear { area: Rect },
    Text {
        area: Rect,
        block: Option<BlockView>,
        lines: Seq<Seq<SpanView>>,
        centered: bool,
        wrapped: bool,
        padded: bool,
    },
    Spark { area: Rect, frame: BlockView, style: Style, data: Seq<u64> },
}

impl View for Draw {
    type V = DrawView;

    open spec fn view(&self) -> DrawView {
        match self {
            Draw::Clear { area } => DrawView::Clear { area: *area },
            Draw::Text { area, block, lines, centered, wrapped, padded } => DrawView::Text {
                area: *area,
                block: match block {
                    Some(b) => Some(b@),
                    None => None,
                },
                lines: lines@,
                centered: *centered,
                wrapped: *wrapped,
                padded: *padded,
            },
            Draw::Spark { area, frame, style, data } => DrawView::Spark {
                area: *area,
                frame: frame@,
                style: *style,
                data: data@,
            },
        }
    }
}

/// Lines in a titled border.
pub open spec fn boxed(area: Rect, block: BlockView, lines: Seq<Seq<SpanView>>) -> DrawView {
    DrawView::Text {
        area,
        block: Some(block),
        lines,
        centered: false,
        wrapped: false,
        padded: false,
    }
}

/// Lines without a border.
pub open spec fn bare(area: Rect, lines: Seq<Seq<SpanView>>, centered: bool) -> DrawView {
    DrawView::Text { area, block: None, lines, centered, wrapped: false, padded: false }
}

impl Draw {
    pub fn boxed(area: Rect, block: Block, lines: Lines) -> (r: Draw)
        ensures
            r@ == boxed(area, block@, lines@),
    {
        Draw::Text {
            area,
            block: Some(block),
            lines,
            centered: false,
            wrapped: false,
            padded: false,
        }
    }

    pub fn bare(area: Rect, lines: Lines, centered: bool) -> (r: Draw)
        ensures
            r@ == bare(area, lines@, centered),
    {
        Draw::Text { area, block: None, lines, centered, wrapped: false, padded: false }
    }
}

/// Things to draw, in order.
pub struct Screen {
    pub draws: Vec<Draw>,
}

impl View for Screen {
    type V = Seq<DrawView>;

    open spec fn view(&self) -> Seq<DrawView> {
        self.draws@.map_values(|d: Draw| d@)
    }
}

impl Screen {
    pub fn new() -> (r: Screen)
        ensures
            r@ == Seq::<DrawView>::empty(),
    {
        let r = Screen { draws: Vec::new() };
        assert(r@ =~= Seq::<DrawView>::empty());
        r
    }

    pub fn push(&mut self, d: Draw)
        ensures
            final(self)@ == old(self)@.push(d@),
    {
        self.draws.push(d);
        assert(self@ =~= old(self)@.push(d@));
    }
}

} // verus!
