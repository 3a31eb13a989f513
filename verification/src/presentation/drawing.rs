//! What can be drawn: styled text in framed regions.

use vstd::prelude::*;
use vstd::string::*;

use super::geometry::{Borders, Rect};
use crate::text::{opt_view, views};

verus! {

/// The colours of the default palette.
#[derive(Clone, Copy, Debug, PartialEq, Eq, Structural)]
pub enum Color {
    Reset,
    Black,
    Red,
    Green,
    Yellow,
    Blue,
    DarkGray,
    White,
}

/// What a colour is used for. The default presentation palette names colours
/// by their purpose so render sites never choose unrelated terminal colours
/// for the same meaning.
#[derive(Clone, Copy, Debug, PartialEq, Eq, Structural)]
pub enum ThemeRole {
    Primary,
    Success,
    Muted,
    Warning,
    Error,
    Selection,
    InactiveSelection,
    Terminal,
    RaisedSurface,
}

/// The colour that stands for a purpose.
pub open spec fn colour_of(role: ThemeRole) -> Color {
    match role {
        ThemeRole::Primary => Color::Blue,
        ThemeRole::Success => Color::Green,
        ThemeRole::Muted => Color::DarkGray,
        ThemeRole::Warning => Color::Yellow,
        ThemeRole::Error => Color::Red,
        ThemeRole::Selection => Color::Blue,
        ThemeRole::InactiveSelection => Color::DarkGray,
        ThemeRole::Terminal => Color::Reset,
        ThemeRole::RaisedSurface => Color::Black,
    }
}

pub fn theme_colour(role: ThemeRole) -> (colour: Color)
    ensures
        colour == colour_of(role),
{
    match role {
        ThemeRole::Primary => Color::Blue,
        ThemeRole::Success => Color::Green,
        ThemeRole::Muted => Color::DarkGray,
        ThemeRole::Warning => Color::Yellow,
        ThemeRole::Error => Color::Red,
        ThemeRole::Selection => Color::Blue,
        ThemeRole::InactiveSelection => Color::DarkGray,
        ThemeRole::Terminal => Color::Reset,
        ThemeRole::RaisedSurface => Color::Black,
    }
}

/// How text is drawn. What is not said is left as it is.
#[derive(Clone, Copy, Debug, PartialEq, Eq, Structural)]
pub struct TextStyle {
    pub fg: Option<Color>,
    pub bg: Option<Color>,
    pub bold: bool,
}

pub open spec fn plain() -> TextStyle {
    TextStyle { fg: None, bg: None, bold: false }
}

pub open spec fn themed(role: ThemeRole) -> TextStyle {
    TextStyle { fg: Some(colour_of(role)), bg: None, bold: false }
}

/// Text set off from what surrounds it: a shown key, or what is active.
pub open spec fn badge() -> TextStyle {
    TextStyle {
        fg: Some(colour_of(ThemeRole::Terminal)),
        bg: Some(colour_of(ThemeRole::Primary)),
        bold: true,
    }
}

impl TextStyle {
    pub open spec fn bolded(self) -> TextStyle {
        TextStyle { bold: true, ..self }
    }

    pub fn plain() -> (style: Self)
        ensures
            style == plain(),
    {
        TextStyle { fg: None, bg: None, bold: false }
    }

    pub fn themed(role: ThemeRole) -> (style: Self)
        ensures
            style == themed(role),
    {
        TextStyle { fg: Some(theme_colour(role)), bg: None, bold: false }
    }

    pub fn badge() -> (style: Self)
        ensures
            style == badge(),
    {
        TextStyle {
            fg: Some(theme_colour(ThemeRole::Terminal)),
            bg: Some(theme_colour(ThemeRole::Primary)),
            bold: true,
        }
    }

    pub fn bold(self) -> (style: Self)
        ensures
            style == self.bolded(),
    {
        TextStyle { bold: true, ..self }
    }
}

/// A stretch of text in one style.
#[derive(Debug, PartialEq, Eq)]
pub struct Span {
    pub text: String,
    pub style: TextStyle,
}

#[verifier::ext_equal]
pub struct SpanModel {
    pub text: Seq<char>,
    pub style: TextStyle,
}

impl View for Span {
    type V = SpanModel;

    open spec fn view(&self) -> SpanModel {
        SpanModel { text: self.text@, style: self.style }
    }
}

pub open spec fn span(text: Seq<char>, style: TextStyle) -> SpanModel {
    SpanModel { text, style }
}

impl Span {
    pub fn new(text: &str, style: TextStyle) -> (made: Self)
        ensures
            made@ == span(text@, style),
    {
        Span { text: text.to_owned(), style }
    }
}

/// A line of text. Its own style is beneath those of its spans.
#[derive(Debug, PartialEq, Eq)]
pub struct Line {
    pub spans: Vec<Span>,
    pub style: TextStyle,
}

#[verifier::ext_equal]
pub struct LineModel {
    pub spans: Seq<SpanModel>,
    pub style: TextStyle,
}

impl View for Line {
    type V = LineModel;

    open spec fn view(&self) -> LineModel {
        LineModel { spans: views(self.spans@), style: self.style }
    }
}

/// A line of one text in one style.
pub open spec fn line(text: Seq<char>, style: TextStyle) -> LineModel {
    LineModel { spans: seq![span(text, plain())], style }
}

impl Line {
    pub fn new(text: &str, style: TextStyle) -> (made: Self)
        ensures
            made@ == line(text@, style),
    {
        let mut spans: Vec<Span> = Vec::new();
        spans.push(Span::new(text, TextStyle::plain()));
        let made = Line { spans, style };
        assert(made@ =~= line(text@, style));
        made
    }

    /// A line of one span.
    pub fn of_span(text: &str, style: TextStyle) -> (made: Self)
        ensures
            made@ == (LineModel { spans: seq![span(text@, style)], style: plain() }),
    {
        let mut spans: Vec<Span> = Vec::new();
        spans.push(Span::new(text, style));
        let made = Line { spans, style: TextStyle::plain() };
        assert(made@.spans =~= seq![span(text@, style)]);
        made
    }
}

/// The frame around a region: its title, its borders, and what is behind them.
#[derive(Debug, PartialEq, Eq)]
pub struct Frame {
    pub title: String,
    pub borders: Borders,
    pub accent: TextStyle,
    pub surface: TextStyle,
}

#[verifier::ext_equal]
pub struct FrameModel {
    pub title: Seq<char>,
    pub borders: Borders,
    pub accent: TextStyle,
    pub surface: TextStyle,
}

impl View for Frame {
    type V = FrameModel;

    open spec fn view(&self) -> FrameModel {
        FrameModel {
            title: self.title@,
            borders: self.borders,
            accent: self.accent,
            surface: self.surface,
        }
    }
}

#[derive(Clone, Copy, Debug, PartialEq, Eq, Structural)]
pub enum Alignment {
    Left,
    Center,
    Right,
}

/// One thing to draw.
#[derive(Debug, PartialEq, Eq)]
#[allow(inconsistent_fields)]
pub enum Widget {
    /// Blanks a region, so that what was drawn there does not show through.
    Clear,
    /// Lines from the top of a region down.
    Paragraph {
        lines: Vec<Line>,
        frame: Option<Frame>,
        wrap: bool,
        alignment: Alignment,
        style: TextStyle,
    },
    /// One item per row, each styled over the whole row.
    List { items: Vec<Line>, frame: Frame },
    /// A frame with nothing in it.
    Frame(Frame),
}

#[verifier::ext_equal]
#[allow(inconsistent_fields)]
pub enum WidgetModel {
    Clear,
    Paragraph {
        lines: Seq<LineModel>,
        frame: Option<FrameModel>,
        wrap: bool,
        alignment: Alignment,
        style: TextStyle,
    },
    List { items: Seq<LineModel>, frame: FrameModel },
    Frame(FrameModel),
}

impl View for Widget {
    type V = WidgetModel;

    open spec fn view(&self) -> WidgetModel {
        match self {
            Widget::Clear => WidgetModel::Clear,
            Widget::Paragraph { lines, frame, wrap, alignment, style } => WidgetModel::Paragraph {
                lines: views(lines@),
                frame: opt_view(*frame),
                wrap: *wrap,
                alignment: *alignment,
                style: *style,
            },
            Widget::List { items, frame } => WidgetModel::List {
                items: views(items@),
                frame: frame@,
            },
            Widget::Frame(frame) => WidgetModel::Frame(frame@),
        }
    }
}

/// Something drawn in a region. What comes later is drawn over what came
/// before.
#[derive(Debug, PartialEq, Eq)]
pub struct Drawing {
    pub area: Rect,
    pub widget: Widget,
}

#[verifier::ext_equal]
pub struct DrawingModel {
    pub area: Rect,
    pub widget: WidgetModel,
}

impl View for Drawing {
    type V = DrawingModel;

    open spec fn view(&self) -> DrawingModel {
        DrawingModel { area: self.area, widget: self.widget@ }
    }
}

/// Lines in a frame.
pub open spec fn framed(area: Rect, lines: Seq<LineModel>, frame: FrameModel, wrap: bool) -> DrawingModel {
    DrawingModel {
        area,
        widget: WidgetModel::Paragraph {
            lines,
            frame: Some(frame),
            wrap,
            alignment: Alignment::Left,
            style: plain(),
        },
    }
}

/// Lines without a frame.
pub open spec fn bare(area: Rect, lines: Seq<LineModel>, wrap: bool) -> DrawingModel {
    DrawingModel {
        area,
        widget: WidgetModel::Paragraph {
            lines,
            frame: None,
            wrap,
            alignment: Alignment::Left,
            style: plain(),
        },
    }
}

impl Drawing {
    pub fn framed(area: Rect, lines: Vec<Line>, frame: Frame, wrap: bool) -> (drawing: Self)
        ensures
            drawing@ == framed(area, views(lines@), frame@, wrap),
    {
        Drawing {
            area,
            widget: Widget::Paragraph {
                lines,
                frame: Some(frame),
                wrap,
                alignment: Alignment::Left,
                style: TextStyle::plain(),
            },
        }
    }

    pub fn bare(area: Rect, lines: Vec<Line>, wrap: bool) -> (drawing: Self)
        ensures
            drawing@ == bare(area, views(lines@), wrap),
    {
        Drawing {
            area,
            widget: Widget::Paragraph {
                lines,
                frame: None,
                wrap,
                alignment: Alignment::Left,
                style: TextStyle::plain(),
            },
        }
    }
}

/// A list of one line.
pub fn one_line(made: Line) -> (lines: Vec<Line>)
    ensures
        views(lines@) == seq![made@],
{
    let mut lines: Vec<Line> = Vec::new();
    lines.push(made);
    assert(views(lines@) =~= seq![made@]);
    lines
}

/// A list of two lines.
pub fn two_lines(first: Line, second: Line) -> (lines: Vec<Line>)
    ensures
        views(lines@) == seq![first@, second@],
{
    let mut lines: Vec<Line> = Vec::new();
    lines.push(first);
    lines.push(second);
    assert(views(lines@) =~= seq![first@, second@]);
    lines
}

/// Draws one more thing.
pub fn draw(drawings: &mut Vec<Drawing>, drawing: Drawing)
    ensures
        views(final(drawings)@) == views(old(drawings)@).push(drawing@),
{
    drawings.push(drawing);
    assert(views(drawings@) =~= views(old(drawings)@).push(drawing@));
}

/// Draws everything that another list draws.
pub fn draw_all(drawings: &mut Vec<Drawing>, more: Vec<Drawing>)
    ensures
        views(final(drawings)@) == views(old(drawings)@) + views(more@),
{
    let mut more = more;
    let ghost added = more@;
    drawings.append(&mut more);
    assert(views(drawings@) =~= views(old(drawings)@) + views(added));
}

/// Adds one more line.
pub fn push_line(lines: &mut Vec<Line>, made: Line)
    ensures
        views(final(lines)@) == views(old(lines)@).push(made@),
{
    lines.push(made);
    assert(views(lines@) =~= views(old(lines)@).push(made@));
}

/// Adds one more span.
pub fn push_span(spans: &mut Vec<Span>, text: &str, style: TextStyle)
    ensures
        views(final(spans)@) == views(old(spans)@).push(span(text@, style)),
{
    let made = Span::new(text, style);
    spans.push(made);
    assert(views(spans@) =~= views(old(spans)@).push(made@));
}

} // verus!
