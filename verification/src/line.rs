//! Styled text: colors, styles, spans and lines.

use vstd::prelude::*;

use crate::model::{line_views, plain, span_views, SpanV};
use crate::strings::{repeat_char, repeated};

verus! {

broadcast use crate::model::group_views;

#[derive(Clone, Copy, Debug, PartialEq, Eq, Structural)]
pub enum Color {
    /// The terminal's own color.
    Reset,
    Yellow,
    Cyan,
    Rgb(u8, u8, u8),
}

#[derive(Clone, Copy, Debug, PartialEq, Eq, Structural)]
pub struct Style {
    pub fg: Option<Color>,
    pub bg: Option<Color>,
    pub bold: bool,
    pub dim: bool,
}

/// No color and no modifier.
pub open spec fn no_style() -> Style {
    Style { fg: None, bg: None, bold: false, dim: false }
}

/// A foreground color alone.
pub open spec fn fg_style(c: Color) -> Style {
    Style { fg: Some(c), ..no_style() }
}

/// A foreground color in bold.
pub open spec fn bold_style(c: Color) -> Style {
    Style { fg: Some(c), bold: true, ..no_style() }
}

impl Style {
    pub fn plain() -> (r: Style)
        ensures
            r == no_style(),
    {
        Style { fg: None, bg: None, bold: false, dim: false }
    }

    pub fn fg(c: Color) -> (r: Style)
        ensures
            r == fg_style(c),
    {
        Style { fg: Some(c), bg: None, bold: false, dim: false }
    }

    pub fn bold(c: Color) -> (r: Style)
        ensures
            r == bold_style(c),
    {
        Style { fg: Some(c), bg: None, bold: true, dim: false }
    }

    /// The same style on the background `c`.
    pub fn on(self, c: Color) -> (r: Style)
        ensures
            r == (Style { bg: Some(c), ..self }),
    {
        Style { fg: self.fg, bg: Some(c), bold: self.bold, dim: self.dim }
    }
}

/// A piece of text in one style.
#[derive(Debug)]
pub struct Span {
    pub content: String,
    pub style: Style,
}

/// A row of spans.
#[derive(Debug)]
pub struct Line {
    pub spans: Vec<Span>,
}

pub open spec fn spanv(content: Seq<char>, style: Style) -> SpanV {
    SpanV { content, style }
}

/// An unstyled line.
pub open spec fn raw_line(text: Seq<char>) -> Seq<SpanV> {
    seq![spanv(text, no_style())]
}

/// A line in one style.
pub open spec fn styled_line(text: Seq<char>, style: Style) -> Seq<SpanV> {
    seq![spanv(text, style)]
}

/// A row of `n` unstyled spaces; nothing where there are none.
pub open spec fn spaces(n: int) -> Seq<SpanV> {
    if n > 0 {
        seq![spanv(repeated(' ', n as nat), no_style())]
    } else {
        Seq::empty()
    }
}

impl Span {
    pub fn new(content: String, style: Style) -> (r: Span)
        ensures
            r@ == spanv(content@, style),
    {
        Span { content, style }
    }

    pub fn text(content: &str, style: Style) -> (r: Span)
        ensures
            r@ == spanv(content@, style),
    {
        Span { content: content.to_owned(), style }
    }

    pub fn raw(content: &str) -> (r: Span)
        ensures
            r@ == spanv(content@, no_style()),
    {
        Span { content: content.to_owned(), style: Style::plain() }
    }

    pub fn copy(&self) -> (r: Span)
        ensures
            r@ == self@,
    {
        Span { content: self.content.clone(), style: self.style }
    }
}

impl Line {
    /// A line without spans.
    pub fn empty() -> (r: Line)
        ensures
            r@ == Seq::<SpanV>::empty(),
    {
        Line { spans: Vec::new() }
    }

    /// A line of one span.
    pub fn of(span: Span) -> (r: Line)
        ensures
            r@ == seq![span@],
    {
        let mut spans = Vec::new();
        spans.push(span);
        let r = Line { spans };
        assert(r@ =~= seq![span@]);
        r
    }

    /// The line of these spans.
    pub fn from(spans: Vec<Span>) -> (r: Line)
        ensures
            r@ == span_views(spans@),
    {
        Line { spans }
    }

    /// A line of two spans.
    pub fn of2(a: Span, b: Span) -> (r: Line)
        ensures
            r@ == seq![a@, b@],
    {
        let mut spans = Vec::new();
        spans.push(a);
        spans.push(b);
        let r = Line { spans };
        assert(r@ =~= seq![a@, b@]);
        r
    }

    /// A line of three spans.
    pub fn of3(a: Span, b: Span, c: Span) -> (r: Line)
        ensures
            r@ == seq![a@, b@, c@],
    {
        let mut spans = Vec::new();
        spans.push(a);
        spans.push(b);
        spans.push(c);
        let r = Line { spans };
        assert(r@ =~= seq![a@, b@, c@]);
        r
    }

    pub fn push(&mut self, span: Span)
        ensures
            final(self)@ == old(self)@.push(span@),
    {
        self.spans.push(span);
    }

    /// Appends two spans.
    pub fn push2(&mut self, a: Span, b: Span)
        ensures
            final(self)@ == old(self)@ + seq![a@, b@],
    {
        self.spans.push(a);
        self.spans.push(b);
        assert(self@ =~= old(self)@ + seq![a@, b@]);
    }

    /// Appends `n` spaces.
    pub fn push_spaces(&mut self, n: usize)
        ensures
            final(self)@ == old(self)@ + spaces(n as int),
    {
        if n > 0 {
            self.spans.push(Span::new(repeat_char(' ', n), Style::plain()));
        }
        assert(self@ =~= old(self)@ + spaces(n as int));
    }

    /// Appends the spans of `more`.
    pub fn extend(&mut self, more: Line)
        ensures
            final(self)@ == old(self)@ + more@,
    {
        let mut spans = more.spans;
        let ghost m = spans@;
        self.spans.append(&mut spans);
        assert(self@ =~= old(self)@ + span_views(m));
    }

    pub fn copy(&self) -> (r: Line)
        ensures
            r@ == self@,
    {
        let mut spans: Vec<Span> = Vec::new();
        let mut i: usize = 0;
        while i < self.spans.len()
            invariant
                i <= self.spans@.len(),
                span_views(spans@) == self@.take(i as int),
            decreases self.spans@.len() - i,
        {
            spans.push(self.spans[i].copy());
            i += 1;
            assert(self@.take(i as int) =~= self@.take(i - 1).push(self@[i - 1]));
        }
        assert(self@.take(i as int) =~= self@);
        Line { spans }
    }

    /// The text of the line, without styles.
    pub fn to_text(&self) -> (r: String)
        ensures
            r@ == plain(self@),
    {
        let mut out = String::new();
        let mut i: usize = 0;
        assert(self@.take(0) =~= Seq::<SpanV>::empty());
        while i < self.spans.len()
            invariant
                i <= self.spans@.len(),
                out@ == plain(self@.take(i as int)),
            decreases self.spans@.len() - i,
        {
            out.append(self.spans[i].content.as_str());
            i += 1;
            assert(self@.take(i as int).drop_last() =~= self@.take(i - 1));
        }
        assert(self@.take(i as int) =~= self@);
        out
    }
}

/// Appends the lines `more` to `out`.
pub fn extend_lines(out: &mut Vec<Line>, more: Vec<Line>)
    ensures
        line_views(final(out)@) == line_views(old(out)@) + line_views(more@),
{
    let mut more = more;
    let ghost m0 = more@;
    out.append(&mut more);
    assert(line_views(out@) =~= line_views(old(out)@) + line_views(m0));
}

} // verus!
