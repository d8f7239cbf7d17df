//! The mathematical values that contracts speak of: texts are sequences of
//! characters, a line is a sequence of styled pieces of text.

use vstd::prelude::*;

use crate::line::{Line, Span, Style};

verus! {

/// The texts held by a list of strings.
pub open spec fn views(v: Seq<String>) -> Seq<Seq<char>> {
    Seq::new(v.len(), |i: int| v[i]@)
}

/// A styled piece of text.
pub ghost struct SpanV {
    pub content: Seq<char>,
    pub style: Style,
}

impl View for Span {
    type V = SpanV;

    open spec fn view(&self) -> SpanV {
        SpanV { content: self.content@, style: self.style }
    }
}

/// The pieces held by a list of spans.
pub open spec fn span_views(v: Seq<Span>) -> Seq<SpanV> {
    Seq::new(v.len(), |i: int| v[i]@)
}

impl View for Line {
    type V = Seq<SpanV>;

    open spec fn view(&self) -> Seq<SpanV> {
        span_views(self.spans@)
    }
}

/// The lines held by a list of lines.
pub open spec fn line_views(v: Seq<Line>) -> Seq<Seq<SpanV>> {
    Seq::new(v.len(), |i: int| v[i]@)
}

/// The text of a line: its pieces one after the other.
pub open spec fn plain(l: Seq<SpanV>) -> Seq<char>
    decreases l.len(),
{
    if l.len() == 0 {
        Seq::empty()
    } else {
        plain(l.drop_last()) + l.last().content
    }
}

pub broadcast proof fn views_push(v: Seq<String>, s: String)
    ensures
        #[trigger] views(v.push(s)) == views(v).push(s@),
{
    assert(views(v.push(s)) =~= views(v).push(s@));
}

pub broadcast proof fn views_empty()
    ensures
        #[trigger] views(Seq::<String>::empty()) == Seq::<Seq<char>>::empty(),
{
    assert(views(Seq::<String>::empty()) =~= Seq::<Seq<char>>::empty());
}

pub broadcast proof fn span_views_push(v: Seq<Span>, s: Span)
    ensures
        #[trigger] span_views(v.push(s)) == span_views(v).push(s@),
{
    assert(span_views(v.push(s)) =~= span_views(v).push(s@));
}

pub broadcast proof fn span_views_empty()
    ensures
        #[trigger] span_views(Seq::<Span>::empty()) == Seq::<SpanV>::empty(),
{
    assert(span_views(Seq::<Span>::empty()) =~= Seq::<SpanV>::empty());
}

pub broadcast proof fn line_views_push(v: Seq<Line>, l: Line)
    ensures
        #[trigger] line_views(v.push(l)) == line_views(v).push(l@),
{
    assert(line_views(v.push(l)) =~= line_views(v).push(l@));
}

pub broadcast proof fn line_views_empty()
    ensures
        #[trigger] line_views(Seq::<Line>::empty()) == Seq::<Seq<SpanV>>::empty(),
{
    assert(line_views(Seq::<Line>::empty()) =~= Seq::<Seq<SpanV>>::empty());
}

pub broadcast group group_views {
    views_push,
    views_empty,
    span_views_push,
    span_views_empty,
    line_views_push,
    line_views_empty,
}

} // verus!
