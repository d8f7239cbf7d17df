//! Rows of wrapped text under a common lead.

use vstd::prelude::*;

use crate::line::{spanv, styled_line, Line, Span, Style};
use crate::model::{line_views, views, SpanV};
use crate::strings::cat2;

verus! {

broadcast use crate::model::group_views;

/// Each row in one style behind a span: `first` before the first, `rest` before the
/// others.
pub open spec fn behind(rows: Seq<Seq<char>>, first: SpanV, rest: SpanV, style: Style) -> Seq<
    Seq<SpanV>,
> {
    Seq::new(
        rows.len(),
        |i: int|
            seq![
                if i == 0 {
                    first
                } else {
                    rest
                },
                spanv(rows[i], style),
            ],
    )
}

pub fn push_behind(out: &mut Vec<Line>, rows: &Vec<String>, first: &Span, rest: &Span, style: Style)
    ensures
        line_views(final(out)@) == line_views(old(out)@) + behind(
            views(rows@),
            first@,
            rest@,
            style,
        ),
{
    let ghost base = line_views(out@);
    let ghost all = behind(views(rows@), first@, rest@, style);
    let mut i: usize = 0;
    assert(base + all.take(0) =~= base);
    while i < rows.len()
        invariant
            i <= rows@.len(),
            all == behind(views(rows@), first@, rest@, style),
            line_views(out@) == base + all.take(i as int),
        decreases rows@.len() - i,
    {
        let lead = if i == 0 {
            first.copy()
        } else {
            rest.copy()
        };
        out.push(Line::of2(lead, Span::text(rows[i].as_str(), style)));
        i += 1;
        assert(all.take(i as int) =~= all.take(i - 1).push(all[i - 1]));
        assert(line_views(out@) =~= base + all.take(i as int));
    }
    assert(all.take(i as int) =~= all);
}

/// Each row in one style, the lead in front.
pub open spec fn indented(rows: Seq<Seq<char>>, lead: Seq<char>, style: Style) -> Seq<Seq<SpanV>> {
    Seq::new(rows.len(), |i: int| styled_line(lead + rows[i], style))
}

pub fn push_indented(out: &mut Vec<Line>, rows: &Vec<String>, lead: &str, style: Style)
    ensures
        line_views(final(out)@) == line_views(old(out)@) + indented(views(rows@), lead@, style),
{
    let ghost base = line_views(out@);
    let ghost all = indented(views(rows@), lead@, style);
    let mut i: usize = 0;
    assert(base + all.take(0) =~= base);
    while i < rows.len()
        invariant
            i <= rows@.len(),
            all == indented(views(rows@), lead@, style),
            line_views(out@) == base + all.take(i as int),
        decreases rows@.len() - i,
    {
        out.push(Line::of(Span::new(cat2(lead, rows[i].as_str()), style)));
        i += 1;
        assert(all.take(i as int) =~= all.take(i - 1).push(all[i - 1]));
        assert(line_views(out@) =~= base + all.take(i as int));
    }
    assert(all.take(i as int) =~= all);
}

/// One line, where it is wanted.
pub open spec fn line_if(wanted: bool, line: Seq<SpanV>) -> Seq<Seq<SpanV>> {
    if wanted {
        seq![line]
    } else {
        Seq::empty()
    }
}

/// One span, where it is wanted.
pub open spec fn span_if(wanted: bool, span: SpanV) -> Seq<SpanV> {
    if wanted {
        seq![span]
    } else {
        Seq::empty()
    }
}

} // verus!
