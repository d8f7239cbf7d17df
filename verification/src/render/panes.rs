//! Scrolling panes.

use vstd::prelude::*;

use crate::geometry::Rect;
use crate::line::{spaces, Line, Span};
use crate::model::{line_views, SpanV};
use crate::number::{at_most, min_of, minus};
use crate::strings::{chars_of, string_of};
use crate::width::{columns_sum, fit_end, fit_forward, str_width, unicode_str_width};

verus! {

broadcast use crate::model::group_views;

/// The offset that keeps a focused line visible.
pub open spec fn list_offset(lines_len: int, area_h: int, focus: int) -> int {
    at_most(minus(focus, minus(area_h, 1)), minus(lines_len, area_h))
}

/// The scroll offset that keeps line `focus` visible in an `area_h`-tall pane
/// showing `lines_len` lines: 0 until the focus passes the fold, then just enough
/// to keep it on the last visible row, clamped to the content.
pub fn list_scroll_offset(lines_len: usize, area_h: usize, focus: usize) -> (r: usize)
    ensures
        r == list_offset(lines_len as int, area_h as int, focus as int),
{
    let max: usize = lines_len.saturating_sub(area_h);
    min_of(focus.saturating_sub(area_h.saturating_sub(1)), max)
}

/// A focused line of the content is always among the visible rows, and a pane that
/// has content below the fold is never scrolled past its end.
pub proof fn focus_stays_visible(lines_len: int, area_h: int, focus: int)
    requires
        0 <= focus < lines_len,
        0 < area_h,
    ensures
        list_offset(lines_len, area_h, focus) <= focus,
        focus < list_offset(lines_len, area_h, focus) + area_h,
        list_offset(lines_len, area_h, focus) <= minus(lines_len, area_h),
        focus < area_h ==> list_offset(lines_len, area_h, focus) == 0,
{
}

/// The spans of a line from the `i`-th on, cut or filled to `width` columns when
/// `used` of them are taken.
pub open spec fn padded_from(l: Seq<SpanV>, i: int, used: int, width: int) -> Seq<SpanV>
    decreases l.len() - i,
{
    if i >= l.len() || used >= width {
        spaces(width - used)
    } else {
        let s = l[i];
        let w = unicode_str_width(s.content) as int;
        if used + w <= width {
            seq![s] + padded_from(l, i + 1, used + w, width)
        } else {
            let end = fit_end(s.content, 0, width - used);
            let piece = s.content.take(end);
            if end > 0 {
                seq![SpanV { content: piece, style: s.style }] + spaces(
                    width - used - columns_sum(piece),
                )
            } else {
                spaces(width - used)
            }
        }
    }
}

/// A line cut or filled to `width` columns.
pub open spec fn padded_line(l: Seq<SpanV>, width: int) -> Seq<SpanV> {
    if width == 0 {
        Seq::empty()
    } else {
        padded_from(l, 0, 0, width)
    }
}

/// Truncate or right-pad a line so its display width equals `width`. Every cell
/// in the row is then owned by this frame's buffer. There is no ellipsis: the pane
/// clips, it needs no marker on every truncated row.
pub fn pad_line_to_width(line: &Line, width: usize) -> (r: Line)
    ensures
        r@ == padded_line(line@, width as int),
{
    let mut out = Line::empty();
    if width == 0 {
        return out;
    }
    let mut used: usize = 0;
    let mut i: usize = 0;
    assert(out@ + padded_from(line@, 0, 0, width as int) =~= padded_from(
        line@,
        0,
        0,
        width as int,
    ));
    while i < line.spans.len() && used < width
        invariant
            i <= line.spans@.len(),
            used <= width,
            out@ + padded_from(line@, i as int, used as int, width as int) == padded_from(
                line@,
                0,
                0,
                width as int,
            ),
        decreases line.spans@.len() - i,
    {
        let ghost before = out@;
        let span = &line.spans[i];
        assert(span@ == line@[i as int]);
        let w: usize = str_width(span.content.as_str());
        if w <= width - used {
            out.push(span.copy());
            proof {
                assert(before + (seq![span@] + padded_from(
                    line@,
                    i + 1,
                    used + w,
                    width as int,
                )) =~= out@ + padded_from(line@, i + 1, used + w, width as int));
            }
            used += w;
            i += 1;
            continue;
        }
        let chars = chars_of(span.content.as_str());
        let (end, cols) = fit_forward(&chars, 0, width - used);
        assert(chars@.subrange(0, end as int) =~= chars@.take(end as int));
        if end > 0 {
            out.push(Span::new(string_of(&chars, 0, end), span.style));
            used += cols;
        }
        let ghost mid = out@;
        out.push_spaces(width - used);
        assert(out@ =~= before + padded_from(
            line@,
            i as int,
            if end > 0 {
                used - cols
            } else {
                used as int
            },
            width as int,
        ));
        return out;
    }
    out.push_spaces(width - used);
    out
}

/// The visible rows of a pane: `height` of them, each filled to the width, empty ones
/// below the content.
pub open spec fn pane_rows(lines: Seq<Seq<SpanV>>, width: int, height: int, scroll: int) -> Seq<
    Seq<SpanV>,
> {
    Seq::new(
        if width == 0 {
            0
        } else {
            height as nat
        },
        |row: int|
            padded_line(
                if scroll + row < lines.len() {
                    lines[scroll + row]
                } else {
                    Seq::empty()
                },
                width,
            ),
    )
}

/// Every visible row of a pane, padded to the full width, so that a shorter content
/// overwrites the previous frame's cells.
pub fn pane_filled(lines: &Vec<Line>, area: Rect, scroll: usize) -> (r: Vec<Line>)
    ensures
        line_views(r@) == pane_rows(
            line_views(lines@),
            area.width as int,
            area.height as int,
            scroll as int,
        ),
{
    let mut out: Vec<Line> = Vec::new();
    let ghost all = pane_rows(
        line_views(lines@),
        area.width as int,
        area.height as int,
        scroll as int,
    );
    assert(line_views(out@) =~= all.take(0));
    if area.width == 0 || area.height == 0 {
        assert(all.take(0) =~= all);
        return out;
    }
    let width: usize = area.width as usize;
    let mut row: u16 = 0;
    while row < area.height
        invariant
            row <= area.height,
            width == area.width,
            width > 0,
            all == pane_rows(
                line_views(lines@),
                area.width as int,
                area.height as int,
                scroll as int,
            ),
            line_views(out@) == all.take(row as int),
        decreases area.height - row,
    {
        let ghost before = line_views(out@);
        if scroll < lines.len() && (row as usize) < lines.len() - scroll {
            out.push(pad_line_to_width(&lines[scroll + row as usize], width));
        } else {
            out.push(pad_line_to_width(&Line::empty(), width));
        }
        assert(line_views(out@) =~= before.push(all[row as int]));
        row += 1;
        assert(all.take(row as int) =~= all.take(row - 1).push(all[row - 1]));
    }
    assert(all.take(row as int) =~= all);
    out
}

/// A full-screen view's visible rows at the user's scroll offset, clamped so the
/// last line stays reachable but never scrolls past the end.
pub fn scrolled_pane(lines: &Vec<Line>, area: Rect, screen_scroll: usize) -> (r: Vec<Line>)
    ensures
        line_views(r@) == pane_rows(
            line_views(lines@),
            area.width as int,
            area.height as int,
            at_most(screen_scroll as int, minus(lines@.len() as int, area.height as int)),
        ),
{
    let max: usize = lines.len().saturating_sub(area.height as usize);
    pane_filled(lines, area, min_of(screen_scroll, max))
}

/// A selectable list's visible rows, scrolled so the `focus`-th line stays visible as
/// the selection moves (the list can be taller than the pane).
pub fn focused_pane(lines: &Vec<Line>, area: Rect, focus: usize) -> (r: Vec<Line>)
    ensures
        line_views(r@) == pane_rows(
            line_views(lines@),
            area.width as int,
            area.height as int,
            list_offset(lines@.len() as int, area.height as int, focus as int),
        ),
{
    let offset: usize = list_scroll_offset(lines.len(), area.height as usize, focus);
    pane_filled(lines, area, offset)
}

/// The rows from `offset` on, `height` of them at most.
pub open spec fn windowed(lines: Seq<Seq<SpanV>>, offset: int, height: int) -> Seq<Seq<SpanV>> {
    let from = at_most(offset, lines.len() as int);
    lines.subrange(from, at_most(from + height, lines.len() as int))
}

pub fn window_of(lines: Vec<Line>, offset: usize, height: usize) -> (r: Vec<Line>)
    ensures
        line_views(r@) == windowed(line_views(lines@), offset as int, height as int),
{
    let ghost all = line_views(lines@);
    let mut lines = lines;
    let from: usize = min_of(offset, lines.len());
    let mut shown = lines.split_off(from);
    if shown.len() > height {
        shown.truncate(height);
    }
    assert(line_views(shown@) =~= windowed(all, offset as int, height as int));
    shown
}

/// The offset of a page that keeps its tail visible; `scroll` pages back from there.
pub open spec fn tail_offset(lines_len: int, height: int, scroll: int) -> int {
    let max = minus(lines_len, height);
    max - at_most(scroll, max)
}

/// A page that follows its tail.
pub fn tail_pane(lines: Vec<Line>, height: usize, scroll: usize) -> (r: Vec<Line>)
    ensures
        line_views(r@) == windowed(
            line_views(lines@),
            tail_offset(lines@.len() as int, height as int, scroll as int),
            height as int,
        ),
{
    let max: usize = lines.len().saturating_sub(height);
    let offset: usize = max - min_of(scroll, max);
    window_of(lines, offset, height)
}

/// By default the last line is visible, and the first one can be reached by paging
/// back.
pub proof fn tail_is_visible(lines_len: int, height: int)
    requires
        0 <= lines_len,
        0 < height,
    ensures
        tail_offset(lines_len, height, 0) + height >= lines_len,
        tail_offset(lines_len, height, lines_len) == 0,
{
}

/// A page that follows its selection, without a scroll state of its own.
pub fn selection_pane(lines: Vec<Line>, height: usize, selected: Option<usize>) -> (r: Vec<Line>)
    ensures
        line_views(r@) == windowed(
            line_views(lines@),
            match selected {
                Some(s) => list_offset(lines@.len() as int, height as int, s as int),
                None => 0,
            },
            height as int,
        ),
{
    let offset: usize = match selected {
        Some(s) => list_scroll_offset(lines.len(), height, s),
        None => 0,
    };
    window_of(lines, offset, height)
}

} // verus!
