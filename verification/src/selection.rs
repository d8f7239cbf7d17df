//! Text selection in the conversation.
//!
//! A mouse drag inside the conversation builds a selection in display columns. On
//! release the selected plain text is copied to the clipboard.

use vstd::prelude::*;

use crate::line::{spanv, Line, Span, Style};
use crate::model::{plain, views, SpanV};
use crate::number::{at_least, at_most, min_of, sat};
use crate::strings::{chars_of, join, joined};
use crate::theme::Theme;
use crate::width::{
    char_columns, columns_sum, concat, concat_adds, graphemes, str_width, unicode_graphemes,
    unicode_str_width,
};

verus! {

broadcast use crate::model::group_views;

/// Display-cell position inside the full conversation content (not the viewport).
#[derive(Clone, Copy, Debug, PartialEq, Eq, Structural)]
pub struct TextPos {
    /// Absolute content line index (0-based).
    pub row: usize,
    /// Display column within the line (0-based).
    pub col: usize,
}

/// Document order.
pub open spec fn comes_before(a: TextPos, b: TextPos) -> bool {
    a.row < b.row || (a.row == b.row && a.col <= b.col)
}

/// Active or completed selection.
#[derive(Clone, Copy, Debug)]
pub struct TextSelection {
    pub anchor: Option<TextPos>,
    pub focus: Option<TextPos>,
    /// True while the primary button is held and dragging.
    pub dragging: bool,
}

impl Default for TextSelection {
    fn default() -> (r: Self)
        ensures
            r == nothing_selected(),
    {
        TextSelection { anchor: None, focus: None, dragging: false }
    }
}

pub open spec fn nothing_selected() -> TextSelection {
    TextSelection { anchor: None, focus: None, dragging: false }
}

impl TextSelection {
    /// It spans no cell.
    pub open spec fn empty(self) -> bool {
        match (self.anchor, self.focus) {
            (Some(a), Some(b)) => a == b,
            _ => true,
        }
    }

    /// The selected range, its start first.
    pub open spec fn span(self) -> Option<(TextPos, TextPos)> {
        match (self.anchor, self.focus) {
            (Some(a), Some(b)) => if comes_before(a, b) {
                Some((a, b))
            } else {
                Some((b, a))
            },
            _ => None,
        }
    }

    pub fn clear(&mut self)
        ensures
            *final(self) == nothing_selected(),
    {
        self.anchor = None;
        self.focus = None;
        self.dragging = false;
    }

    pub fn is_empty(&self) -> (r: bool)
        ensures
            r == self.empty(),
    {
        match (self.anchor, self.focus) {
            (Some(a), Some(b)) => a == b,
            _ => true,
        }
    }

    /// True when a selection is in progress or still painted after copy.
    pub fn is_active(&self) -> (r: bool)
        ensures
            r == (self.dragging || !self.empty()),
    {
        self.dragging || !self.is_empty()
    }

    /// Normalized (start, end) with start ≤ end in document order.
    pub fn range(&self) -> (r: Option<(TextPos, TextPos)>)
        ensures
            r == self.span(),
            r matches Some(p) ==> comes_before(p.0, p.1),
    {
        match (self.anchor, self.focus) {
            (Some(a), Some(b)) => if a.row < b.row || (a.row == b.row && a.col <= b.col) {
                Some((a, b))
            } else {
                Some((b, a))
            },
            _ => None,
        }
    }

    pub fn begin(&mut self, pos: TextPos)
        ensures
            *final(self) == (TextSelection { anchor: Some(pos), focus: Some(pos), dragging: true }),
    {
        self.anchor = Some(pos);
        self.focus = Some(pos);
        self.dragging = true;
    }

    /// Move the free end. Without an anchor there is nothing to extend.
    pub fn extend(&mut self, pos: TextPos)
        ensures
            *final(self) == (if old(self).anchor is Some {
                TextSelection { anchor: old(self).anchor, focus: Some(pos), dragging: true }
            } else {
                *old(self)
            }),
    {
        if self.anchor.is_some() {
            self.focus = Some(pos);
            self.dragging = true;
        }
    }

    /// The button is released. A selection of nothing goes away.
    pub fn finish(&mut self)
        ensures
            *final(self) == (if old(self).empty() {
                nothing_selected()
            } else {
                TextSelection { dragging: false, ..*old(self) }
            }),
    {
        self.dragging = false;
        if self.is_empty() {
            self.clear();
        }
    }
}

/// A drag selects the same range in either direction.
pub proof fn direction_does_not_matter(a: TextPos, b: TextPos, d: bool, e: bool)
    ensures
        (TextSelection { anchor: Some(a), focus: Some(b), dragging: d }).span() == (TextSelection {
            anchor: Some(b),
            focus: Some(a),
            dragging: e,
        }).span(),
{
}

// ---------------------------------------------------------------- columns

/// The cells of a grapheme cluster: at least one.
pub open spec fn cluster_cells(g: Seq<char>) -> int {
    at_least(columns_sum(g) as int, 1)
}

fn cluster_width(g: &str) -> (r: usize)
    ensures
        r == sat(cluster_cells(g@)),
{
    let v = chars_of(g);
    let mut w: usize = 0;
    let mut i: usize = 0;
    assert(v@.take(0) =~= Seq::<char>::empty());
    while i < v.len()
        invariant
            i <= v@.len(),
            w == sat(columns_sum(v@.take(i as int)) as int),
        decreases v@.len() - i,
    {
        w = w.saturating_add(char_columns(v[i]));
        i += 1;
        assert(v@.take(i as int).drop_last() =~= v@.take(i - 1));
    }
    assert(v@.take(i as int) =~= v@);
    if w == 0 {
        1
    } else {
        w
    }
}

/// The clusters from the `i`-th on, which begins at column `col`, that overlap the
/// columns `[from, to)`.
pub open spec fn overlapping(gs: Seq<Seq<char>>, i: int, col: int, from: int, to: int) -> Seq<char>
    decreases gs.len() - i,
{
    if i >= gs.len() {
        Seq::empty()
    } else {
        let next = col + cluster_cells(gs[i]);
        (if next > from && col < to {
            gs[i]
        } else {
            Seq::empty()
        }) + overlapping(gs, i + 1, next, from, to)
    }
}

/// What of a text lies in the columns `[from, to)`.
pub open spec fn sliced(s: Seq<char>, from: int, to: int) -> Seq<char> {
    if from >= to {
        Seq::empty()
    } else {
        overlapping(unicode_graphemes(s), 0, 0, from, to)
    }
}

proof fn nothing_past_the_end(gs: Seq<Seq<char>>, i: int, col: int, from: int, to: int)
    requires
        0 <= i,
        col >= to,
    ensures
        overlapping(gs, i, col, from, to) == Seq::<char>::empty(),
    decreases gs.len() - i,
{
    if i < gs.len() {
        nothing_past_the_end(gs, i + 1, col + cluster_cells(gs[i]), from, to);
        assert(Seq::<char>::empty() + Seq::<char>::empty() =~= Seq::<char>::empty());
    }
}

/// Slice `s` by display columns `[from, to)`.
pub fn slice_display_cols(s: &str, from: usize, to: usize) -> (r: String)
    ensures
        r@ == sliced(s@, from as int, to as int),
{
    let mut out = String::new();
    if from >= to {
        return out;
    }
    let gs = graphemes(s);
    let ghost gv = unicode_graphemes(s@);
    let ghost all = overlapping(gv, 0, 0, from as int, to as int);
    let mut col: usize = 0;
    let ghost mut true_col: int = 0;
    let mut i: usize = 0;
    assert(gv.len() == gs@.len());
    assert(out@ + all =~= all);
    while i < gs.len() && col < to
        invariant
            views(gs@) == gv,
            gv.len() == gs@.len(),
            i <= gs@.len(),
            from < to,
            0 <= true_col,
            col == sat(true_col),
            out@ + overlapping(gv, i as int, true_col, from as int, to as int) == all,
        decreases gs@.len() - i,
    {
        assert(gv[i as int] == gs@[i as int]@);
        let ghost before = out@;
        let next: usize = col.saturating_add(cluster_width(gs[i].as_str()));
        let ghost true_next = true_col + cluster_cells(gv[i as int]);
        if next > from {
            out.append(gs[i].as_str());
        }
        proof {
            let rest = overlapping(gv, i + 1, true_next, from as int, to as int);
            let piece = if true_next > from && true_col < to {
                gv[i as int]
            } else {
                Seq::empty()
            };
            assert(out@ =~= before + piece);
            assert(before + (piece + rest) =~= out@ + rest);
            true_col = true_next;
        }
        col = next;
        i += 1;
    }
    proof {
        if i < gs@.len() {
            nothing_past_the_end(gv, i as int, true_col, from as int, to as int);
        }
        assert(out@ =~= all);
    }
    out
}

// ---------------------------------------------------------------- copying

/// The rows `a` to `b`, the first from column `from` on, the last up to column `to`.
pub open spec fn selected_rows(rows: Seq<Seq<char>>, a: int, b: int, from: int, to: int) -> Seq<
    Seq<char>,
> {
    Seq::new(
        (b - a + 1) as nat,
        |k: int|
            sliced(
                rows[a + k],
                if k == 0 {
                    from
                } else {
                    0
                },
                if a + k == b {
                    to
                } else {
                    unicode_str_width(rows[a + k]) as int
                },
            ),
    )
}

/// The selected text: its rows, one per line. Rows past the end count as the last.
pub open spec fn selected_text(rows: Seq<Seq<char>>, sel: TextSelection) -> Seq<char> {
    match sel.span() {
        Some((start, end)) => if rows.len() == 0 {
            Seq::empty()
        } else {
            joined(
                selected_rows(
                    rows,
                    at_most(start.row as int, rows.len() - 1),
                    at_most(end.row as int, rows.len() - 1),
                    start.col as int,
                    end.col as int,
                ),
                "\n"@,
            )
        },
        None => Seq::empty(),
    }
}

/// Extract plain text for a selection from absolute content lines.
pub fn extract_selected_text(plain_lines: &Vec<String>, sel: &TextSelection) -> (r: String)
    ensures
        r@ == selected_text(views(plain_lines@), *sel),
{
    let (start, end) = match sel.range() {
        Some(p) => p,
        None => {
            return String::new();
        },
    };
    if plain_lines.len() == 0 {
        return String::new();
    }
    let last: usize = plain_lines.len() - 1;
    let start_row: usize = min_of(start.row, last);
    let end_row: usize = min_of(end.row, last);
    let mut parts: Vec<String> = Vec::new();
    let ghost rows = views(plain_lines@);
    let ghost all = selected_rows(
        rows,
        start_row as int,
        end_row as int,
        start.col as int,
        end.col as int,
    );
    let mut row: usize = start_row;
    assert(views(parts@) =~= all.take(0));
    while row <= end_row
        invariant
            start_row <= row <= end_row + 1,
            end_row <= last < usize::MAX,
            last == plain_lines@.len() - 1,
            rows == views(plain_lines@),
            all == selected_rows(
                rows,
                start_row as int,
                end_row as int,
                start.col as int,
                end.col as int,
            ),
            views(parts@) == all.take(row - start_row),
        decreases end_row + 1 - row,
    {
        let line = plain_lines[row].as_str();
        assert(rows[row as int] == line@);
        let from: usize = if row == start_row {
            start.col
        } else {
            0
        };
        let to: usize = if row == end_row {
            end.col
        } else {
            str_width(line)
        };
        parts.push(slice_display_cols(line, from, to));
        assert(all.take(row - start_row + 1) =~= all.take(row - start_row).push(
            all[row - start_row],
        ));
        row += 1;
    }
    assert(all.take(row - start_row) =~= all);
    join(&parts, "\n")
}

// ---------------------------------------------------------------- highlighting

/// Where a cluster in the columns `[c0, c1)` lies: before the selection, in it, or
/// after it.
pub open spec fn place_of(c0: int, c1: int, from: int, to: int) -> int {
    if c1 <= from {
        0
    } else if c0 < to {
        1
    } else {
        2
    }
}

/// The clusters from the `i`-th on that lie in place `p`.
pub open spec fn in_place(gs: Seq<Seq<char>>, i: int, col: int, from: int, to: int, p: int) -> Seq<
    char,
>
    decreases gs.len() - i,
{
    if i >= gs.len() {
        Seq::empty()
    } else {
        let next = col + cluster_cells(gs[i]);
        (if place_of(col, next, from, to) == p {
            gs[i]
        } else {
            Seq::empty()
        }) + in_place(gs, i + 1, next, from, to, p)
    }
}

/// The column behind the clusters.
pub open spec fn column_after(gs: Seq<Seq<char>>, i: int, col: int) -> int
    decreases gs.len() - i,
{
    if i >= gs.len() {
        col
    } else {
        column_after(gs, i + 1, col + cluster_cells(gs[i]))
    }
}

/// The style of selected text: only the background changes, and a text without a color
/// of its own gets one.
pub open spec fn selected_style(style: Style, theme: Theme) -> Style {
    Style {
        fg: if style.fg is None {
            Some(theme.text.primary)
        } else {
            style.fg
        },
        bg: Some(theme.border.normal),
        ..style
    }
}

/// A span, where it holds anything.
pub open spec fn span_of(content: Seq<char>, style: Style) -> Seq<SpanV> {
    if content.len() > 0 {
        seq![spanv(content, style)]
    } else {
        Seq::empty()
    }
}

/// A span that the selection touches, in up to three pieces.
pub open spec fn split_span(s: SpanV, col: int, from: int, to: int, theme: Theme) -> Seq<SpanV> {
    let gs = unicode_graphemes(s.content);
    span_of(in_place(gs, 0, col, from, to, 0), s.style) + span_of(
        in_place(gs, 0, col, from, to, 1),
        selected_style(s.style, theme),
    ) + span_of(in_place(gs, 0, col, from, to, 2), s.style)
}

/// The spans from the `i`-th on, which begins at column `col`, with the selection
/// painted. Empty ones go; one that the selection does not touch stays as it is.
pub open spec fn painted_from(l: Seq<SpanV>, i: int, col: int, from: int, to: int, theme: Theme) -> Seq<
    SpanV,
>
    decreases l.len() - i,
{
    if i >= l.len() {
        Seq::empty()
    } else {
        let s = l[i];
        let end = col + unicode_str_width(s.content);
        if s.content.len() == 0 {
            painted_from(l, i + 1, col, from, to, theme)
        } else if end <= from || col >= to {
            seq![s] + painted_from(l, i + 1, end, from, to, theme)
        } else {
            split_span(s, col, from, to, theme) + painted_from(
                l,
                i + 1,
                column_after(unicode_graphemes(s.content), 0, col),
                from,
                to,
                theme,
            )
        }
    }
}

/// A line of the content with the selection painted.
pub open spec fn highlighted(l: Seq<SpanV>, row: int, sel: TextSelection, theme: Theme) -> Seq<
    SpanV,
> {
    match sel.span() {
        Some((start, end)) => {
            let from = if row == start.row {
                start.col as int
            } else {
                0
            };
            let to = if row == end.row {
                end.col as int
            } else {
                unicode_str_width(plain(l)) as int
            };
            if row < start.row || row > end.row || plain(l).len() == 0 || from >= to {
                l
            } else {
                painted_from(l, 0, 0, from, to, theme)
            }
        },
        None => l,
    }
}

proof fn places_are_in_order(gs: Seq<Seq<char>>, i: int, col: int, from: int, to: int)
    requires
        0 <= i <= gs.len(),
        from < to,
    ensures
        col > from ==> in_place(gs, i, col, from, to, 0) == Seq::<char>::empty(),
        col >= to ==> in_place(gs, i, col, from, to, 1) == Seq::<char>::empty(),
        in_place(gs, i, col, from, to, 0) + in_place(gs, i, col, from, to, 1) + in_place(
            gs,
            i,
            col,
            from,
            to,
            2,
        ) == concat(gs.skip(i)),
    decreases gs.len() - i,
{
    let none = Seq::<char>::empty();
    if i >= gs.len() {
        assert(gs.skip(i) =~= Seq::<Seq<char>>::empty());
        assert(none + none + none =~= none);
    } else {
        let g = gs[i];
        let next = col + cluster_cells(g);
        places_are_in_order(gs, i + 1, next, from, to);
        let a = in_place(gs, i + 1, next, from, to, 0);
        let b = in_place(gs, i + 1, next, from, to, 1);
        let c = in_place(gs, i + 1, next, from, to, 2);
        assert(none + none =~= none);
        assert(seq![g] + gs.skip(i + 1) =~= gs.skip(i));
        concat_adds(seq![g], gs.skip(i + 1));
        assert(seq![g].drop_last() =~= Seq::<Seq<char>>::empty());
        reveal_with_fuel(concat, 2);
        assert(concat(seq![g]) =~= g);
        let p = place_of(col, next, from, to);
        if p == 0 {
            assert((g + a) + (none + b) + (none + c) =~= g + (a + b + c));
        } else if p == 1 {
            assert(a == none);
            assert((none + a) + (g + b) + (none + c) =~= g + (a + b + c));
        } else {
            assert(a == none && b == none);
            assert((none + a) + (none + b) + (g + c) =~= g + (a + b + c));
        }
    }
}

/// What is highlighted of a text is what is copied of it.
pub proof fn highlight_matches_the_copy(gs: Seq<Seq<char>>, i: int, col: int, from: int, to: int)
    requires
        0 <= i,
    ensures
        in_place(gs, i, col, from, to, 1) == overlapping(gs, i, col, from, to),
    decreases gs.len() - i,
{
    if i < gs.len() {
        highlight_matches_the_copy(gs, i + 1, col + cluster_cells(gs[i]), from, to);
    }
}

proof fn plain_adds(a: Seq<SpanV>, b: Seq<SpanV>)
    ensures
        plain(a + b) == plain(a) + plain(b),
    decreases b.len(),
{
    if b.len() == 0 {
        assert(a + b =~= a);
        assert(plain(a) + plain(b) =~= plain(a));
    } else {
        assert((a + b).drop_last() =~= a + b.drop_last());
        plain_adds(a, b.drop_last());
        assert(plain(a) + plain(b.drop_last()) + b.last().content =~= plain(a) + (plain(
            b.drop_last(),
        ) + b.last().content));
    }
}

proof fn plain_one(s: SpanV)
    ensures
        plain(seq![s]) == s.content,
{
    assert(seq![s].drop_last() =~= Seq::<SpanV>::empty());
    reveal_with_fuel(plain, 2);
    assert(Seq::<char>::empty() + s.content =~= s.content);
}

proof fn plain_span_of(content: Seq<char>, style: Style)
    ensures
        plain(span_of(content, style)) == content,
{
    if content.len() > 0 {
        plain_one(spanv(content, style));
    } else {
        assert(content =~= Seq::<char>::empty());
    }
}

proof fn plain_split(s: SpanV, col: int, from: int, to: int, theme: Theme)
    requires
        from < to,
        concat(unicode_graphemes(s.content)) == s.content,
    ensures
        plain(split_span(s, col, from, to, theme)) == s.content,
{
    let gs = unicode_graphemes(s.content);
    let a = in_place(gs, 0, col, from, to, 0);
    let b = in_place(gs, 0, col, from, to, 1);
    let c = in_place(gs, 0, col, from, to, 2);
    let sa = span_of(a, s.style);
    let sb = span_of(b, selected_style(s.style, theme));
    let sc = span_of(c, s.style);
    places_are_in_order(gs, 0, col, from, to);
    assert(gs.skip(0) =~= gs);
    plain_adds(sa + sb, sc);
    plain_adds(sa, sb);
    plain_span_of(a, s.style);
    plain_span_of(b, selected_style(s.style, theme));
    plain_span_of(c, s.style);
}

fn push_span(out: &mut Line, content: String, style: Style)
    ensures
        final(out)@ == old(out)@ + span_of(content@, style),
{
    if !content.as_str().is_empty() {
        out.push(Span::new(content, style));
    }
    assert(out@ =~= old(out)@ + span_of(content@, style));
}

/// Appends the pieces of a touched span, and returns the column behind it.
fn push_split(
    out: &mut Line,
    span: &Span,
    col: usize,
    Ghost(true_col): Ghost<int>,
    from: usize,
    to: usize,
    theme: &Theme,
) -> (r: usize)
    requires
        from < to,
        0 <= true_col,
        col == sat(true_col),
    ensures
        final(out)@ == old(out)@ + split_span(span@, true_col, from as int, to as int, *theme),
        r == sat(column_after(unicode_graphemes(span.content@), 0, true_col)),
        column_after(unicode_graphemes(span.content@), 0, true_col) >= true_col,
        plain(split_span(span@, true_col, from as int, to as int, *theme)) == span.content@,
{
    let gs = graphemes(span.content.as_str());
    let ghost gv = unicode_graphemes(span.content@);
    let ghost f = from as int;
    let ghost t = to as int;
    let mut before = String::new();
    let mut mid = String::new();
    let mut after = String::new();
    let mut c: usize = col;
    let ghost mut rc: int = true_col;
    let mut i: usize = 0;
    assert(gv.len() == gs@.len());
    assert(before@ + in_place(gv, 0, true_col, f, t, 0) =~= in_place(gv, 0, true_col, f, t, 0));
    assert(mid@ + in_place(gv, 0, true_col, f, t, 1) =~= in_place(gv, 0, true_col, f, t, 1));
    assert(after@ + in_place(gv, 0, true_col, f, t, 2) =~= in_place(gv, 0, true_col, f, t, 2));
    while i < gs.len()
        invariant
            views(gs@) == gv,
            gv.len() == gs@.len(),
            i <= gs@.len(),
            from < to,
            f == from,
            t == to,
            0 <= true_col <= rc,
            c == sat(rc),
            column_after(gv, 0, true_col) == column_after(gv, i as int, rc),
            before@ + in_place(gv, i as int, rc, f, t, 0) == in_place(gv, 0, true_col, f, t, 0),
            mid@ + in_place(gv, i as int, rc, f, t, 1) == in_place(gv, 0, true_col, f, t, 1),
            after@ + in_place(gv, i as int, rc, f, t, 2) == in_place(gv, 0, true_col, f, t, 2),
        decreases gs@.len() - i,
    {
        assert(gv[i as int] == gs@[i as int]@);
        let g = gs[i].as_str();
        let start: usize = c;
        c = c.saturating_add(cluster_width(g));
        let ghost next = rc + cluster_cells(gv[i as int]);
        let ghost p = place_of(rc, next, f, t);
        let ghost b0 = before@;
        let ghost m0 = mid@;
        let ghost a0 = after@;
        if c <= from {
            before.append(g);
        } else if start < to {
            mid.append(g);
        } else {
            after.append(g);
        }
        proof {
            let none = Seq::<char>::empty();
            let x = in_place(gv, i + 1, next, f, t, 0);
            let y = in_place(gv, i + 1, next, f, t, 1);
            let z = in_place(gv, i + 1, next, f, t, 2);
            assert(before@ + x =~= b0 + ((if p == 0 {
                g@
            } else {
                none
            }) + x));
            assert(mid@ + y =~= m0 + ((if p == 1 {
                g@
            } else {
                none
            }) + y));
            assert(after@ + z =~= a0 + ((if p == 2 {
                g@
            } else {
                none
            }) + z));
            rc = next;
        }
        i += 1;
    }
    assert(before@ =~= in_place(gv, 0, true_col, f, t, 0));
    assert(mid@ =~= in_place(gv, 0, true_col, f, t, 1));
    assert(after@ =~= in_place(gv, 0, true_col, f, t, 2));
    let ghost base = out@;
    push_span(out, before, span.style);
    let fg = match span.style.fg {
        // Selected text stays readable where it has no color of its own.
        None => Some(theme.text.primary),
        Some(color) => Some(color),
    };
    let mid_style = Style {
        fg,
        bg: Some(theme.border.normal),
        bold: span.style.bold,
        dim: span.style.dim,
    };
    push_span(out, mid, mid_style);
    push_span(out, after, span.style);
    proof {
        plain_split(span@, true_col, f, t, *theme);
        assert(out@ =~= base + split_span(span@, true_col, f, t, *theme));
    }
    c
}

/// Apply a soft highlight to selected cells on one viewport line.
///
/// Unselected spans keep their styles so the line does not jump, and selected cells
/// only change their background for the same reason. A full-width glyph across a
/// boundary of the selection lands in exactly one piece. The line's text stays the
/// same. `abs_row` is the absolute content row of the line.
pub fn apply_selection_highlight(line: Line, abs_row: usize, sel: &TextSelection, theme: &Theme) -> (r: Line)
    ensures
        r@ == highlighted(line@, abs_row as int, *sel, *theme),
        plain(r@) == plain(line@),
{
    let (start, end) = match sel.range() {
        Some(p) => p,
        None => {
            return line;
        },
    };
    if abs_row < start.row || abs_row > end.row {
        return line;
    }
    let text = line.to_text();
    if text.as_str().is_empty() {
        return line;
    }
    let from: usize = if abs_row == start.row {
        start.col
    } else {
        0
    };
    let to: usize = if abs_row == end.row {
        end.col
    } else {
        str_width(text.as_str())
    };
    if from >= to {
        return line;
    }
    let ghost all = painted_from(line@, 0, 0, from as int, to as int, *theme);
    let mut out = Line::empty();
    let mut col: usize = 0;
    let ghost mut true_col: int = 0;
    let mut i: usize = 0;
    assert(out@ + all =~= all);
    assert(line@.take(0) =~= Seq::<SpanV>::empty());
    while i < line.spans.len()
        invariant
            i <= line.spans@.len(),
            from < to,
            0 <= true_col,
            col == sat(true_col),
            all == painted_from(line@, 0, 0, from as int, to as int, *theme),
            out@ + painted_from(line@, i as int, true_col, from as int, to as int, *theme) == all,
            plain(out@) == plain(line@.take(i as int)),
        decreases line.spans@.len() - i,
    {
        let span = &line.spans[i];
        assert(span@ == line@[i as int]);
        let ghost before = out@;
        let ghost sv = span@;
        proof {
            assert(line@.take(i + 1) =~= line@.take(i as int) + seq![sv]);
            plain_adds(line@.take(i as int), seq![sv]);
            plain_one(sv);
        }
        if span.content.as_str().is_empty() {
            assert(plain(out@) + sv.content =~= plain(out@));
            i += 1;
            continue;
        }
        let w: usize = str_width(span.content.as_str());
        let span_end: usize = col.saturating_add(w);
        if span_end <= from || col >= to {
            col = span_end;
            out.push(span.copy());
            proof {
                let rest = painted_from(line@, i + 1, true_col + w, from as int, to as int, *theme);
                assert(before + (seq![sv] + rest) =~= out@ + rest);
                assert(out@ =~= before + seq![sv]);
                plain_adds(before, seq![sv]);
                true_col = true_col + w;
            }
            i += 1;
            continue;
        }
        let ghost next = column_after(unicode_graphemes(sv.content), 0, true_col);
        col = push_split(&mut out, span, col, Ghost(true_col), from, to, theme);
        proof {
            let pieces = split_span(sv, true_col, from as int, to as int, *theme);
            let rest = painted_from(line@, i + 1, next, from as int, to as int, *theme);
            assert(before + (pieces + rest) =~= out@ + rest);
            plain_adds(before, pieces);
            true_col = next;
        }
        i += 1;
    }
    proof {
        assert(line@.take(i as int) =~= line@);
        assert(out@ =~= all);
    }
    out
}

/// Flatten a line to plain text (for selection extraction).
pub fn line_to_plain(line: &Line) -> (r: String)
    ensures
        r@ == plain(line@),
{
    line.to_text()
}

} // verus!
