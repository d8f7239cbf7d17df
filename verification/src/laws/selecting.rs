//! What selecting text promises: what is copied, and what is painted.

use vstd::prelude::*;

use crate::laws::larger;
use crate::line::{Color, Style};
use crate::model::{plain, SpanV};
use crate::selection::{
    cluster_cells, column_after, highlighted, in_place, overlapping, selected_rows, selected_style,
    selected_text, sliced, span_of, TextPos, TextSelection,
};
use crate::strings::joined;
use crate::theme::Theme;
use crate::width::{columns_sum, concat, concat_adds, unicode_graphemes, unicode_str_width};

verus! {

/// The cells of the first `n` clusters: those of their characters, and one at least for
/// each.
pub open spec fn cells_before(gs: Seq<Seq<char>>, n: int) -> int
    decreases n,
{
    if n <= 0 {
        0
    } else {
        cells_before(gs, n - 1) + larger(columns_sum(gs[n - 1]) as int, 1)
    }
}

proof fn cells_grow(gs: Seq<Seq<char>>, a: int, b: int)
    requires
        0 <= a <= b,
    ensures
        cells_before(gs, a) + (b - a) <= cells_before(gs, b),
    decreases b - a,
{
    if a < b {
        cells_grow(gs, a, b - 1);
    }
}

proof fn nothing_behind(gs: Seq<Seq<char>>, i: int, col: int, from: int, to: int)
    requires
        0 <= i,
        col >= to,
    ensures
        overlapping(gs, i, col, from, to) == Seq::<char>::empty(),
    decreases gs.len() - i,
{
    if i < gs.len() {
        nothing_behind(gs, i + 1, col + cluster_cells(gs[i]), from, to);
        assert(Seq::<char>::empty() + Seq::<char>::empty() =~= Seq::<char>::empty());
    }
}

proof fn touched_from(gs: Seq<Seq<char>>, a: int, b: int, from: int, to: int, i: int)
    requires
        0 <= a < b <= gs.len(),
        cells_before(gs, a) <= from < cells_before(gs, a + 1),
        cells_before(gs, b - 1) < to <= cells_before(gs, b),
        0 <= i <= gs.len(),
    ensures
        i <= a ==> overlapping(gs, i, cells_before(gs, i), from, to) == concat(gs.subrange(a, b)),
        a <= i <= b ==> overlapping(gs, i, cells_before(gs, i), from, to) == concat(
            gs.subrange(i, b),
        ),
        b <= i ==> overlapping(gs, i, cells_before(gs, i), from, to) == Seq::<char>::empty(),
    decreases gs.len() - i,
{
    if i >= b {
        cells_grow(gs, b, i);
        nothing_behind(gs, i, cells_before(gs, i), from, to);
        assert(gs.subrange(b, b) =~= Seq::<Seq<char>>::empty());
    } else {
        touched_from(gs, a, b, from, to, i + 1);
        assert(cells_before(gs, i + 1) == cells_before(gs, i) + cluster_cells(gs[i]));
        let rest = overlapping(gs, i + 1, cells_before(gs, i + 1), from, to);
        if i < a {
            cells_grow(gs, i + 1, a);
            assert(Seq::<char>::empty() + rest =~= rest);
        } else {
            cells_grow(gs, a + 1, i + 1);
            cells_grow(gs, i, b - 1);
            assert(seq![gs[i]] + gs.subrange(i + 1, b) =~= gs.subrange(i, b));
            concat_adds(seq![gs[i]], gs.subrange(i + 1, b));
            assert(seq![gs[i]].drop_last() =~= Seq::<Seq<char>>::empty());
            reveal_with_fuel(concat, 2);
            assert(concat(seq![gs[i]]) =~= gs[i]);
        }
    }
}

/// A cut by columns copies exactly the clusters that it touches, each whole: from the one
/// that the first column lies in to the one that the last lies in.
pub proof fn cut_copies_the_touched_clusters(s: Seq<char>, a: int, b: int, from: int, to: int)
    requires
        0 <= a < b <= unicode_graphemes(s).len(),
        cells_before(unicode_graphemes(s), a) <= from < cells_before(unicode_graphemes(s), a + 1),
        cells_before(unicode_graphemes(s), b - 1) < to <= cells_before(unicode_graphemes(s), b),
    ensures
        from < to ==> sliced(s, from, to) == concat(unicode_graphemes(s).subrange(a, b)),
{
    touched_from(unicode_graphemes(s), a, b, from, to, 0);
}

/// A cut of no columns copies nothing, and so does one behind the text.
pub proof fn cut_of_nothing_is_empty(s: Seq<char>, from: int, to: int)
    ensures
        from >= to ==> sliced(s, from, to).len() == 0,
        from >= cells_before(unicode_graphemes(s), unicode_graphemes(s).len() as int) ==> sliced(
            s,
            from,
            to,
        ).len() == 0,
{
    if from >= cells_before(unicode_graphemes(s), unicode_graphemes(s).len() as int) {
        none_reached(unicode_graphemes(s), 0, from, to);
    }
}

proof fn none_reached(gs: Seq<Seq<char>>, i: int, from: int, to: int)
    requires
        0 <= i <= gs.len(),
        from >= cells_before(gs, gs.len() as int),
    ensures
        overlapping(gs, i, cells_before(gs, i), from, to) == Seq::<char>::empty(),
    decreases gs.len() - i,
{
    if i < gs.len() {
        none_reached(gs, i + 1, from, to);
        cells_grow(gs, i + 1, gs.len() as int);
        assert(cells_before(gs, i + 1) == cells_before(gs, i) + cluster_cells(gs[i]));
        assert(Seq::<char>::empty() + Seq::<char>::empty() =~= Seq::<char>::empty());
    }
}

proof fn all_touched(gs: Seq<Seq<char>>, i: int, to: int)
    requires
        0 <= i <= gs.len(),
        cells_before(gs, gs.len() as int) <= to,
    ensures
        overlapping(gs, i, cells_before(gs, i), 0, to) == concat(gs.skip(i)),
    decreases gs.len() - i,
{
    if i < gs.len() {
        all_touched(gs, i + 1, to);
        cells_grow(gs, 0, i);
        cells_grow(gs, i + 1, gs.len() as int);
        assert(cells_before(gs, i + 1) == cells_before(gs, i) + cluster_cells(gs[i]));
        assert(seq![gs[i]] + gs.skip(i + 1) =~= gs.skip(i));
        concat_adds(seq![gs[i]], gs.skip(i + 1));
        assert(seq![gs[i]].drop_last() =~= Seq::<Seq<char>>::empty());
        reveal_with_fuel(concat, 2);
        assert(concat(seq![gs[i]]) =~= gs[i]);
    } else {
        assert(gs.skip(i) =~= Seq::<Seq<char>>::empty());
    }
}

/// A cut from the first column that is as wide as the text copies all of it.
pub proof fn full_cut_copies_everything(s: Seq<char>, to: int)
    requires
        to > 0,
        cells_before(unicode_graphemes(s), unicode_graphemes(s).len() as int) <= to,
    ensures
        sliced(s, 0, to) == concat(unicode_graphemes(s)),
{
    all_touched(unicode_graphemes(s), 0, to);
    assert(unicode_graphemes(s).skip(0) =~= unicode_graphemes(s));
}

/// The row and column where a selection starts, and where it ends, whichever way it was
/// dragged.
pub open spec fn runs(sel: TextSelection, start: TextPos, end: TextPos) -> bool {
    &&& start.row < end.row || (start.row == end.row && start.col <= end.col)
    &&& (sel.anchor == Some(start) && sel.focus == Some(end)) || (sel.anchor == Some(end)
        && sel.focus == Some(start))
}

/// A selection copies one line per row that it spans. Every row before its last is
/// copied to the row's end, and one that it covers from its first column is copied
/// whole, however wide its characters are; the last row is copied up to where the
/// selection ends.
pub proof fn covered_rows_are_copied_whole(
    rows: Seq<Seq<char>>,
    sel: TextSelection,
    start: TextPos,
    end: TextPos,
    r: int,
)
    requires
        runs(sel, start, end),
        end.row < rows.len(),
        start.row <= r <= end.row,
    ensures
        ({
            let parts = selected_rows(
                rows,
                start.row as int,
                end.row as int,
                start.col as int,
                end.col as int,
            );
            let gs = unicode_graphemes(rows[r]);
            let first = if r == start.row {
                start.col as int
            } else {
                0
            };
            &&& selected_text(rows, sel) == joined(parts, "\n"@)
            &&& parts.len() == end.row - start.row + 1
            &&& r < end.row && first == 0 && cells_before(gs, gs.len() as int)
                <= unicode_str_width(rows[r]) && unicode_str_width(rows[r]) > 0 ==> parts[r
                - start.row] == concat(gs)
            &&& r < end.row ==> parts[r - start.row] == sliced(
                rows[r],
                first,
                unicode_str_width(rows[r]) as int,
            )
            &&& r == end.row ==> parts[r - start.row] == sliced(rows[r], first, end.col as int)
        }),
{
    let gs = unicode_graphemes(rows[r]);
    if r < end.row && cells_before(gs, gs.len() as int) <= unicode_str_width(rows[r])
        && unicode_str_width(rows[r]) > 0 {
        full_cut_copies_everything(rows[r], unicode_str_width(rows[r]) as int);
    }
}

/// The text of the spans on a background.
pub open spec fn on_background(l: Seq<SpanV>, bg: Color) -> Seq<char>
    decreases l.len(),
{
    if l.len() == 0 {
        Seq::empty()
    } else {
        on_background(l.drop_last(), bg) + (if l.last().style.bg == Some(bg) {
            l.last().content
        } else {
            Seq::empty()
        })
    }
}

proof fn background_adds(a: Seq<SpanV>, b: Seq<SpanV>, bg: Color)
    ensures
        on_background(a + b, bg) == on_background(a, bg) + on_background(b, bg),
    decreases b.len(),
{
    if b.len() == 0 {
        assert(a + b =~= a);
        assert(on_background(a, bg) + on_background(b, bg) =~= on_background(a, bg));
    } else {
        assert((a + b).drop_last() =~= a + b.drop_last());
        background_adds(a, b.drop_last(), bg);
        let last = if b.last().style.bg == Some(bg) {
            b.last().content
        } else {
            Seq::empty()
        };
        assert(on_background(a, bg) + on_background(b.drop_last(), bg) + last =~= on_background(
            a,
            bg,
        ) + (on_background(b.drop_last(), bg) + last));
    }
}

proof fn background_of_one(content: Seq<char>, style: Style, bg: Color)
    ensures
        style.bg == Some(bg) ==> on_background(span_of(content, style), bg) == content,
        style.bg != Some(bg) ==> on_background(span_of(content, style), bg)
            == Seq::<char>::empty(),
{
    let l = span_of(content, style);
    if content.len() > 0 {
        assert(l.drop_last() =~= Seq::<SpanV>::empty());
        reveal_with_fuel(on_background, 2);
        assert(Seq::<char>::empty() + content =~= content);
        assert(Seq::<char>::empty() + Seq::<char>::empty() =~= Seq::<char>::empty());
    } else {
        assert(content =~= Seq::<char>::empty());
    }
}

proof fn painted_is_overlap(gs: Seq<Seq<char>>, i: int, from: int, to: int)
    requires
        0 <= i <= gs.len(),
    ensures
        in_place(gs, i, cells_before(gs, i), from, to, 1) == overlapping(
            gs,
            i,
            cells_before(gs, i),
            from,
            to,
        ),
    decreases gs.len() - i,
{
    if i < gs.len() {
        assert(cells_before(gs, i + 1) == cells_before(gs, i) + cluster_cells(gs[i]));
        painted_is_overlap(gs, i + 1, from, to);
    }
}

/// What is painted of a row is what is copied of it: over a whole selection, in every
/// row that it spans. Rows outside it stay as they are.
pub proof fn painted_is_copied(
    rows: Seq<Seq<char>>,
    s: SpanV,
    sel: TextSelection,
    start: TextPos,
    end: TextPos,
    theme: Theme,
    r: int,
)
    requires
        runs(sel, start, end),
        end.row < rows.len(),
        0 <= r < rows.len(),
        rows[r] == s.content,
        s.style.bg != Some(theme.border.normal),
        cells_before(
            unicode_graphemes(s.content),
            unicode_graphemes(s.content).len() as int,
        ) <= unicode_str_width(s.content),
        s.content.len() > 0,
    ensures
        !(start.row <= r <= end.row) ==> highlighted(seq![s], r, sel, theme) == seq![s],
        start.row <= r <= end.row ==> on_background(
            highlighted(seq![s], r, sel, theme),
            theme.border.normal,
        ) == selected_rows(
            rows,
            start.row as int,
            end.row as int,
            start.col as int,
            end.col as int,
        )[r - start.row],
{
    if start.row <= r <= end.row {
        let bg = theme.border.normal;
        let gs = unicode_graphemes(s.content);
        let from = if r == start.row {
            start.col as int
        } else {
            0
        };
        let to = if r == end.row {
            end.col as int
        } else {
            unicode_str_width(s.content) as int
        };
        let l = seq![s];
        assert(l.drop_last() =~= Seq::<SpanV>::empty());
        reveal_with_fuel(plain, 2);
        assert(plain(l) =~= s.content);
        reveal_with_fuel(on_background, 2);
        assert(on_background(l, bg) =~= Seq::<char>::empty());
        let shown = highlighted(l, r, sel, theme);
        reveal_with_fuel(crate::selection::painted_from, 2);
        if from >= to {
            assert(shown == l);
            assert(sliced(s.content, from, to) =~= Seq::<char>::empty());
        } else if unicode_str_width(s.content) <= from || 0 >= to {
            assert(shown =~= l);
            none_reached(gs, 0, from, to);
        } else {
            let x = span_of(in_place(gs, 0, 0, from, to, 0), s.style);
            let y = span_of(in_place(gs, 0, 0, from, to, 1), selected_style(s.style, theme));
            let z = span_of(in_place(gs, 0, 0, from, to, 2), s.style);
            assert(shown =~= x + y + z);
            background_adds(x + y, z, bg);
            background_adds(x, y, bg);
            background_of_one(in_place(gs, 0, 0, from, to, 0), s.style, bg);
            background_of_one(
                in_place(gs, 0, 0, from, to, 1),
                selected_style(s.style, theme),
                bg,
            );
            background_of_one(in_place(gs, 0, 0, from, to, 2), s.style, bg);
            painted_is_overlap(gs, 0, from, to);
            let none = Seq::<char>::empty();
            let mid = overlapping(gs, 0, 0, from, to);
            assert(none + mid + none =~= mid);
        }
    }
}

/// Painting changes the background alone: a text keeps its color and its weight, and one
/// without a color gets the primary one.
pub proof fn painting_keeps_the_text_readable(style: Style, theme: Theme)
    ensures
        selected_style(style, theme).bg == Some(theme.border.normal),
        style.fg is Some ==> selected_style(style, theme).fg == style.fg,
        style.fg is None ==> selected_style(style, theme).fg == Some(theme.text.primary),
        selected_style(style, theme).bold == style.bold,
        selected_style(style, theme).dim == style.dim,
{
}

/// Without rows, or without a selection, nothing is copied; rows past the end count as
/// the last row.
pub proof fn nothing_selected_copies_nothing(rows: Seq<Seq<char>>, sel: TextSelection)
    ensures
        rows.len() == 0 ==> selected_text(rows, sel).len() == 0,
        sel.anchor is None || sel.focus is None ==> selected_text(rows, sel).len() == 0,
{
}

/// A cluster takes the columns of its characters, and one at least.
pub proof fn clusters_take_their_columns(g: Seq<char>)
    ensures
        columns_sum(g) > 0 ==> cluster_cells(g) == columns_sum(g),
        columns_sum(g) == 0 ==> cluster_cells(g) == 1,
{
}

/// A selection that runs past the last row ends in the last row.
pub proof fn rows_past_the_end_count_as_the_last(
    rows: Seq<Seq<char>>,
    start: TextPos,
    end: TextPos,
    dragging: bool,
)
    requires
        0 < rows.len() <= usize::MAX,
        start.row < rows.len() <= end.row,
    ensures
        ({
            let last = TextPos { row: (rows.len() - 1) as usize, col: end.col };
            let sel = TextSelection { anchor: Some(start), focus: Some(end), dragging };
            let cut = TextSelection { anchor: Some(start), focus: Some(last), dragging };
            start.row < rows.len() - 1 || start.col <= end.col ==> selected_text(rows, sel)
                == selected_text(rows, cut)
        }),
{
}

proof fn columns_run_on(gs: Seq<Seq<char>>, i: int, col: int)
    requires
        0 <= i <= gs.len(),
    ensures
        column_after(gs, i, col) == col + cells_before(gs, gs.len() as int) - cells_before(gs, i),
    decreases gs.len() - i,
{
    if i < gs.len() {
        columns_run_on(gs, i + 1, col + cluster_cells(gs[i]));
        assert(cells_before(gs, i + 1) == cells_before(gs, i) + cluster_cells(gs[i]));
    }
}

/// Behind a span that is painted the columns run on by what its clusters take.
pub proof fn painting_runs_on_behind_a_span(gs: Seq<Seq<char>>, col: int)
    ensures
        column_after(gs, 0, col) == col + cells_before(gs, gs.len() as int),
{
    columns_run_on(gs, 0, col);
}

} // verus!
