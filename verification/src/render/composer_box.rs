//! The input box: its wrapped rows, its frame and where the caret is drawn.

use vstd::prelude::*;

use crate::i18n::{text_of, UiText};
use crate::line::{fg_style, spaces, spanv, styled_line, Line, Span, Style};
use crate::model::{line_views, views, SpanV};
use crate::number::{at_least, at_most, max_of, min_of, minus, room, room_of};
use crate::render::text::{
    display_prefix, display_prefix_advances, take_display_prefix, truncate_display, truncated,
};
use crate::screen::{ghost_for, slash_arg_ghost, Screen};
use crate::splash::{conversation_is_empty, is_turn};
use crate::state::{AppState, WorkbenchFocus};
use crate::status_line::{border_chip, opt_view, runtime_status_chip};
use crate::strings::{
    cat2, cat3, chars_of, dec, decimal, repeat_char, repeated, split_at_char, split_text,
    split_text_from, string_of,
};
use crate::theme::Theme;
use crate::width::{concat, concat_adds, str_width, unicode_str_width};

verus! {

broadcast use crate::model::group_views;

/// The most rows of text that the box shows.
pub const COMPOSER_MAX_ROWS: usize = 8;

/// The prompt of the first row.
pub const COMPOSER_PROMPT: &'static str = "› ";

/// The indent of the other rows.
pub const COMPOSER_CONT: &'static str = "  ";

/// One visual row of the soft-wrapped composer.
#[derive(Debug)]
pub struct ComposerVisRow {
    /// Leading prompt or continuation indent.
    pub prompt: &'static str,
    /// Attachment chips, only on the first visual row of the buffer.
    pub chips: String,
    /// Soft-wrapped slice of one logical line.
    pub text: String,
    /// When set, the caret sits on this row at this display column within `text`.
    pub caret_col: Option<usize>,
    /// Empty-buffer placeholder (visual only).
    pub placeholder: bool,
    /// Slash-argument hint after the caret (visual only).
    pub hint: Option<&'static str>,
}

/// A visual row as contracts speak of it.
pub ghost struct RowV {
    pub prompt: Seq<char>,
    pub chips: Seq<char>,
    pub text: Seq<char>,
    pub caret_col: Option<int>,
    pub placeholder: bool,
    pub hint: Option<Seq<char>>,
}

impl View for ComposerVisRow {
    type V = RowV;

    open spec fn view(&self) -> RowV {
        RowV {
            prompt: self.prompt@,
            chips: self.chips@,
            text: self.text@,
            caret_col: match self.caret_col {
                Some(c) => Some(c as int),
                None => None,
            },
            placeholder: self.placeholder,
            hint: match self.hint {
                Some(g) => Some(g@),
                None => None,
            },
        }
    }
}

/// The rows held by a list.
pub open spec fn row_views(v: Seq<ComposerVisRow>) -> Seq<RowV> {
    Seq::new(v.len(), |i: int| v[i]@)
}

/// What the rows of a buffer depend on besides its text.
pub ghost struct WrapV {
    pub width: int,
    pub chips: Seq<char>,
    /// The caret's logical line, and the columns before it on that line.
    pub crow: int,
    pub ccol: int,
    pub placeholder: bool,
    pub hint: Option<Seq<char>>,
}

/// Whether a row is the first of the buffer.
pub open spec fn is_first(li: int, start: int) -> bool {
    li == 0 && start == 0
}

pub open spec fn row_prompt(li: int, start: int) -> Seq<char> {
    if is_first(li, start) {
        COMPOSER_PROMPT@
    } else {
        COMPOSER_CONT@
    }
}

pub open spec fn row_chips(w: WrapV, li: int, start: int) -> Seq<char> {
    if is_first(li, start) {
        w.chips
    } else {
        ""@
    }
}

/// The columns that a row has for text.
pub open spec fn row_room(w: WrapV, li: int, start: int) -> int {
    room(
        w.width,
        unicode_str_width(row_prompt(li, start)) + unicode_str_width(row_chips(w, li, start)),
        1,
    )
}

/// Where a row that starts at `start` ends.
pub open spec fn row_end(w: WrapV, line: Seq<char>, li: int, start: int) -> int {
    start + display_prefix(line.skip(start), row_room(w, li, start))
}

/// The column of the caret on a row, where it is on that row. A caret at the end of a
/// full row with text behind it stands at the front of the next.
pub open spec fn row_caret(w: WrapV, line: Seq<char>, li: int, start: int) -> Option<int> {
    let e = row_end(w, line, li, start);
    let from = unicode_str_width(line.take(start)) as int;
    let wide = unicode_str_width(line.subrange(start, e)) as int;
    if li != w.crow || w.ccol < from || w.ccol > from + wide {
        None
    } else if w.ccol == from + wide && e < line.len() && wide >= row_room(w, li, start) {
        None
    } else {
        Some(w.ccol - from)
    }
}

/// The row of a logical line that starts at `start`.
pub open spec fn row_at(w: WrapV, line: Seq<char>, li: int, start: int) -> RowV {
    RowV {
        prompt: row_prompt(li, start),
        chips: row_chips(w, li, start),
        text: line.subrange(start, row_end(w, line, li, start)),
        caret_col: row_caret(w, line, li, start),
        placeholder: w.placeholder && is_first(li, start),
        hint: if li == w.crow && is_first(li, start) {
            w.hint
        } else {
            None
        },
    }
}

/// The rows of a logical line from `start` on; an empty line has one row too.
pub open spec fn line_rows(w: WrapV, line: Seq<char>, li: int, start: int) -> Seq<RowV>
    decreases line.len() - start,
{
    let e = row_end(w, line, li, start);
    if e <= start || e >= line.len() {
        seq![row_at(w, line, li, start)]
    } else {
        seq![row_at(w, line, li, start)] + line_rows(w, line, li, e)
    }
}

/// The rows of the first `n` logical lines.
pub open spec fn buffer_rows(w: WrapV, logical: Seq<Seq<char>>, n: int) -> Seq<RowV>
    decreases n,
{
    if n <= 0 {
        Seq::empty()
    } else {
        buffer_rows(w, logical, n - 1) + line_rows(w, logical[n - 1], n - 1, 0)
    }
}

/// The first row from `i` on that holds the caret.
pub open spec fn caret_row_from(rows: Seq<RowV>, i: int) -> Option<int>
    decreases rows.len() - i,
{
    if i >= rows.len() {
        None
    } else if rows[i].caret_col is Some {
        Some(i)
    } else {
        caret_row_from(rows, i + 1)
    }
}

/// The rows with a caret: where none has it, it stands at the end of the last.
pub open spec fn with_caret(rows: Seq<RowV>) -> Seq<RowV> {
    if caret_row_from(rows, 0) is None && rows.len() > 0 {
        rows.update(
            rows.len() - 1,
            RowV {
                caret_col: Some(unicode_str_width(rows.last().text) as int),
                ..rows.last()
            },
        )
    } else {
        rows
    }
}

/// The row that holds the caret.
pub open spec fn caret_index(rows: Seq<RowV>) -> int {
    match caret_row_from(rows, 0) {
        Some(i) => i,
        None => 0,
    }
}

/// The rows that are shown: eight at most, as far down as the caret allows.
pub open spec fn window_start(rows: Seq<RowV>) -> int {
    at_most(minus(rows.len() as int, 8), caret_index(rows))
}

pub open spec fn window_rows(rows: Seq<RowV>) -> Seq<RowV> {
    let s = window_start(rows);
    rows.subrange(s, s + at_most(rows.len() as int, 8))
}

/// The chips of `n` attachments.
pub open spec fn chips_of(n: nat) -> Seq<char>
    decreases n,
{
    if n == 0 {
        Seq::empty()
    } else {
        chips_of((n - 1) as nat) + ("[图片 #"@ + decimal(n) + "] "@)
    }
}

/// Whether a conversation has no turn yet.
pub open spec fn no_turns(state: AppState) -> bool {
    !(exists|i: int|
        0 <= i < state.transcript.items@.len() && is_turn(#[trigger] state.transcript.items@[i]))
}

/// What the rows of a composer depend on.
pub open spec fn wrap_of(state: AppState, width: int) -> WrapV {
    let before = split_at_char(state.composer.before(), '\n');
    let text = state.composer.text@;
    WrapV {
        width: at_least(width, 1),
        chips: chips_of(state.pending_attachments@.len()),
        crow: before.len() - 1,
        ccol: unicode_str_width(before.last()) as int,
        placeholder: no_turns(state) && text.len() == 0,
        hint: if state.composer.cursor >= text.len() {
            ghost_for(text, text_of(state.locale))
        } else {
            None
        },
    }
}

/// All rows of a composer.
pub open spec fn composer_rows(state: AppState, width: int) -> Seq<RowV> {
    let logical = split_at_char(state.composer.text@, '\n');
    with_caret(buffer_rows(wrap_of(state, width), logical, logical.len() as int))
}

fn attachment_chips(n: usize) -> (r: String)
    ensures
        r@ == chips_of(n as nat),
{
    let mut out = String::new();
    let mut i: usize = 0;
    assert(out@ =~= chips_of(0));
    while i < n
        invariant
            i <= n,
            out@ == chips_of(i as nat),
        decreases n - i,
    {
        i += 1;
        out.append(cat3("[图片 #", dec(i as u64).as_str(), "] ").as_str());
    }
    out
}

/// The facts that wrapping needs, as values.
struct Wrap {
    width: usize,
    chips: String,
    crow: usize,
    ccol: usize,
    placeholder: bool,
    hint: Option<&'static str>,
}

spec fn wrap_matches(x: Wrap, w: WrapV) -> bool {
    &&& x.width == w.width
    &&& x.chips@ == w.chips
    &&& x.crow == w.crow
    &&& x.ccol == w.ccol
    &&& x.placeholder == w.placeholder
    &&& opt_view(x.hint) == w.hint
    &&& w.width >= 1
}

fn push_line_rows(vis: &mut Vec<ComposerVisRow>, x: &Wrap, Ghost(w): Ghost<WrapV>, line: &str, li: usize)
    requires
        wrap_matches(*x, w),
    ensures
        row_views(final(vis)@) == row_views(old(vis)@) + line_rows(w, line@, li as int, 0),
{
    let v = chars_of(line);
    let n: usize = v.len();
    let mut start: usize = 0;
    let ghost base = row_views(vis@);
    let ghost whole = line_rows(w, line@, li as int, 0);
    assert(row_views(vis@) + line_rows(w, line@, li as int, 0) =~= base + whole);
    loop
        invariant
            wrap_matches(*x, w),
            v@ == line@,
            n == v@.len(),
            start <= n,
            start == n ==> n == 0,
            base == row_views(old(vis)@),
            whole == line_rows(w, line@, li as int, 0),
            row_views(vis@) + line_rows(w, line@, li as int, start as int) == base + whole,
        decreases n - start,
    {
        let first = li == 0 && start == 0;
        let prompt = if first {
            COMPOSER_PROMPT
        } else {
            COMPOSER_CONT
        };
        let chips = if first {
            x.chips.clone()
        } else {
            "".to_owned()
        };
        let prefix_w: usize = str_width(prompt).saturating_add(str_width(chips.as_str()));
        let cells: usize = room_of(x.width, prefix_w, 1);
        assert(cells == row_room(w, li as int, start as int));
        let rest = string_of(&v, start, n);
        assert(rest@ =~= line@.skip(start as int));
        let (piece, _next) = take_display_prefix(rest.as_str(), cells);
        let len: usize = chars_of(piece.as_str()).len();
        let end: usize = start + len;
        assert(end == row_end(w, line@, li as int, start as int));
        assert(piece@ =~= line@.subrange(start as int, end as int));
        // Map the caret onto the display columns of this row.
        let before = string_of(&v, 0, start);
        assert(before@ =~= line@.take(start as int));
        let from: u128 = str_width(before.as_str()) as u128;
        let wide: usize = str_width(piece.as_str());
        let at: u128 = x.ccol as u128;
        let caret_col = if li != x.crow || at < from || at > from + wide as u128 {
            None
        } else if at == from + wide as u128 && end < n && wide >= cells {
            None
        } else {
            Some((at - from) as usize)
        };
        let hint_text = if li == x.crow && first {
            x.hint
        } else {
            None
        };
        let row = ComposerVisRow {
            prompt,
            chips,
            text: piece,
            caret_col,
            placeholder: x.placeholder && first,
            hint: hint_text,
        };
        let ghost rv = row_at(w, line@, li as int, start as int);
        assert(row@ == rv);
        let ghost had = row_views(vis@);
        vis.push(row);
        assert(row_views(vis@) =~= had.push(rv));
        if end >= n {
            assert(had + seq![rv] =~= had.push(rv));
            return;
        }
        proof {
            let more = line_rows(w, line@, li as int, end as int);
            assert(had + (seq![rv] + more) =~= had.push(rv) + more);
        }
        start = end;
    }
}

proof fn caret_row_from_holds(rows: Seq<RowV>, i: int)
    requires
        0 <= i <= rows.len(),
    ensures
        caret_row_from(rows, i) matches Some(k) ==> i <= k < rows.len() && rows[k].caret_col is Some,
        caret_row_from(rows, i) is None ==> forall|k: int|
            i <= k < rows.len() ==> (#[trigger] rows[k]).caret_col is None,
    decreases rows.len() - i,
{
    if i < rows.len() && rows[i].caret_col is None {
        caret_row_from_holds(rows, i + 1);
    }
}

proof fn caret_row_found(rows: Seq<RowV>, i: int, k: int)
    requires
        0 <= i <= k < rows.len(),
        rows[k].caret_col is Some,
        forall|j: int| i <= j < k ==> (#[trigger] rows[j]).caret_col is None,
    ensures
        caret_row_from(rows, i) == Some(k),
    decreases k - i,
{
    if i < k {
        caret_row_found(rows, i + 1, k);
    }
}

/// Every buffer has a row with the caret, and the window shows that row.
pub proof fn composer_caret_is_visible(rows: Seq<RowV>)
    requires
        rows.len() > 0,
    ensures
        with_caret(rows).len() == rows.len(),
        0 <= caret_index(with_caret(rows)) < rows.len(),
        with_caret(rows)[caret_index(with_caret(rows))].caret_col is Some,
        window_start(with_caret(rows)) <= caret_index(with_caret(rows)) < window_start(
            with_caret(rows),
        ) + window_rows(with_caret(rows)).len(),
        window_rows(with_caret(rows)).len() == at_most(rows.len() as int, 8),
{
    caret_row_from_holds(rows, 0);
    let all = with_caret(rows);
    if caret_row_from(rows, 0) is None {
        let last = rows.len() - 1;
        assert forall|j: int| 0 <= j < last implies (#[trigger] all[j]).caret_col is None by {
            assert(all[j] == rows[j]);
        }
        caret_row_found(all, 0, last);
    }
    caret_row_from_holds(all, 0);
}

proof fn buffer_is_not_empty(w: WrapV, logical: Seq<Seq<char>>, n: int)
    requires
        0 < n <= logical.len(),
    ensures
        buffer_rows(w, logical, n).len() > 0,
{
    assert(line_rows(w, logical[n - 1], n - 1, 0).len() > 0);
}

fn wrap_facts(state: &AppState, width: usize) -> (x: Wrap)
    requires
        state.composer.wf(),
    ensures
        wrap_matches(x, wrap_of(*state, width as int)),
{
    // The hint to type a message shows on a fresh session only.
    let fresh = conversation_is_empty(state);
    let (crow, ccol) = state.composer.cursor_row_col_display();
    let text = state.composer.text.as_str();
    let n: usize = chars_of(text).len();
    let hint = if state.composer.cursor >= n {
        slash_arg_ghost(text, &state.t())
    } else {
        None
    };
    Wrap {
        width: max_of(width, 1),
        chips: attachment_chips(state.pending_attachments.len()),
        crow,
        ccol,
        placeholder: fresh && state.composer.is_empty(),
        hint,
    }
}

fn all_rows(state: &AppState, width: usize) -> (r: Vec<ComposerVisRow>)
    requires
        state.composer.wf(),
    ensures
        row_views(r@) == composer_rows(*state, width as int),
        r@.len() > 0,
{
    let x = wrap_facts(state, width);
    let ghost w = wrap_of(*state, width as int);
    let logical = state.composer.lines();
    let ghost texts = split_at_char(state.composer.text@, '\n');
    let mut vis: Vec<ComposerVisRow> = Vec::new();
    let mut li: usize = 0;
    assert(row_views(vis@) =~= buffer_rows(w, texts, 0));
    assert(texts.len() == logical@.len());
    while li < logical.len()
        invariant
            wrap_matches(x, w),
            views(logical@) == texts,
            texts.len() == logical@.len(),
            li <= logical@.len(),
            row_views(vis@) == buffer_rows(w, texts, li as int),
        decreases logical@.len() - li,
    {
        assert(texts[li as int] == logical@[li as int]@);
        push_line_rows(&mut vis, &x, Ghost(w), logical[li].as_str(), li);
        li += 1;
    }
    proof {
        crate::strings::split_is_not_empty(state.composer.text@, '\n', 0);
        buffer_is_not_empty(w, texts, texts.len() as int);
    }
    let ghost rows = row_views(vis@);
    assert(rows.len() == vis@.len());
    let mut i: usize = 0;
    while i < vis.len()
        invariant
            rows == row_views(vis@),
            rows.len() == vis@.len(),
            i <= vis@.len(),
            caret_row_from(rows, 0) == caret_row_from(rows, i as int),
            rows == buffer_rows(w, texts, texts.len() as int),
            w == wrap_of(*state, width as int),
            texts == split_at_char(state.composer.text@, '\n'),
            vis@.len() > 0,
        decreases vis@.len() - i,
    {
        if vis[i].caret_col.is_some() {
            return vis;
        }
        i += 1;
    }
    // Ensure a caret exists.
    let n: usize = vis.len();
    let col: usize = str_width(vis[n - 1].text.as_str());
    let mut last = vis.pop().unwrap();
    let ghost held = last@;
    last.caret_col = Some(col);
    let ghost rest = row_views(vis@);
    vis.push(last);
    assert(row_views(vis@) =~= with_caret(rows));
    vis
}

/// Soft-wrap the composer buffer into visual rows for a content width of `width`
/// (inside the box). Long lines wrap instead of overflowing. Also the row of the
/// caret within the rows that are shown.
pub fn composer_visual_rows(state: &AppState, width: usize) -> (r: (Vec<ComposerVisRow>, usize))
    requires
        state.composer.wf(),
    ensures
        row_views(r.0@) == window_rows(composer_rows(*state, width as int)),
        r.1 == caret_index(composer_rows(*state, width as int)) - window_start(
            composer_rows(*state, width as int),
        ),
        r.1 < r.0@.len() <= 8,
        r.0@[r.1 as int].caret_col is Some,
{
    let vis = all_rows(state, width);
    let ghost rows = composer_rows(*state, width as int);
    assert(rows.len() == vis@.len());
    proof {
        let logical = split_at_char(state.composer.text@, '\n');
        let raw = buffer_rows(wrap_of(*state, width as int), logical, logical.len() as int);
        assert(rows == with_caret(raw));
        composer_caret_is_visible(raw);
    }
    let mut caret: usize = 0;
    while caret < vis.len() && vis[caret].caret_col.is_none()
        invariant
            rows == row_views(vis@),
            rows.len() == vis@.len(),
            caret <= vis@.len(),
            caret_row_from(rows, 0) == caret_row_from(rows, caret as int),
        decreases vis@.len() - caret,
    {
        assert(rows[caret as int] == vis@[caret as int]@);
        caret += 1;
    }
    assert(caret < vis@.len() ==> rows[caret as int] == vis@[caret as int]@);
    assert(caret_row_from(rows, 0) is Some) by {
        let i = caret_index(rows);
        if caret_row_from(rows, 0) is None {
            caret_row_from_holds(rows, 0);
            assert(rows[i].caret_col is None);
        }
    }
    let n: usize = vis.len();
    let count: usize = min_of(n, COMPOSER_MAX_ROWS);
    let scroll: usize = min_of(n.saturating_sub(COMPOSER_MAX_ROWS), caret);
    let mut vis = vis;
    let ghost v0 = vis@;
    let mut tail = vis.split_off(scroll);
    let ghost t0 = tail@;
    tail.truncate(count);
    assert(row_views(tail@) =~= window_rows(rows));
    assert(tail@[(caret - scroll) as int] == v0[caret as int]);
    (tail, caret - scroll)
}

// ---------------------------------------------------------------- the frame

/// The columns between the frame and the text.
pub const INPUT_INTERNAL_PADDING_X: usize = 1;

/// Total rows the composer box occupies (content and the two borders).
pub fn composer_visible_rows(state: &AppState, width: usize) -> (r: usize)
    requires
        state.composer.wf(),
    ensures
        r == window_rows(composer_rows(*state, room(width as int, 3, 4))).len() + 2,
        3 <= r <= 10,
{
    let content_w: usize = room_of(width, 2 + INPUT_INTERNAL_PADDING_X, 4);
    let (rows, _caret) = composer_visual_rows(state, content_w);
    assert(row_views(rows@).len() == rows@.len());
    rows.len() + 2
}

/// The spans of a row inside the frame, the columns before its text, and the columns
/// it takes in all.
pub ghost struct PaintedRow {
    pub spans: Seq<SpanV>,
    pub text_start: int,
    pub used: int,
}

/// A span cut to what is left of `width` columns.
pub open spec fn cut_span(text: Seq<char>, width: int, used: int, style: Style) -> SpanV {
    spanv(truncated(text, minus(width, used)), style)
}

/// A row inside the frame: prompt, chips, text, placeholder and hint, each cut to the
/// columns that are left.
pub open spec fn painted(row: RowV, width: int, theme: Theme, t: UiText) -> PaintedRow {
    let prompt = cut_span(row.prompt, width, 0, fg_style(theme.accent.primary));
    let u1 = unicode_str_width(prompt.content) as int;
    let chips = cut_span(row.chips, width, u1, fg_style(theme.accent.secondary));
    let u2 = if row.chips.len() == 0 {
        u1
    } else {
        u1 + unicode_str_width(chips.content)
    };
    let text = cut_span(
        row.text,
        width,
        u2,
        Style { bg: Some(theme.surface.input), ..fg_style(theme.text.primary) },
    );
    let u3 = u2 + unicode_str_width(text.content);
    let place = cut_span(t.composer_placeholder@, width, u3, fg_style(theme.text.muted));
    let u4 = if row.placeholder {
        u3 + unicode_str_width(place.content)
    } else {
        u3
    };
    let hint = match row.hint {
        Some(h) => h,
        None => Seq::empty(),
    };
    let hinted = row.hint is Some && minus(width, u4) > 0;
    let hint_span = cut_span(hint, width, u4, fg_style(theme.text.muted));
    let u5 = if hinted {
        u4 + unicode_str_width(hint_span.content)
    } else {
        u4
    };
    PaintedRow {
        spans: seq![prompt] + (if row.chips.len() == 0 {
            Seq::empty()
        } else {
            seq![chips]
        }) + seq![text] + (if row.placeholder {
            seq![place]
        } else {
            Seq::empty()
        }) + (if hinted {
            seq![hint_span]
        } else {
            Seq::empty()
        }),
        text_start: u2,
        used: u5,
    }
}

/// What is left of `width` columns.
fn left_of(width: usize, used: u128) -> (r: usize)
    ensures
        r == minus(width as int, used as int),
{
    if used < width as u128 {
        (width as u128 - used) as usize
    } else {
        0
    }
}

fn push_cut(line: &mut Line, text: &str, width: usize, used: u128, style: Style) -> (r: u128)
    requires
        used <= 0xffff_ffff_ffff_ffff_ffff,
    ensures
        final(line)@ == old(line)@.push(cut_span(text@, width as int, used as int, style)),
        r == used + unicode_str_width(cut_span(text@, width as int, used as int, style).content),
{
    let piece = truncate_display(text, left_of(width, used));
    let w: usize = str_width(piece.as_str());
    line.push(Span::new(piece, style));
    used + w as u128
}

/// The row inside the frame, where its text begins, and its columns.
fn paint_row(row: &ComposerVisRow, width: usize, theme: &Theme, t: &UiText) -> (r: (Line, u128, u128))
    ensures
        r.0@ == painted(row@, width as int, *theme, *t).spans,
        r.1 == painted(row@, width as int, *theme, *t).text_start,
        r.2 == painted(row@, width as int, *theme, *t).used,
        r.1 <= 0xffff_ffff_ffff_ffff_ffff,
{
    let ghost want = painted(row@, width as int, *theme, *t);
    let mut line = Line::empty();
    let mut used: u128 = push_cut(
        &mut line,
        row.prompt,
        width,
        0,
        Style::fg(theme.accent.primary),
    );
    if !row.chips.as_str().is_empty() {
        used = push_cut(
            &mut line,
            row.chips.as_str(),
            width,
            used,
            Style::fg(theme.accent.secondary),
        );
    }
    let text_start: u128 = used;
    used = push_cut(
        &mut line,
        row.text.as_str(),
        width,
        used,
        Style::fg(theme.text.primary).on(theme.surface.input),
    );
    if row.placeholder {
        used = push_cut(
            &mut line,
            t.composer_placeholder,
            width,
            used,
            Style::fg(theme.text.muted),
        );
    }
    match row.hint {
        Some(hint) => if used < width as u128 {
            used = push_cut(&mut line, hint, width, used, Style::fg(theme.text.muted));
        },
        None => {},
    }
    assert(line@ =~= want.spans);
    (line, text_start, used)
}

/// The color of the frame: that of the focus where the input has it.
pub open spec fn frame_style(state: AppState) -> Style {
    fg_style(
        if state.overlay is None && state.active_screen == Screen::Conversation
            && state.workbench_focus == WorkbenchFocus::Input {
            state.theme.border.focus
        } else {
            state.theme.border.normal
        },
    )
}

/// A row of the box.
pub open spec fn boxed_row(row: RowV, content_w: int, state: AppState) -> Seq<SpanV> {
    let p = painted(row, content_w, state.theme, text_of(state.locale));
    seq![spanv("│ "@, frame_style(state))] + p.spans + spaces(minus(content_w, p.used)) + seq![
        spanv("│"@, frame_style(state)),
    ]
}

/// The rows of the box.
pub open spec fn boxed_rows(rows: Seq<RowV>, content_w: int, state: AppState) -> Seq<Seq<SpanV>> {
    Seq::new(rows.len(), |i: int| boxed_row(rows[i], content_w, state))
}

/// A chip with its first part before the others in weight.
pub open spec fn chip_spans(parts: Seq<Seq<char>>, theme: Theme, n: int) -> Seq<SpanV>
    decreases n,
{
    let secondary = fg_style(theme.text.secondary);
    let muted = fg_style(theme.text.muted);
    if n <= 0 {
        seq![spanv(" "@, secondary)]
    } else if n == 1 {
        chip_spans(parts, theme, 0) + seq![spanv(parts[0], secondary)]
    } else {
        chip_spans(parts, theme, n - 1) + seq![spanv(" · "@, muted), spanv(parts[n - 1], muted)]
    }
}

/// The chip of the bottom border, as spans.
pub open spec fn trust_spans(state: AppState, width: int) -> Seq<SpanV> {
    let parts = split_text_from(border_chip(state, width), " · "@, 0);
    chip_spans(parts, state.theme, parts.len() as int) + seq![
        spanv(" "@, fg_style(state.theme.text.secondary)),
    ]
}

/// Same contents as the runtime chip, with model before mode in weight.
pub fn composer_trust_spans(state: &AppState, max_width: usize) -> (r: Line)
    ensures
        r@ == trust_spans(*state, max_width as int),
{
    let secondary = Style::fg(state.theme.text.secondary);
    let muted = Style::fg(state.theme.text.muted);
    let chip = runtime_status_chip(state, max_width);
    let parts = split_text(chip.as_str(), " · ");
    let ghost all = split_text_from(border_chip(*state, max_width as int), " · "@, 0);
    let mut line = Line::of(Span::text(" ", secondary));
    let mut i: usize = 0;
    assert(all.len() == parts@.len());
    while i < parts.len()
        invariant
            all == views(parts@),
            all.len() == parts@.len(),
            i <= parts@.len(),
            secondary == fg_style(state.theme.text.secondary),
            muted == fg_style(state.theme.text.muted),
            line@ == chip_spans(all, state.theme, i as int),
        decreases parts@.len() - i,
    {
        assert(all[i as int] == parts@[i as int]@);
        let ghost before = line@;
        if i == 0 {
            line.push(Span::text(parts[i].as_str(), secondary));
            assert(line@ =~= before + seq![spanv(all[0], secondary)]);
        } else {
            line.push2(Span::text(" · ", muted), Span::text(parts[i].as_str(), muted));
        }
        i += 1;
    }
    let ghost before = line@;
    line.push(Span::text(" ", secondary));
    assert(line@ =~= before + seq![spanv(" "@, secondary)]);
    line
}

/// The bottom of the box, with the chip near its right corner where it fits.
pub open spec fn box_bottom(state: AppState, inner: int) -> Seq<SpanV> {
    let border = frame_style(state);
    let budget = minus(inner, 4);
    let chip = border_chip(state, budget);
    if unicode_str_width(chip) + 4 <= inner {
        let dashes = minus(inner, unicode_str_width(" "@ + chip + " "@) as int);
        let right = at_most(1, dashes);
        seq![spanv("╰"@ + repeated('─', minus(dashes, right) as nat), border)] + trust_spans(
            state,
            budget,
        ) + seq![spanv(repeated('─', right as nat) + "╯"@, border)]
    } else {
        seq![spanv("╰"@ + repeated('─', inner as nat) + "╯"@, border)]
    }
}

fn frame_of(state: &AppState) -> (r: Style)
    ensures
        r == frame_style(*state),
{
    let focused = state.overlay.is_none() && state.active_screen == Screen::Conversation
        && state.workbench_focus == WorkbenchFocus::Input;
    Style::fg(
        if focused {
            state.theme.border.focus
        } else {
            state.theme.border.normal
        },
    )
}

fn bottom_line(state: &AppState, inner: usize) -> (r: Line)
    ensures
        r@ == box_bottom(*state, inner as int),
{
    let border = frame_of(state);
    let budget: usize = inner.saturating_sub(4);
    let chip = runtime_status_chip(state, budget);
    let tw: usize = str_width(chip.as_str());
    if inner >= 4 && tw <= inner - 4 {
        let padded = cat3(" ", chip.as_str(), " ");
        let dashes: usize = inner.saturating_sub(str_width(padded.as_str()));
        // Prefer more left dashes so the chip hugs the right corner.
        let right: usize = min_of(1, dashes);
        let left: usize = dashes.saturating_sub(right);
        let mut line = Line::of(
            Span::new(cat2("╰", repeat_char('─', left).as_str()), border),
        );
        line.extend(composer_trust_spans(state, budget));
        let ghost before = line@;
        line.push(Span::new(cat2(repeat_char('─', right).as_str(), "╯"), border));
        assert(line@ =~= before + seq![spanv(repeated('─', right as nat) + "╯"@, border)]);
        line
    } else {
        Line::of(Span::new(cat3("╰", repeat_char('─', inner).as_str(), "╯"), border))
    }
}

/// The columns of the text of the box.
pub open spec fn content_width_of(width: int) -> int {
    room(at_least(width, 8), 3, 1)
}

/// The box: its top, its rows, its bottom.
pub open spec fn box_lines(state: AppState, width: int) -> Seq<Seq<SpanV>> {
    let inner = at_least(width, 8) - 2;
    let cw = content_width_of(width);
    let rows = window_rows(composer_rows(state, cw));
    seq![
        styled_line("╭"@ + repeated('─', inner as nat) + "╮"@, frame_style(state)),
    ] + boxed_rows(rows, cw, state) + seq![box_bottom(state, inner)]
}

/// The column where the caret is drawn: behind the frame, the padding, and what stands
/// before it on its row; within the box. Columns are counted in sixteen bits.
pub open spec fn caret_x(state: AppState, width: int) -> int {
    let cw = content_width_of(width);
    let rows = window_rows(composer_rows(state, cw));
    let i = caret_index(composer_rows(state, cw)) - window_start(composer_rows(state, cw));
    let col = match rows[i].caret_col {
        Some(c) => c,
        None => 0,
    };
    let x = 2 + painted(rows[i], cw, state.theme, text_of(state.locale)).text_start + col;
    at_most(x % 65536, (at_least(width, 8) - 1) % 65536)
}

/// The row where the caret is drawn, under the top of the box.
pub open spec fn caret_y(state: AppState, width: int) -> int {
    let rows = composer_rows(state, content_width_of(width));
    1 + caret_index(rows) - window_start(rows)
}

/// The rows of the box, and the columns before the text of the row of the caret.
fn push_rows(
    out: &mut Vec<Line>,
    rows: &Vec<ComposerVisRow>,
    caret_row: usize,
    content_w: usize,
    state: &AppState,
) -> (r: u128)
    requires
        caret_row < rows@.len(),
    ensures
        line_views(final(out)@) == line_views(old(out)@) + boxed_rows(
            row_views(rows@),
            content_w as int,
            *state,
        ),
        r == painted(
            row_views(rows@)[caret_row as int],
            content_w as int,
            state.theme,
            text_of(state.locale),
        ).text_start,
        r <= 0xffff_ffff_ffff_ffff_ffff,
{
    let t = state.t();
    let border = frame_of(state);
    let ghost base = line_views(out@);
    let ghost rv = row_views(rows@);
    let ghost all = boxed_rows(rv, content_w as int, *state);
    let mut start: u128 = 0;
    let mut i: usize = 0;
    assert(base + all.take(0) =~= base);
    while i < rows.len()
        invariant
            rv == row_views(rows@),
            caret_row < rows@.len(),
            t == text_of(state.locale),
            border == frame_style(*state),
            all == boxed_rows(rv, content_w as int, *state),
            i <= rows@.len(),
            line_views(out@) == base + all.take(i as int),
            start <= 0xffff_ffff_ffff_ffff_ffff,
            i > caret_row ==> start == painted(
                rv[caret_row as int],
                content_w as int,
                state.theme,
                t,
            ).text_start,
        decreases rows@.len() - i,
    {
        let (spans, text_start, used) = paint_row(&rows[i], content_w, &state.theme, &t);
        assert(rv[i as int] == rows@[i as int]@);
        if i == caret_row {
            start = text_start;
        }
        let ghost p = painted(rv[i as int], content_w as int, state.theme, t);
        let mut line = Line::of(Span::text("│ ", border));
        line.extend(spans);
        line.push_spaces(left_of(content_w, used));
        let ghost before = line@;
        line.push(Span::text("│", border));
        assert(line@ =~= before + seq![spanv("│"@, border)]);
        assert(line@ == boxed_row(rv[i as int], content_w as int, *state));
        out.push(line);
        i += 1;
        assert(all.take(i as int) =~= all.take(i - 1).push(all[i - 1]));
        assert(line_views(out@) =~= base + all.take(i as int));
    }
    assert(all.take(i as int) =~= all);
    start
}

/// Input box: rounded border, prompt inside, trust chip on the bottom-right.
///
/// Returns the lines, borders and all, and the cursor as column and row of the box.
pub fn composer_box_lines(state: &AppState, width: usize) -> (r: (Vec<Line>, (u16, u16)))
    requires
        state.composer.wf(),
    ensures
        line_views(r.0@) == box_lines(*state, width as int),
        r.1.0 == caret_x(*state, width as int),
        r.1.1 == caret_y(*state, width as int),
        1 <= r.1.1 <= r.0@.len() - 2,
{
    let width: usize = max_of(width, 8);
    let inner: usize = width - 2;
    let content_w: usize = room_of(width, 2 + INPUT_INTERNAL_PADDING_X, 1);
    let (window, caret_row) = composer_visual_rows(state, content_w);
    let ghost rows = window_rows(composer_rows(*state, content_w as int));
    let border = frame_of(state);
    let mut out: Vec<Line> = Vec::new();
    out.push(
        Line::of(Span::new(cat3("╭", repeat_char('─', inner).as_str(), "╮"), border)),
    );
    let start: u128 = push_rows(&mut out, &window, caret_row, content_w, state);
    out.push(bottom_line(state, inner));
    assert(line_views(out@) =~= box_lines(*state, width as int));
    assert(line_views(out@).len() == out@.len());
    assert(rows[caret_row as int] == window@[caret_row as int]@);
    let col: u128 = match window[caret_row].caret_col {
        Some(c) => c as u128,
        None => 0,
    };
    let x: u128 = (2 + start + col) % 65536;
    let edge: u128 = (width as u128 - 1) % 65536;
    let cx: u16 = (if x < edge {
        x
    } else {
        edge
    }) as u16;
    (out, (cx, (1 + caret_row) as u16))
}

/// The texts of rows.
pub open spec fn row_texts(rows: Seq<RowV>) -> Seq<Seq<char>> {
    Seq::new(rows.len(), |i: int| rows[i].text)
}

/// Wrapping loses nothing: the rows of a logical line, one after the other, are the
/// line.
pub proof fn wrapped_rows_are_the_line(w: WrapV, line: Seq<char>, li: int, start: int)
    requires
        0 <= start <= line.len(),
    ensures
        concat(row_texts(line_rows(w, line, li, start))) == line.skip(start),
    decreases line.len() - start,
{
    let rest = line.skip(start);
    display_prefix_advances(rest, row_room(w, li, start));
    let e = row_end(w, line, li, start);
    let row = row_at(w, line, li, start);
    let one = seq![row];
    assert(row_texts(one) =~= seq![row.text]);
    assert(row_texts(one).drop_last() =~= Seq::<Seq<char>>::empty());
    reveal_with_fuel(concat, 2);
    assert(concat(row_texts(one)) =~= row.text);
    if e <= start || e >= line.len() {
        assert(line_rows(w, line, li, start) == one);
        if e >= line.len() {
            assert(line.subrange(start, e) =~= line.skip(start));
        } else {
            assert(line.len() == start);
            assert(line.subrange(start, e) =~= line.skip(start));
        }
    } else {
        wrapped_rows_are_the_line(w, line, li, e);
        let more = line_rows(w, line, li, e);
        assert(row_texts(one + more) =~= row_texts(one) + row_texts(more));
        concat_adds(row_texts(one), row_texts(more));
        assert(row.text + line.skip(e) =~= line.skip(start));
    }
}

} // verus!
