//! The Tools screen: every tool call of the conversation, and the selected one in
//! detail.

use vstd::prelude::*;

use crate::line::{
    extend_lines, fg_style, no_style, raw_line, spanv, styled_line, Line, Span, Style,
};
use crate::model::{line_views, views, SpanV};
use crate::number::{at_least, at_most, max_of, min_of, minus, room, room_of};
use crate::render::screens::cursor_text;
use crate::render::text::{truncate_display, truncated, wrap, wrapped};
use crate::screen::{filter_label, passes, ToolFilter};
use crate::strings::{cat2, cat3, dec, decimal, same};
use crate::theme::Theme;
use crate::tool_cell::{
    argument_lines, footer_hint, glyph_of, home_view, status_style, summary_of, tool_argument_lines,
    tool_glyph, tool_style, tool_summary, tools_footer_hint,
};
use crate::transcript::{ToolCallBlock, ToolStatus, TranscriptItem, TranscriptState};
use crate::width::{str_width, unicode_str_width};

verus! {

broadcast use crate::model::group_views;

// ---------------------------------------------------------------- the calls

/// The calls themselves, of a list of references.
pub open spec fn calls_of(v: Seq<&ToolCallBlock>) -> Seq<ToolCallBlock> {
    Seq::new(v.len(), |i: int| *v[i])
}

/// The first `n` calls that a filter lets through.
pub open spec fn passing(calls: Seq<ToolCallBlock>, f: ToolFilter, n: int) -> Seq<ToolCallBlock>
    decreases n,
{
    if n <= 0 {
        Seq::empty()
    } else if passes(f, calls[n - 1]) {
        passing(calls, f, n - 1).push(calls[n - 1])
    } else {
        passing(calls, f, n - 1)
    }
}

/// The calls of the first `n` items that a filter lets through, in order.
pub open spec fn listed_calls(items: Seq<TranscriptItem>, f: ToolFilter, n: int) -> Seq<
    ToolCallBlock,
>
    decreases n,
{
    if n <= 0 {
        Seq::empty()
    } else {
        listed_calls(items, f, n - 1) + (match items[n - 1] {
            TranscriptItem::ToolGroup(g) => passing(g.calls@, f, g.calls@.len() as int),
            _ => Seq::empty(),
        })
    }
}

/// The calls of a conversation that the screen lists.
pub open spec fn shown_calls(transcript: TranscriptState, f: ToolFilter) -> Seq<ToolCallBlock> {
    listed_calls(transcript.items@, f, transcript.items@.len() as int)
}

/// The tool calls that pass the filter, oldest first.
pub fn filtered_calls(transcript: &TranscriptState, filter: ToolFilter) -> (r: Vec<&ToolCallBlock>)
    ensures
        calls_of(r@) == shown_calls(*transcript, filter),
{
    let items = &transcript.items;
    let mut out: Vec<&ToolCallBlock> = Vec::new();
    let mut i: usize = 0;
    assert(calls_of(out@) =~= Seq::<ToolCallBlock>::empty());
    while i < items.len()
        invariant
            i <= items@.len(),
            items@ == transcript.items@,
            calls_of(out@) == listed_calls(items@, filter, i as int),
        decreases items@.len() - i,
    {
        let ghost base = calls_of(out@);
        match &items[i] {
            TranscriptItem::ToolGroup(g) => {
                let mut k: usize = 0;
                assert(base + passing(g.calls@, filter, 0) =~= base);
                while k < g.calls.len()
                    invariant
                        k <= g.calls@.len(),
                        calls_of(out@) == base + passing(g.calls@, filter, k as int),
                    decreases g.calls@.len() - k,
                {
                    let block = &g.calls[k];
                    let ghost before = calls_of(out@);
                    if filter.matches(block) {
                        out.push(block);
                        assert(calls_of(out@) =~= before.push(*block));
                    }
                    k += 1;
                    assert(calls_of(out@) =~= base + passing(g.calls@, filter, k as int));
                }
            },
            _ => {
                assert(base + Seq::<ToolCallBlock>::empty() =~= base);
            },
        }
        i += 1;
    }
    out
}

// ---------------------------------------------------------------- the list

/// How long a call took.
pub open spec fn took(block: ToolCallBlock) -> Seq<char> {
    match block.duration_ms {
        Some(ms) => decimal(ms as nat) + "ms"@,
        None => Seq::empty(),
    }
}

/// A call's name, and what it is about where that says anything.
pub open spec fn call_label(block: ToolCallBlock, home: Option<Seq<char>>) -> Seq<char> {
    let target = summary_of(block.name@, block.arguments@, "in"@, home);
    if target.len() == 0 || target == "{}"@ {
        block.name@
    } else {
        block.name@ + " · "@ + target
    }
}

/// A row of the list.
pub open spec fn call_row(
    block: ToolCallBlock,
    selected: bool,
    list_w: int,
    theme: Theme,
    home: Option<Seq<char>>,
) -> Seq<SpanV> {
    let dur = took(block);
    let dur_w = if dur.len() == 0 {
        0
    } else {
        unicode_str_width(dur) + 2
    };
    seq![
        spanv(cursor_text(selected), fg_style(theme.accent.primary)),
        spanv(glyph_of(block.status) + " "@, status_style(theme, block.status)),
        spanv(
            truncated(call_label(block, home), at_least(minus(list_w, 4 + dur_w), 8)),
            no_style(),
        ),
        spanv("  "@ + dur, fg_style(theme.text.muted)),
    ]
}

/// The rows of the list, or that there is nothing.
pub open spec fn call_rows(
    calls: Seq<ToolCallBlock>,
    selected: int,
    list_w: int,
    theme: Theme,
    home: Option<Seq<char>>,
) -> Seq<Seq<SpanV>> {
    if calls.len() == 0 {
        seq![styled_line("无工具调用"@, fg_style(theme.text.muted))]
    } else {
        Seq::new(calls.len(), |i: int| call_row(calls[i], i == selected, list_w, theme, home))
    }
}

fn took_text(block: &ToolCallBlock) -> (r: String)
    ensures
        r@ == took(*block),
{
    match block.duration_ms {
        Some(ms) => cat2(dec(ms).as_str(), "ms"),
        None => String::new(),
    }
}

fn call_line(block: &ToolCallBlock, selected: bool, list_w: usize, theme: &Theme, home: Option<&str>) -> (r: Line)
    ensures
        r@ == call_row(*block, selected, list_w as int, *theme, home_view(home)),
{
    let cursor = if selected {
        "› "
    } else {
        "  "
    };
    let dur = took_text(block);
    let target = tool_summary(block.name.as_str(), block.arguments.as_str(), home);
    let label = if target.as_str().is_empty() || same(target.as_str(), "{}") {
        block.name.clone()
    } else {
        cat3(block.name.as_str(), " · ", target.as_str())
    };
    let taken: usize = if dur.as_str().is_empty() {
        4
    } else {
        str_width(dur.as_str()).saturating_add(6)
    };
    let label_w: usize = max_of(list_w.saturating_sub(taken), 8);
    let mut line = Line::of3(
        Span::text(cursor, Style::fg(theme.accent.primary)),
        Span::new(cat2(tool_glyph(block.status), " "), tool_style(theme, block.status)),
        Span::new(truncate_display(label.as_str(), label_w), Style::plain()),
    );
    line.push(Span::new(cat2("  ", dur.as_str()), Style::fg(theme.text.muted)));
    assert(line@ =~= call_row(*block, selected, list_w as int, *theme, home_view(home)));
    line
}

/// The rows of the list pane, `pane_width` columns wide with its border and pad.
pub fn tools_list_lines(
    calls: &Vec<&ToolCallBlock>,
    selected: usize,
    pane_width: u16,
    theme: &Theme,
    home: Option<&str>,
) -> (r: Vec<Line>)
    ensures
        line_views(r@) == call_rows(
            calls_of(calls@),
            selected as int,
            room(pane_width as int, 2, 1),
            *theme,
            home_view(home),
        ),
{
    let list_w: usize = room_of(pane_width as usize, 2, 1);
    let ghost cv = calls_of(calls@);
    let ghost all = call_rows(cv, selected as int, list_w as int, *theme, home_view(home));
    let mut out: Vec<Line> = Vec::new();
    if calls.len() == 0 {
        out.push(Line::of(Span::text("无工具调用", Style::fg(theme.text.muted))));
        assert(line_views(out@) =~= all);
        return out;
    }
    let mut i: usize = 0;
    assert(line_views(out@) =~= all.take(0));
    while i < calls.len()
        invariant
            calls@.len() > 0,
            i <= calls@.len(),
            cv == calls_of(calls@),
            all == call_rows(cv, selected as int, list_w as int, *theme, home_view(home)),
            line_views(out@) == all.take(i as int),
        decreases calls@.len() - i,
    {
        assert(cv[i as int] == *calls@[i as int]);
        out.push(call_line(calls[i], i == selected, list_w, theme, home));
        i += 1;
        assert(all.take(i as int) =~= all.take(i - 1).push(all[i - 1]));
    }
    assert(all.take(i as int) =~= all);
    out
}

/// The title of the list pane.
pub fn tools_list_title(filter: ToolFilter) -> (r: String)
    ensures
        r@ == " 工具 · "@ + filter_label(filter) + " "@,
{
    cat3(" 工具 · ", filter.label(), " ")
}

// ---------------------------------------------------------------- the detail

/// The word of a status.
pub open spec fn status_word(s: ToolStatus) -> Seq<char> {
    match s {
        ToolStatus::Running => "运行中"@,
        ToolStatus::Succeeded => "成功"@,
        ToolStatus::Failed => "需调整"@,
        ToolStatus::Cancelled => "已取消"@,
        ToolStatus::Unknown => "未知"@,
    }
}

fn status_word_of(s: ToolStatus) -> (r: &'static str)
    ensures
        r@ == status_word(s),
{
    match s {
        ToolStatus::Running => "运行中",
        ToolStatus::Succeeded => "成功",
        ToolStatus::Failed => "需调整",
        ToolStatus::Cancelled => "已取消",
        ToolStatus::Unknown => "未知",
    }
}

/// A labeled row.
pub open spec fn field_row(label: Seq<char>, value: Seq<char>, style: Style, theme: Theme) -> Seq<SpanV> {
    seq![spanv(label, fg_style(theme.text.muted)), spanv(value, style)]
}

/// The output of a call, wrapped, under its heading.
pub open spec fn output_rows(block: ToolCallBlock, w: usize, theme: Theme) -> Seq<Seq<SpanV>> {
    match block.preview {
        Some(p) => seq![Seq::empty(), styled_line("输出"@, fg_style(theme.text.muted))]
            + plain_rows(wrapped(p@, w)),
        None => Seq::empty(),
    }
}

/// Unstyled rows.
pub open spec fn plain_rows(rows: Seq<Seq<char>>) -> Seq<Seq<SpanV>> {
    Seq::new(rows.len(), |i: int| raw_line(rows[i]))
}

/// A call in detail.
pub open spec fn call_detail(block: ToolCallBlock, w: usize, theme: Theme) -> Seq<Seq<SpanV>> {
    seq![field_row("工具  "@, block.name@, no_style(), theme)] + argument_lines(
        block.arguments@,
        theme,
        w as int,
    ) + seq![
        field_row(
            "状态  "@,
            status_word(block.status),
            status_style(theme, block.status),
            theme,
        ),
    ] + (match block.duration_ms {
        Some(ms) => seq![field_row("耗时  "@, took(block), no_style(), theme)],
        None => Seq::empty(),
    }) + output_rows(block, w, theme)
}

/// The detail pane: the selected call, where there is one, and the footer.
pub open spec fn tools_detail(block: Option<ToolCallBlock>, w: usize, theme: Theme) -> Seq<
    Seq<SpanV>,
> {
    (match block {
        Some(b) => call_detail(b, w, theme),
        None => Seq::empty(),
    }) + seq![
        Seq::empty(),
        styled_line(footer_hint(w as int), fg_style(theme.text.muted)),
    ]
}

fn push_plain_rows(out: &mut Vec<Line>, rows: &Vec<String>)
    ensures
        line_views(final(out)@) == line_views(old(out)@) + plain_rows(views(rows@)),
{
    let ghost base = line_views(out@);
    let ghost all = plain_rows(views(rows@));
    let mut i: usize = 0;
    assert(base + all.take(0) =~= base);
    while i < rows.len()
        invariant
            i <= rows@.len(),
            all == plain_rows(views(rows@)),
            line_views(out@) == base + all.take(i as int),
        decreases rows@.len() - i,
    {
        out.push(Line::of(Span::raw(rows[i].as_str())));
        i += 1;
        assert(all.take(i as int) =~= all.take(i - 1).push(all[i - 1]));
        assert(line_views(out@) =~= base + all.take(i as int));
    }
    assert(all.take(i as int) =~= all);
}

fn push_call_detail(out: &mut Vec<Line>, block: &ToolCallBlock, w: usize, theme: &Theme)
    ensures
        line_views(final(out)@) == line_views(old(out)@) + call_detail(*block, w, *theme),
{
    let ghost base = line_views(out@);
    let muted = Style::fg(theme.text.muted);
    out.push(Line::of2(Span::text("工具  ", muted), Span::raw(block.name.as_str())));
    extend_lines(out, tool_argument_lines(block.arguments.as_str(), theme, w));
    out.push(
        Line::of2(
            Span::text("状态  ", muted),
            Span::text(status_word_of(block.status), tool_style(theme, block.status)),
        ),
    );
    if block.duration_ms.is_some() {
        out.push(
            Line::of2(Span::text("耗时  ", muted), Span::new(took_text(block), Style::plain())),
        );
    }
    let ghost mid = line_views(out@);
    match &block.preview {
        Some(p) => {
            out.push(Line::empty());
            out.push(Line::of(Span::text("输出", muted)));
            push_plain_rows(out, &wrap(p.as_str(), w));
        },
        None => {},
    }
    assert(line_views(out@) =~= mid + output_rows(*block, w, *theme));
    assert(line_views(out@) =~= base + call_detail(*block, w, *theme));
}

/// The rows of the detail pane, `pane_width` columns wide.
pub fn tools_detail_lines(
    calls: &Vec<&ToolCallBlock>,
    selected: usize,
    pane_width: u16,
    theme: &Theme,
) -> (r: Vec<Line>)
    ensures
        line_views(r@) == tools_detail(
            if selected < calls@.len() {
                Some(*calls@[selected as int])
            } else {
                None
            },
            room(pane_width as int, 1, 1) as usize,
            *theme,
        ),
{
    let w: usize = room_of(pane_width as usize, 1, 1);
    let ghost shown = if selected < calls@.len() {
        Some(*calls@[selected as int])
    } else {
        None
    };
    let mut out: Vec<Line> = Vec::new();
    if selected < calls.len() {
        push_call_detail(&mut out, calls[selected], w, theme);
    }
    let ghost base = line_views(out@);
    out.push(Line::empty());
    out.push(Line::of(Span::new(tools_footer_hint(w), Style::fg(theme.text.muted))));
    assert(line_views(out@) =~= tools_detail(shown, w, *theme));
    out
}

/// The call in focus: the selected one, or the last that passes the filter.
pub fn tools_focus(selected: usize, len: usize) -> (r: usize)
    ensures
        r == at_most(selected as int, minus(len as int, 1)),
        len > 0 ==> r < len,
{
    min_of(selected, len.saturating_sub(1))
}

/// Everything that is listed passes the filter, and the list of all calls leaves none
/// out.
pub proof fn listed_calls_pass(calls: Seq<ToolCallBlock>, f: ToolFilter, n: int)
    requires
        0 <= n <= calls.len(),
    ensures
        forall|i: int|
            0 <= i < passing(calls, f, n).len() ==> passes(f, #[trigger] passing(calls, f, n)[i]),
        passing(calls, ToolFilter::All, n) == calls.take(n),
    decreases n,
{
    if n > 0 {
        listed_calls_pass(calls, f, n - 1);
        assert(calls.take(n) =~= calls.take(n - 1).push(calls[n - 1]));
        let before = passing(calls, f, n - 1);
        let all = passing(calls, f, n);
        assert forall|i: int| 0 <= i < all.len() implies passes(f, #[trigger] all[i]) by {
            if i < before.len() {
                assert(all[i] == before[i]);
            }
        }
    } else {
        assert(calls.take(0) =~= Seq::<ToolCallBlock>::empty());
    }
}

} // verus!
