//! What the screens beside the conversation promise.

use vstd::prelude::*;

use crate::i18n::UiText;
use crate::laws::commands::names_part;
use crate::laws::files::match_sets_case_aside;
use crate::laws::{bare, first_gap_is_filled, ink, larger, strong};
use crate::model::SpanV;
use crate::protocol::{UiDiffFile, UiSessionSummary};
use crate::render::panes::{list_offset, padded_line, pane_rows, tail_offset, windowed};
use crate::render::remote::{cells, chunks, decision, filled, labeled, preparing, rejected};
use crate::render::screens::{
    diff_detail, diff_focus, diff_list, diff_row, dot_of, help_cell, help_group, help_row,
    patch_body, patch_color, patch_rows, session_row, sessions_screen,
};
use crate::render::text::{sanitized_from, truncated, wrapped};
use crate::render::tools_screen::{call_detail, call_label, call_row, passing, status_word, took};
use crate::screen::{category_text, passes, SlashCategory, ToolFilter};
use crate::state::RemoteState;
use crate::strings::{begins, decimal, has_text, lowered, repeated, text_lines};
use crate::theme::Theme;
use crate::tool_cell::summary_of;
use crate::transcript::{ToolCallBlock, ToolStatus};
use crate::width::{columns, unicode_str_width};
use crate::line::Style;

verus! {

// ---------------------------------------------------------------- the diff

/// A file of the diff tells its path, what was added behind a plus in the color of
/// success and what was removed behind a minus in the color of errors; the selected file
/// alone is marked.
pub proof fn diff_counts_added_then_removed(
    f: UiDiffFile,
    selected: bool,
    list_w: int,
    theme: Theme,
    added: nat,
    removed: nat,
)
    requires
        added == f.added,
        removed == f.removed,
    ensures
        ({
            let row = diff_row(f, selected, list_w, theme);
            &&& row.len() == 4
            &&& row[0] == (SpanV {
                content: if selected {
                    "› "@
                } else {
                    "  "@
                },
                style: ink(theme.accent.primary),
            })
            &&& row[1].style == bare()
            &&& row[2] == (SpanV {
                content: "  +"@ + decimal(added),
                style: ink(theme.status.success),
            })
            &&& row[3] == (SpanV { content: " -"@ + decimal(removed), style: ink(theme.status.error) })
        }),
{
}

/// Every file has its row, in order, the selected one and no other marked; an empty diff
/// says so.
pub proof fn diff_lists_every_file(
    files: Seq<UiDiffFile>,
    selected: int,
    list_w: int,
    theme: Theme,
    t: UiText,
    i: int,
)
    ensures
        files.len() == 0 ==> diff_list(files, selected, list_w, theme, t) == seq![
            seq![SpanV { content: t.diff_empty@, style: ink(theme.text.secondary) }],
        ],
        files.len() > 0 ==> diff_list(files, selected, list_w, theme, t).len() == files.len(),
        0 <= i < files.len() ==> diff_list(files, selected, list_w, theme, t)[i] == diff_row(
            files[i],
            i == selected,
            list_w,
            theme,
        ),
{
}

/// The selection of the diff is what was asked for, or the last file.
pub proof fn diff_selection_stays_on_a_file(selected: int, len: int)
    requires
        0 <= selected,
        0 < len,
    ensures
        selected < len ==> diff_focus(selected, len) == selected,
        selected >= len ==> diff_focus(selected, len) == len - 1,
{
}

/// A line of a patch that adds has the color of additions, one that removes that of
/// removals; the names of the files and everything else are quiet.
pub proof fn patch_lines_are_colored(rest: Seq<char>, line: Seq<char>, theme: Theme)
    ensures
        rest.len() < 2 || rest[0] != '+' || rest[1] != '+' ==> patch_color(seq!['+'] + rest, theme)
            == theme.diff.added,
        rest.len() < 2 || rest[0] != '-' || rest[1] != '-' ==> patch_color(seq!['-'] + rest, theme)
            == theme.diff.removed,
        line.len() == 0 || (line[0] != '+' && line[0] != '-') ==> patch_color(line, theme)
            == theme.text.secondary,
        patch_color("+++"@ + rest, theme) == theme.text.secondary,
        patch_color("---"@ + rest, theme) == theme.text.secondary,
{
    reveal_strlit("+");
    reveal_strlit("-");
    reveal_strlit("+++");
    reveal_strlit("---");
    let a = seq!['+'] + rest;
    let r = seq!['-'] + rest;
    assert(a.subrange(0, 1) =~= "+"@);
    assert(r.subrange(0, 1) =~= "-"@);
    assert(r.subrange(0, 1)[0] == '-');
    assert("+"@[0] == '+' && "-"@[0] == '-');
    if begins(a, "+++"@) {
        assert(a.subrange(0, 3)[1] == rest[0] && a.subrange(0, 3)[2] == rest[1]);
        assert("+++"@[1] == '+' && "+++"@[2] == '+');
    }
    if begins(r, "---"@) {
        assert(r.subrange(0, 3)[1] == rest[0] && r.subrange(0, 3)[2] == rest[1]);
        assert("---"@[1] == '-' && "---"@[2] == '-');
    }
    if line.len() > 0 {
        assert(line.subrange(0, 1)[0] == line[0]);
    }
    let p = "+++"@ + rest;
    assert(p.subrange(0, 3) =~= "+++"@);
    assert(p.subrange(0, 1)[0] == '+');
    let m = "---"@ + rest;
    assert(m.subrange(0, 3) =~= "---"@);
    assert(m.subrange(0, 1)[0] == '-');
}

proof fn patch_ignores_what_follows(
    raw: Seq<Seq<char>>,
    line: Seq<char>,
    n: int,
    wrap_w: usize,
    theme: Theme,
)
    requires
        n <= raw.len(),
    ensures
        patch_rows(raw.push(line), n, wrap_w, theme) == patch_rows(raw, n, wrap_w, theme),
    decreases n,
{
    if n > 0 {
        patch_ignores_what_follows(raw, line, n - 1, wrap_w, theme);
        assert(raw.push(line)[n - 1] == raw[n - 1]);
    }
}

/// Every line of a patch adds its rows, whatever it begins with, in the color of what it
/// does.
pub proof fn every_line_of_the_patch_is_shown(
    raw: Seq<Seq<char>>,
    line: Seq<char>,
    wrap_w: usize,
    theme: Theme,
    i: int,
)
    ensures
        ({
            let n = raw.len() as int;
            let before = patch_rows(raw, n, wrap_w, theme);
            let after = patch_rows(raw.push(line), n + 1, wrap_w, theme);
            let clean = sanitized_from(line, 0, 0);
            let own = wrapped(clean, wrap_w);
            &&& after.len() == before.len() + own.len()
            &&& after.take(before.len() as int) == before
            &&& 0 <= i < own.len() ==> after[before.len() + i] == seq![
                SpanV { content: own[i], style: ink(patch_color(clean, theme)) },
            ]
        }),
{
    let n = raw.len() as int;
    patch_ignores_what_follows(raw, line, n, wrap_w, theme);
    assert(raw.push(line)[n] == line);
    let before = patch_rows(raw, n, wrap_w, theme);
    let after = patch_rows(raw.push(line), n + 1, wrap_w, theme);
    assert(after.take(before.len() as int) =~= before);
    reveal_strlit("");
    let own = wrapped(sanitized_from(line, 0, 0), wrap_w);
    if 0 <= i < own.len() {
        assert(""@ + own[i] =~= own[i]);
    }
}

/// The patch of a file is shown under it with the hint at its foot; a file without one
/// asks to be loaded again.
pub proof fn patch_stands_above_the_hint(f: UiDiffFile, wrap_w: usize, theme: Theme, t: UiText)
    ensures
        ({
            let rows = diff_detail(Some(f), wrap_w, theme, t);
            &&& rows.last() == seq![
                SpanV { content: t.diff_footer_hint@, style: ink(theme.text.secondary) },
            ]
            &&& f.patch is None ==> rows[0] == seq![
                SpanV { content: t.diff_reload_hint@, style: ink(theme.text.secondary) },
            ] && rows.len() == 3
            &&& (f.patch matches Some(p) ==> rows.take(rows.len() - 2) == patch_rows(
                text_lines(p@),
                text_lines(p@).len() as int,
                wrap_w,
                theme,
            ))
        }),
{
    let rows = diff_detail(Some(f), wrap_w, theme, t);
    assert(rows.take(rows.len() - 2) =~= patch_body(Some(f), wrap_w, theme, t));
}

// ---------------------------------------------------------------- sessions

proof fn lower_parts(status: Seq<char>, part: Seq<char>)
    requires
        lowered(part) == part,
    ensures
        has_text(lowered(status), part) <==> names_part(status, part),
{
    match_sets_case_aside(status, part);
}

proof fn letter_stays(c: char)
    requires
        97 <= c as int <= 122,
    ensures
        crate::strings::ascii_lower(c) == c,
{
    assert('A' as u32 == 65 && 'Z' as u32 == 90);
    assert(c as u32 == c as int);
}

proof fn small_letters_stay(s: Seq<char>)
    requires
        forall|i: int| 0 <= i < s.len() ==> 97 <= #[trigger] s[i] as int <= 122,
    ensures
        lowered(s) == s,
{
    assert forall|i: int| 0 <= i < s.len() implies lowered(s)[i] == #[trigger] s[i] by {
        letter_stays(s[i]);
    }
    assert(lowered(s) =~= s);
}

/// A session's dot has the color of how it stands: done, failed, interrupted or running,
/// read from its status whatever its case; only a status that says none of it leaves the
/// dot empty.
pub proof fn dot_tells_the_status(status: Seq<char>, theme: Theme)
    ensures
        ({
            let done = names_part(status, "complet"@) || names_part(status, "verif"@) || lowered(
                status,
            ) == "done"@;
            let failed = names_part(status, "fail"@) || names_part(status, "error"@);
            let stopped = names_part(status, "interrupt"@) || names_part(status, "cancel"@);
            let runs = names_part(status, "run"@) || names_part(status, "active"@) || names_part(
                status,
                "busy"@,
            );
            &&& done ==> dot_of(status, theme) == ("●"@, theme.status.success)
            &&& !done && failed ==> dot_of(status, theme) == ("●"@, theme.status.error)
            &&& !done && !failed && stopped ==> dot_of(status, theme) == (
                "●"@,
                theme.status.warning,
            )
            &&& !done && !failed && !stopped && runs ==> dot_of(status, theme) == (
                "●"@,
                theme.accent.primary,
            )
            &&& !done && !failed && !stopped && !runs ==> dot_of(status, theme) == (
                "○"@,
                theme.text.secondary,
            )
        }),
{
    reveal_strlit("complet");
    small_letters_stay("complet"@);
    lower_parts(status, "complet"@);
    reveal_strlit("verif");
    small_letters_stay("verif"@);
    lower_parts(status, "verif"@);
    reveal_strlit("fail");
    small_letters_stay("fail"@);
    lower_parts(status, "fail"@);
    reveal_strlit("error");
    small_letters_stay("error"@);
    lower_parts(status, "error"@);
    reveal_strlit("interrupt");
    small_letters_stay("interrupt"@);
    lower_parts(status, "interrupt"@);
    reveal_strlit("cancel");
    small_letters_stay("cancel"@);
    lower_parts(status, "cancel"@);
    reveal_strlit("run");
    small_letters_stay("run"@);
    lower_parts(status, "run"@);
    reveal_strlit("active");
    small_letters_stay("active"@);
    lower_parts(status, "active"@);
    reveal_strlit("busy");
    small_letters_stay("busy"@);
    lower_parts(status, "busy"@);
}

/// A session's row is its mark, its dot, its goal, its status and its model.
pub proof fn session_row_stands_in_order(s: UiSessionSummary, selected: bool, theme: Theme)
    ensures
        ({
            let row = session_row(s, selected, theme);
            let dot = dot_of(s.status@, theme);
            &&& row.len() == 5
            &&& row[0].content == (if selected {
                "› "@
            } else {
                "  "@
            })
            &&& row[1] == (SpanV { content: dot.0 + " "@, style: ink(dot.1) })
            &&& row[2].content == truncated(s.goal@, 40) + "  "@
            &&& row[3].content == "["@ + s.status@ + "] "@
            &&& row[4].content == s.model@
        }),
{
}

/// Every session has its row under the title, in order, the selected one alone marked.
pub proof fn sessions_are_listed_in_order(
    sessions: Seq<UiSessionSummary>,
    selected: int,
    theme: Theme,
    t: UiText,
    i: int,
)
    requires
        sessions.len() > 0,
        0 <= i < sessions.len(),
    ensures
        ({
            let rows = sessions_screen(sessions, selected, theme, t);
            &&& rows.len() == sessions.len() + 4
            &&& rows[2 + i] == session_row(sessions[i], i == selected, theme)
            &&& rows[0] == seq![
                SpanV { content: t.screen_sessions@, style: strong(theme.accent.primary) },
            ]
        }),
{
}

// ---------------------------------------------------------------- the help

/// A line of the help is a name, two columns in and filled to its column, and what it
/// stands for.
pub proof fn help_rows_line_up(name: Seq<char>, desc: Seq<char>, n: int, theme: Theme)
    requires
        name.len() <= n,
    ensures
        help_row(name, desc, n, theme)[0].content.len() == n + 2,
        help_row(name, desc, n, theme)[0].content.subrange(2, name.len() as int + 2) == name,
        help_row(name, desc, n, theme)[0].style == ink(theme.accent.primary),
        help_row(name, desc, n, theme)[1] == (SpanV { content: desc, style: bare() }),
{
    reveal_strlit("  ");
    let cell = help_cell(name, n);
    assert(repeated(' ', (n - name.len()) as nat).len() == n - name.len());
    assert(cell.subrange(2, name.len() as int + 2) =~= name);
}

/// A group of the help is a blank row, its title in bold and its commands in order.
pub proof fn help_groups_have_a_title(
    cat: SlashCategory,
    items: Seq<(Seq<char>, Seq<char>)>,
    t: UiText,
    theme: Theme,
    i: int,
)
    ensures
        ({
            let rows = help_group(cat, items, t, theme);
            &&& rows.len() == items.len() + 2
            &&& rows[0].len() == 0
            &&& rows[1] == seq![
                SpanV {
                    content: "  "@ + category_text(cat, t),
                    style: strong(theme.text.secondary),
                },
            ]
            &&& 0 <= i < items.len() ==> rows[2 + i] == help_row(items[i].0, items[i].1, 14, theme)
        }),
{
}

// ---------------------------------------------------------------- the tools

proof fn passing_ignores_what_follows(
    calls: Seq<ToolCallBlock>,
    b: ToolCallBlock,
    f: ToolFilter,
    n: int,
)
    requires
        n <= calls.len(),
    ensures
        passing(calls.push(b), f, n) == passing(calls, f, n),
    decreases n,
{
    if n > 0 {
        passing_ignores_what_follows(calls, b, f, n - 1);
        assert(calls.push(b)[n - 1] == calls[n - 1]);
    }
}

/// A call is listed where the filter passes it, behind the calls before it, and not at
/// all where it does not.
pub proof fn calls_are_listed_where_they_pass(
    calls: Seq<ToolCallBlock>,
    b: ToolCallBlock,
    f: ToolFilter,
)
    ensures
        ({
            let n = calls.len() as int;
            &&& passes(f, b) ==> passing(calls.push(b), f, n + 1) == passing(calls, f, n).push(b)
            &&& !passes(f, b) ==> passing(calls.push(b), f, n + 1) == passing(calls, f, n)
        }),
{
    passing_ignores_what_follows(calls, b, f, calls.len() as int);
    assert(calls.push(b)[calls.len() as int] == b);
}

/// A call's row is its mark, the sign of its state, its name with its target, and the
/// time it took in milliseconds.
pub proof fn call_row_tells_its_time(
    block: ToolCallBlock,
    selected: bool,
    list_w: int,
    theme: Theme,
    home: Option<Seq<char>>,
)
    ensures
        ({
            let row = call_row(block, selected, list_w, theme, home);
            let sign = match block.status {
                ToolStatus::Running => "●"@,
                ToolStatus::Succeeded => "✓"@,
                ToolStatus::Failed => "!"@,
                _ => "?"@,
            };
            let color = match block.status {
                ToolStatus::Running => theme.accent.primary,
                ToolStatus::Succeeded => theme.status.success,
                _ => theme.status.warning,
            };
            &&& row.len() == 4
            &&& row[0].content == (if selected {
                "› "@
            } else {
                "  "@
            })
            &&& row[1] == (SpanV { content: sign + " "@, style: ink(color) })
            &&& (block.duration_ms matches Some(ms) ==> row[3].content == "  "@ + (decimal(
                ms as nat,
            ) + "ms"@))
            &&& block.duration_ms is None ==> row[3].content == "  "@
        }),
{
    assert("  "@ + Seq::<char>::empty() =~= "  "@);
}

/// The states of a call have each their word.
pub proof fn call_states_have_their_words()
    ensures
        status_word(ToolStatus::Running) == "运行中"@,
        status_word(ToolStatus::Succeeded) == "成功"@,
        status_word(ToolStatus::Failed) == "需调整"@,
        status_word(ToolStatus::Cancelled) == "已取消"@,
        status_word(ToolStatus::Unknown) == "未知"@,
{
}

/// A call is labelled by its name and, where it has one, its target.
pub proof fn call_label_names_the_target(block: ToolCallBlock, home: Option<Seq<char>>)
    ensures
        ({
            let target = summary_of(block.name@, block.arguments@, "in"@, home);
            &&& target.len() == 0 || target == "{}"@ ==> call_label(block, home) == block.name@
            &&& target.len() > 0 && target != "{}"@ ==> call_label(block, home) == block.name@
                + " · "@ + target
        }),
{
}

/// The detail of a call ends in what it left, row by row, where it left anything.
pub proof fn call_output_is_shown(block: ToolCallBlock, w: usize, theme: Theme, i: int)
    ensures
        ({
            let rows = call_detail(block, w, theme);
            &&& (block.preview matches Some(p) ==> {
                let own = wrapped(p@, w);
                let from = rows.len() - own.len();
                &&& rows.len() >= own.len() + 2
                &&& rows[from - 1] == seq![
                    SpanV { content: "输出"@, style: ink(theme.text.muted) },
                ]
                &&& 0 <= i < own.len() ==> rows[from + i] == seq![
                    SpanV { content: own[i], style: bare() },
                ]
            })
            &&& rows[0] == seq![
                SpanV { content: "工具  "@, style: ink(theme.text.muted) },
                SpanV { content: block.name@, style: bare() },
            ]
        }),
{
}

// ---------------------------------------------------------------- panes

/// A pane shows the rows from its offset on, one behind the other, and is as high as
/// asked.
pub proof fn pane_shows_rows_in_order(
    lines: Seq<Seq<SpanV>>,
    width: int,
    height: int,
    scroll: int,
    row: int,
)
    requires
        0 < width,
        0 <= row < height,
        0 <= scroll,
    ensures
        pane_rows(lines, width, height, scroll).len() == height,
        scroll + row < lines.len() ==> pane_rows(lines, width, height, scroll)[row] == padded_line(
            lines[scroll + row],
            width,
        ),
{
}

/// A window shows the rows from its offset on, as many as it is high, or as are left.
pub proof fn window_shows_rows_in_order(
    lines: Seq<Seq<SpanV>>,
    offset: int,
    height: int,
    row: int,
)
    requires
        0 <= offset <= lines.len(),
        0 <= height,
    ensures
        windowed(lines, offset, height).len() == (if offset + height <= lines.len() {
            height
        } else {
            lines.len() - offset
        }),
        0 <= row < height && offset + row < lines.len() ==> windowed(lines, offset, height)[row]
            == lines[offset + row],
{
}

/// Scrolled back, a pane that follows its end shows as many rows earlier, and never
/// before the first.
pub proof fn tail_scrolls_back(lines_len: int, height: int, scroll: int)
    requires
        0 <= height <= lines_len,
        0 <= scroll,
    ensures
        scroll <= lines_len - height ==> tail_offset(lines_len, height, scroll) == lines_len
            - height - scroll,
        scroll > lines_len - height ==> tail_offset(lines_len, height, scroll) == 0,
{
}

/// A list scrolls only as far as its focus asks: the focus is then its last row.
pub proof fn list_scrolls_to_the_focus(lines_len: int, area_h: int, focus: int)
    requires
        0 < area_h,
        0 <= focus < lines_len,
    ensures
        focus >= area_h ==> list_offset(lines_len, area_h, focus) == focus - area_h + 1,
        focus < area_h ==> list_offset(lines_len, area_h, focus) == 0,
{
}

// ---------------------------------------------------------------- the phone

/// A phone that asks is named with its platform, its fingerprint is shown to compare,
/// and the answer is asked for; before that what happened is told, and before anything
/// happened the code to paste.
pub proof fn phone_is_named_before_it_connects(
    remote: RemoteState,
    width: int,
    theme: Theme,
    t: UiText,
    w: (Seq<char>, Seq<char>, Seq<char>),
)
    requires
        remote.pending is Some,
        t.remote_wants_connect@ == w.0 + "{}"@ + (w.1 + "{}"@ + w.2),
        !w.0.contains('{'),
        !(w.0 + remote.pending->0.device_name@ + w.1).contains('{'),
    ensures
        ({
            let p = remote.pending->0;
            let rows = decision(remote, width, theme, t);
            &&& rows.len() == 5
            &&& rows[0] == seq![
                SpanV {
                    content: w.0 + p.device_name@ + w.1 + p.platform@ + w.2,
                    style: strong(theme.status.warning),
                },
            ]
            &&& rows[1] == labeled(
                t.remote_label_phone_fp@,
                p.fingerprint@,
                ink(theme.accent.primary),
                strong(theme.text.primary),
                width,
            )
            &&& rows[4] == seq![
                SpanV { content: t.remote_yn@, style: strong(theme.accent.primary) },
            ]
        }),
{
    reveal_strlit("{}");
    let p = remote.pending->0;
    let rest = w.1 + "{}"@ + w.2;
    first_gap_is_filled(w.0, "{}"@, rest, p.device_name@);
    assert(w.0 + p.device_name@ + rest =~= (w.0 + p.device_name@ + w.1) + "{}"@ + w.2);
    first_gap_is_filled(w.0 + p.device_name@ + w.1, "{}"@, w.2, p.platform@);
}

/// What became of a phone is told in the color of warnings where it was rejected and in
/// that of success otherwise.
pub proof fn rejected_phones_are_warned_of(
    remote: RemoteState,
    outcome: Seq<char>,
    width: int,
    theme: Theme,
    t: UiText,
)
    requires
        remote.pending is None,
        remote.outcome is Some,
        remote.outcome->0@ == outcome,
    ensures
        ({
            let rows = decision(remote, width, theme, t);
            let refused = has_text(outcome, "拒绝"@) || names_part(outcome, "reject"@);
            &&& rows.len() == 1
            &&& rows[0] == seq![
                SpanV {
                    content: outcome,
                    style: strong(
                        if refused {
                            theme.status.warning
                        } else {
                            theme.status.success
                        },
                    ),
                },
            ]
        }),
{
    reveal_strlit("reject");
    small_letters_stay("reject"@);
    lower_parts(outcome, "reject"@);
}

/// While no phone asks, the code to paste is shown in full under its hint.
pub proof fn code_is_shown_while_waiting(
    remote: RemoteState,
    width: int,
    theme: Theme,
    t: UiText,
    i: int,
)
    requires
        remote.pending is None,
        remote.outcome is None,
    ensures
        ({
            let rows = decision(remote, width, theme, t);
            let pieces = chunks(remote.invite.payload@, larger(width - 2, 8));
            &&& rows.len() == 3 + pieces.len()
            &&& rows[0] == seq![
                SpanV { content: t.remote_waiting@, style: ink(theme.text.secondary) },
            ]
            &&& rows[2] == seq![
                SpanV { content: t.remote_paste_hint@, style: ink(theme.text.secondary) },
            ]
            &&& 0 <= i < pieces.len() ==> rows[3 + i] == seq![
                SpanV { content: "  "@ + pieces[i], style: ink(theme.text.muted) },
            ]
        }),
{
}

/// A span that fits a pane is filled up to the pane's width with the columns it misses.
pub proof fn short_line_is_filled(s: SpanV, width: int)
    requires
        width > 0,
    ensures
        unicode_str_width(s.content) <= width ==> padded_line(seq![s], width) == seq![s]
            + crate::line::spaces(width - unicode_str_width(s.content)),
        padded_line(Seq::empty(), width) == crate::line::spaces(width),
{
    reveal_with_fuel(crate::render::panes::padded_from, 2);
}

/// Every character of a code takes the columns it has, and one at least.
pub proof fn characters_take_a_column(c: char)
    ensures
        cells(c) == larger(columns(c) as int, 1),
{
}

/// Until the code is there the page says that it is being prepared.
pub proof fn preparing_is_told(t: UiText, theme: Theme)
    ensures
        preparing(t, theme).len() == 5,
        preparing(t, theme)[0] == seq![
            SpanV { content: t.screen_remote@, style: strong(theme.accent.primary) },
        ],
        preparing(t, theme)[2] == seq![
            SpanV { content: t.remote_preparing@, style: ink(theme.text.secondary) },
        ],
        preparing(t, theme)[4] == seq![
            SpanV { content: t.remote_footer@, style: ink(theme.text.muted) },
        ],
{
}

/// The status and the model of a session are quiet beside its goal.
pub proof fn session_facts_are_quiet(s: UiSessionSummary, selected: bool, theme: Theme)
    ensures
        session_row(s, selected, theme)[0].style == ink(theme.accent.primary),
        session_row(s, selected, theme)[2].style == bare(),
        session_row(s, selected, theme)[3].style == ink(theme.text.secondary),
        session_row(s, selected, theme)[4].style == ink(theme.text.secondary),
{
}

/// The name of a labelled value takes ten columns, and the value stands a space behind
/// it, cut to what is left.
pub proof fn label_takes_its_column(
    label: Seq<char>,
    value: Seq<char>,
    label_style: Style,
    value_style: Style,
    width: int,
)
    ensures
        labeled(label, value, label_style, value_style, width) == seq![
            SpanV { content: filled(label, 10), style: label_style },
            SpanV {
                content: " "@ + truncated(value, larger(width - 11, 8)),
                style: value_style,
            },
        ],
{
}

} // verus!
