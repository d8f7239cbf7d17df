//! The marker that ends a turn.

use vstd::prelude::*;

use crate::i18n::UiText;
use crate::line::{bold_style, fg_style, spanv, Color, Line, Span, Style};
use crate::model::{line_views, SpanV};
use crate::number::{minus, room, room_of};
use crate::protocol::{REASON_NO_AUTOMATIC_VERIFICATION, REASON_NO_CODE_CHANGES};
use crate::render::rows::{indented, push_indented};
use crate::render::text::{wrap, wrapped};
use crate::status_line::{elapsed, fmt_elapsed};
use crate::strings::{
    after_prefix, begins, cat2, cat3, contains, dec, decimal, drop_prefix, has_text, repeat_char,
    repeated, replace_first, replaced_first, same, starts_with, trim, trimmed,
};
use crate::theme::Theme;
use crate::transcript::{TurnEndBlock, TurnEndStatus};
use crate::width::{str_width, unicode_str_width};

verus! {

broadcast use crate::model::group_views;

/// The reason of an end without the white space around it.
pub open spec fn detail_token(block: TurnEndBlock) -> Option<Seq<char>> {
    match block.detail {
        Some(d) => Some(trimmed(d@)),
        None => None,
    }
}

/// An unverified end that changed no code.
pub open spec fn is_no_code(block: TurnEndBlock) -> bool {
    block.status == TurnEndStatus::Unverified && detail_token(block) == Some(
        REASON_NO_CODE_CHANGES@,
    )
}

/// An unverified end that no check could verify by itself.
pub open spec fn is_no_check(block: TurnEndBlock) -> bool {
    block.status == TurnEndStatus::Unverified && detail_token(block) == Some(
        REASON_NO_AUTOMATIC_VERIFICATION@,
    )
}

/// The word and the color of an end.
pub open spec fn marker_of(block: TurnEndBlock, theme: Theme, t: UiText) -> (Seq<char>, Color) {
    match block.status {
        TurnEndStatus::Completed | TurnEndStatus::Answered => (
            "✓ "@ + t.turn_end_completed@,
            theme.status.success,
        ),
        TurnEndStatus::CompletedWithWarnings | TurnEndStatus::Truncated => (
            "⚠ "@ + t.final_completed_warnings@,
            theme.status.warning,
        ),
        TurnEndStatus::Incomplete => (
            "⚠ "@ + (if detail_token(block) matches Some(d) && begins(d, "failed gate(s)"@) {
                t.final_verification_failed@
            } else {
                t.final_blocked@
            }),
            theme.status.warning,
        ),
        TurnEndStatus::Unverified => if is_no_code(block) {
            (t.turn_no_code_changes@, theme.status.success)
        } else if is_no_check(block) {
            (t.turn_unverified@, theme.status.success)
        } else {
            ("⚠ "@ + t.final_completed_warnings@, theme.status.warning)
        },
        TurnEndStatus::ChecksFailed => ("⚠ "@ + t.turn_checks_failed@, theme.status.warning),
        TurnEndStatus::NoFinalAnswer => ("⚠ "@ + t.turn_no_final_answer@, theme.status.warning),
        TurnEndStatus::Failed => ("✗ "@ + t.final_failed@, theme.status.error),
        TurnEndStatus::Cancelled => ("⊘ "@ + t.final_cancelled@, theme.text.secondary),
    }
}

fn token_is(block: &TurnEndBlock, token: &str) -> (r: bool)
    ensures
        r == (detail_token(*block) == Some(token@)),
{
    match &block.detail {
        Some(d) => same(trim(d.as_str()).as_str(), token),
        None => false,
    }
}

fn soft_end(block: &TurnEndBlock) -> (r: (bool, bool))
    ensures
        r.0 == is_no_code(*block),
        r.1 == is_no_check(*block),
{
    if block.status != TurnEndStatus::Unverified {
        return (false, false);
    }
    (
        token_is(block, REASON_NO_CODE_CHANGES),
        token_is(block, REASON_NO_AUTOMATIC_VERIFICATION),
    )
}

/// The turn-end marker's label and colour.
///
/// Single source for the wording: the transcript divider and a secondary page's
/// header both read it, so the verdict cannot diverge between them.
pub fn turn_end_marker(block: &TurnEndBlock, theme: &Theme, t: &UiText) -> (r: (String, Color))
    ensures
        (r.0@, r.1) == marker_of(*block, *theme, *t),
{
    let (no_code, no_check) = soft_end(block);
    match block.status {
        TurnEndStatus::Completed | TurnEndStatus::Answered => (
            cat2("✓ ", t.turn_end_completed),
            theme.status.success,
        ),
        TurnEndStatus::CompletedWithWarnings | TurnEndStatus::Truncated => (
            cat2("⚠ ", t.final_completed_warnings),
            theme.status.warning,
        ),
        // The run stopped mid-task on its own: "not finished" is the honest word. A
        // failed verification gate has a word of its own.
        TurnEndStatus::Incomplete => {
            let gate = match &block.detail {
                Some(d) => starts_with(trim(d.as_str()).as_str(), "failed gate(s)"),
                None => false,
            };
            let word = if gate {
                t.final_verification_failed
            } else {
                t.final_blocked
            };
            (cat2("⚠ ", word), theme.status.warning)
        },
        TurnEndStatus::Unverified => if no_code {
            (t.turn_no_code_changes.to_owned(), theme.status.success)
        } else if no_check {
            (t.turn_unverified.to_owned(), theme.status.success)
        } else {
            (cat2("⚠ ", t.final_completed_warnings), theme.status.warning)
        },
        // Done, and the project's checks failed: both facts, one marker.
        TurnEndStatus::ChecksFailed => (cat2("⚠ ", t.turn_checks_failed), theme.status.warning),
        TurnEndStatus::NoFinalAnswer => (
            cat2("⚠ ", t.turn_no_final_answer),
            theme.status.warning,
        ),
        TurnEndStatus::Failed => (cat2("✗ ", t.final_failed), theme.status.error),
        // Cancelled is user-initiated, not a failure: stopped glyph, muted.
        TurnEndStatus::Cancelled => (cat2("⊘ ", t.final_cancelled), theme.text.secondary),
    }
}

/// The reason of an end in product words: machine tokens become short copy, the name
/// of a failed gate loses its prefix, anything else stays.
pub open spec fn turn_detail(detail: Seq<char>, t: UiText) -> Seq<char> {
    let d = trimmed(detail);
    if d == REASON_NO_AUTOMATIC_VERIFICATION@ {
        t.turn_no_automatic_verification@
    } else if has_text(d, "observe thrash"@) && has_text(d, "plan complete"@) {
        t.turn_plan_thrash@
    } else if has_text(d, "observe thrash"@) || begins(d, "no-progress streak"@) || has_text(
        d,
        "continue suppressed: no-progress cap"@,
    ) {
        t.turn_observe_thrash@
    } else if has_text(d, "预算已耗尽"@) || begins(d, "轮次或资源预算"@) || has_text(
        d,
        "budget_exhausted"@,
    ) || has_text(d, "budget exhausted"@) || has_text(d, "model token budget"@) || has_text(
        d,
        "model cost budget"@,
    ) {
        t.turn_budget_exhausted@
    } else if has_text(d, "update_goal"@) || has_text(d, "goal 模式未调用"@) || has_text(
        d,
        "goal 未确认"@,
    ) {
        t.turn_stalled_goal@
    } else {
        after_prefix(d, "failed gate(s): "@)
    }
}

pub fn localized_turn_detail(detail: &str, t: &UiText) -> (r: String)
    ensures
        r@ == turn_detail(detail@, *t),
{
    let trimmed = trim(detail);
    let d = trimmed.as_str();
    if same(d, REASON_NO_AUTOMATIC_VERIFICATION) {
        t.turn_no_automatic_verification.to_owned()
    } else if contains(d, "observe thrash") && contains(d, "plan complete") {
        t.turn_plan_thrash.to_owned()
    } else if contains(d, "observe thrash") || starts_with(d, "no-progress streak") || contains(
        d,
        "continue suppressed: no-progress cap",
    ) {
        t.turn_observe_thrash.to_owned()
    } else if contains(d, "预算已耗尽") || starts_with(d, "轮次或资源预算") || contains(
        d,
        "budget_exhausted",
    ) || contains(d, "budget exhausted") || contains(d, "model token budget") || contains(
        d,
        "model cost budget",
    ) {
        t.turn_budget_exhausted.to_owned()
    } else if contains(d, "update_goal") || contains(d, "goal 模式未调用") || contains(
        d,
        "goal 未确认",
    ) {
        t.turn_stalled_goal.to_owned()
    } else {
        drop_prefix(d, "failed gate(s): ")
    }
}

/// Whether an end reports what the turn did.
pub open spec fn has_stats(status: TurnEndStatus) -> bool {
    match status {
        TurnEndStatus::Completed
        | TurnEndStatus::CompletedWithWarnings
        | TurnEndStatus::Answered
        | TurnEndStatus::Unverified
        | TurnEndStatus::ChecksFailed
        | TurnEndStatus::NoFinalAnswer => true,
        _ => false,
    }
}

/// What the turn did: its tools, its time, its summary.
pub open spec fn turn_stats(block: TurnEndBlock, t: UiText) -> Seq<char> {
    if !has_stats(block.status) {
        Seq::empty()
    } else {
        (if block.tool_calls > 0 {
            replaced_first(t.tool_calls_n@, "{}"@, decimal(block.tool_calls as nat))
        } else {
            Seq::empty()
        }) + (if block.elapsed_secs > 0 {
            " · "@ + elapsed(block.elapsed_secs as nat)
        } else {
            Seq::empty()
        }) + (match block.summary {
            Some(s) => " · "@ + s@,
            None => Seq::empty(),
        })
    }
}

fn turn_stats_text(block: &TurnEndBlock, t: &UiText) -> (r: String)
    ensures
        r@ == turn_stats(*block, *t),
{
    let mut stats = String::new();
    let shown = match block.status {
        TurnEndStatus::Completed
        | TurnEndStatus::CompletedWithWarnings
        | TurnEndStatus::Answered
        | TurnEndStatus::Unverified
        | TurnEndStatus::ChecksFailed
        | TurnEndStatus::NoFinalAnswer => true,
        _ => false,
    };
    if shown {
        if block.tool_calls > 0 {
            stats.append(
                replace_first(t.tool_calls_n, "{}", dec(block.tool_calls).as_str()).as_str(),
            );
        }
        if block.elapsed_secs > 0 {
            stats.append(cat2(" · ", fmt_elapsed(block.elapsed_secs).as_str()).as_str());
        }
        match &block.summary {
            Some(summary) => {
                stats.append(cat2(" · ", summary.as_str()).as_str());
            },
            None => {},
        }
    }
    assert(stats@ =~= turn_stats(*block, *t));
    stats
}

/// The reason that is still to be told: none where the label holds it.
pub open spec fn open_reason(block: TurnEndBlock, t: UiText) -> Seq<char> {
    match block.detail {
        Some(d) => if is_no_code(block) || is_no_check(block) {
            Seq::empty()
        } else {
            turn_detail(d@, t)
        },
        None => Seq::empty(),
    }
}

/// The columns that the marker has left for a reason.
pub open spec fn reason_room(label: Seq<char>, stats: Seq<char>, width: int) -> int {
    minus(
        minus(
            minus(minus(width, unicode_str_width("── "@) as int), unicode_str_width(label) as int),
            unicode_str_width(stats) as int,
        ),
        7,
    )
}

/// The rows of an end: the marker with what the turn did, the reason on it where it
/// fits and under it, in full, where it does not.
pub open spec fn end_lines(block: TurnEndBlock, theme: Theme, width: int, t: UiText) -> Seq<Seq<SpanV>> {
    let (label, color) = marker_of(block, theme, t);
    let stats = turn_stats(block, t);
    let reason = open_reason(block, t);
    let fits = unicode_str_width(reason) <= reason_room(label, stats, width);
    let shown = if reason.len() != 0 && fits {
        stats + " · "@ + reason
    } else {
        stats
    };
    let used = unicode_str_width("── "@) + unicode_str_width(label) + unicode_str_width(shown) + 1;
    seq![
        seq![
            spanv("── "@, fg_style(theme.border.normal)),
            spanv(label, bold_style(color)),
            spanv(shown, fg_style(theme.text.secondary)),
            spanv(
                " "@ + repeated('─', minus(width, used) as nat),
                fg_style(theme.border.normal),
            ),
        ],
    ] + (if reason.len() != 0 && !fits {
        indented(
            wrapped(reason, room(width, 4, 8) as usize),
            "   "@,
            fg_style(theme.text.secondary),
        )
    } else {
        Seq::empty()
    })
}

pub fn turn_end_lines(block: &TurnEndBlock, theme: &Theme, width: usize, out: &mut Vec<Line>, t: &UiText)
    ensures
        line_views(final(out)@) == line_views(old(out)@) + end_lines(
            *block,
            *theme,
            width as int,
            *t,
        ),
{
    let (label, color) = turn_end_marker(block, theme, t);
    let mut stats = turn_stats_text(block, t);
    let (no_code, no_check) = soft_end(block);
    let reason = match &block.detail {
        Some(d) => if no_code || no_check {
            String::new()
        } else {
            localized_turn_detail(d.as_str(), t)
        },
        None => String::new(),
    };
    assert(reason@ =~= open_reason(*block, *t));
    let lead_w: usize = str_width("── ");
    let label_w: usize = str_width(label.as_str());
    let space: usize = width.saturating_sub(lead_w).saturating_sub(label_w).saturating_sub(
        str_width(stats.as_str()),
    ).saturating_sub(7);
    let empty = reason.as_str().is_empty();
    let fits = str_width(reason.as_str()) <= space;
    if !empty && fits {
        stats = cat3(stats.as_str(), " · ", reason.as_str());
    }
    let used: usize = lead_w.saturating_add(label_w).saturating_add(
        str_width(stats.as_str()),
    ).saturating_add(1);
    let tail = repeat_char('─', width.saturating_sub(used));
    let mut line = Line::of(Span::text("── ", Style::fg(theme.border.normal)));
    line.push(Span::new(label, Style::bold(color)));
    line.push(Span::new(stats, Style::fg(theme.text.secondary)));
    line.push(Span::new(cat2(" ", tail.as_str()), Style::fg(theme.border.normal)));
    let ghost head = line@;
    let ghost base = line_views(out@);
    out.push(line);
    // A reason the marker had no room for is readable under it, in full.
    if !empty && !fits {
        let rows = wrap(reason.as_str(), room_of(width, 4, 8));
        push_indented(out, &rows, "   ", Style::fg(theme.text.secondary));
    }
    assert(head =~= end_lines(*block, *theme, width as int, *t)[0]);
    assert(line_views(out@) =~= base + end_lines(*block, *theme, width as int, *t));
}

/// An end that is no completion never wears the check mark. The two calm unverified ends
/// have words of their own.
pub proof fn only_completion_wears_a_check(block: TurnEndBlock, theme: Theme, t: UiText)
    requires
        !(block.status is Completed),
        !(block.status is Answered),
        !is_no_code(block),
        !is_no_check(block),
    ensures
        marker_of(block, theme, t).0.len() > 0,
        marker_of(block, theme, t).0[0] != '✓',
{
    reveal_strlit("⚠ ");
    reveal_strlit("✗ ");
    reveal_strlit("⊘ ");
}

} // verus!
