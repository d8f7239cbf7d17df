//! What the end of a turn, a goal's recap and a user's command promise.

use vstd::prelude::*;

use crate::i18n::UiText;
use crate::laws::{first_gap_is_filled, ink, larger, leads, strong};
use crate::model::{views, SpanV};
use crate::render::text::{sanitized_from, truncated, wrapped};
use crate::render::transcript_lines::{
    findings_text, last_words, list_lines, prefixed_lines, presents, rendered, running_shell,
    section_lines, shell_rows, verification_text, DisclosurePresentation, Made,
};
use crate::render::turn_end::turn_detail;
use crate::status_line::elapsed;
use crate::strings::{decimal, drop_set, has_text, signed_decimal, text_lines, trimmed};
use crate::theme::Theme;
use crate::transcript::{GoalRecap, GoalRecapBlock, TranscriptItem, TurnEndBlock, UserShellBlock};

verus! {

// ---------------------------------------------------------------- the end of a turn

/// The marker of a turn's end says how it ended, each way with its own sign, word and
/// color, in bold behind a short rule.
pub proof fn turn_end_says_how_it_ended(
    block: TurnEndBlock,
    theme: Theme,
    width: int,
    t: UiText,
    made: Made,
)
    ensures
        ({
            let row = rendered(TranscriptItem::TurnEnd(block), theme, width, t, made)[0];
            let says = |word: Seq<char>, color| row[1] == (SpanV {
                content: word,
                style: strong(color),
            });
            &&& row.len() == 4
            &&& row[0] == (SpanV { content: "── "@, style: ink(theme.border.normal) })
            &&& row[2].style == ink(theme.text.secondary)
            &&& row[3].style == ink(theme.border.normal)
            &&& block.status is Completed || block.status is Answered ==> says(
                "✓ "@ + t.turn_end_completed@,
                theme.status.success,
            )
            &&& block.status is CompletedWithWarnings || block.status is Truncated ==> says(
                "⚠ "@ + t.final_completed_warnings@,
                theme.status.warning,
            )
            &&& block.status is ChecksFailed ==> says(
                "⚠ "@ + t.turn_checks_failed@,
                theme.status.warning,
            )
            &&& block.status is NoFinalAnswer ==> says(
                "⚠ "@ + t.turn_no_final_answer@,
                theme.status.warning,
            )
            &&& block.status is Failed ==> says("✗ "@ + t.final_failed@, theme.status.error)
            &&& block.status is Cancelled ==> says(
                "⊘ "@ + t.final_cancelled@,
                theme.text.secondary,
            )
            &&& block.status is Incomplete && block.detail is None ==> says(
                "⚠ "@ + t.final_blocked@,
                theme.status.warning,
            )
            &&& block.status is Incomplete && block.detail is Some && leads(
                "failed gate(s)"@,
                trimmed(block.detail->0@),
            ) ==> says("⚠ "@ + t.final_verification_failed@, theme.status.warning)
            &&& block.status is Incomplete && block.detail is Some && !leads(
                "failed gate(s)"@,
                trimmed(block.detail->0@),
            ) ==> says("⚠ "@ + t.final_blocked@, theme.status.warning)
            &&& block.status is Unverified && block.detail is None ==> says(
                "⚠ "@ + t.final_completed_warnings@,
                theme.status.warning,
            )
            &&& block.status is Unverified && block.detail is Some ==> {
                let d = trimmed(block.detail->0@);
                &&& d == "no_code_changes"@ ==> says(
                    t.turn_no_code_changes@,
                    theme.status.success,
                ) && rendered(TranscriptItem::TurnEnd(block), theme, width, t, made).len() == 1
                &&& d == "no_automatic_verification"@ && d != "no_code_changes"@ ==> says(
                    t.turn_unverified@,
                    theme.status.success,
                ) && rendered(TranscriptItem::TurnEnd(block), theme, width, t, made).len() == 1
                &&& d != "no_automatic_verification"@ && d != "no_code_changes"@ ==> says(
                    "⚠ "@ + t.final_completed_warnings@,
                    theme.status.warning,
                )
            }
        }),
{
    if block.detail is Some {
        let d = trimmed(block.detail->0@);
        let p = "failed gate(s)"@;
        if leads(p, d) {
            assert(d.subrange(0, p.len() as int) =~= p);
        } else if p.len() <= d.len() && d.subrange(0, p.len() as int) == p {
            assert forall|i: int| 0 <= i < p.len() implies #[trigger] d[i] == p[i] by {
                assert(d.subrange(0, p.len() as int)[i] == d[i]);
            }
        }
    }
}

/// What a settled turn came to, in this order: its calls, its time, its summary. None
/// of them where it is zero or not there.
pub open spec fn told(block: TurnEndBlock, calls: Seq<char>) -> Seq<char> {
    (if block.tool_calls > 0 {
        calls
    } else {
        Seq::empty()
    }) + (if block.elapsed_secs > 0 {
        " · "@ + elapsed(block.elapsed_secs as nat)
    } else {
        Seq::empty()
    }) + (match block.summary {
        Some(s) => " · "@ + s@,
        None => Seq::empty(),
    })
}

/// A settled turn tells its calls, its time and its summary; one that failed, was
/// cancelled, cut off or blocked tells none of them.
pub proof fn settled_turn_tells_its_numbers(
    block: TurnEndBlock,
    theme: Theme,
    width: int,
    t: UiText,
    made: Made,
    head: Seq<char>,
    tail: Seq<char>,
)
    requires
        t.tool_calls_n@ == head + "{}"@ + tail,
        !head.contains('{'),
    ensures
        ({
            let said = rendered(TranscriptItem::TurnEnd(block), theme, width, t, made)[0][2].content;
            let numbers = told(block, head + decimal(block.tool_calls as nat) + tail);
            let settled = block.status is Completed || block.status is CompletedWithWarnings
                || block.status is Answered || block.status is Unverified || block.status
                is ChecksFailed || block.status is NoFinalAnswer;
            &&& settled ==> leads(numbers, said)
            &&& settled && block.detail is None ==> said == numbers
            &&& !settled && block.detail is None ==> said.len() == 0
        }),
{
    reveal_strlit("{}");
    first_gap_is_filled(head, "{}"@, tail, decimal(block.tool_calls as nat));
}

/// The reason of an end is never lost: it stands on the marker's row where it fits, and
/// otherwise on rows of its own below, every one of them there.
pub proof fn reason_is_never_lost(
    block: TurnEndBlock,
    theme: Theme,
    width: int,
    t: UiText,
    made: Made,
    i: int,
)
    requires
        block.detail is Some,
        !(block.status is Unverified),
        turn_detail(block.detail->0@, t).len() != 0,
    ensures
        ({
            let rows = rendered(TranscriptItem::TurnEnd(block), theme, width, t, made);
            let reason = turn_detail(block.detail->0@, t);
            let said = rows[0][2].content;
            let words = wrapped(reason, larger(width - 4, 8) as usize);
            ||| rows.len() == 1 && said.len() >= reason.len() && said.skip(
                said.len() - reason.len(),
            ) == reason
            ||| rows.len() == 1 + words.len() && (0 <= i < words.len() ==> rows[1 + i] == seq![
                SpanV { content: "   "@ + words[i], style: ink(theme.text.secondary) },
            ])
        }),
{
    let rows = rendered(TranscriptItem::TurnEnd(block), theme, width, t, made);
    let reason = turn_detail(block.detail->0@, t);
    let said = rows[0][2].content;
    if rows.len() == 1 && said.len() >= reason.len() {
        let words = wrapped(reason, larger(width - 4, 8) as usize);
        if words.len() > 0 {
            assert(said.skip(said.len() - reason.len()) =~= reason);
        }
    }
}

/// A detail that speaks of none of the known ends is shown as it was written, without
/// the white space around it.
pub proof fn unknown_details_are_shown_as_written(detail: Seq<char>, t: UiText)
    requires
        trimmed(detail) != "no_automatic_verification"@,
        !has_text(trimmed(detail), "observe thrash"@),
        !has_text(trimmed(detail), "continue suppressed: no-progress cap"@),
        !has_text(trimmed(detail), "预算已耗尽"@),
        !has_text(trimmed(detail), "budget_exhausted"@),
        !has_text(trimmed(detail), "budget exhausted"@),
        !has_text(trimmed(detail), "model token budget"@),
        !has_text(trimmed(detail), "model cost budget"@),
        !has_text(trimmed(detail), "update_goal"@),
        !has_text(trimmed(detail), "goal 模式未调用"@),
        !has_text(trimmed(detail), "goal 未确认"@),
        !leads("no-progress streak"@, trimmed(detail)),
        !leads("轮次或资源预算"@, trimmed(detail)),
    ensures
        !leads("failed gate(s): "@, trimmed(detail)) ==> turn_detail(detail, t) == trimmed(detail),
        leads("failed gate(s): "@, trimmed(detail)) ==> turn_detail(detail, t) == trimmed(
            detail,
        ).skip("failed gate(s): "@.len() as int),
{
    let d = trimmed(detail);
    front_is_lead(d, "no-progress streak"@);
    front_is_lead(d, "轮次或资源预算"@);
    front_is_lead(d, "failed gate(s): "@);
}

proof fn front_is_lead(d: Seq<char>, p: Seq<char>)
    ensures
        leads(p, d) <==> crate::strings::begins(d, p),
{
    if leads(p, d) {
        assert(d.subrange(0, p.len() as int) =~= p);
    } else if p.len() <= d.len() && d.subrange(0, p.len() as int) == p {
        assert forall|i: int| 0 <= i < p.len() implies #[trigger] d[i] == p[i] by {
            assert(d.subrange(0, p.len() as int)[i] == d[i]);
        }
    }
}

/// A spent budget reads as one, and so does a goal that was not closed, unless the turn
/// ran in circles.
pub proof fn known_details_have_their_words(detail: Seq<char>, t: UiText)
    requires
        trimmed(detail) != "no_automatic_verification"@,
        !has_text(trimmed(detail), "observe thrash"@),
        !leads("no-progress streak"@, trimmed(detail)),
        !has_text(trimmed(detail), "continue suppressed: no-progress cap"@),
    ensures
        has_text(trimmed(detail), "budget exhausted"@) || has_text(
            trimmed(detail),
            "budget_exhausted"@,
        ) || has_text(trimmed(detail), "预算已耗尽"@) || has_text(
            trimmed(detail),
            "model token budget"@,
        ) || has_text(trimmed(detail), "model cost budget"@) ==> turn_detail(detail, t)
            == t.turn_budget_exhausted@,
        (has_text(trimmed(detail), "update_goal"@) || has_text(trimmed(detail), "goal 模式未调用"@)
            || has_text(trimmed(detail), "goal 未确认"@)) && !has_text(
            trimmed(detail),
            "budget exhausted"@,
        ) && !has_text(trimmed(detail), "budget_exhausted"@) && !has_text(
            trimmed(detail),
            "预算已耗尽"@,
        ) && !has_text(trimmed(detail), "model token budget"@) && !has_text(
            trimmed(detail),
            "model cost budget"@,
        ) && !leads("轮次或资源预算"@, trimmed(detail)) ==> turn_detail(detail, t)
            == t.turn_stalled_goal@,
{
    front_is_lead(trimmed(detail), "轮次或资源预算"@);
    front_is_lead(trimmed(detail), "no-progress streak"@);
}

/// A turn that ran in circles says so, and tells apart the one whose plan was complete.
pub proof fn circles_are_told_apart(detail: Seq<char>, t: UiText)
    requires
        trimmed(detail) != "no_automatic_verification"@,
        has_text(trimmed(detail), "observe thrash"@),
    ensures
        has_text(trimmed(detail), "plan complete"@) ==> turn_detail(detail, t)
            == t.turn_plan_thrash@,
        !has_text(trimmed(detail), "plan complete"@) ==> turn_detail(detail, t)
            == t.turn_observe_thrash@,
{
}

// ---------------------------------------------------------------- a goal's recap

/// A section is its title in bold and its text below, both two columns in.
pub proof fn section_shows_title_and_text(
    title: Seq<char>,
    body: Seq<char>,
    theme: Theme,
    width: int,
    i: int,
)
    requires
        0 <= i < wrapped(body, larger(width - 2, 1) as usize).len(),
    ensures
        ({
            let rows = section_lines(title, body, theme, width);
            let words = wrapped(body, larger(width - 2, 1) as usize);
            &&& rows.len() == 1 + words.len()
            &&& rows[0] == seq![
                SpanV { content: "  "@ + title, style: strong(theme.text.secondary) },
            ]
            &&& rows[1 + i][1] == (SpanV { content: words[i], style: ink(theme.text.primary) })
        }),
{
    reveal_strlit("  ");
}

proof fn items_add_up(
    items: Seq<Seq<char>>,
    item: Seq<char>,
    bullet: Seq<char>,
    theme: Theme,
    width: int,
    n: int,
)
    requires
        n <= items.len(),
    ensures
        crate::render::transcript_lines::item_lines(items.push(item), bullet, theme, width, n)
            == crate::render::transcript_lines::item_lines(items, bullet, theme, width, n),
    decreases n,
{
    if n > 0 {
        items_add_up(items, item, bullet, theme, width, n - 1);
        assert(items.push(item)[n - 1] == items[n - 1]);
    }
}

/// A list names itself once and then shows every item behind its bullet, in order; an
/// empty list shows nothing.
pub proof fn list_shows_every_item(
    title: Seq<char>,
    items: Seq<Seq<char>>,
    item: Seq<char>,
    bullet: Seq<char>,
    theme: Theme,
    width: int,
)
    ensures
        list_lines(title, Seq::<Seq<char>>::empty(), bullet, theme, width).len() == 0,
        list_lines(title, items.push(item), bullet, theme, width) == (if items.len() == 0 {
            seq![seq![SpanV { content: "  "@ + title, style: strong(theme.text.secondary) }]]
        } else {
            list_lines(title, items, bullet, theme, width)
        }) + prefixed_lines(bullet, item, ink(theme.text.primary), width),
{
    items_add_up(items, item, bullet, theme, width, items.len() as int);
    let all = list_lines(title, items.push(item), bullet, theme, width);
    assert(items.push(item)[items.len() as int] == item);
    let front = if items.len() == 0 {
        seq![seq![SpanV { content: "  "@ + title, style: strong(theme.text.secondary) }]]
    } else {
        list_lines(title, items, bullet, theme, width)
    };
    assert(all =~= front + prefixed_lines(bullet, item, ink(theme.text.primary), width));
}

/// Only a check that passed wears the mark of one; one that failed wears a cross, and
/// anything else is called unmeasured.
pub proof fn verification_is_told_as_recorded(recap: GoalRecap, t: UiText)
    ensures
        ({
            let tail = match recap.verification_detail {
                Some(d) => " · "@ + d@,
                None => Seq::<char>::empty(),
            };
            let said = verification_text(recap, t);
            &&& recap.verification@ == "passed"@ ==> said == "✓ "@ + t.goal_recap_verified@ + tail
            &&& recap.verification@ == "failed"@ && recap.verification@ != "passed"@ ==> said
                == "✗ "@ + t.goal_recap_verify_failed@ + tail
            &&& recap.verification@ != "passed"@ && recap.verification@ != "failed"@ ==> said
                == t.goal_recap_unmeasured@
            &&& recap.findings_total matches Some(n) ==> findings_text(recap, t) == decimal(
                n as nat,
            )
        }),
{
}

/// A closed recap is its label and summary and, where there is one, the next step; an
/// open one has every recorded section, in this order, and nothing else.
pub proof fn recap_opens_to_every_section(
    block: GoalRecapBlock,
    theme: Theme,
    width: int,
    t: UiText,
    made: Made,
)
    ensures
        ({
            let r = block.recap;
            let rows = rendered(TranscriptItem::GoalRecap(block), theme, width, t, made);
            let none = Seq::<Seq<SpanV>>::empty();
            let head = prefixed_lines(
                if block.expanded {
                    "▾ "@
                } else {
                    "✽ "@
                },
                t.goal_recap_label@ + " · "@ + r.display_summary@,
                ink(theme.text.primary),
                width,
            );
            let next_word = t.recap_next_step@.take(
                drop_set(t.recap_next_step@, ":： "@, t.recap_next_step@.len() as int),
            );
            &&& leads_rows(head, rows)
            &&& !block.expanded ==> rows == head + (match r.next_action {
                Some(next) => prefixed_lines(
                    "  "@,
                    t.recap_next_step@ + next@,
                    ink(theme.text.secondary),
                    width,
                ),
                None => none,
            })
            &&& block.expanded ==> rows == head + (match r.phase {
                Some(phase) => section_lines(t.goal_recap_phase@, phase@, theme, width),
                None => none,
            }) + list_lines(
                t.goal_recap_completed@,
                views(r.completed_milestones@),
                "  ✓ "@,
                theme,
                width,
            ) + (if r.plan_completed is Some && r.plan_total is Some {
                section_lines(
                    t.goal_recap_plan@,
                    decimal(r.plan_completed->0 as nat) + "/"@ + decimal(r.plan_total->0 as nat),
                    theme,
                    width,
                )
            } else {
                none
            }) + section_lines(
                t.goal_recap_verification@,
                verification_text(r, t),
                theme,
                width,
            ) + section_lines(t.goal_recap_findings@, findings_text(r, t), theme, width)
                + list_lines(
                t.goal_recap_limitations@,
                views(r.known_limitations@),
                "  • "@,
                theme,
                width,
            ) + list_lines(
                t.goal_recap_unresolved@,
                views(r.unresolved_work@),
                "  • "@,
                theme,
                width,
            ) + (match r.next_action {
                Some(next) => section_lines(next_word, next@, theme, width),
                None => none,
            })
        }),
{
    let rows = rendered(TranscriptItem::GoalRecap(block), theme, width, t, made);
}

/// Whether the rows `front` stand first among `rows`.
pub open spec fn leads_rows(front: Seq<Seq<SpanV>>, rows: Seq<Seq<SpanV>>) -> bool {
    front.len() <= rows.len() && forall|i: int|
        0 <= i < front.len() ==> #[trigger] rows[i] == front[i]
}

// ---------------------------------------------------------------- a user's command

/// A running command shows its clock and no output; a settled one shows its disclosure
/// and, opened, all of its output, with a word about what was cut.
pub proof fn command_output_opens(
    shell: UserShellBlock,
    theme: Theme,
    width: int,
    t: UiText,
    now: u64,
    made: Seq<Seq<SpanV>>,
    i: int,
)
    ensures
        ({
            let rows = shell_rows(shell, theme, width, t, now, made);
            let out = text_lines(shell.output@);
            let cut: int = if shell.output_truncated {
                1
            } else {
                0
            };
            &&& shell.status is Running ==> {
                &&& rows.len() == 1
                &&& rows[0].len() == 3
                &&& rows[0][0] == (SpanV { content: "◌ "@, style: ink(theme.accent.primary) })
                &&& rows[0][1].style == ink(theme.text.primary)
                &&& now > shell.started_elapsed_secs ==> rows[0][2].content == " · "@ + decimal(
                    (now - shell.started_elapsed_secs) as nat,
                ) + "s"@
                &&& now <= shell.started_elapsed_secs ==> rows[0][2].content == ""@
            }
            &&& !(shell.status is Running) && !shell.expanded ==> rows == made
            &&& !(shell.status is Running) && shell.expanded ==> {
                &&& rows.len() == made.len() + cut + out.len()
                &&& leads_rows(made, rows)
                &&& shell.output_truncated ==> rows[made.len() as int] == seq![
                    SpanV { content: "  "@ + t.shell_truncated@, style: ink(theme.text.muted) },
                ]
                &&& 0 <= i < out.len() ==> rows[made.len() + cut + i] == seq![
                    SpanV {
                        content: truncated("  "@ + sanitized_from(out[i], 0, 0), width),
                        style: ink(theme.text.secondary),
                    },
                ]
            }
        }),
{
}

/// A command is named by what was typed; one that was cancelled or whose end is not
/// known says so, and only one that failed counts as failed and tells its exit code.
pub proof fn command_says_how_it_went(p: DisclosurePresentation, shell: UserShellBlock, t: UiText)
    requires
        presents(p, shell, t),
    ensures
        shell.status is Running || shell.status is Success || shell.status is Failed ==> p.label@
            == t.user_shell_run_label@ + " "@ + shell.command@,
        shell.status is Cancelled ==> p.label@ == t.user_shell_run_label@ + " "@ + shell.command@ + (
        " · "@ + t.user_shell_cancelled@),
        shell.status is Unknown ==> p.label@ == t.user_shell_run_label@ + " "@ + shell.command@ + (
        " · "@ + t.shell_status_unknown@),
        (p.failed == 1) == (shell.status is Failed),
        p.failed <= 1,
        p.failed_suffix is Some <==> shell.status is Failed && shell.exit_code is Some
            && shell.exit_code->0 != 0,
        p.failed_suffix matches Some(s) ==> s@ == "exit "@ + signed_decimal(
            shell.exit_code->0 as int,
        ),
        p.duration_ms == shell.duration_ms,
        p.first_error is Some ==> shell.status is Failed && !shell.expanded,
{
    if shell.status is Running || shell.status is Success || shell.status is Failed {
        assert(p.label@ =~= t.user_shell_run_label@ + " "@ + shell.command@);
    }
}

/// What a failed command is said to have ended in is the last row of its output that
/// says anything.
pub proof fn last_words_say_something(rows: Seq<Seq<char>>, n: int)
    requires
        0 <= n <= rows.len(),
    ensures
        last_words(rows, n) matches Some(s) ==> trimmed(s).len() != 0 && exists|k: int|
            0 <= k < n && s == #[trigger] rows[k] && forall|j: int|
                k < j < n ==> trimmed(#[trigger] rows[j]).len() == 0,
        last_words(rows, n) is None ==> forall|j: int|
            0 <= j < n ==> trimmed(#[trigger] rows[j]).len() == 0,
    decreases n,
{
    if n > 0 {
        last_words_say_something(rows, n - 1);
        if trimmed(rows[n - 1]).len() != 0 {
            assert(last_words(rows, n) == Some(rows[n - 1]));
        } else if last_words(rows, n - 1) is Some {
            let s = last_words(rows, n - 1)->0;
            let k = choose|k: int|
                0 <= k < n - 1 && s == #[trigger] rows[k] && forall|j: int|
                    k < j < n - 1 ==> trimmed(#[trigger] rows[j]).len() == 0;
            assert(forall|j: int| k < j < n ==> trimmed(#[trigger] rows[j]).len() == 0);
            assert(s == rows[k]);
        }
    }
}

/// A command that runs is told by its sign, its label and, from the first second on, its
/// seconds.
pub proof fn running_command_counts_its_seconds(
    shell: UserShellBlock,
    theme: Theme,
    width: int,
    t: UiText,
    now: u64,
)
    ensures
        ({
            let row = running_shell(shell, theme, width, t, now);
            &&& row.len() == 3
            &&& row[0] == (SpanV { content: "◌ "@, style: ink(theme.accent.primary) })
            &&& row[1] == (SpanV {
                content: truncated(
                    t.user_shell_run_label@ + " "@ + shell.command@,
                    larger(width - 8, 0),
                ),
                style: ink(theme.text.primary),
            })
            &&& now > shell.started_elapsed_secs ==> row[2].content == " · "@ + decimal(
                (now - shell.started_elapsed_secs) as nat,
            ) + "s"@
            &&& now <= shell.started_elapsed_secs ==> row[2].content == ""@
        }),
{
}

} // verus!
