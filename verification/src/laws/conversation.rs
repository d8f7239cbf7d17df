//! What a reader of the conversation can rely on.

use vstd::prelude::*;

use crate::i18n::UiText;
use crate::line::Color;
use crate::laws::{absent, bare, first_gap_is_filled, ink, larger, only_gap_is_filled, strong};
use crate::model::SpanV;
use crate::protocol::{PlanStepStatus, UiCompletionReport, UiPlan, UiPlanStep};
use crate::render::text::wrapped;
use crate::render::transcript_lines::{
    done_steps, prefixed_lines, rendered, step_lines, steps_lines, Made, PlanGlyphs,
};
use crate::strings::{decimal, occurs_at, trimmed};
use crate::theme::Theme;
use crate::transcript::{AssistantBlock, FailureBlock, RecapBlock, TranscriptItem};

verus! {

// ---------------------------------------------------------------- completion

/// A report begins with a check in the success color exactly where it succeeded, and
/// with a cross in the warning color where it did not; it ends in the hint.
pub proof fn completion_tells_its_outcome(
    report: UiCompletionReport,
    theme: Theme,
    width: int,
    t: UiText,
    made: Made,
)
    ensures
        ({
            let rows = rendered(TranscriptItem::Completion(report), theme, width, t, made);
            &&& rows.len() == (if report.checks_total > 0 {
                4int
            } else {
                3
            })
            &&& report.success ==> rows[0] == seq![
                SpanV {
                    content: seq!['✓', ' '] + t.turn_end_completed@,
                    style: ink(theme.status.success),
                },
            ]
            &&& !report.success ==> rows[0] == seq![
                SpanV {
                    content: seq!['✗', ' '] + t.turn_end_completed@,
                    style: ink(theme.status.warning),
                },
            ]
            &&& rows.last() == seq![
                SpanV {
                    content: "  "@ + t.completion_diff_hint@,
                    style: ink(theme.text.secondary),
                },
            ]
        }),
{
    reveal_strlit("✓");
    reveal_strlit("✗");
    reveal_strlit(" ");
    assert("✓"@ + " "@ =~= seq!['✓', ' ']);
    assert("✗"@ + " "@ =~= seq!['✗', ' ']);
}

/// Two reports of which one succeeded never begin with the same row.
pub proof fn completion_outcomes_differ(
    a: UiCompletionReport,
    b: UiCompletionReport,
    theme: Theme,
    width: int,
    t: UiText,
    made: Made,
)
    requires
        a.success != b.success,
    ensures
        rendered(TranscriptItem::Completion(a), theme, width, t, made)[0] != rendered(
            TranscriptItem::Completion(b),
            theme,
            width,
            t,
            made,
        )[0],
{
    completion_tells_its_outcome(a, theme, width, t, made);
    completion_tells_its_outcome(b, theme, width, t, made);
    let x = rendered(TranscriptItem::Completion(a), theme, width, t, made)[0][0].content;
    let y = rendered(TranscriptItem::Completion(b), theme, width, t, made)[0][0].content;
    assert(x[0] != y[0]);
}

/// The files, the lines that came and those that went stand in this order, and the
/// checks that passed before all of them. The wordings are taken apart at their gaps.
pub proof fn completion_counts_in_order(
    report: UiCompletionReport,
    theme: Theme,
    width: int,
    t: UiText,
    made: Made,
    files: (Seq<char>, Seq<char>),
    checks: (Seq<char>, Seq<char>, Seq<char>),
)
    requires
        t.completion_files_changed@ == files.0 + "{}"@ + files.1,
        t.completion_verified@ == checks.0 + "{}"@ + (checks.1 + "{}"@ + checks.2),
        !files.0.contains('{'),
        !(checks.0 + decimal(report.checks_passed as nat) + checks.1).contains('{'),
        !checks.0.contains('{'),
    ensures
        ({
            let rows = rendered(TranscriptItem::Completion(report), theme, width, t, made);
            &&& rows[1] == seq![
                SpanV {
                    content: "  "@ + (files.0 + decimal(report.files_changed as nat) + files.1)
                        + "  +"@ + decimal(report.added as nat) + (" / -"@ + decimal(
                        report.removed as nat,
                    )),
                    style: ink(theme.text.secondary),
                },
            ]
            &&& report.checks_total > 0 ==> rows[2] == seq![
                SpanV {
                    content: "  "@ + (checks.0 + decimal(report.checks_passed as nat) + checks.1
                        + decimal(report.checks_total as nat) + checks.2),
                    style: ink(theme.text.secondary),
                },
            ]
        }),
{
    reveal_strlit("{}");
    let passed = decimal(report.checks_passed as nat);
    let total = decimal(report.checks_total as nat);
    first_gap_is_filled(files.0, "{}"@, files.1, decimal(report.files_changed as nat));
    first_gap_is_filled(checks.0, "{}"@, checks.1 + "{}"@ + checks.2, passed);
    assert(checks.0 + passed + (checks.1 + "{}"@ + checks.2) =~= (checks.0 + passed + checks.1)
        + "{}"@ + checks.2);
    first_gap_is_filled(checks.0 + passed + checks.1, "{}"@, checks.2, total);
}

// ---------------------------------------------------------------- single messages

/// Every row of what the user wrote stands behind a bar, in bold, as wrapped beside it.
pub proof fn user_rows_stand_behind_a_bar(
    text: String,
    theme: Theme,
    width: int,
    t: UiText,
    made: Made,
    i: int,
)
    requires
        0 <= i < wrapped(text@, larger(width - 2, 1) as usize).len(),
    ensures
        ({
            let rows = rendered(TranscriptItem::User(text), theme, width, t, made);
            let words = wrapped(text@, larger(width - 2, 1) as usize);
            &&& rows.len() == words.len()
            &&& rows[i] == seq![
                SpanV { content: "▌ "@, style: strong(theme.text.primary) },
                SpanV { content: words[i], style: strong(theme.text.primary) },
            ]
        }),
{
}

/// A message that is still written shows a caret row in the end, a finished one does
/// not; the first row stands behind a dot in the accent color.
pub proof fn only_an_open_message_has_a_caret(
    block: AssistantBlock,
    theme: Theme,
    width: int,
    t: UiText,
    made: Made,
)
    ensures
        ({
            let rows = rendered(TranscriptItem::Assistant(block), theme, width, t, made);
            let n = made.lines@.len();
            &&& block.done && n > 0 ==> rows.len() == n
            &&& !block.done ==> rows.len() == n + 1 && rows.last().last() == (SpanV {
                content: "▌"@,
                style: ink(theme.text.secondary),
            })
            &&& rows[0][0] == (SpanV { content: "●"@ + " "@, style: ink(theme.accent.primary) })
            &&& forall|i: int|
                0 < i < rows.len() ==> (#[trigger] rows[i])[0] == (SpanV {
                    content: "  "@,
                    style: bare(),
                })
        }),
{
}

proof fn prefixed_shape(prefix: Seq<char>, text: Seq<char>, color: Color, width: int, i: int)
    requires
        0 <= i < wrapped(text, larger(width - prefix.len(), 1) as usize).len(),
    ensures
        ({
            let rows = prefixed_lines(prefix, text, ink(color), width);
            let words = wrapped(text, larger(width - prefix.len(), 1) as usize);
            &&& rows.len() == words.len()
            &&& rows[i].len() == 2
            &&& rows[i][0].style == ink(color)
            &&& rows[i][0].content.len() == prefix.len()
            &&& i == 0 ==> rows[i][0].content == prefix
            &&& i > 0 ==> forall|k: int|
                0 <= k < prefix.len() ==> #[trigger] rows[i][0].content[k] == ' '
            &&& rows[i][1] == (SpanV { content: words[i], style: ink(color) })
        }),
{
}

/// An error stands behind a cross, all of it in the error color, and every row of it is
/// there.
pub proof fn error_is_crossed(text: String, theme: Theme, width: int, t: UiText, made: Made, i: int)
    requires
        0 <= i < wrapped(text@, larger(width - 2, 1) as usize).len(),
    ensures
        ({
            let rows = rendered(TranscriptItem::Error(text), theme, width, t, made);
            let words = wrapped(text@, larger(width - 2, 1) as usize);
            &&& rows.len() == words.len()
            &&& rows[i][0].content == (if i == 0 {
                seq!['✗', ' ']
            } else {
                seq![' ', ' ']
            })
            &&& rows[i][0].style == ink(theme.status.error)
            &&& rows[i][1] == (SpanV { content: words[i], style: ink(theme.status.error) })
        }),
{
    reveal_strlit("✗ ");
    assert("✗ "@ =~= seq!['✗', ' ']);
    prefixed_shape("✗ "@, text@, theme.status.error, width, i);
    let rows = rendered(TranscriptItem::Error(text), theme, width, t, made);
    if i > 0 {
        assert(rows[i][0].content =~= seq![' ', ' ']);
    }
}

/// A note stands behind a diamond in the secondary color, and never looks like an error.
pub proof fn note_is_quiet(text: String, theme: Theme, width: int, t: UiText, made: Made, i: int)
    requires
        0 <= i < wrapped(text@, larger(width - 2, 1) as usize).len(),
    ensures
        ({
            let rows = rendered(TranscriptItem::Note(text), theme, width, t, made);
            let words = wrapped(text@, larger(width - 2, 1) as usize);
            &&& rows.len() == words.len()
            &&& rows[i][0].content == (if i == 0 {
                seq!['◆', ' ']
            } else {
                seq![' ', ' ']
            })
            &&& rows[i][0].style == ink(theme.text.secondary)
            &&& rows[i][1] == (SpanV { content: words[i], style: ink(theme.text.secondary) })
        }),
{
    reveal_strlit("◆ ");
    assert("◆ "@ =~= seq!['◆', ' ']);
    prefixed_shape("◆ "@, text@, theme.text.secondary, width, i);
    let rows = rendered(TranscriptItem::Note(text), theme, width, t, made);
    if i > 0 {
        assert(rows[i][0].content =~= seq![' ', ' ']);
    }
}

/// A recap names itself first, then says what was done, where that is known, and what
/// comes next.
pub proof fn recap_says_done_then_next(
    block: RecapBlock,
    theme: Theme,
    width: int,
    t: UiText,
    made: Made,
    i: int,
)
    requires
        ({
            let said = match block.summary {
                Some(s) => s@ + " · "@ + t.recap_next_step@ + block.next_step@,
                None => t.recap_next_step@ + block.next_step@,
            };
            let lead = "※ "@ + t.recap_label@ + ": "@;
            0 <= i < wrapped(said, larger(width - lead.len(), 1) as usize).len()
        }),
    ensures
        ({
            let rows = rendered(TranscriptItem::Recap(block), theme, width, t, made);
            let said = match block.summary {
                Some(s) => s@ + " · "@ + t.recap_next_step@ + block.next_step@,
                None => t.recap_next_step@ + block.next_step@,
            };
            let lead = "※ "@ + t.recap_label@ + ": "@;
            let words = wrapped(said, larger(width - lead.len(), 1) as usize);
            &&& rows.len() == words.len()
            &&& i == 0 ==> rows[i][0].content == lead
            &&& rows[i][0].style == ink(theme.text.secondary)
            &&& rows[i][1] == (SpanV { content: words[i], style: ink(theme.text.secondary) })
        }),
{
    let said = match block.summary {
        Some(s) => s@ + " · "@ + t.recap_next_step@ + block.next_step@,
        None => t.recap_next_step@ + block.next_step@,
    };
    prefixed_shape("※ "@ + t.recap_label@ + ": "@, said, theme.text.secondary, width, i);
}

// ---------------------------------------------------------------- failures

/// Every failure begins with a cross and its title in the error color; the summary's
/// rows come right behind it, then the subtitle.
pub proof fn failure_leads_with_its_title(
    block: FailureBlock,
    theme: Theme,
    width: int,
    t: UiText,
    made: Made,
    i: int,
)
    ensures
        ({
            let rows = rendered(TranscriptItem::Failure(block), theme, width, t, made);
            let said = if trimmed(block.summary@).len() == 0 {
                Seq::<Seq<char>>::empty()
            } else {
                wrapped(block.summary@, larger(width - 2, 8) as usize)
            };
            &&& rows.len() > said.len()
            &&& rows[0] == seq![
                SpanV { content: "✗ "@, style: ink(theme.status.error) },
                SpanV { content: block.title@, style: strong(theme.status.error) },
            ]
            &&& 0 <= i < said.len() ==> rows[1 + i] == seq![
                SpanV { content: "  "@ + said[i], style: ink(theme.text.primary) },
            ]
            &&& block.subtitle matches Some(s) ==> (trimmed(s@).len() != 0 ==> rows.len()
                > said.len() + 1 && rows[1 + said.len() as int] == seq![
                SpanV { content: "  "@ + s@, style: ink(theme.text.secondary) },
            ])
        }),
{
}

/// The detail of a failure is all there once it is opened, and only a hint before; a
/// failure without a detail has neither.
pub proof fn failure_detail_opens(
    block: FailureBlock,
    theme: Theme,
    width: int,
    t: UiText,
    made: Made,
    i: int,
)
    requires
        trimmed(block.detail@).len() != 0,
    ensures
        ({
            let rows = rendered(TranscriptItem::Failure(block), theme, width, t, made);
            let detail = wrapped(block.detail@, larger(width - 4, 8) as usize);
            let n = rows.len() as int;
            &&& block.expanded ==> {
                &&& n > detail.len()
                &&& rows[n - detail.len() - 1] == seq![
                    SpanV {
                        content: "  "@ + t.failure_detail_label@,
                        style: ink(theme.text.secondary),
                    },
                ]
                &&& 0 <= i < detail.len() ==> rows[n - detail.len() + i] == seq![
                    SpanV { content: "  "@ + detail[i], style: ink(theme.text.secondary) },
                ]
            }
            &&& !block.expanded ==> rows[n - 1] == seq![
                SpanV { content: "  "@ + t.failure_detail_hint@, style: ink(theme.text.secondary) },
            ]
        }),
{
}

/// A blank detail leaves no trace, opened or not.
pub proof fn blank_detail_leaves_no_trace(
    a: FailureBlock,
    b: FailureBlock,
    theme: Theme,
    width: int,
    t: UiText,
    made: Made,
)
    requires
        trimmed(a.detail@).len() == 0,
        trimmed(b.detail@).len() == 0,
        a.title@ == b.title@,
        a.summary@ == b.summary@,
        a.subtitle is None && b.subtitle is None,
    ensures
        rendered(TranscriptItem::Failure(a), theme, width, t, made) == rendered(
            TranscriptItem::Failure(b),
            theme,
            width,
            t,
            made,
        ),
        trimmed(a.summary@).len() == 0 ==> rendered(
            TranscriptItem::Failure(a),
            theme,
            width,
            t,
            made,
        ).len() == 1,
{
}

// ---------------------------------------------------------------- plans

/// A step that is appended to a plan adds its own rows in the end: its sign in the color
/// of its status, then its number counted from one and its text.
pub proof fn plan_step_adds_its_rows(
    plan: UiPlan,
    more: UiPlan,
    step: UiPlanStep,
    theme: Theme,
    width: int,
    t: UiText,
    made: Made,
    i: int,
)
    requires
        more.steps@ == plan.steps@.push(step),
    ensures
        ({
            let rows = rendered(TranscriptItem::Plan(plan), theme, width, t, made);
            let all = rendered(TranscriptItem::Plan(more), theme, width, t, made);
            let words = wrapped(
                decimal((step.index + 1) as nat) + ". "@ + step.description@,
                larger(width - 4, 1) as usize,
            );
            let color = match step.status {
                PlanStepStatus::Done => theme.status.success,
                PlanStepStatus::Failed => theme.status.error,
                PlanStepStatus::Running => theme.text.secondary,
                PlanStepStatus::Pending => theme.text.secondary,
            };
            let sign = match step.status {
                PlanStepStatus::Done => made.plan_glyphs.done@,
                PlanStepStatus::Failed => made.plan_glyphs.failed@,
                PlanStepStatus::Running => made.plan_glyphs.running@,
                PlanStepStatus::Pending => made.plan_glyphs.pending@,
            };
            &&& all.skip(1).take(rows.len() - 1) == rows.skip(1)
            &&& words.len() > 0 ==> all.len() == rows.len() + words.len()
            &&& 0 <= i < words.len() ==> all[rows.len() + i] == seq![
                SpanV {
                    content: if i == 0 {
                        "  "@ + sign + " "@
                    } else {
                        "    "@
                    },
                    style: ink(color),
                },
                SpanV { content: words[i], style: ink(theme.text.secondary) },
            ]
        }),
{
    let n = plan.steps@.len() as int;
    steps_upto(plan.steps@, step, theme, width, made.plan_glyphs, n);
    let rows = rendered(TranscriptItem::Plan(plan), theme, width, t, made);
    let all = rendered(TranscriptItem::Plan(more), theme, width, t, made);
    let front = steps_lines(plan.steps@, theme, width, made.plan_glyphs, n);
    assert(rows.skip(1) =~= front);
    assert(all.skip(1) =~= front + step_lines(step, theme, width, made.plan_glyphs));
    assert(all.skip(1).take(rows.len() - 1) =~= front);
    if 0 <= i < step_lines(step, theme, width, made.plan_glyphs).len() {
        assert(all[rows.len() + i] == all.skip(1)[front.len() + i]);
        assert(all[rows.len() + i] == step_lines(step, theme, width, made.plan_glyphs)[i]);
    }
}

proof fn steps_upto(
    steps: Seq<UiPlanStep>,
    step: UiPlanStep,
    theme: Theme,
    width: int,
    glyphs: PlanGlyphs,
    n: int,
)
    requires
        n <= steps.len(),
    ensures
        steps_lines(steps.push(step), theme, width, glyphs, n) == steps_lines(
            steps,
            theme,
            width,
            glyphs,
            n,
        ),
    decreases n,
{
    if n > 0 {
        steps_upto(steps, step, theme, width, glyphs, n - 1);
        assert(steps.push(step)[n - 1] == steps[n - 1]);
    }
}

proof fn done_upto(steps: Seq<UiPlanStep>, step: UiPlanStep, n: int)
    requires
        n <= steps.len(),
    ensures
        done_steps(steps.push(step), n) == done_steps(steps, n),
    decreases n,
{
    if n > 0 {
        done_upto(steps, step, n - 1);
        assert(steps.push(step)[n - 1] == steps[n - 1]);
    }
}

/// Only steps that are done count as done: one more of them makes one more, any other
/// step none.
pub proof fn only_done_steps_count(steps: Seq<UiPlanStep>, step: UiPlanStep)
    ensures
        done_steps(Seq::<UiPlanStep>::empty(), 0) == 0,
        done_steps(steps.push(step), (steps.len() + 1) as int) == done_steps(
            steps,
            steps.len() as int,
        ) + (if step.status is Done {
            1nat
        } else {
            0nat
        }),
{
    done_upto(steps, step, steps.len() as int);
}

/// The first row of a plan counts the steps that are done, then all of them.
pub proof fn plan_counts_done_of_all(
    plan: UiPlan,
    theme: Theme,
    width: int,
    t: UiText,
    made: Made,
    head: Seq<char>,
    mid: Seq<char>,
    tail: Seq<char>,
)
    requires
        t.plan_last_recorded@ == head + "{done}"@ + (mid + "{total}"@ + tail),
        !head.contains('{') && !mid.contains('{') && !tail.contains('{'),
        !(head + decimal(done_steps(plan.steps@, plan.steps@.len() as int)) + mid).contains('{'),
    ensures
        rendered(TranscriptItem::Plan(plan), theme, width, t, made)[0] == seq![
            SpanV {
                content: t.active_plan@ + " · "@ + (head + decimal(
                    done_steps(plan.steps@, plan.steps@.len() as int),
                ) + mid + decimal(plan.steps@.len()) + tail),
                style: strong(theme.text.secondary),
            },
        ],
{
    reveal_strlit("{done}");
    reveal_strlit("{total}");
    let d = decimal(done_steps(plan.steps@, plan.steps@.len() as int));
    let rest = mid + "{total}"@ + tail;
    assert forall|k: int| !occurs_at(rest, "{done}"@, k) by {
        if occurs_at(rest, "{done}"@, k) {
            assert(rest.subrange(k, k + 6)[0] == rest[k] && rest.subrange(k, k + 6)[1] == rest[k
                + 1]);
            assert(rest[k] == '{' && rest[k + 1] == 'd');
            if k < mid.len() {
                assert(mid[k] == '{');
            } else if k >= mid.len() + 7 {
                assert(tail[k - mid.len() - 7] == '{');
            } else {
                assert(rest[k] == "{total}"@[k - mid.len()]);
                assert(k == mid.len());
                assert(rest[k + 1] == "{total}"@[1]);
            }
        }
    }
    only_gap_is_filled(head, "{done}"@, rest, d);
    assert(head + d + rest =~= (head + d + mid) + "{total}"@ + tail);
    absent(tail, "{total}"@);
    only_gap_is_filled(head + d + mid, "{total}"@, tail, decimal(plan.steps@.len()));
}

} // verus!
