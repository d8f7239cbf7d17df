//! The items of the conversation as lines.

use vstd::prelude::*;

use crate::i18n::{text_of, Locale, UiText};
use crate::line::{bold_style, fg_style, no_style, spanv, styled_line, Line, Span, Style};
use crate::model::{line_views, views, SpanV};
use crate::number::{minus, room, room_of};
use crate::protocol::{PlanStepStatus, UiCompletionReport, UiPlan, UiPlanStep};
use crate::render::rows::{behind, indented, line_if, push_behind, push_indented};
use crate::render::sub_agents::{child_lines, sub_agent_lines};
use crate::render::text::{
    sanitize_terminal_line, sanitized_from, truncate_display, truncated, wrap, wrapped,
};
use crate::render::turn_end::{end_lines, turn_end_lines};
use crate::state::opt_text;
use crate::strings::{
    cat2, cat3, cat4, cat5, chars_of, dec, dec_signed, dec_wide, decimal,
    decimal_starts_with_a_digit, drop_set, lines,
    repeat_char, repeated, replace, replace_first, replaced, replaced_first, same, signed_decimal,
    text_lines, trim, trim_end_of, trimmed,
};
use crate::theme::Theme;
use crate::transcript::{
    AssistantBlock, FailureBlock, GoalRecap, GoalRecapBlock, RecapBlock, ToolCallBlock, ToolStatus,
    TranscriptItem, UserShellBlock, UserShellStatus,
};

verus! {

broadcast use crate::model::group_views;

/// The signs of plan steps.
#[derive(Clone, Copy, Debug)]
pub struct PlanGlyphs {
    pub pending: &'static str,
    pub running: &'static str,
    pub done: &'static str,
    pub failed: &'static str,
}

/// What other renderers made of an item: the Markdown of a message, the activity of
/// a group of calls, the disclosure of a command.
#[derive(Debug)]
pub struct Made {
    pub lines: Vec<Line>,
    /// How many of the first lines can no longer change.
    pub stable: usize,
    pub plan_glyphs: PlanGlyphs,
}

// ---------------------------------------------------------------- messages

/// Lines behind a bullet: the sign before the first, an indent before the others; the
/// sign alone where there are no lines.
pub open spec fn bullet_lines(lines: Seq<Seq<SpanV>>, bullet: Seq<char>, style: Style) -> Seq<Seq<SpanV>> {
    if lines.len() == 0 {
        seq![styled_line(bullet + " "@, style)]
    } else {
        Seq::new(
            lines.len(),
            |i: int|
                seq![
                    if i == 0 {
                        spanv(bullet + " "@, style)
                    } else {
                        spanv("  "@, no_style())
                    },
                ] + lines[i],
        )
    }
}

/// Prefix a block of lines with a colored bullet on the first line and a two-column
/// hanging indent on the remaining lines.
pub fn bulleted(lines: &Vec<Line>, bullet: &str, bullet_style: Style) -> (r: Vec<Line>)
    ensures
        line_views(r@) == bullet_lines(line_views(lines@), bullet@, bullet_style),
{
    let mut out: Vec<Line> = Vec::new();
    let ghost all = bullet_lines(line_views(lines@), bullet@, bullet_style);
    if lines.len() == 0 {
        out.push(Line::of(Span::new(cat2(bullet, " "), bullet_style)));
        assert(line_views(out@) =~= all);
        return out;
    }
    let mut i: usize = 0;
    assert(line_views(out@) =~= all.take(0));
    while i < lines.len()
        invariant
            i <= lines@.len(),
            lines@.len() > 0,
            all == bullet_lines(line_views(lines@), bullet@, bullet_style),
            line_views(out@) == all.take(i as int),
        decreases lines@.len() - i,
    {
        let lead = if i == 0 {
            Span::new(cat2(bullet, " "), bullet_style)
        } else {
            Span::raw("  ")
        };
        let mut line = Line::of(lead);
        line.extend(lines[i].copy());
        out.push(line);
        i += 1;
        assert(all.take(i as int) =~= all.take(i - 1).push(all[i - 1]));
    }
    assert(all.take(i as int) =~= all);
    out
}

/// The rows of a message before the bullet: its text, and the cursor while it is
/// written; and how many of them can no longer change.
pub open spec fn message_rows(done: bool, made: Seq<Seq<SpanV>>, theme: Theme) -> Seq<Seq<SpanV>> {
    if done {
        made
    } else {
        made.push(styled_line("▌"@, fg_style(theme.text.secondary)))
    }
}

fn copy_lines(lines: &Vec<Line>) -> (r: Vec<Line>)
    ensures
        line_views(r@) == line_views(lines@),
{
    let mut out: Vec<Line> = Vec::new();
    let ghost all = line_views(lines@);
    let mut i: usize = 0;
    assert(line_views(out@) =~= all.take(0));
    while i < lines.len()
        invariant
            i <= lines@.len(),
            all == line_views(lines@),
            line_views(out@) == all.take(i as int),
        decreases lines@.len() - i,
    {
        out.push(lines[i].copy());
        i += 1;
        assert(all.take(i as int) =~= all.take(i - 1).push(all[i - 1]));
    }
    assert(all.take(i as int) =~= all);
    out
}

/// The columns of a message's Markdown: its rows stand two columns in, under the
/// bullet.
pub fn prose_width(wrap_width: usize) -> (r: usize)
    ensures
        r == room(wrap_width as int, 2, 1),
{
    room_of(wrap_width, 2, 1)
}

/// The message's own wrapped rows, before the bullet gutter, plus the live cursor
/// while it streams. `made` holds the rows of its Markdown at [`prose_width`].
pub fn assistant_body(block: &AssistantBlock, theme: &Theme, made: &Made) -> (r: (Vec<Line>, usize))
    ensures
        line_views(r.0@) == message_rows(block.done, line_views(made.lines@), *theme),
        r.1 == (if block.done {
            made.lines@.len() as int
        } else {
            made.stable as int
        }),
{
    let mut rows = copy_lines(&made.lines);
    assert(line_views(rows@).len() == rows@.len());
    assert(line_views(made.lines@).len() == made.lines@.len());
    if block.done {
        // A finished message is fully stable.
        let n: usize = rows.len();
        (rows, n)
    } else {
        // The streaming cursor is part of the live tail.
        rows.push(Line::of(Span::text("▌", Style::fg(theme.text.secondary))));
        (rows, made.stable)
    }
}

/// A message in the conversation.
pub open spec fn message_lines(done: bool, made: Seq<Seq<SpanV>>, theme: Theme) -> Seq<Seq<SpanV>> {
    bullet_lines(message_rows(done, made, theme), "●"@, fg_style(theme.accent.primary))
}

/// Render a (possibly streaming) assistant message to bulleted lines, plus the count
/// of leading lines that can no longer change and are safe to commit to scrollback.
/// When the message is done, every line of its text is stable.
pub fn assistant_split(block: &AssistantBlock, theme: &Theme, made: &Made) -> (r: (Vec<Line>, usize))
    ensures
        line_views(r.0@) == message_lines(block.done, line_views(made.lines@), *theme),
        r.1 == (if block.done {
            made.lines@.len() as int
        } else {
            made.stable as int
        }),
{
    let (rows, stable) = assistant_body(block, theme, made);
    // Bulleting maps lines one to one, so the stable boundary is preserved.
    (bulleted(&rows, "●", Style::fg(theme.accent.primary)), stable)
}

/// Render an assistant message for the conversation. Prose is communication, not
/// evidence: it renders in full.
pub fn assistant_render(block: &AssistantBlock, theme: &Theme, made: &Made) -> (r: Vec<Line>)
    ensures
        line_views(r@) == message_lines(block.done, line_views(made.lines@), *theme),
{
    assistant_split(block, theme, made).0
}

/// A message is never folded: each row of its Markdown is shown behind the bullet or
/// the indent, in its order and in full, and the rows before the stable boundary do
/// not depend on whether the message is done.
pub proof fn message_is_shown_in_full(made: Seq<Seq<SpanV>>, done: bool, theme: Theme, i: int)
    requires
        0 <= i < made.len(),
    ensures
        message_lines(done, made, theme)[i].skip(1) == made[i],
        message_lines(done, made, theme)[i] == message_lines(!done, made, theme)[i],
{
    assert(message_lines(done, made, theme)[i].skip(1) =~= made[i]);
}

/// The rows of a user's message: a continuous bar and bold text.
pub open spec fn user_lines(text: Seq<char>, theme: Theme, width: int) -> Seq<Seq<SpanV>> {
    let bar = spanv("▌ "@, bold_style(theme.text.primary));
    behind(user_rows(text, width), bar, bar, bold_style(theme.text.primary))
}

/// The wrapped text of a user's message; one empty row where there is none.
pub open spec fn user_rows(text: Seq<char>, width: int) -> Seq<Seq<char>> {
    let rows = wrapped(text, room(width, 2, 1) as usize);
    if rows.len() == 0 {
        seq![Seq::empty()]
    } else {
        rows
    }
}

fn push_user(out: &mut Vec<Line>, text: &str, theme: &Theme, width: usize)
    ensures
        line_views(final(out)@) == line_views(old(out)@) + user_lines(text@, *theme, width as int),
{
    let mut rows = wrap(text, room_of(width, 2, 1));
    assert(views(rows@).len() == rows@.len());
    if rows.len() == 0 {
        rows.push(String::new());
    }
    assert(views(rows@) =~= user_rows(text@, width as int));
    let bar = Span::text("▌ ", Style::bold(theme.text.primary));
    push_behind(out, &rows, &bar, &bar, Style::bold(theme.text.primary));
}

// ---------------------------------------------------------------- prefixed text

/// Wrapped text, the prefix before its first row and as many spaces before the
/// others.
pub open spec fn prefixed_lines(prefix: Seq<char>, text: Seq<char>, style: Style, width: int) -> Seq<
    Seq<SpanV>,
> {
    behind(
        wrapped(text, room(width, prefix.len() as int, 1) as usize),
        spanv(prefix, style),
        spanv(repeated(' ', prefix.len()), style),
        style,
    )
}

/// Push `text` wrapped, with `prefix` on the first line and blank alignment on
/// continuations.
pub fn push_prefixed(out: &mut Vec<Line>, prefix: &str, text: &str, style: Style, width: usize)
    ensures
        line_views(final(out)@) == line_views(old(out)@) + prefixed_lines(
            prefix@,
            text@,
            style,
            width as int,
        ),
{
    let n: usize = chars_of(prefix).len();
    let rows = wrap(text, room_of(width, n, 1));
    let first = Span::text(prefix, style);
    let rest = Span::new(repeat_char(' ', n), style);
    push_behind(out, &rows, &first, &rest, style);
}

// ---------------------------------------------------------------- plans

/// How many of the first `n` steps are done.
pub open spec fn done_steps(steps: Seq<UiPlanStep>, n: int) -> nat
    decreases n,
{
    if n <= 0 {
        0
    } else {
        done_steps(steps, n - 1) + (if steps[n - 1].status == PlanStepStatus::Done {
            1nat
        } else {
            0
        })
    }
}

pub fn plan_done_total(plan: &UiPlan) -> (r: (usize, usize))
    ensures
        r.0 == done_steps(plan.steps@, plan.steps@.len() as int),
        r.1 == plan.steps@.len(),
{
    let mut n: usize = 0;
    let mut i: usize = 0;
    while i < plan.steps.len()
        invariant
            i <= plan.steps@.len(),
            n == done_steps(plan.steps@, i as int),
            n <= i,
        decreases plan.steps@.len() - i,
    {
        if plan.steps[i].status == PlanStepStatus::Done {
            n += 1;
        }
        i += 1;
    }
    (n, plan.steps.len())
}

impl PlanGlyphs {
    pub open spec fn at(self, status: PlanStepStatus) -> Seq<char> {
        match status {
            PlanStepStatus::Pending => self.pending@,
            PlanStepStatus::Running => self.running@,
            PlanStepStatus::Done => self.done@,
            PlanStepStatus::Failed => self.failed@,
        }
    }

    fn get(&self, status: PlanStepStatus) -> (r: &'static str)
        ensures
            r@ == self.at(status),
    {
        match status {
            PlanStepStatus::Pending => self.pending,
            PlanStepStatus::Running => self.running,
            PlanStepStatus::Done => self.done,
            PlanStepStatus::Failed => self.failed,
        }
    }
}

/// The text of a step, wrapped; one empty row where there is none.
pub open spec fn step_rows(step: UiPlanStep, width: int) -> Seq<Seq<char>> {
    let rows = wrapped(
        decimal((step.index + 1) as nat) + ". "@ + step.description@,
        room(width, 4, 1) as usize,
    );
    if rows.len() == 0 {
        seq![Seq::empty()]
    } else {
        rows
    }
}

/// The rows of a step.
pub open spec fn step_lines(step: UiPlanStep, theme: Theme, width: int, glyphs: PlanGlyphs) -> Seq<Seq<SpanV>> {
    let style = fg_style(
        match step.status {
            PlanStepStatus::Done => theme.status.success,
            PlanStepStatus::Failed => theme.status.error,
            _ => theme.text.secondary,
        },
    );
    behind(
        step_rows(step, width),
        spanv("  "@ + glyphs.at(step.status) + " "@, style),
        spanv("    "@, style),
        fg_style(theme.text.secondary),
    )
}

/// The rows of the first `n` steps.
pub open spec fn steps_lines(
    steps: Seq<UiPlanStep>,
    theme: Theme,
    width: int,
    glyphs: PlanGlyphs,
    n: int,
) -> Seq<Seq<SpanV>>
    decreases n,
{
    if n <= 0 {
        Seq::empty()
    } else {
        steps_lines(steps, theme, width, glyphs, n - 1) + step_lines(
            steps[n - 1],
            theme,
            width,
            glyphs,
        )
    }
}

/// A plan as it was last recorded.
pub open spec fn plan_lines(plan: UiPlan, theme: Theme, width: int, t: UiText, glyphs: PlanGlyphs) -> Seq<
    Seq<SpanV>,
> {
    let n = plan.steps@.len() as int;
    seq![
        styled_line(
            t.active_plan@ + " · "@ + replaced(
                replaced(t.plan_last_recorded@, "{done}"@, decimal(done_steps(plan.steps@, n))),
                "{total}"@,
                decimal(n as nat),
            ),
            bold_style(theme.text.secondary),
        ),
    ] + steps_lines(plan.steps@, theme, width, glyphs, n)
}

fn push_step(out: &mut Vec<Line>, step: &UiPlanStep, theme: &Theme, width: usize, glyphs: &PlanGlyphs)
    ensures
        line_views(final(out)@) == line_views(old(out)@) + step_lines(
            *step,
            *theme,
            width as int,
            *glyphs,
        ),
{
    let color = match step.status {
        PlanStepStatus::Done => theme.status.success,
        PlanStepStatus::Failed => theme.status.error,
        _ => theme.text.secondary,
    };
    let number = dec_wide(step.index as u128 + 1);
    let text = cat3(number.as_str(), ". ", step.description.as_str());
    let mut rows = wrap(text.as_str(), room_of(width, 4, 1));
    assert(views(rows@).len() == rows@.len());
    if rows.len() == 0 {
        rows.push(String::new());
    }
    assert(views(rows@) =~= step_rows(*step, width as int));
    let first = Span::new(cat3("  ", glyphs.get(step.status), " "), Style::fg(color));
    let rest = Span::text("    ", Style::fg(color));
    push_behind(out, &rows, &first, &rest, Style::fg(theme.text.secondary));
}

pub fn historical_plan_lines(
    plan: &UiPlan,
    theme: &Theme,
    width: usize,
    out: &mut Vec<Line>,
    t: &UiText,
    glyphs: &PlanGlyphs,
)
    ensures
        line_views(final(out)@) == line_views(old(out)@) + plan_lines(
            *plan,
            *theme,
            width as int,
            *t,
            *glyphs,
        ),
{
    let ghost base = line_views(out@);
    let (done, total) = plan_done_total(plan);
    let once = replace(t.plan_last_recorded, "{done}", dec(done as u64).as_str());
    let summary = replace(once.as_str(), "{total}", dec(total as u64).as_str());
    out.push(
        Line::of(
            Span::new(
                cat3(t.active_plan, " · ", summary.as_str()),
                Style::bold(theme.text.secondary),
            ),
        ),
    );
    let ghost head = line_views(out@);
    let mut i: usize = 0;
    assert(head + steps_lines(plan.steps@, *theme, width as int, *glyphs, 0) =~= head);
    while i < plan.steps.len()
        invariant
            i <= plan.steps@.len(),
            line_views(out@) == head + steps_lines(
                plan.steps@,
                *theme,
                width as int,
                *glyphs,
                i as int,
            ),
        decreases plan.steps@.len() - i,
    {
        let ghost before = line_views(out@);
        push_step(out, &plan.steps[i], theme, width, glyphs);
        i += 1;
        assert(line_views(out@) =~= head + steps_lines(
            plan.steps@,
            *theme,
            width as int,
            *glyphs,
            i as int,
        ));
    }
    assert(line_views(out@) =~= base + plan_lines(*plan, *theme, width as int, *t, *glyphs));
}

// ---------------------------------------------------------------- goal recaps

/// A titled body.
pub open spec fn section_lines(title: Seq<char>, body: Seq<char>, theme: Theme, width: int) -> Seq<Seq<SpanV>> {
    seq![styled_line("  "@ + title, bold_style(theme.text.secondary))] + prefixed_lines(
        "  "@,
        body,
        fg_style(theme.text.primary),
        width,
    )
}

fn push_section(out: &mut Vec<Line>, title: &str, body: &str, theme: &Theme, width: usize)
    ensures
        line_views(final(out)@) == line_views(old(out)@) + section_lines(
            title@,
            body@,
            *theme,
            width as int,
        ),
{
    let ghost base = line_views(out@);
    out.push(Line::of(Span::new(cat2("  ", title), Style::bold(theme.text.secondary))));
    push_prefixed(out, "  ", body, Style::fg(theme.text.primary), width);
    assert(line_views(out@) =~= base + section_lines(title@, body@, *theme, width as int));
}

/// The rows of the first `n` items behind a bullet.
pub open spec fn item_lines(items: Seq<Seq<char>>, bullet: Seq<char>, theme: Theme, width: int, n: int) -> Seq<
    Seq<SpanV>,
>
    decreases n,
{
    if n <= 0 {
        Seq::empty()
    } else {
        item_lines(items, bullet, theme, width, n - 1) + prefixed_lines(
            bullet,
            items[n - 1],
            fg_style(theme.text.primary),
            width,
        )
    }
}

/// A titled list; nothing where it has no items.
pub open spec fn list_lines(
    title: Seq<char>,
    items: Seq<Seq<char>>,
    bullet: Seq<char>,
    theme: Theme,
    width: int,
) -> Seq<Seq<SpanV>> {
    if items.len() == 0 {
        Seq::empty()
    } else {
        seq![styled_line("  "@ + title, bold_style(theme.text.secondary))] + item_lines(
            items,
            bullet,
            theme,
            width,
            items.len() as int,
        )
    }
}

fn push_list(out: &mut Vec<Line>, title: &str, items: &Vec<String>, bullet: &str, theme: &Theme, width: usize)
    ensures
        line_views(final(out)@) == line_views(old(out)@) + list_lines(
            title@,
            views(items@),
            bullet@,
            *theme,
            width as int,
        ),
{
    let ghost base = line_views(out@);
    let ghost all = views(items@);
    if items.len() > 0 {
        out.push(Line::of(Span::new(cat2("  ", title), Style::bold(theme.text.secondary))));
        let ghost head = line_views(out@);
        let mut i: usize = 0;
        assert(head + item_lines(all, bullet@, *theme, width as int, 0) =~= head);
        while i < items.len()
            invariant
                all == views(items@),
                i <= items@.len(),
                line_views(out@) == head + item_lines(
                    all,
                    bullet@,
                    *theme,
                    width as int,
                    i as int,
                ),
            decreases items@.len() - i,
        {
            push_prefixed(out, bullet, items[i].as_str(), Style::fg(theme.text.primary), width);
            i += 1;
            assert(line_views(out@) =~= head + item_lines(
                all,
                bullet@,
                *theme,
                width as int,
                i as int,
            ));
        }
    }
    assert(line_views(out@) =~= base + list_lines(title@, all, bullet@, *theme, width as int));
}

/// What a checkpoint says of its verification. Unmeasured is said so, never a check
/// mark.
pub open spec fn verification_text(recap: GoalRecap, t: UiText) -> Seq<char> {
    let tail = match recap.verification_detail {
        Some(d) => " · "@ + d@,
        None => Seq::empty(),
    };
    if recap.verification@ == "passed"@ {
        "✓ "@ + t.goal_recap_verified@ + tail
    } else if recap.verification@ == "failed"@ {
        "✗ "@ + t.goal_recap_verify_failed@ + tail
    } else {
        t.goal_recap_unmeasured@
    }
}

fn verification_of(recap: &GoalRecap, t: &UiText) -> (r: String)
    ensures
        r@ == verification_text(*recap, *t),
{
    let (mut text, measured) = if same(recap.verification.as_str(), "passed") {
        (cat2("✓ ", t.goal_recap_verified), true)
    } else if same(recap.verification.as_str(), "failed") {
        (cat2("✗ ", t.goal_recap_verify_failed), true)
    } else {
        (t.goal_recap_unmeasured.to_owned(), false)
    };
    if measured {
        match &recap.verification_detail {
            Some(detail) => {
                text.append(cat2(" · ", detail.as_str()).as_str());
            },
            None => {},
        }
    }
    assert(text@ =~= verification_text(*recap, *t));
    text
}

/// The number of findings; unknown is said so, never a zero.
pub open spec fn findings_text(recap: GoalRecap, t: UiText) -> Seq<char> {
    match recap.findings_total {
        Some(n) => decimal(n as nat),
        None => t.goal_recap_findings_unknown@,
    }
}

/// What was reached: the phase, the milestones, the plan.
pub open spec fn reached_sections(recap: GoalRecap, theme: Theme, width: int, t: UiText) -> Seq<
    Seq<SpanV>,
> {
    (match recap.phase {
        Some(phase) => section_lines(t.goal_recap_phase@, phase@, theme, width),
        None => Seq::empty(),
    }) + list_lines(
        t.goal_recap_completed@,
        views(recap.completed_milestones@),
        "  ✓ "@,
        theme,
        width,
    ) + (match (recap.plan_completed, recap.plan_total) {
        (Some(done), Some(total)) => section_lines(
            t.goal_recap_plan@,
            decimal(done as nat) + "/"@ + decimal(total as nat),
            theme,
            width,
        ),
        _ => Seq::empty(),
    })
}

/// What was checked: the verification and the findings.
pub open spec fn checked_sections(recap: GoalRecap, theme: Theme, width: int, t: UiText) -> Seq<
    Seq<SpanV>,
> {
    section_lines(t.goal_recap_verification@, verification_text(recap, t), theme, width)
        + section_lines(t.goal_recap_findings@, findings_text(recap, t), theme, width)
}

/// What is left: the limitations, the open work, the next step.
pub open spec fn left_sections(recap: GoalRecap, theme: Theme, width: int, t: UiText) -> Seq<
    Seq<SpanV>,
> {
    list_lines(
        t.goal_recap_limitations@,
        views(recap.known_limitations@),
        "  • "@,
        theme,
        width,
    ) + list_lines(
        t.goal_recap_unresolved@,
        views(recap.unresolved_work@),
        "  • "@,
        theme,
        width,
    ) + (match recap.next_action {
        Some(next) => section_lines(
            t.recap_next_step@.take(
                drop_set(t.recap_next_step@, ":： "@, t.recap_next_step@.len() as int),
            ),
            next@,
            theme,
            width,
        ),
        None => Seq::empty(),
    })
}

/// The sections of an expanded recap.
pub open spec fn recap_sections(recap: GoalRecap, theme: Theme, width: int, t: UiText) -> Seq<Seq<SpanV>> {
    reached_sections(recap, theme, width, t) + checked_sections(recap, theme, width, t)
        + left_sections(recap, theme, width, t)
}

fn push_reached(out: &mut Vec<Line>, recap: &GoalRecap, theme: &Theme, width: usize, t: &UiText)
    ensures
        line_views(final(out)@) == line_views(old(out)@) + reached_sections(
            *recap,
            *theme,
            width as int,
            *t,
        ),
{
    let ghost base = line_views(out@);
    match &recap.phase {
        Some(phase) => {
            push_section(out, t.goal_recap_phase, phase.as_str(), theme, width);
        },
        None => {},
    }
    push_list(out, t.goal_recap_completed, &recap.completed_milestones, "  ✓ ", theme, width);
    match (recap.plan_completed, recap.plan_total) {
        (Some(done), Some(total)) => {
            let body = cat3(dec(done).as_str(), "/", dec(total).as_str());
            push_section(out, t.goal_recap_plan, body.as_str(), theme, width);
        },
        _ => {},
    }
    assert(line_views(out@) =~= base + reached_sections(*recap, *theme, width as int, *t));
}

fn push_checked(out: &mut Vec<Line>, recap: &GoalRecap, theme: &Theme, width: usize, t: &UiText)
    ensures
        line_views(final(out)@) == line_views(old(out)@) + checked_sections(
            *recap,
            *theme,
            width as int,
            *t,
        ),
{
    let ghost base = line_views(out@);
    push_section(
        out,
        t.goal_recap_verification,
        verification_of(recap, t).as_str(),
        theme,
        width,
    );
    let findings = match recap.findings_total {
        Some(n) => dec(n),
        None => t.goal_recap_findings_unknown.to_owned(),
    };
    push_section(out, t.goal_recap_findings, findings.as_str(), theme, width);
    assert(line_views(out@) =~= base + checked_sections(*recap, *theme, width as int, *t));
}

fn push_left(out: &mut Vec<Line>, recap: &GoalRecap, theme: &Theme, width: usize, t: &UiText)
    ensures
        line_views(final(out)@) == line_views(old(out)@) + left_sections(
            *recap,
            *theme,
            width as int,
            *t,
        ),
{
    let ghost base = line_views(out@);
    push_list(out, t.goal_recap_limitations, &recap.known_limitations, "  • ", theme, width);
    push_list(out, t.goal_recap_unresolved, &recap.unresolved_work, "  • ", theme, width);
    match &recap.next_action {
        Some(next) => {
            let title = trim_end_of(t.recap_next_step, ":： ");
            push_section(out, title.as_str(), next.as_str(), theme, width);
        },
        None => {},
    }
    assert(line_views(out@) =~= base + left_sections(*recap, *theme, width as int, *t));
}

fn push_recap_sections(out: &mut Vec<Line>, recap: &GoalRecap, theme: &Theme, width: usize, t: &UiText)
    ensures
        line_views(final(out)@) == line_views(old(out)@) + recap_sections(
            *recap,
            *theme,
            width as int,
            *t,
        ),
{
    let ghost base = line_views(out@);
    push_reached(out, recap, theme, width, t);
    push_checked(out, recap, theme, width, t);
    push_left(out, recap, theme, width, t);
    assert(line_views(out@) =~= base + recap_sections(*recap, *theme, width as int, *t));
}

/// A recap: its summary, and the next step or, expanded, all its sections.
pub open spec fn recap_lines(block: GoalRecapBlock, theme: Theme, width: int, t: UiText) -> Seq<Seq<SpanV>> {
    let recap = block.recap;
    prefixed_lines(
        if block.expanded {
            "▾ "@
        } else {
            "✽ "@
        },
        t.goal_recap_label@ + " · "@ + recap.display_summary@,
        fg_style(theme.text.primary),
        width,
    ) + (if block.expanded {
        recap_sections(recap, theme, width, t)
    } else {
        match recap.next_action {
            Some(next) => prefixed_lines(
                "  "@,
                t.recap_next_step@ + next@,
                fg_style(theme.text.secondary),
                width,
            ),
            None => Seq::empty(),
        }
    })
}

/// Durable goal recap: compact by default; expanded, structured sections from the
/// checkpoint's own fields. Unknown facts stay explicit.
pub fn goal_recap_lines(block: &GoalRecapBlock, theme: &Theme, wrap_width: usize, out: &mut Vec<Line>, t: &UiText)
    ensures
        line_views(final(out)@) == line_views(old(out)@) + recap_lines(
            *block,
            *theme,
            wrap_width as int,
            *t,
        ),
{
    let ghost base = line_views(out@);
    let recap = &block.recap;
    let marker = if block.expanded {
        "▾ "
    } else {
        "✽ "
    };
    let head = cat3(t.goal_recap_label, " · ", recap.display_summary.as_str());
    push_prefixed(out, marker, head.as_str(), Style::fg(theme.text.primary), wrap_width);
    if block.expanded {
        push_recap_sections(out, recap, theme, wrap_width, t);
    } else {
        match &recap.next_action {
            Some(next) => {
                let text = cat2(t.recap_next_step, next.as_str());
                push_prefixed(
                    out,
                    "  ",
                    text.as_str(),
                    Style::fg(theme.text.secondary),
                    wrap_width,
                );
            },
            None => {},
        }
    }
    assert(line_views(out@) =~= base + recap_lines(*block, *theme, wrap_width as int, *t));
}

/// Unknown facts stay explicit, in either language: a verification that did not pass
/// never begins with the check mark, and an unknown number of findings never reads as a
/// number.
pub proof fn unknown_facts_stay_explicit(recap: GoalRecap, locale: Locale, n: nat)
    ensures
        recap.verification@ != "passed"@ ==> {
            &&& verification_text(recap, text_of(locale)).len() > 0
            &&& verification_text(recap, text_of(locale))[0] != '✓'
        },
        recap.findings_total is None ==> findings_text(recap, text_of(locale)) != decimal(n),
{
    reveal_strlit("✗ ");
    reveal_strlit("未测量");
    reveal_strlit("not measured");
    reveal_strlit("未知");
    reveal_strlit("unknown");
    decimal_starts_with_a_digit(n);
}

// ---------------------------------------------------------------- failures

/// A failure: its title, what happened, a subtitle; and the vendor's own detail only
/// where it is disclosed.
pub open spec fn failure_rows(block: FailureBlock, theme: Theme, width: int, t: UiText) -> Seq<Seq<SpanV>> {
    let dim = fg_style(theme.text.secondary);
    seq![
        seq![
            spanv("✗ "@, fg_style(theme.status.error)),
            spanv(block.title@, bold_style(theme.status.error)),
        ],
    ] + (if trimmed(block.summary@).len() == 0 {
        Seq::empty()
    } else {
        indented(
            wrapped(block.summary@, room(width, 2, 8) as usize),
            "  "@,
            fg_style(theme.text.primary),
        )
    }) + (match block.subtitle {
        Some(s) => line_if(trimmed(s@).len() != 0, styled_line("  "@ + s@, dim)),
        None => Seq::empty(),
    }) + (if trimmed(block.detail@).len() == 0 {
        Seq::empty()
    } else if block.expanded {
        seq![styled_line("  "@ + t.failure_detail_label@, dim)] + indented(
            wrapped(block.detail@, room(width, 4, 8) as usize),
            "  "@,
            dim,
        )
    } else {
        seq![styled_line("  "@ + t.failure_detail_hint@, dim)]
    })
}

/// The single terminal-failure block. The primary lines carry product copy and a
/// muted machine subtitle; the raw detail is shown only when disclosed.
pub fn failure_lines(block: &FailureBlock, theme: &Theme, width: usize, out: &mut Vec<Line>, t: &UiText)
    ensures
        line_views(final(out)@) == line_views(old(out)@) + failure_rows(
            *block,
            *theme,
            width as int,
            *t,
        ),
{
    let ghost base = line_views(out@);
    let dim = Style::fg(theme.text.secondary);
    out.push(
        Line::of2(
            Span::text("✗ ", Style::fg(theme.status.error)),
            Span::text(block.title.as_str(), Style::bold(theme.status.error)),
        ),
    );
    if !trim(block.summary.as_str()).as_str().is_empty() {
        let rows = wrap(block.summary.as_str(), room_of(width, 2, 8));
        push_indented(out, &rows, "  ", Style::fg(theme.text.primary));
    }
    match &block.subtitle {
        Some(s) => if !trim(s.as_str()).as_str().is_empty() {
            out.push(Line::of(Span::new(cat2("  ", s.as_str()), dim)));
        },
        None => {},
    }
    if !trim(block.detail.as_str()).as_str().is_empty() {
        if block.expanded {
            out.push(Line::of(Span::new(cat2("  ", t.failure_detail_label), dim)));
            let rows = wrap(block.detail.as_str(), room_of(width, 4, 8));
            push_indented(out, &rows, "  ", dim);
        } else {
            out.push(Line::of(Span::new(cat2("  ", t.failure_detail_hint), dim)));
        }
    }
    assert(line_views(out@) =~= base + failure_rows(*block, *theme, width as int, *t));
}

/// A failure that is not disclosed does not show its detail: any other detail that
/// is not blank gives the same rows.
pub proof fn undisclosed_detail_does_not_show(a: FailureBlock, b: FailureBlock, theme: Theme, width: int, t: UiText)
    requires
        !a.expanded,
        !b.expanded,
        a.title@ == b.title@,
        a.summary@ == b.summary@,
        opt_text(a.subtitle) == opt_text(b.subtitle),
        trimmed(a.detail@).len() != 0,
        trimmed(b.detail@).len() != 0,
    ensures
        failure_rows(a, theme, width, t) == failure_rows(b, theme, width, t),
{
}

// ---------------------------------------------------------------- completion

/// The report of a finished turn.
pub open spec fn completion_rows(report: UiCompletionReport, theme: Theme, t: UiText) -> Seq<Seq<SpanV>> {
    let dim = fg_style(theme.text.secondary);
    seq![
        if report.success {
            styled_line("✓"@ + " "@ + t.turn_end_completed@, fg_style(theme.status.success))
        } else {
            styled_line("✗"@ + " "@ + t.turn_end_completed@, fg_style(theme.status.warning))
        },
        styled_line(
            "  "@ + replaced_first(
                t.completion_files_changed@,
                "{}"@,
                decimal(report.files_changed as nat),
            ) + "  +"@ + decimal(report.added as nat) + (" / -"@ + decimal(report.removed as nat)),
            dim,
        ),
    ] + line_if(
        report.checks_total > 0,
        styled_line(
            "  "@ + replaced_first(
                replaced_first(
                    t.completion_verified@,
                    "{}"@,
                    decimal(report.checks_passed as nat),
                ),
                "{}"@,
                decimal(report.checks_total as nat),
            ),
            dim,
        ),
    ) + seq![styled_line("  "@ + t.completion_diff_hint@, dim)]
}

pub fn completion_lines(report: &UiCompletionReport, theme: &Theme, out: &mut Vec<Line>, t: &UiText)
    ensures
        line_views(final(out)@) == line_views(old(out)@) + completion_rows(*report, *theme, *t),
{
    let ghost base = line_views(out@);
    let dim = Style::fg(theme.text.secondary);
    let (glyph, color) = if report.success {
        ("✓", theme.status.success)
    } else {
        ("✗", theme.status.warning)
    };
    out.push(Line::of(Span::new(cat3(glyph, " ", t.turn_end_completed), Style::fg(color))));
    let files = replace_first(
        t.completion_files_changed,
        "{}",
        dec(report.files_changed).as_str(),
    );
    let removed = cat2(" / -", dec(report.removed).as_str());
    out.push(
        Line::of(
            Span::new(
                cat5(
                    "  ",
                    files.as_str(),
                    "  +",
                    dec(report.added).as_str(),
                    removed.as_str(),
                ),
                dim,
            ),
        ),
    );
    if report.checks_total > 0 {
        let once = replace_first(
            t.completion_verified,
            "{}",
            dec(report.checks_passed).as_str(),
        );
        let text = replace_first(once.as_str(), "{}", dec(report.checks_total).as_str());
        out.push(Line::of(Span::new(cat2("  ", text.as_str()), dim)));
    }
    out.push(Line::of(Span::new(cat2("  ", t.completion_diff_hint), dim)));
    assert(line_views(out@) =~= base + completion_rows(*report, *theme, *t));
}

// ---------------------------------------------------------------- commands of the user

/// A command as the shared disclosure rows show it.
#[derive(Debug)]
pub struct DisclosurePresentation {
    pub label: String,
    pub failed: usize,
    pub failed_suffix: Option<String>,
    pub needs_permission_suffix: Option<String>,
    pub expanded: bool,
    /// The row opens a screen of its own and does not expand in place.
    pub drill_down: bool,
    pub duration_ms: Option<u64>,
    pub first_error: Option<String>,
}

/// The label of a command, marked as the user's own.
pub open spec fn shell_label(shell: UserShellBlock, t: UiText) -> Seq<char> {
    t.user_shell_run_label@ + " "@ + shell.command@
}

/// The last of the first `n` lines that is not blank.
pub open spec fn last_words(rows: Seq<Seq<char>>, n: int) -> Option<Seq<char>>
    decreases n,
{
    if n <= 0 {
        None
    } else if trimmed(rows[n - 1]).len() != 0 {
        Some(rows[n - 1])
    } else {
        last_words(rows, n - 1)
    }
}

/// What the disclosure rows say of a command that ended.
pub open spec fn presents(p: DisclosurePresentation, shell: UserShellBlock, t: UiText) -> bool {
    let failed = shell.status == UserShellStatus::Failed;
    let rows = text_lines(shell.output@);
    &&& p.label@ == shell_label(shell, t) + (match shell.status {
        UserShellStatus::Cancelled => " · "@ + t.user_shell_cancelled@,
        UserShellStatus::Unknown => " · "@ + t.shell_status_unknown@,
        _ => Seq::empty(),
    })
    &&& p.failed == (if failed {
        1int
    } else {
        0
    })
    &&& opt_text(p.failed_suffix) == (match shell.exit_code {
        Some(code) => if failed && code != 0 {
            Some("exit "@ + signed_decimal(code as int))
        } else {
            None
        },
        None => None,
    })
    &&& p.needs_permission_suffix is None
    &&& p.expanded == shell.expanded
    &&& p.drill_down
    &&& p.duration_ms == shell.duration_ms
    &&& opt_text(p.first_error) == (if !shell.expanded && failed {
        last_words(rows, rows.len() as int)
    } else {
        None
    })
}

fn last_row_with_words(text: &str) -> (r: Option<String>)
    ensures
        opt_text(r) == last_words(text_lines(text@), text_lines(text@).len() as int),
{
    let rows = lines(text);
    let ghost all = text_lines(text@);
    let mut i: usize = rows.len();
    assert(all.len() == rows@.len());
    while i > 0
        invariant
            all == views(rows@),
            all == text_lines(text@),
            i <= rows@.len(),
            last_words(all, all.len() as int) == last_words(all, i as int),
        decreases i,
    {
        i -= 1;
        assert(all[i as int] == rows@[i as int]@);
        if !trim(rows[i].as_str()).as_str().is_empty() {
            return Some(rows[i].clone());
        }
    }
    None
}

/// What the disclosure rows are to say of a command that ended.
pub fn user_shell_presentation(shell: &UserShellBlock, t: &UiText) -> (p: DisclosurePresentation)
    ensures
        presents(p, *shell, *t),
{
    let failed = shell.status == UserShellStatus::Failed;
    let mut label = cat3(t.user_shell_run_label, " ", shell.command.as_str());
    let ghost base = label@;
    match shell.status {
        UserShellStatus::Cancelled => {
            label.append(cat2(" · ", t.user_shell_cancelled).as_str());
        },
        UserShellStatus::Unknown => {
            label.append(cat2(" · ", t.shell_status_unknown).as_str());
        },
        _ => {},
    }
    assert(label@ =~= base + (match shell.status {
        UserShellStatus::Cancelled => " · "@ + t.user_shell_cancelled@,
        UserShellStatus::Unknown => " · "@ + t.shell_status_unknown@,
        _ => Seq::<char>::empty(),
    }));
    let failed_suffix = match shell.exit_code {
        Some(code) => if failed && code != 0 {
            Some(cat2("exit ", dec_signed(code as i64).as_str()))
        } else {
            None
        },
        None => None,
    };
    let first_error = if !shell.expanded && failed {
        last_row_with_words(shell.output.as_str())
    } else {
        None
    };
    DisclosurePresentation {
        label,
        failed: if failed {
            1
        } else {
            0
        },
        failed_suffix,
        needs_permission_suffix: None,
        expanded: shell.expanded,
        drill_down: true,
        duration_ms: shell.duration_ms,
        first_error,
    }
}

/// The seconds between two moments, none where the first is the later.
pub open spec fn seconds_between(from: i64, to: u64) -> nat {
    if to > from {
        (to - from) as nat
    } else {
        0
    }
}

/// The row of a running command.
pub open spec fn running_shell(shell: UserShellBlock, theme: Theme, width: int, t: UiText, now: u64) -> Seq<SpanV> {
    let secs = seconds_between(shell.started_elapsed_secs, now);
    seq![
        spanv("◌ "@, fg_style(theme.accent.primary)),
        spanv(truncated(shell_label(shell, t), minus(width, 8)), fg_style(theme.text.primary)),
        spanv(
            if secs > 0 {
                " · "@ + decimal(secs) + "s"@
            } else {
                ""@
            },
            fg_style(theme.text.muted),
        ),
    ]
}

/// The output of a command, a row for each line.
pub open spec fn output_rows(output: Seq<char>, theme: Theme, width: int) -> Seq<Seq<SpanV>> {
    let rows = text_lines(output);
    Seq::new(
        rows.len(),
        |i: int|
            styled_line(
                truncated("  "@ + sanitized_from(rows[i], 0, 0), width),
                fg_style(theme.text.secondary),
            ),
    )
}

fn push_output(out: &mut Vec<Line>, output: &str, theme: &Theme, width: usize)
    ensures
        line_views(final(out)@) == line_views(old(out)@) + output_rows(
            output@,
            *theme,
            width as int,
        ),
{
    let ghost base = line_views(out@);
    let ghost all = output_rows(output@, *theme, width as int);
    let rows = lines(output);
    let mut i: usize = 0;
    assert(base + all.take(0) =~= base);
    assert(views(rows@).len() == rows@.len());
    while i < rows.len()
        invariant
            views(rows@) == text_lines(output@),
            all == output_rows(output@, *theme, width as int),
            all.len() == rows@.len(),
            i <= rows@.len(),
            line_views(out@) == base + all.take(i as int),
        decreases rows@.len() - i,
    {
        assert(views(rows@)[i as int] == rows@[i as int]@);
        let row = cat2("  ", sanitize_terminal_line(rows[i].as_str()).as_str());
        out.push(
            Line::of(
                Span::new(
                    truncate_display(row.as_str(), width),
                    Style::fg(theme.text.secondary),
                ),
            ),
        );
        i += 1;
        assert(all.take(i as int) =~= all.take(i - 1).push(all[i - 1]));
        assert(line_views(out@) =~= base + all.take(i as int));
    }
    assert(all.take(i as int) =~= all);
}

/// A command of the user. `made` are the disclosure rows of one that ended: all of
/// them where it is folded, the header where it is expanded.
pub open spec fn shell_rows(
    shell: UserShellBlock,
    theme: Theme,
    width: int,
    t: UiText,
    now: u64,
    made: Seq<Seq<SpanV>>,
) -> Seq<Seq<SpanV>> {
    if shell.status == UserShellStatus::Running {
        seq![running_shell(shell, theme, width, t, now)]
    } else if !shell.expanded {
        made
    } else {
        made + line_if(
            shell.output_truncated,
            styled_line("  "@ + t.shell_truncated@, fg_style(theme.text.muted)),
        ) + output_rows(shell.output@, theme, width)
    }
}

/// One execution of the user in the shared disclosure language. A running one shows a
/// live row.
pub fn user_shell_lines(
    shell: &UserShellBlock,
    theme: &Theme,
    wrap_width: usize,
    t: &UiText,
    now_elapsed_secs: u64,
    made: &Vec<Line>,
) -> (r: Vec<Line>)
    ensures
        line_views(r@) == shell_rows(
            *shell,
            *theme,
            wrap_width as int,
            *t,
            now_elapsed_secs,
            line_views(made@),
        ),
{
    if shell.status == UserShellStatus::Running {
        let mut out: Vec<Line> = Vec::new();
        let label = cat3(t.user_shell_run_label, " ", shell.command.as_str());
        let gap: i128 = now_elapsed_secs as i128 - shell.started_elapsed_secs as i128;
        let suffix = if gap > 0 {
            cat3(" · ", dec_wide(gap as u128).as_str(), "s")
        } else {
            "".to_owned()
        };
        out.push(
            Line::of3(
                Span::text("◌ ", Style::fg(theme.accent.primary)),
                Span::new(
                    truncate_display(label.as_str(), wrap_width.saturating_sub(8)),
                    Style::fg(theme.text.primary),
                ),
                Span::new(suffix, Style::fg(theme.text.muted)),
            ),
        );
        assert(line_views(out@) =~= seq![
            running_shell(*shell, *theme, wrap_width as int, *t, now_elapsed_secs),
        ]);
        return out;
    }
    let mut out = copy_lines(made);
    if !shell.expanded {
        return out;
    }
    if shell.output_truncated {
        out.push(Line::of(Span::new(cat2("  ", t.shell_truncated), Style::fg(theme.text.muted))));
    }
    assert(line_views(out@) =~= line_views(made@) + line_if(
        shell.output_truncated,
        styled_line("  "@ + t.shell_truncated@, fg_style(theme.text.muted)),
    ));
    push_output(&mut out, shell.output.as_str(), theme, wrap_width);
    out
}

// ---------------------------------------------------------------- items

/// The text of a recap line.
pub open spec fn recap_text(block: RecapBlock, t: UiText) -> Seq<char> {
    match block.summary {
        Some(s) => s@ + " · "@ + t.recap_next_step@ + block.next_step@,
        None => t.recap_next_step@ + block.next_step@,
    }
}

/// An item of the conversation. An item that another renderer shows is what it made.
pub open spec fn rendered(
    item: TranscriptItem,
    theme: Theme,
    width: int,
    t: UiText,
    made: Made,
) -> Seq<Seq<SpanV>> {
    match item {
        TranscriptItem::User(text) => user_lines(text@, theme, width),
        TranscriptItem::Assistant(block) => message_lines(
            block.done,
            line_views(made.lines@),
            theme,
        ),
        TranscriptItem::ToolGroup(_) => line_views(made.lines@),
        TranscriptItem::SubAgent(block) => child_lines(block, theme, width, t, 0),
        TranscriptItem::UserShell(shell) => shell_rows(
            shell,
            theme,
            width,
            t,
            0,
            line_views(made.lines@),
        ),
        TranscriptItem::Plan(plan) => plan_lines(plan, theme, width, t, made.plan_glyphs),
        TranscriptItem::Completion(report) => completion_rows(report, theme, t),
        TranscriptItem::Error(text) => prefixed_lines(
            "✗ "@,
            text@,
            fg_style(theme.status.error),
            width,
        ),
        TranscriptItem::Failure(block) => failure_rows(block, theme, width, t),
        TranscriptItem::Note(text) => prefixed_lines(
            "◆ "@,
            text@,
            fg_style(theme.text.secondary),
            width,
        ),
        TranscriptItem::TurnEnd(block) => end_lines(block, theme, width, t),
        TranscriptItem::Recap(block) => prefixed_lines(
            "※ "@ + t.recap_label@ + ": "@,
            recap_text(block, t),
            fg_style(theme.text.secondary),
            width,
        ),
        TranscriptItem::GoalRecap(block) => recap_lines(block, theme, width, t),
    }
}

/// Render one transcript item to styled lines (no leading separator). `made` holds
/// what other renderers made of it.
pub fn item_render(item: &TranscriptItem, theme: &Theme, wrap_width: usize, t: &UiText, made: &Made) -> (r:
    Vec<Line>)
    ensures
        line_views(r@) == rendered(*item, *theme, wrap_width as int, *t, *made),
{
    let mut out: Vec<Line> = Vec::new();
    let ghost none = Seq::<Seq<SpanV>>::empty();
    assert(line_views(out@) =~= none);
    match item {
        TranscriptItem::User(text) => {
            push_user(&mut out, text.as_str(), theme, wrap_width);
        },
        TranscriptItem::Assistant(block) => {
            return assistant_render(block, theme, made);
        },
        TranscriptItem::ToolGroup(_) => {
            return copy_lines(&made.lines);
        },
        // Scrollback: the agent is finished, so no live elapsed is shown.
        TranscriptItem::SubAgent(block) => {
            sub_agent_lines(block, theme, wrap_width, &mut out, t, 0);
        },
        TranscriptItem::UserShell(shell) => {
            return user_shell_lines(shell, theme, wrap_width, t, 0, &made.lines);
        },
        TranscriptItem::Plan(plan) => {
            historical_plan_lines(plan, theme, wrap_width, &mut out, t, &made.plan_glyphs);
        },
        TranscriptItem::Completion(report) => {
            completion_lines(report, theme, &mut out, t);
        },
        TranscriptItem::Error(text) => {
            push_prefixed(
                &mut out,
                "✗ ",
                text.as_str(),
                Style::fg(theme.status.error),
                wrap_width,
            );
        },
        TranscriptItem::Failure(block) => {
            failure_lines(block, theme, wrap_width, &mut out, t);
        },
        TranscriptItem::Note(text) => {
            push_prefixed(
                &mut out,
                "◆ ",
                text.as_str(),
                Style::fg(theme.text.secondary),
                wrap_width,
            );
        },
        TranscriptItem::TurnEnd(block) => {
            turn_end_lines(block, theme, wrap_width, &mut out, t);
        },
        TranscriptItem::Recap(block) => {
            let text = match &block.summary {
                Some(s) => cat4(s.as_str(), " · ", t.recap_next_step, block.next_step.as_str()),
                None => cat2(t.recap_next_step, block.next_step.as_str()),
            };
            let prefix = cat3("※ ", t.recap_label, ": ");
            push_prefixed(
                &mut out,
                prefix.as_str(),
                text.as_str(),
                Style::fg(theme.text.secondary),
                wrap_width,
            );
        },
        TranscriptItem::GoalRecap(block) => {
            goal_recap_lines(block, theme, wrap_width, &mut out, t);
        },
    }
    assert(none + rendered(*item, *theme, wrap_width as int, *t, *made) =~= rendered(
        *item,
        *theme,
        wrap_width as int,
        *t,
        *made,
    ));
    out
}

/// Whether no call of a group runs.
pub open spec fn none_running(calls: Seq<ToolCallBlock>) -> bool {
    forall|i: int| 0 <= i < calls.len() ==> (#[trigger] calls[i]).status != ToolStatus::Running
}

/// Whether an item can no longer change.
pub open spec fn is_final(item: TranscriptItem) -> bool {
    match item {
        TranscriptItem::Assistant(b) => b.done,
        TranscriptItem::ToolGroup(group) => !group.open && none_running(group.calls@),
        TranscriptItem::SubAgent(b) => b.status != ToolStatus::Running,
        _ => true,
    }
}

/// Whether a transcript item is finalized and safe to commit to scrollback (streaming
/// assistants and running tools are not yet final).
pub fn item_is_final(item: &TranscriptItem) -> (r: bool)
    ensures
        r == is_final(*item),
{
    match item {
        TranscriptItem::Assistant(b) => b.done,
        TranscriptItem::ToolGroup(group) => {
            if group.open {
                return false;
            }
            let mut i: usize = 0;
            while i < group.calls.len()
                invariant
                    *item == TranscriptItem::ToolGroup(*group),
                    i <= group.calls@.len(),
                    forall|k: int|
                        0 <= k < i ==> (#[trigger] group.calls@[k]).status != ToolStatus::Running,
                decreases group.calls@.len() - i,
            {
                if group.calls[i].status == ToolStatus::Running {
                    assert(group.calls@[i as int].status == ToolStatus::Running);
                    return false;
                }
                i += 1;
            }
            true
        },
        TranscriptItem::SubAgent(b) => b.status != ToolStatus::Running,
        _ => true,
    }
}

/// Whether a blank separator belongs between two adjacent transcript items.
/// Consecutive sub-agents form one visual batch.
pub fn items_need_gap(prev: &TranscriptItem, next: &TranscriptItem) -> (r: bool)
    ensures
        r == !(prev is SubAgent && next is SubAgent),
{
    match (prev, next) {
        (TranscriptItem::SubAgent(_), TranscriptItem::SubAgent(_)) => false,
        _ => true,
    }
}

} // verus!
