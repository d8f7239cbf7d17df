//! What the live status and the footer promise.

use vstd::prelude::*;

use crate::i18n::{text_of, UiText};
use crate::laws::{absent, decimal_reads_back, first_gap_is_filled, ink, only_gap_is_filled, strong};
use crate::model::SpanV;
use crate::overlay::OverlayKind;
use crate::protocol::{
    FinalizationStage, ModelRef, PlanStepStatus, RuntimeStatus, UiPlan, UiPlanStep,
};
use crate::state::AppState;
use crate::status_line::{
    border_chip, border_parts, busy_label, busy_parts, cache_chip, calls_chip, chip_of,
    collapsed_repo, compact_count, context_chip, cut_to, effort_of, elapsed, estimate, first_over,
    fit_count, fitting_chip, friendly_model, grouped, grouped_from, grouped_number_reads_back,
    header_text, named_so, open_message, permission_label, phase_of, running_step, spinner,
    step_chip, streaming, strip, usage_line, wide_count, without_commas, ActivityRow, StatusPhase,
    WaitKind, WaitView,
};
use crate::strings::{decimal, digit, digits_value, joined, occurs_at, skip_set, trimmed};
use crate::transcript::{AssistantBlock, TranscriptItem};
use crate::width::unicode_str_width;

verus! {

// ---------------------------------------------------------------- numbers

/// A duration of a minute or more is its minutes and, in two digits, the seconds left; a
/// shorter one its seconds.
pub proof fn elapsed_reads_as_minutes_and_seconds(minutes: nat, secs: nat)
    requires
        secs < 60,
    ensures
        minutes > 0 ==> elapsed(minutes * 60 + secs) == decimal(minutes) + "m "@ + seq![
            digit(secs / 10),
            digit(secs % 10),
        ] + "s"@,
        elapsed(secs) == decimal(secs) + "s"@,
{
    reveal_strlit("0");
    if minutes > 0 {
        let n = minutes * 60 + secs;
        assert(n / 60 == minutes && n % 60 == secs);
        reveal_with_fuel(decimal, 2);
        assert(crate::strings::two_digits(secs) =~= seq![digit(secs / 10), digit(secs % 10)]);
    }
}

proof fn group_stands_apart(a: Seq<char>, b: Seq<char>, i: int)
    requires
        b.len() == 3,
        0 <= i < a.len(),
    ensures
        grouped_from(a + b, i) == grouped_from(a, i) + seq![',', b[0], b[1], b[2]],
    decreases a.len() - i,
{
    let s = a + b;
    assert(s[i] == a[i]);
    assert((s.len() - i) % 3 == (a.len() - i) % 3);
    if i + 1 < a.len() {
        group_stands_apart(a, b, i + 1);
        assert(grouped_from(s, i) =~= grouped_from(a, i) + seq![',', b[0], b[1], b[2]]);
    } else {
        reveal_with_fuel(grouped_from, 5);
        let n = a.len() as int;
        assert(s[n] == b[0] && s[n + 1] == b[1] && s[n + 2] == b[2]);
        assert(grouped_from(s, i) =~= grouped_from(a, i) + seq![',', b[0], b[1], b[2]]);
    }
}

/// A number with its thousands apart is, below a thousand, its digits, and from there on
/// its thousands in the same notation, a comma and the last three digits. Without the
/// commas it reads back.
pub proof fn thousands_stand_apart(n: nat)
    ensures
        n < 1000 ==> grouped(n) == decimal(n),
        n >= 1000 ==> grouped(n) == grouped(n / 1000) + seq![
            ',',
            digit(n / 100 % 10),
            digit(n / 10 % 10),
            digit(n % 10),
        ],
        digits_value(without_commas(grouped(n))) == n,
{
    grouped_number_reads_back(n);
    decimal_reads_back(n);
    if n < 1000 {
        reveal_with_fuel(decimal, 4);
        reveal_with_fuel(grouped_from, 5);
        assert(decimal(n).len() <= 3);
        assert(grouped(n) =~= decimal(n));
    } else {
        let a = decimal(n / 1000);
        let b = seq![digit(n / 100 % 10), digit(n / 10 % 10), digit(n % 10)];
        assert(n / 10 / 10 == n / 100 && n / 100 / 10 == n / 1000);
        assert(decimal(n) == decimal(n / 10).push(digit(n % 10)));
        assert(decimal(n / 10) == decimal(n / 10 / 10).push(digit(n / 10 % 10)));
        assert(decimal(n / 100) == decimal(n / 100 / 10).push(digit(n / 100 % 10)));
        assert(decimal(n) =~= a + b);
        decimal_reads_back(n / 1000);
        group_stands_apart(a, b, 0);
    }
}

/// A count is shortened to thousands and millions, never rounded up, with a tenth where
/// it says something and there is room for it.
pub proof fn counts_are_shortened(whole: nat, tenth: nat, rest: nat)
    requires
        tenth < 10,
    ensures
        whole < 1000 ==> compact_count(whole) == decimal(whole),
        1 <= whole < 10 && rest < 100 ==> compact_count(whole * 1000 + tenth * 100 + rest) == (
        if tenth == 0 {
            decimal(whole) + "k"@
        } else {
            decimal(whole) + "."@ + decimal(tenth) + "k"@
        }),
        10 <= whole < 1000 && rest < 100 ==> compact_count(whole * 1000 + tenth * 100 + rest)
            == decimal(whole) + "k"@,
        1 <= whole && rest < 100_000 ==> compact_count(
            whole * 1_000_000 + tenth * 100_000 + rest,
        ) == (if tenth == 0 {
            decimal(whole) + "M"@
        } else {
            decimal(whole) + "."@ + decimal(tenth) + "M"@
        }),
{
    if rest < 100 {
        let n = whole * 1000 + tenth * 100 + rest;
        assert(n / 1000 == whole && (n % 1000) / 100 == tenth);
    }
    if rest < 100_000 {
        let n = whole * 1_000_000 + tenth * 100_000 + rest;
        assert(n / 1_000_000 == whole && (n % 1_000_000) / 100_000 == tenth);
    }
}

// ---------------------------------------------------------------- the live line

/// The live line has, in this order: the frame and what is done, the plan's step where
/// one runs, the clock, the calls where there were any, the tokens sent behind an arrow
/// up and those received behind an arrow down where there were any, and the estimate of
/// what is arriving where anything is.
pub proof fn live_parts_stand_in_order(
    state: AppState,
    wait: Option<WaitView>,
    now_ms: u64,
    sent: nat,
    received: nat,
    calls: nat,
    secs: nat,
)
    requires
        sent == state.token_input,
        received == state.token_output,
        calls == state.turn_tool_calls,
        state.activity_elapsed_secs is Some ==> secs == state.activity_elapsed_secs->0,
        state.activity_elapsed_secs is None ==> secs == state.elapsed_secs,
    ensures
        ({
            let t = text_of(state.locale);
            let parts = busy_parts(state, wait, now_ms);
            let clock: int = if step_chip(state.plan, t) is Some {
                2
            } else {
                1
            };
            let used: int = if calls > 0 {
                clock + 1
            } else {
                clock
            };
            let tokens: int = if sent > 0 || received > 0 {
                used + 1
            } else {
                used
            };
            &&& parts.len() == tokens + (if streaming(state) > 0 {
                2int
            } else {
                1
            })
            &&& parts[0] == spinner((state.tick % 10) as int) + " "@ + (if state.goal_mode_active {
                t.goal_mode@ + " · "@
            } else {
                ""@
            }) + busy_label(state, wait, now_ms)
            &&& clock == 2 ==> parts[1] == step_chip(state.plan, t)->0
            &&& parts[clock] == elapsed(secs)
            &&& calls > 0 ==> parts[used] == calls_chip(calls, t)
            &&& sent > 0 || received > 0 ==> parts[tokens] == "↑"@ + grouped(sent) + " ↓"@ + grouped(
                received,
            )
            &&& streaming(state) > 0 ==> parts[tokens + 1] == "↓~"@ + grouped(streaming(state))
        }),
{
}

proof fn all_parts_fit(parts: Seq<Seq<char>>, width: int, i: int)
    requires
        0 <= i <= parts.len(),
        forall|k: int|
            0 < k <= parts.len() ==> unicode_str_width(joined(#[trigger] parts.take(k), " · "@))
                <= width,
    ensures
        fit_count(parts, width, i) == parts.len(),
    decreases parts.len() - i,
{
    if i < parts.len() {
        assert(unicode_str_width(joined(parts.take(i + 1), " · "@)) <= width);
        all_parts_fit(parts, width, i + 1);
    }
}

/// In a strip that is wide enough the live line is all of its parts with dots between
/// them, the frame in bold in the accent color.
pub proof fn wide_strip_shows_every_part(
    state: AppState,
    wait: Option<WaitView>,
    rows: Seq<ActivityRow>,
    now_ms: u64,
    width: int,
)
    requires
        state.overlay is None,
        state.status == RuntimeStatus::Busy,
        wait is None || !(wait->0.kind == WaitKind::Target),
        width > 0,
    ensures
        ({
            let parts = busy_parts(state, wait, now_ms);
            let fits = forall|k: int|
                0 < k <= parts.len() ==> unicode_str_width(
                    joined(#[trigger] parts.take(k), " · "@),
                ) <= width;
            let row = strip(state, wait, rows, now_ms, width)[0];
            &&& row.len() == 2
            &&& row[0] == (SpanV {
                content: spinner((state.tick % 10) as int),
                style: strong(state.theme.accent.primary),
            })
            &&& row[1].style == ink(state.theme.text.secondary)
            &&& fits ==> row[0].content + row[1].content == joined(parts, " · "@)
        }),
{
    let parts = busy_parts(state, wait, now_ms);
    if forall|k: int|
        0 < k <= parts.len() ==> unicode_str_width(joined(#[trigger] parts.take(k), " · "@))
            <= width {
        wide_strip_joins_its_parts(state, wait, rows, now_ms, width);
    }
}

proof fn wide_strip_joins_its_parts(
    state: AppState,
    wait: Option<WaitView>,
    rows: Seq<ActivityRow>,
    now_ms: u64,
    width: int,
)
    requires
        state.overlay is None,
        state.status == RuntimeStatus::Busy,
        wait is None || !(wait->0.kind == WaitKind::Target),
        width > 0,
        forall|k: int|
            0 < k <= busy_parts(state, wait, now_ms).len() ==> unicode_str_width(
                joined(#[trigger] busy_parts(state, wait, now_ms).take(k), " · "@),
            ) <= width,
    ensures
        ({
            let row = strip(state, wait, rows, now_ms, width)[0];
            row[0].content + row[1].content == joined(busy_parts(state, wait, now_ms), " · "@)
        }),
{
    let parts = busy_parts(state, wait, now_ms);
    all_parts_fit(parts, width, 0);
    assert(parts.take(parts.len() as int) =~= parts);
    let text = joined(parts, " · "@);
    assert(unicode_str_width(joined(parts.take(parts.len() as int), " · "@)) <= width);
    let frame = spinner((state.tick % 10) as int);
    live_parts_stand_in_order(
        state,
        wait,
        now_ms,
        state.token_input as nat,
        state.token_output as nat,
        state.turn_tool_calls as nat,
        match state.activity_elapsed_secs {
            Some(s) => s as nat,
            None => state.elapsed_secs as nat,
        },
    );
    joined_begins_with_its_first(parts, " · "@);
    assert(parts[0].take(frame.len() as int) =~= frame);
    assert(text.take(frame.len() as int) =~= frame);
    assert(text.subrange(0, frame.len() as int) =~= frame);
    let row = strip(state, wait, rows, now_ms, width)[0];
    assert(row[1].content == text.skip(frame.len() as int));
    assert(frame + text.skip(frame.len() as int) =~= text);
}

proof fn joined_begins_with_its_first(parts: Seq<Seq<char>>, sep: Seq<char>)
    requires
        parts.len() > 0,
    ensures
        joined(parts, sep).len() >= parts[0].len(),
        joined(parts, sep).take(parts[0].len() as int) == parts[0],
    decreases parts.len(),
{
    if parts.len() > 1 {
        joined_begins_with_its_first(parts.drop_last(), sep);
        assert(parts.drop_last()[0] == parts[0]);
        let front = joined(parts.drop_last(), sep);
        assert(joined(parts, sep).take(parts[0].len() as int) =~= front.take(
            parts[0].len() as int,
        ));
    } else {
        assert(parts[0].take(parts[0].len() as int) =~= parts[0]);
    }
}

/// What the turn is doing: a stage of its end before anything, then a reconnect, then
/// the activity, which gives way only to the wait for the model.
pub proof fn label_names_the_most_specific_work(
    state: AppState,
    wait: Option<WaitView>,
    now_ms: u64,
)
    ensures
        ({
            let t = text_of(state.locale);
            let label = busy_label(state, wait, now_ms);
            let on_model = if wait is Some {
                wait->0.kind == WaitKind::Model
            } else {
                state.activity is None
            };
            let calm = state.finalization_stage is None && state.reconnecting is None;
            &&& state.finalization_stage == Some(FinalizationStage::SettlingDependencies) ==> label
                == t.finalizing_dependencies@
            &&& state.finalization_stage == Some(FinalizationStage::Verification) ==> label
                == t.finalizing_verification@
            &&& state.finalization_stage == Some(FinalizationStage::Evidence) ==> label
                == t.finalizing_evidence@
            &&& state.finalization_stage == Some(FinalizationStage::Review) ==> label
                == t.finalizing_review@
            &&& state.finalization_stage == Some(FinalizationStage::ResolvingOutcome) ==> label
                == t.finalizing_outcome@
            &&& state.finalization_stage == Some(FinalizationStage::PublishingTerminal) ==> label
                == t.finalizing_terminal@
            &&& calm && !on_model && state.activity is Some ==> label == state.activity->0@
            &&& calm && on_model && state.reconnected_until_ms is Some
                && state.reconnected_until_ms->0 > now_ms ==> label == t.reconnected@
            &&& calm && on_model && (state.reconnected_until_ms is None
                || state.reconnected_until_ms->0 <= now_ms) && state.live_reasoning@.len() > 0
                ==> label == t.thinking@
            &&& calm && on_model && (state.reconnected_until_ms is None
                || state.reconnected_until_ms->0 <= now_ms) && state.live_reasoning@.len() == 0
                ==> label == t.waiting_model@
        }),
{
}

/// A reconnect tells which attempt it is, of how many, and the seconds until the next.
pub proof fn reconnect_counts_its_attempts(
    state: AppState,
    wait: Option<WaitView>,
    now_ms: u64,
    w: (Seq<char>, Seq<char>, Seq<char>, Seq<char>),
)
    requires
        state.finalization_stage is None,
        state.reconnecting is Some,
        text_of(state.locale).reconnecting@ == w.0 + "{attempt}"@ + (w.1 + "{max}"@ + (w.2
            + "{secs}"@ + w.3)),
        !w.0.contains('{') && !w.1.contains('{') && !w.2.contains('{') && !w.3.contains('{'),
        !(w.0 + decimal(state.reconnecting->0.attempt as nat) + w.1).contains('{'),
        !(w.0 + decimal(state.reconnecting->0.attempt as nat) + w.1 + decimal(
            state.reconnecting->0.max_attempts as nat,
        ) + w.2).contains('{'),
    ensures
        busy_label(state, wait, now_ms) == w.0 + decimal(state.reconnecting->0.attempt as nat) + w.1
            + decimal(state.reconnecting->0.max_attempts as nat) + w.2 + decimal(
            state.reconnecting->0.left(now_ms),
        ) + w.3,
{
    reveal_strlit("{attempt}");
    reveal_strlit("{max}");
    reveal_strlit("{secs}");
    let a = decimal(state.reconnecting->0.attempt as nat);
    let m = decimal(state.reconnecting->0.max_attempts as nat);
    let s = decimal(state.reconnecting->0.left(now_ms));
    let last = w.2 + "{secs}"@ + w.3;
    let rest = w.1 + "{max}"@ + last;
    no_other_gap(w.2, "{secs}"@, w.3, "{attempt}"@, 's', 'a');
    no_other_gap(w.2, "{secs}"@, w.3, "{max}"@, 's', 'm');
    gap_behind_gap(w.1, "{max}"@, last, "{attempt}"@, 'm', 'a');
    only_gap_is_filled(w.0, "{attempt}"@, rest, a);
    assert(w.0 + a + rest =~= (w.0 + a + w.1) + "{max}"@ + last);
    only_gap_is_filled(w.0 + a + w.1, "{max}"@, last, m);
    assert((w.0 + a + w.1) + m + last =~= (w.0 + a + w.1 + m + w.2) + "{secs}"@ + w.3);
    absent(w.3, "{secs}"@);
    only_gap_is_filled(w.0 + a + w.1 + m + w.2, "{secs}"@, w.3, s);
}

proof fn no_other_gap(
    head: Seq<char>,
    gap: Seq<char>,
    tail: Seq<char>,
    p: Seq<char>,
    here: char,
    there: char,
)
    requires
        gap.len() > 1,
        p.len() > 1,
        p[0] == '{',
        p[1] == there,
        gap[1] == here,
        here != there,
        !gap.skip(1).contains('{'),
        !head.contains('{'),
        !tail.contains('{'),
    ensures
        forall|k: int| !occurs_at(head + gap + tail, p, k),
{
    absent(tail, p);
    gap_behind_gap(head, gap, tail, p, here, there);
}

proof fn gap_behind_gap(
    head: Seq<char>,
    gap: Seq<char>,
    tail: Seq<char>,
    p: Seq<char>,
    here: char,
    there: char,
)
    requires
        gap.len() > 1,
        p.len() > 1,
        p[0] == '{',
        p[1] == there,
        gap[1] == here,
        here != there,
        !gap.skip(1).contains('{'),
        !head.contains('{'),
        forall|k: int| !occurs_at(tail, p, k),
    ensures
        forall|k: int| !occurs_at(head + gap + tail, p, k),
{
    let s = head + gap + tail;
    assert forall|k: int| !occurs_at(s, p, k) by {
        if occurs_at(s, p, k) {
            let e = head.len() + gap.len();
            assert(s.subrange(k, k + p.len())[0] == s[k]);
            assert(s.subrange(k, k + p.len())[1] == s[k + 1]);
            if k < head.len() {
                assert(s[k] == head[k]);
            } else if k == head.len() {
                assert(s[k + 1] == gap[1]);
            } else if k < e {
                assert(s[k] == gap.skip(1)[k - head.len() - 1]);
            } else {
                assert(s.subrange(k, k + p.len()) =~= tail.subrange(k - e, k - e + p.len()));
                assert(occurs_at(tail, p, k - e));
            }
        }
    }
}

/// The step that runs is told by its own number, counted from one, of all the plan's
/// steps; a plan without a running step tells none.
pub proof fn running_step_is_counted(
    plan: UiPlan,
    i: int,
    t: UiText,
    w: (Seq<char>, Seq<char>, Seq<char>),
)
    requires
        0 <= i < plan.steps@.len(),
        plan.steps@[i].status == PlanStepStatus::Running,
        forall|k: int| 0 <= k < i ==> (#[trigger] plan.steps@[k]).status != PlanStepStatus::Running,
        t.plan_running_chip@ == w.0 + "{current}"@ + (w.1 + "{total}"@ + w.2),
        !w.0.contains('{') && !w.1.contains('{') && !w.2.contains('{'),
        !(w.0 + decimal((plan.steps@[i].index + 1) as nat) + w.1).contains('{'),
    ensures
        step_chip(Some(plan), t) == Some(
            w.0 + decimal((plan.steps@[i].index + 1) as nat) + w.1 + decimal(plan.steps@.len())
                + w.2,
        ),
{
    reveal_strlit("{current}");
    reveal_strlit("{total}");
    first_running(plan.steps@, 0, i);
    let c = decimal((plan.steps@[i].index + 1) as nat);
    let rest = w.1 + "{total}"@ + w.2;
    no_other_gap(w.1, "{total}"@, w.2, "{current}"@, 't', 'c');
    only_gap_is_filled(w.0, "{current}"@, rest, c);
    assert(w.0 + c + rest =~= (w.0 + c + w.1) + "{total}"@ + w.2);
    absent(w.2, "{total}"@);
    only_gap_is_filled(w.0 + c + w.1, "{total}"@, w.2, decimal(plan.steps@.len()));
}

proof fn first_running(steps: Seq<UiPlanStep>, from: int, i: int)
    requires
        0 <= from <= i < steps.len(),
        steps[i].status == PlanStepStatus::Running,
        forall|k: int| from <= k < i ==> (#[trigger] steps[k]).status != PlanStepStatus::Running,
    ensures
        running_step(steps, from) == Some(steps[i]),
    decreases i - from,
{
    if from < i {
        first_running(steps, from + 1, i);
    }
}

proof fn none_runs(steps: Seq<UiPlanStep>, from: int)
    requires
        0 <= from,
        forall|k: int|
            from <= k < steps.len() ==> (#[trigger] steps[k]).status != PlanStepStatus::Running,
    ensures
        running_step(steps, from) is None,
    decreases steps.len() - from,
{
    if from < steps.len() {
        none_runs(steps, from + 1);
    }
}

/// Without a plan, or without a step that runs, no step is told.
pub proof fn no_step_without_one_running(plan: UiPlan, t: UiText)
    ensures
        step_chip(None, t) is None,
        (forall|k: int|
            0 <= k < plan.steps@.len() ==> (#[trigger] plan.steps@[k]).status
                != PlanStepStatus::Running) ==> step_chip(Some(plan), t) is None,
{
    if forall|k: int|
        0 <= k < plan.steps@.len() ==> (#[trigger] plan.steps@[k]).status
            != PlanStepStatus::Running {
        none_runs(plan.steps@, 0);
    }
}

proof fn set_is_skipped(s: Seq<char>, set: Seq<char>, i: int, e: int)
    requires
        0 <= i <= e <= s.len(),
        forall|k: int| i <= k < e ==> set.contains(#[trigger] s[k]),
        e < s.len() ==> !set.contains(s[e]),
    ensures
        skip_set(s, set, i) == e,
    decreases e - i,
{
    if i < e {
        assert(set.contains(s[i]));
        set_is_skipped(s, set, i + 1, e);
    }
}

/// The calls are counted by their number and the word behind it, without the dot that
/// joins the wording elsewhere.
pub proof fn calls_are_counted(n: nat, t: UiText, head: Seq<char>, tail: Seq<char>)
    requires
        t.tool_calls_n@ == head + "{}"@ + tail,
        forall|k: int| 0 <= k < head.len() ==> " ·"@.contains(#[trigger] head[k]),
    ensures
        calls_chip(n, t) == trimmed(decimal(n) + tail),
{
    reveal_strlit("{}");
    reveal_strlit(" ·");
    assert(!head.contains('{')) by {
        if head.contains('{') {
            let k = choose|k: int| 0 <= k < head.len() && head[k] == '{';
            assert(" ·"@.contains(head[k]));
        }
    }
    first_gap_is_filled(head, "{}"@, tail, decimal(n));
    let filled = head + decimal(n) + tail;
    decimal_reads_back(n);
    assert(filled[head.len() as int] == decimal(n)[0]);
    assert(crate::strings::is_digit(decimal(n)[0]));
    assert forall|k: int| 0 <= k < head.len() implies " ·"@.contains(#[trigger] filled[k]) by {
        assert(filled[k] == head[k]);
    }
    set_is_skipped(filled, " ·"@, 0, head.len() as int);
    assert(filled.skip(head.len() as int) =~= decimal(n) + tail);
}

/// What is arriving is the estimate of the message still written and of the thoughts; a
/// finished message counts for nothing.
pub proof fn only_what_is_arriving_is_estimated(state: AppState, block: AssistantBlock)
    ensures
        state.transcript.items@.len() > 0 && state.transcript.items@.last()
            == TranscriptItem::Assistant(block) && !block.done ==> streaming(state) == (if estimate(
            block.text@,
        ) + estimate(state.live_reasoning@) > u32::MAX {
            u32::MAX as nat
        } else {
            estimate(block.text@) + estimate(state.live_reasoning@)
        }),
        state.transcript.items@.len() == 0 ==> streaming(state) == (if estimate(
            state.live_reasoning@,
        ) > u32::MAX {
            u32::MAX as nat
        } else {
            estimate(state.live_reasoning@)
        }),
{
}

proof fn open_upto(items: Seq<TranscriptItem>, item: TranscriptItem, n: int)
    requires
        n <= items.len(),
    ensures
        open_message(items.push(item), n) == open_message(items, n),
    decreases n,
{
    if n > 0 {
        open_upto(items, item, n - 1);
        assert(items.push(item)[n - 1] == items[n - 1]);
    }
}

/// A message that is done is not the one still written: appending it changes nothing.
pub proof fn finished_messages_do_not_stream(items: Seq<TranscriptItem>, block: AssistantBlock)
    requires
        block.done,
    ensures
        open_message(
            items.push(TranscriptItem::Assistant(block)),
            (items.len() + 1) as int,
        ) == open_message(items, items.len() as int),
{
    open_upto(items, TranscriptItem::Assistant(block), items.len() as int);
}

// ---------------------------------------------------------------- the rest of the strip

/// A question to the user owns the strip, in the accent color; another overlay shows its
/// hint in the warning color.
pub proof fn overlay_owns_the_strip(
    state: AppState,
    wait: Option<WaitView>,
    rows: Seq<ActivityRow>,
    now_ms: u64,
    width: int,
)
    requires
        state.overlay is Some,
    ensures
        state.overlay->0.kind == OverlayKind::Clarification ==> strip(
            state,
            wait,
            rows,
            now_ms,
            width,
        ) == seq![
            seq![
                SpanV {
                    content: cut_to(text_of(state.locale).waiting_reply@, width),
                    style: if state.status == RuntimeStatus::Busy {
                        strong(state.theme.accent.primary)
                    } else {
                        ink(state.theme.accent.primary)
                    },
                },
            ],
        ],
        state.overlay->0.kind != OverlayKind::Clarification && state.overlay->0.status_hint
            is Some ==> strip(state, wait, rows, now_ms, width) == seq![
            seq![
                SpanV {
                    content: state.overlay->0.status_hint->0@,
                    style: ink(state.theme.status.warning),
                },
            ],
        ],
        phase_of(state) == StatusPhase::AwaitingUser,
{
}

/// Under the head of the strip stands one row per activity, in order, the selected one
/// in the primary color and the others muted.
pub proof fn activities_have_their_rows(
    state: AppState,
    wait: Option<WaitView>,
    rows: Seq<ActivityRow>,
    now_ms: u64,
    width: int,
    i: int,
)
    requires
        state.overlay is None,
        0 <= i < rows.len(),
    ensures
        ({
            let shown = strip(state, wait, rows, now_ms, width);
            &&& shown.len() == 1 + rows.len()
            &&& shown[1 + i] == seq![
                SpanV {
                    content: cut_to(rows[i].text@, width),
                    style: ink(
                        if rows[i].selected {
                            state.theme.text.primary
                        } else {
                            state.theme.text.muted
                        },
                    ),
                },
            ]
        }),
{
}

/// An idle strip tells the activity behind an ellipsis, or nothing.
pub proof fn idle_strip_is_quiet(
    state: AppState,
    wait: Option<WaitView>,
    rows: Seq<ActivityRow>,
    now_ms: u64,
    width: int,
)
    requires
        state.overlay is None,
        state.status != RuntimeStatus::Busy,
    ensures
        state.activity is None ==> strip(state, wait, rows, now_ms, width)[0].len() == 0,
        state.activity matches Some(a) ==> strip(state, wait, rows, now_ms, width)[0] == seq![
            SpanV { content: "… "@ + a@, style: ink(state.theme.text.secondary) },
        ],
        phase_of(state) == StatusPhase::Idle,
{
}

/// A wait on something outside owns the strip's head, behind its own sign and without a
/// clock.
pub proof fn outside_wait_owns_the_head(
    state: AppState,
    view: WaitView,
    rows: Seq<ActivityRow>,
    now_ms: u64,
    width: int,
)
    requires
        state.overlay is None,
        state.status == RuntimeStatus::Busy,
        view.kind == WaitKind::Target,
    ensures
        ({
            let said = "◌ "@ + (if state.goal_mode_active {
                text_of(state.locale).goal_mode@ + " · "@
            } else {
                ""@
            }) + view.headline@;
            let row = strip(state, Some(view), rows, now_ms, width)[0];
            &&& row.len() == 2
            &&& row[0] == (SpanV { content: "◌"@, style: ink(state.theme.accent.primary) })
            &&& row[1].style == ink(state.theme.text.secondary)
            &&& width > 0 && unicode_str_width(said) <= width ==> row[0].content + row[1].content
                == said
        }),
{
    reveal_strlit("◌ ");
    reveal_strlit("◌");
    let said = "◌ "@ + (if state.goal_mode_active {
        text_of(state.locale).goal_mode@ + " · "@
    } else {
        ""@
    }) + view.headline@;
    assert(said.subrange(0, 1) =~= "◌"@);
    assert("◌"@ + said.skip(1) =~= said);
}

/// The frames of the spinner follow one another and begin again after the tenth.
pub proof fn spinner_turns()
    ensures
        spinner(0) == "⠋"@,
        spinner(1) == "⠙"@,
        spinner(2) == "⠹"@,
        spinner(3) == "⠸"@,
        spinner(4) == "⠼"@,
        spinner(5) == "⠴"@,
        spinner(6) == "⠦"@,
        spinner(7) == "⠧"@,
        spinner(8) == "⠇"@,
        spinner(9) == "⠏"@,
{
}

// ---------------------------------------------------------------- the footer

/// The context is told as what is used of what there is; what is used is the larger of
/// the two counts that are known. Without either there is no such chip.
pub proof fn context_tells_used_of_all(
    state: AppState,
    w: (Seq<char>, Seq<char>, Seq<char>),
    used: nat,
)
    requires
        used == (if state.context_tokens >= state.token_input {
            state.context_tokens
        } else {
            state.token_input
        }),
        text_of(state.locale).footer_context@ == w.0 + "{}"@ + (w.1 + "{}"@ + w.2),
        !w.0.contains('{'),
        !(w.0 + compact_count(used) + w.1).contains('{'),
    ensures
        context_chip(state) == (if state.context_window_tokens == 0 || used == 0 {
            None
        } else {
            Some(
                w.0 + compact_count(used) + w.1 + compact_count(
                    state.context_window_tokens as nat,
                ) + w.2,
            )
        }),
{
    reveal_strlit("{}");
    let u = compact_count(used);
    first_gap_is_filled(w.0, "{}"@, w.1 + "{}"@ + w.2, u);
    assert(w.0 + u + (w.1 + "{}"@ + w.2) =~= (w.0 + u + w.1) + "{}"@ + w.2);
    first_gap_is_filled(
        w.0 + u + w.1,
        "{}"@,
        w.2,
        compact_count(state.context_window_tokens as nat),
    );
}

/// The cache is told as the share of what was sent, in whole percent and never above a
/// hundred; not at all where nothing was sent or cached.
pub proof fn cache_tells_its_share(state: AppState, head: Seq<char>, tail: Seq<char>, pct: nat)
    requires
        text_of(state.locale).footer_cache@ == head + "{}"@ + tail,
        !head.contains('{') && !tail.contains('{'),
    ensures
        state.token_input == 0 || state.token_cached == 0 ==> cache_chip(state) is None,
        state.token_input > 0 && 0 < state.token_cached <= state.token_input && pct
            * state.token_input <= 100 * state.token_cached < (pct + 1) * state.token_input
            ==> cache_chip(state) == Some(head + decimal(pct) + tail),
        state.token_input > 0 && state.token_cached > state.token_input ==> cache_chip(state)
            == Some(head + decimal(100) + tail),
{
    reveal_strlit("{}");
    absent(tail, "{}"@);
    if state.token_input > 0 && state.token_cached > 0 {
        let c = state.token_cached as nat * 100;
        let n = state.token_input as nat;
        let q = c / n;
        if pct * n <= c && c < (pct + 1) * n {
            assert(c - pct * n < n && c == pct * n + (c - pct * n)) by (nonlinear_arith)
                requires
                    c < (pct + 1) * n,
            ;
            vstd::arithmetic::div_mod::lemma_fundamental_div_mod_converse(
                c as int,
                n as int,
                pct as int,
                c - pct * n,
            );
            assert(q == pct);
        }
        if state.token_cached <= state.token_input {
            assert(q <= 100) by (nonlinear_arith)
                requires
                    q == c / n,
                    c <= 100 * n,
                    n > 0,
            ;
        } else {
            assert(q >= 100) by (nonlinear_arith)
                requires
                    q == c / n,
                    c >= 100 * n,
                    n > 0,
            ;
        }
        only_gap_is_filled(head, "{}"@, tail, decimal(pct));
        only_gap_is_filled(head, "{}"@, tail, decimal(100));
    }
}

/// The context stands before the cache, each of them alone where the other is missing.
pub proof fn context_stands_before_the_cache(state: AppState)
    ensures
        context_chip(state) is Some && cache_chip(state) is Some ==> usage_line(state) == Some(
            context_chip(state)->0 + " · "@ + cache_chip(state)->0,
        ),
        context_chip(state) is Some && cache_chip(state) is None ==> usage_line(state)
            == context_chip(state),
        context_chip(state) is None ==> usage_line(state) == cache_chip(state),
{
}

/// The permission in force has its word: what asks, what is free, and anything else as
/// automatic.
pub proof fn permissions_have_their_words(mode: Seq<char>)
    ensures
        permission_label("RequestApproval"@) == "ask"@,
        permission_label("FullAccess"@) == "full"@,
        mode != "RequestApproval"@ && mode != "FullAccess"@ ==> permission_label(mode) == "auto"@,
{
    reveal_strlit("RequestApproval");
    reveal_strlit("FullAccess");
    assert("RequestApproval"@.len() == 15 && "FullAccess"@.len() == 10);
}

/// The border chip tells, in this order, the model with its effort, the work profile,
/// the permission, the collaboration and, where the repository's own config is ignored,
/// that it is.
pub proof fn border_tells_its_facts_in_order(state: AppState)
    ensures
        ({
            let parts = border_parts(state);
            &&& parts.len() == (if state.untrusted_config@.len() == 0 {
                3int
            } else {
                4
            })
            &&& parts[0] == state.work_profile@
            &&& parts[1] == permission_label(state.mode_label@)
            &&& parts[2] == state.collaboration@
            &&& state.untrusted_config@.len() > 0 ==> parts[3] == text_of(
                state.locale,
            ).untrusted_config_chip@
        }),
{
}

/// Where all of it fits the chip is the model, with its effort in brackets, and every
/// part, with dots between them.
pub proof fn wide_border_shows_everything(state: AppState, width: int)
    requires
        state.model_label@.len() > 0,
        friendly_model(state.model_label@, state.available_models@).len() > 0,
    ensures
        ({
            let model = friendly_model(state.model_label@, state.available_models@);
            let head = if state.reasoning_effort is Some && trimmed(
                state.reasoning_effort->0@,
            ).len() > 0 {
                model + " ("@ + trimmed(state.reasoning_effort->0@) + ")"@
            } else {
                model
            };
            let whole = joined(seq![head] + border_parts(state), " · "@);
            unicode_str_width(whole) <= width ==> border_chip(state, width) == whole
        }),
{
    let parts = border_parts(state);
    assert(parts.take(parts.len() as int) =~= parts);
}

/// A model goes by its own name where no other provider has one of that name, and by
/// its full name otherwise.
pub proof fn ambiguous_models_keep_their_provider(raw: Seq<char>, models: Seq<ModelRef>)
    ensures
        crate::protocol::model_ref(raw) is None ==> friendly_model(raw, models) == raw,
        crate::protocol::model_ref(raw) matches Some((provider, model)) ==> {
            &&& named_so(models, model, models.len() as int) > 1 ==> friendly_model(raw, models)
                == raw
            &&& named_so(models, model, models.len() as int) <= 1 ==> friendly_model(raw, models)
                == model
        },
{
}

// ---------------------------------------------------------------- the header

/// The header tells the branch and where the repository is; in a narrow one the place
/// goes first, then the sign, and the branch never.
pub proof fn branch_stays_longest(branch: Seq<char>, repo: Seq<char>, width: int)
    ensures
        unicode_str_width("⑂ "@ + branch + " · "@ + repo) <= width ==> header_text(
            branch,
            repo,
            width,
        ) == "⑂ "@ + branch + " · "@ + repo,
        unicode_str_width("⑂ "@ + branch + " · "@ + repo) > width && unicode_str_width(
            "⑂ "@ + branch,
        ) <= width ==> header_text(branch, repo, width) == "⑂ "@ + branch,
        unicode_str_width("⑂ "@ + branch + " · "@ + repo) > width && unicode_str_width(
            "⑂ "@ + branch,
        ) > width ==> header_text(branch, repo, width) == branch,
{
}

/// A repository under the home directory is told from a tilde on, another by its whole
/// path, and none by a dash.
pub proof fn home_is_a_tilde(home: Seq<char>, rest: Seq<char>, repo: Seq<char>)
    ensures
        (home + rest).len() > 0 ==> collapsed_repo(home + rest, Some(home)) == "~"@ + rest,
        repo.len() > 0 ==> collapsed_repo(repo, None) == repo,
        repo.len() == 0 ==> collapsed_repo(repo, Some(home)) == "—"@,
        repo.len() > 0 && repo.len() < home.len() ==> collapsed_repo(repo, Some(home)) == repo,
{
    let s = home + rest;
    assert(s.subrange(0, home.len() as int) =~= home);
    assert(s.skip(home.len() as int) =~= rest);
}

proof fn models_ignore_what_follows(models: Seq<ModelRef>, m: ModelRef, name: Seq<char>, n: int)
    requires
        n <= models.len(),
    ensures
        named_so(models.push(m), name, n) == named_so(models, name, n),
    decreases n,
{
    if n > 0 {
        models_ignore_what_follows(models, m, name, n - 1);
        assert(models.push(m)[n - 1] == models[n - 1]);
    }
}

/// Every model of a name counts as one of that name.
pub proof fn models_of_a_name_are_counted(models: Seq<ModelRef>, m: ModelRef, name: Seq<char>)
    ensures
        named_so(Seq::empty(), name, 0) == 0,
        named_so(models.push(m), name, models.len() as int + 1) == named_so(
            models,
            name,
            models.len() as int,
        ) + (if m.model@ == name {
            1nat
        } else {
            0
        }),
{
    models_ignore_what_follows(models, m, name, models.len() as int);
    assert(models.push(m)[models.len() as int] == m);
}

proof fn fronts_fit(s: Seq<char>, i: int, limit: int)
    requires
        0 <= i <= s.len(),
    ensures
        i <= first_over(s, i, limit) <= s.len(),
        forall|j: int|
            i < j <= first_over(s, i, limit) ==> unicode_str_width(#[trigger] s.take(j)) <= limit,
        first_over(s, i, limit) < s.len() ==> unicode_str_width(
            s.take(first_over(s, i, limit) + 1),
        ) > limit,
    decreases s.len() - i,
{
    if i < s.len() && unicode_str_width(s.take(i + 1)) <= limit {
        fronts_fit(s, i + 1, limit);
        assert forall|j: int| i < j <= first_over(s, i, limit) implies unicode_str_width(
            #[trigger] s.take(j),
        ) <= limit by {
            if j > i + 1 {
                assert(i + 1 < j);
            }
        }
    }
}

/// A text that fits is shown whole; a longer one is cut where its front no longer leaves
/// a column for the ellipsis. Without a column nothing is shown.
pub proof fn long_text_is_cut_at_its_end(s: Seq<char>, width: int)
    requires
        width >= 0,
    ensures
        ({
            let cut = cut_to(s, width);
            let k = cut.len() - 1;
            &&& width == 0 ==> cut.len() == 0
            &&& width > 0 && unicode_str_width(s) <= width ==> cut == s
            &&& width > 0 && cut != s ==> {
                &&& 0 <= k < s.len()
                &&& cut == s.take(k).push('…')
                &&& forall|j: int|
                    0 < j <= k ==> unicode_str_width(#[trigger] s.take(j)) <= width - 1
                &&& unicode_str_width(s.take(k + 1)) > width - 1
            }
        }),
{
    fronts_fit(s, 0, width - 1);
}

proof fn chip_keeps_its_front(head: Seq<char>, parts: Seq<Seq<char>>, n: int, width: int, m: int)
    requires
        0 <= m <= n <= parts.len(),
        unicode_str_width(chip_of(head, parts.take(m))) <= width,
        forall|k: int|
            m < k <= n ==> unicode_str_width(chip_of(head, #[trigger] parts.take(k))) > width,
    ensures
        fitting_chip(head, parts, n, width) == Some(chip_of(head, parts.take(m))),
    decreases n,
{
    if m < n {
        assert(unicode_str_width(chip_of(head, parts.take(n))) > width);
        chip_keeps_its_front(head, parts, n - 1, width, m);
    }
}

/// A border too narrow for every part drops them from the end, one by one, as long as the
/// rest does not fit.
pub proof fn narrow_border_drops_its_last_parts(state: AppState, width: int, m: int)
    requires
        0 <= m <= border_parts(state).len(),
    ensures
        ({
            let model = friendly_model(state.model_label@, state.available_models@);
            let head = match effort_of(state) {
                Some(e) => model + " ("@ + e + ")"@,
                None => model,
            };
            let parts = border_parts(state);
            let fits = unicode_str_width(chip_of(head, parts.take(m))) <= width;
            let more = forall|k: int|
                m < k <= parts.len() ==> unicode_str_width(chip_of(head, #[trigger] parts.take(k)))
                    > width;
            fits && more ==> border_chip(state, width) == chip_of(head, parts.take(m))
        }),
{
    let model = friendly_model(state.model_label@, state.available_models@);
    let head = match effort_of(state) {
        Some(e) => model + " ("@ + e + ")"@,
        None => model,
    };
    let parts = border_parts(state);
    if unicode_str_width(chip_of(head, parts.take(m))) <= width && (forall|k: int|
        m < k <= parts.len() ==> unicode_str_width(chip_of(head, #[trigger] parts.take(k)))
            > width) {
        chip_keeps_its_front(head, parts, parts.len() as int, width, m);
    }
}

proof fn wide_ignores_what_follows(s: Seq<char>, c: char, n: int)
    requires
        n <= s.len(),
    ensures
        wide_count(s.push(c), n) == wide_count(s, n),
    decreases n,
{
    if n > 0 {
        wide_ignores_what_follows(s, c, n - 1);
        assert(s.push(c)[n - 1] == s[n - 1]);
    }
}

/// A character counts as wide from the radicals on, U+2E80 itself with them.
pub proof fn wide_characters_are_counted(s: Seq<char>, c: char)
    ensures
        c as u32 >= 0x2E80 ==> wide_count(s.push(c), s.len() as int + 1) == wide_count(
            s,
            s.len() as int,
        ) + 1,
        !(c as u32 >= 0x2E80) ==> wide_count(s.push(c), s.len() as int + 1) == wide_count(
            s,
            s.len() as int,
        ),
{
    wide_ignores_what_follows(s, c, s.len() as int);
    assert(s.push(c)[s.len() as int] == c);
}

} // verus!
