//! What the pages of a command, a job and a child promise.

use vstd::prelude::*;

use crate::i18n::{Locale, UiText};
use crate::laws::{absent, ink, only_gap_is_filled, strong};
use crate::model::SpanV;
use crate::protocol::ChildStop;
use crate::render::detail::{
    activity_end, activity_page, activity_style, activity_word, block_from, child_from, child_of,
    child_page, chrome_of, current_text, follow_chip, goal_text, job_page, job_row, metadata_parts,
    process_body, result_text, selected_line, selected_upto, shell_fields, shell_page,
    shell_seconds, shell_status, stop_offered, ActivityStatus, ActivitySummary, BackgroundJobList,
};
use crate::render::sub_agents::{detail_text, stop_word};
use crate::render::text::{padded, sanitized_from};
use crate::state::{ActivityId, AppState, BackgroundTaskChrome, ChildAgentView};
use crate::status_line::{elapsed, grouped};
use crate::strings::{decimal, signed_decimal, text_lines, trimmed};
use crate::theme::Theme;
use crate::tool_cell::summary_of;
use crate::tool_taxonomy::label_of;
use crate::transcript::{SubAgentBlock, TranscriptItem, UserShellBlock, UserShellStatus};

verus! {

/// The states of a command have each their word and color.
pub proof fn shell_states_have_their_words(theme: Theme, t: UiText)
    ensures
        shell_status(UserShellStatus::Running, theme, t) == (
            t.shell_status_running@,
            ink(theme.accent.primary),
        ),
        shell_status(UserShellStatus::Success, theme, t) == (
            t.shell_status_success@,
            ink(theme.status.success),
        ),
        shell_status(UserShellStatus::Failed, theme, t) == (
            t.shell_status_failed@,
            ink(theme.status.warning),
        ),
        shell_status(UserShellStatus::Cancelled, theme, t) == (
            t.shell_status_cancelled@,
            ink(theme.text.muted),
        ),
        shell_status(UserShellStatus::Unknown, theme, t) == (
            t.shell_status_unknown@,
            ink(theme.status.warning),
        ),
{
}

/// A command that ended tells the whole seconds it took, one that runs those since it
/// began.
pub proof fn shell_clock_stops_at_the_end(shell: UserShellBlock, now: u64, secs: nat, ms: nat)
    requires
        ms < 1000,
    ensures
        shell.duration_ms is Some && shell.duration_ms->0 == secs * 1000 + ms ==> shell_seconds(
            shell,
            now,
        ) == secs,
        shell.duration_ms is None && now >= shell.started_elapsed_secs ==> shell_seconds(shell, now)
            == now - shell.started_elapsed_secs,
        shell.duration_ms is None && now < shell.started_elapsed_secs ==> shell_seconds(shell, now)
            == 0,
{
    assert((secs * 1000 + ms) / 1000 == secs);
}

/// The fields of a command stand in this order: its state, its time, where it came from,
/// where it ran, what was run and, once it ended, its exit code, which is green for zero
/// alone.
pub proof fn shell_fields_stand_in_order(
    shell: UserShellBlock,
    now: u64,
    width: int,
    theme: Theme,
    t: UiText,
)
    ensures
        ({
            let rows = shell_fields(shell, now, width, theme, t);
            let label = ink(theme.text.muted);
            &&& rows.len() == (if shell.exit_code is Some {
                6int
            } else {
                5
            })
            &&& forall|i: int| 0 <= i < rows.len() ==> (#[trigger] rows[i]).len() == 2
            &&& rows[0][1].content == shell_status(shell.status, theme, t).0
            &&& rows[0][1].style == shell_status(shell.status, theme, t).1
            &&& rows[1][1].content == elapsed(shell_seconds(shell, now))
            &&& rows[2][1].content == t.shell_source_user@
            &&& rows[0][0].content == padded(t.shell_status_label@, 12)
            &&& rows[1][0].content == padded(t.shell_runtime_label@, 12)
            &&& rows[3][0].content == padded(t.shell_cwd_label@, 12)
            &&& rows[4][0].content == padded(t.shell_command_label@, 12)
            &&& (shell.exit_code matches Some(code) ==> rows[5][0].content == padded(
                t.shell_exit_label@,
                12,
            ) && rows[5][1].content == signed_decimal(code as int) && rows[5][1].style == ink(
                if code == 0 {
                    theme.status.success
                } else {
                    theme.status.warning
                },
            ))
        }),
{
}

/// What a command said is shown line by line in full; a command that said nothing says
/// so, and where its output was cut that stands above it.
pub proof fn shell_output_is_shown(
    shell: UserShellBlock,
    now: u64,
    width: int,
    theme: Theme,
    t: UiText,
    i: int,
)
    ensures
        ({
            let rows = shell_page(shell, now, width, theme, t);
            let head = shell_fields(shell, now, width, theme, t).len() + 2;
            let cut: int = if shell.output_truncated {
                1
            } else {
                0
            };
            let said = text_lines(shell.output@);
            let quiet = trimmed(shell.output@).len() == 0;
            &&& rows[head - 1] == seq![
                SpanV { content: t.shell_output_label@, style: strong(theme.text.secondary) },
            ]
            &&& quiet ==> rows.len() == head + cut + 1
            &&& !quiet ==> rows.len() == head + cut + said.len()
            &&& !quiet && 0 <= i < said.len() ==> rows[head + cut + i]
                == crate::render::detail::body_row(
                sanitized_from(said[i], 0, 0),
                ink(theme.text.secondary),
                width,
            )
        }),
{
}

/// The states of an activity have each their word; a child that stopped at a bound is
/// incomplete, not failed.
pub proof fn activity_states_have_their_words(state: AppState, id: ActivityId, t: UiText)
    ensures
        activity_word(state, id, ActivityStatus::Running, t) == t.wait_target_running@,
        activity_word(state, id, ActivityStatus::Waiting, t) == t.sub_agent_waiting@,
        activity_word(state, id, ActivityStatus::Completed, t) == t.title_completed@,
        activity_word(state, id, ActivityStatus::Stopped, t) == t.background_status_stopped@,
        activity_word(state, id, ActivityStatus::Interrupted, t) == t.sub_agent_interrupted@,
        activity_word(state, id, ActivityStatus::Unreported, t) == t.sub_agent_unreported@,
        id is Background ==> activity_word(state, id, ActivityStatus::Failed, t)
            == t.title_failed@,
        (id matches ActivityId::Child(c) ==> (child_of(state, c@) matches Some(child) ==> {
            let bound = child.stop == Some(ChildStop::Incomplete) || child.stop == Some(
                ChildStop::Budget,
            ) || child.stop == Some(ChildStop::Cancelled) || child.stop == Some(ChildStop::Lost);
            &&& bound ==> activity_word(state, id, ActivityStatus::Failed, t)
                == t.sub_agent_incomplete@
            &&& !bound ==> activity_word(state, id, ActivityStatus::Failed, t) == t.title_failed@
        })),
{
}

/// The states of an activity have each their color.
pub proof fn activity_states_have_their_colors(theme: Theme)
    ensures
        activity_style(ActivityStatus::Running, theme) == ink(theme.accent.primary),
        activity_style(ActivityStatus::Waiting, theme) == ink(theme.accent.primary),
        activity_style(ActivityStatus::Completed, theme) == ink(theme.status.success),
        activity_style(ActivityStatus::Failed, theme) == ink(theme.status.error),
        activity_style(ActivityStatus::Stopped, theme) == ink(theme.text.secondary),
        activity_style(ActivityStatus::Interrupted, theme) == ink(theme.status.warning),
        activity_style(ActivityStatus::Unreported, theme) == ink(theme.status.warning),
{
}

/// A job that ended tells its exit code, a child that was stopped by what.
pub proof fn activity_tells_how_it_ended(state: AppState, id: ActivityId, t: UiText)
    ensures
        (id matches ActivityId::Background(task) ==> (chrome_of(state, task@) matches Some(chrome)
            ==> {
            &&& (chrome.exit_code matches Some(code) ==> activity_end(state, id, t) == " · exit "@
                + signed_decimal(code as int))
            &&& chrome.exit_code is None ==> activity_end(state, id, t).len() == 0
        })),
        (id matches ActivityId::Child(c) ==> (child_of(state, c@) matches Some(child) ==> {
            &&& (stop_word(child.stop, child.limit, t) matches Some(why) ==> activity_end(
                state,
                id,
                t,
            ) == " · "@ + why)
            &&& stop_word(child.stop, child.limit, t) is None ==> activity_end(state, id, t).len()
                == 0
        })),
{
}

proof fn found_child_is_first(children: Seq<ChildAgentView>, id: Seq<char>, from: int, k: int)
    requires
        0 <= from <= k < children.len(),
        children[k].id@ == id,
        forall|m: int| from <= m < k ==> (#[trigger] children[m]).id@ != id,
    ensures
        child_from(children, id, from) == Some(children[k]),
    decreases k - from,
{
    if from < k {
        found_child_is_first(children, id, from + 1, k);
    }
}

/// A child is found by its id, the first that has it.
pub proof fn children_are_found_by_id(state: AppState, k: int)
    requires
        0 <= k < state.children@.len(),
        forall|m: int|
            0 <= m < k ==> (#[trigger] state.children@[m]).id@ != state.children@[k].id@,
    ensures
        child_of(state, state.children@[k].id@) == Some(state.children@[k]),
{
    found_child_is_first(state.children@, state.children@[k].id@, 0, k);
}

/// A job's row has its mark only where it is selected, its sign in the color of its
/// state, its title and the time it took.
pub proof fn job_row_tells_its_time(
    summary: ActivitySummary,
    selected: bool,
    width: int,
    theme: Theme,
)
    ensures
        ({
            let row = job_row(summary, selected, width, theme);
            &&& row.len() == 4
            &&& row[0].content == "  "@ + (if selected {
                "→ "@
            } else {
                "  "@
            }) + summary.glyph@ + " "@
            &&& summary.status == ActivityStatus::Stopped ==> row[0].style == ink(theme.text.muted)
            &&& summary.status == ActivityStatus::Failed ==> row[0].style == ink(
                theme.status.error,
            )
            &&& summary.status == ActivityStatus::Completed ==> row[0].style == ink(
                theme.status.success,
            )
            &&& summary.status == ActivityStatus::Running ==> row[0].style == ink(
                theme.accent.primary,
            )
            &&& row[1].style == ink(
                if selected {
                    theme.text.primary
                } else {
                    theme.text.secondary
                },
            )
            &&& row[3] == (SpanV {
                content: elapsed(summary.duration_secs as nat),
                style: ink(theme.text.muted),
            })
        }),
{
}

/// The jobs that run stand above those that finished, each part behind its title and its
/// count; a job is marked where its id is the one selected.
pub proof fn running_jobs_stand_first(
    list: BackgroundJobList,
    selected: Option<Seq<char>>,
    width: int,
    theme: Theme,
    t: UiText,
    i: int,
)
    requires
        list.running@.len() > 0,
        list.finished@.len() > 0,
    ensures
        ({
            let rows = job_page(list, selected, width, theme, t);
            let r = list.running@.len() as int;
            let f = list.finished@.len() as int;
            &&& rows.len() == r + f + 3
            &&& rows[0] == seq![
                SpanV {
                    content: t.background_list_running@ + " · "@ + decimal(r as nat),
                    style: strong(theme.text.secondary),
                },
            ]
            &&& rows[r + 1].len() == 0
            &&& rows[r + 2] == seq![
                SpanV {
                    content: t.background_list_finished@ + " · "@ + decimal(f as nat),
                    style: strong(theme.text.secondary),
                },
            ]
            &&& 0 <= i < r ==> rows[1 + i] == job_row(
                list.running@[i],
                selected == Some(
                    match list.running@[i].id {
                        ActivityId::Background(s) => s@,
                        ActivityId::Child(s) => s@,
                    },
                ),
                width,
                theme,
            )
            &&& 0 <= i < f ==> rows[r + 3 + i] == job_row(
                list.finished@[i],
                selected == Some(
                    match list.finished@[i].id {
                        ActivityId::Background(s) => s@,
                        ActivityId::Child(s) => s@,
                    },
                ),
                width,
                theme,
            )
        }),
{
}

/// Without a job of a kind, the kind has no title; without any, the page says so.
pub proof fn empty_parts_have_no_title(
    list: BackgroundJobList,
    selected: Option<Seq<char>>,
    width: int,
    theme: Theme,
    t: UiText,
)
    ensures
        ({
            let rows = job_page(list, selected, width, theme, t);
            let r = list.running@.len() as int;
            let f = list.finished@.len() as int;
            &&& r == 0 && f == 0 ==> rows == seq![
                seq![SpanV { content: t.background_list_empty@, style: ink(theme.text.muted) }],
            ]
            &&& r > 0 && f == 0 ==> rows.len() == r + 1
            &&& r == 0 && f > 0 ==> rows.len() == f + 2 && rows[1][0].content
                == t.background_list_finished@ + " · "@ + decimal(f as nat)
        }),
{
}

proof fn selection_is_found(
    list: Seq<ActivitySummary>,
    selected: Option<Seq<char>>,
    n: int,
    k: int,
)
    requires
        0 <= k < n <= list.len(),
        selected == Some(crate::render::detail::id_text(list[k].id)),
        forall|m: int|
            k < m < n ==> selected != Some(
                crate::render::detail::id_text((#[trigger] list[m]).id),
            ),
    ensures
        selected_upto(list, selected, n) == Some(k),
    decreases n,
{
    if k < n - 1 {
        selection_is_found(list, selected, n - 1, k);
    }
}

/// The line of the selection is the line that its job stands on.
pub proof fn selected_line_is_the_jobs_row(
    list: BackgroundJobList,
    id: Seq<char>,
    k: int,
)
    requires
        list.running@.len() > 0,
        0 <= k < list.finished@.len(),
        crate::render::detail::id_text(list.finished@[k].id) == id,
        forall|m: int|
            k < m < list.finished@.len() ==> crate::render::detail::id_text(
                (#[trigger] list.finished@[m]).id,
            ) != id,
    ensures
        selected_line(list, Some(id)) == Some(list.running@.len() + 3 + k),
{
    selection_is_found(list.finished@, Some(id), list.finished@.len() as int, k);
}

/// Only what runs can be stopped: a child that runs or waits, a job without a result.
pub proof fn only_running_work_offers_a_stop(
    state: AppState,
    id: ActivityId,
    status: ActivityStatus,
)
    ensures
        !(status is Running || status is Waiting) ==> !stop_offered(state, id, status),
        id is Child && (status is Running || status is Waiting) ==> stop_offered(state, id, status),
        (id matches ActivityId::Background(task) ==> (chrome_of(state, task@) matches Some(chrome)
            ==> (chrome.ok is Some ==> !stop_offered(state, id, status)))),
{
}

/// A page that follows its output says so; a paused one tells how many lines came since.
pub proof fn paused_page_counts_new_lines(state: AppState, t: UiText, head: Seq<char>, tail: Seq<char>)
    requires
        t.activity_new_lines@ == head + "{}"@ + tail,
        !head.contains('{'),
        !tail.contains('{'),
    ensures
        state.activity_view.follow ==> follow_chip(state, t) == t.activity_follow_on@,
        !state.activity_view.follow && state.activity_view.unread == 0 ==> follow_chip(state, t)
            == t.activity_follow_paused@,
        !state.activity_view.follow && state.activity_view.unread > 0 ==> follow_chip(state, t)
            == t.activity_follow_paused@ + " · "@ + (head + decimal(
            state.activity_view.unread as nat,
        ) + tail),
{
    reveal_strlit("{}");
    absent(tail, "{}"@);
    only_gap_is_filled(head, "{}"@, tail, decimal(state.activity_view.unread as nat));
}

/// A child's facts stand in this order: its profile where it has no name of its own, that
/// it only reads, and what it sent behind an arrow up and received behind an arrow down.
pub proof fn child_facts_stand_in_order(child: ChildAgentView, t: UiText, sent: nat, received: nat)
    requires
        sent == child.input_tokens,
        received == child.output_tokens,
    ensures
        ({
            let parts = metadata_parts(child, t);
            let profile: int = if child.agent_name is None && child.profile_id is Some && trimmed(
                child.profile_id->0@,
            ).len() > 0 {
                1
            } else {
                0
            };
            let reads: int = if child.read_only {
                1
            } else {
                0
            };
            let used: int = if sent > 0 || received > 0 {
                1
            } else {
                0
            };
            &&& parts.len() == profile + reads + used
            &&& profile == 1 ==> parts[0] == child.profile_id->0@
            &&& reads == 1 ==> parts[profile] == t.inspector_read_only@
            &&& used == 1 ==> parts[profile + reads] == "↑ "@ + grouped(sent) + " · ↓ "@ + grouped(
                received,
            )
        }),
{
}

/// What a child is doing is its last call, told by its action and target; without a call
/// its last step.
pub proof fn child_is_told_by_its_last_call(
    child: ChildAgentView,
    locale: Locale,
    t: UiText,
    home: Option<Seq<char>>,
)
    ensures
        child.activity@.len() > 0 ==> ({
            let call = child.activity@[child.activity@.len() - 1];
            let action = label_of(call.tool@, locale);
            let target = summary_of(call.tool@, call.arguments@, t.tool_in@, home);
            &&& target.len() == 0 ==> current_text(child, locale, t, home) == Some(action)
            &&& target.len() > 0 ==> current_text(child, locale, t, home) == Some(
                action + " "@ + target,
            )
        }),
        child.activity@.len() == 0 && child.recent_step is None ==> current_text(
            child,
            locale,
            t,
            home,
        ) is None,
        child.activity@.len() == 0 && child.recent_step is Some && trimmed(
            child.recent_step->0@,
        ).len() > 0 ==> current_text(child, locale, t, home) == Some(child.recent_step->0@),
{
}

/// A child's goal is its title, or else its purpose.
pub proof fn goal_is_the_title_first(child: ChildAgentView)
    ensures
        child.title is Some && trimmed(child.title->0@).len() > 0 ==> goal_text(child) == Some(
            child.title->0@,
        ),
        child.title is None && trimmed(child.purpose@).len() > 0 ==> goal_text(child) == Some(
            child.purpose@,
        ),
        child.title is None && trimmed(child.purpose@).len() == 0 ==> goal_text(child) is None,
{
    assert(trimmed(Seq::<char>::empty()).len() == 0);
}

/// A page is its title in bold, its sign with the state in words and the time in the
/// state's color, and below that what it is about.
pub proof fn page_leads_with_its_state(
    state: AppState,
    id: ActivityId,
    summary: ActivitySummary,
    width: int,
    theme: Theme,
    t: UiText,
    home: Option<Seq<char>>,
    steps: Seq<Seq<SpanV>>,
)
    ensures
        ({
            let rows = activity_page(state, id, summary, width, theme, t, home, steps);
            &&& rows[0][0].style == strong(theme.text.primary)
            &&& rows[1] == seq![
                SpanV {
                    content: summary.glyph@ + " "@ + (activity_word(state, id, summary.status, t)
                        + activity_end(state, id, t)) + " · "@ + elapsed(
                        summary.duration_secs as nat,
                    ),
                    style: activity_style(summary.status, theme),
                },
            ]
        }),
{
}

/// A settled child shows its result, one that still works what it is doing.
pub proof fn result_stands_once_settled(
    state: AppState,
    id: Seq<char>,
    status: ActivityStatus,
    width: int,
    theme: Theme,
    t: UiText,
    home: Option<Seq<char>>,
    steps: Seq<Seq<SpanV>>,
    child: ChildAgentView,
)
    requires
        child_of(state, id) == Some(child),
        goal_text(child) is None,
        metadata_parts(child, t).len() == 0,
    ensures
        ({
            let rows = child_page(state, id, status, width, theme, t, home, steps);
            let works = status is Running || status is Waiting;
            &&& works && current_text(child, state.locale, t, home) is Some ==> rows[1][0].content
                == t.activity_current@
            &&& !works && result_text(state, child, t) is Some ==> rows[1][0].content
                == t.activity_result@
            &&& works && current_text(child, state.locale, t, home) is None ==> rows[1][0].content
                == t.activity_steps@
        }),
{
}

/// A job's page shows the command behind a dollar sign and under it what it said, line
/// by line.
pub proof fn job_output_is_shown(
    state: AppState,
    chrome: BackgroundTaskChrome,
    id: Seq<char>,
    title: Seq<char>,
    width: int,
    theme: Theme,
    t: UiText,
    i: int,
)
    requires
        chrome_of(state, id) == Some(chrome),
    ensures
        ({
            let rows = process_body(state, id, title, width, theme, t);
            let said = text_lines(chrome.output@);
            &&& rows[2] == crate::render::detail::body_row(
                "$ "@ + title,
                ink(theme.text.primary),
                width,
            )
            &&& trimmed(chrome.output@).len() == 0 ==> rows.len() == 6
            &&& trimmed(chrome.output@).len() > 0 ==> rows.len() == 5 + said.len()
            &&& trimmed(chrome.output@).len() > 0 && 0 <= i < said.len() ==> rows[5 + i]
                == crate::render::detail::body_row(
                sanitized_from(said[i], 0, 0),
                ink(theme.text.secondary),
                width,
            )
        }),
{
}

proof fn found_block_is_first(items: Seq<TranscriptItem>, id: Seq<char>, from: int, k: int, b: SubAgentBlock)
    requires
        0 <= from <= k < items.len(),
        items[k] == TranscriptItem::SubAgent(b),
        b.id@ == id,
        forall|m: int|
            from <= m < k ==> (#[trigger] items[m] matches TranscriptItem::SubAgent(o) ==> o.id@
                != id),
    ensures
        block_from(items, id, from) == Some(b),
    decreases k - from,
{
    if from < k {
        found_block_is_first(items, id, from + 1, k, b);
    }
}

/// A child's result is what its first row in the conversation says, or else what it
/// contributed.
pub proof fn result_is_what_the_child_said(
    state: AppState,
    child: ChildAgentView,
    t: UiText,
    k: int,
    b: SubAgentBlock,
)
    requires
        0 <= k < state.transcript.items@.len(),
        state.transcript.items@[k] == TranscriptItem::SubAgent(b),
        b.id@ == child.id@,
        forall|m: int|
            0 <= m < k ==> (#[trigger] state.transcript.items@[m] matches TranscriptItem::SubAgent(
                o,
            ) ==> o.id@ != child.id@),
    ensures
        ({
            let said = detail_text(trimmed(b.detail@), t);
            let own = trimmed(b.detail@).len() > 0;
            &&& own && trimmed(said).len() > 0 ==> result_text(state, child, t) == Some(said)
            &&& !own && child.contribution is Some && trimmed(child.contribution->0@).len() > 0
                ==> result_text(state, child, t) == Some(child.contribution->0@)
            &&& !own && child.contribution is None ==> result_text(state, child, t) is None
        }),
{
    found_block_is_first(state.transcript.items@, child.id@, 0, k, b);
    assert(trimmed(Seq::<char>::empty()).len() == 0);
}

} // verus!
