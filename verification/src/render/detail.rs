//! The pages of a command, a background process and a child agent.

use vstd::prelude::*;

use crate::i18n::{Locale, UiText};
use crate::line::{bold_style, fg_style, no_style, spanv, styled_line, Line, Span, Style};
use crate::model::{line_views, views, SpanV};
use crate::number::{room, room_of, minus, at_least, max_of};
use crate::protocol::ChildStop;
use crate::render::rows::line_if;
use crate::render::sub_agents::{child_stop_label, detail_text, or_empty, stop_word, sub_agent_detail};
use crate::render::text::{
    elide_head, head_elided, pad_display, padded, sanitize_terminal_line, sanitized_from,
    truncate_display, truncated, wrap, wrapped,
};
use crate::render::transcript_lines::seconds_between;
use crate::state::{
    keys_once, opt_text, ActivityId, AppState, BackgroundTaskChrome, ChildAgentView,
};
use crate::status_line::{elapsed, fmt_elapsed, fmt_tokens, grouped};
use crate::strings::{
    cat2, cat3, cat4, cat5, dec, dec_signed, dec_wide, decimal, join, joined, lines, repeat_char,
    repeated, replace, replaced, same, signed_decimal, text_lines, trim, trimmed, dec2,
};
use crate::theme::Theme;
use crate::tool_cell::{home_view, summary_of, tool_action_label_for, tool_summary_for};
use crate::tool_taxonomy::label_of;
use crate::transcript::{SubAgentBlock, TranscriptItem, UserShellBlock, UserShellStatus};
use crate::width::{str_width, unicode_str_width};

verus! {

broadcast use crate::model::group_views;

// ---------------------------------------------------------------- page rows

/// The indent of a section's body.
pub const DETAIL_BODY_INDENT: &'static str = "  ";

/// Columns available to a section body once the indent is spent.
pub open spec fn body_width(width: int) -> int {
    room(width, 2, 4)
}

/// A section title at the page gutter.
pub open spec fn section(title: Seq<char>, theme: Theme) -> Seq<SpanV> {
    styled_line(title, bold_style(theme.text.secondary))
}

pub fn section_line(title: &str, theme: &Theme) -> (r: Line)
    ensures
        r@ == section(title@, *theme),
{
    Line::of(Span::text(title, Style::bold(theme.text.secondary)))
}

/// A section body row: indented, and cut to the section's own width.
pub open spec fn body_row(value: Seq<char>, style: Style, width: int) -> Seq<SpanV> {
    styled_line(DETAIL_BODY_INDENT@ + truncated(value, body_width(width)), style)
}

pub fn detail_line(value: &str, style: Style, width: usize) -> (r: Line)
    ensures
        r@ == body_row(value@, style, width as int),
{
    let text = truncate_display(value, room_of(width, 2, 4));
    Line::of(Span::new(cat2(DETAIL_BODY_INDENT, text.as_str()), style))
}

/// Each line of an output as a body row.
pub open spec fn output_lines(output: Seq<char>, theme: Theme, width: int) -> Seq<Seq<SpanV>> {
    let rows = text_lines(output);
    Seq::new(
        rows.len(),
        |i: int| body_row(sanitized_from(rows[i], 0, 0), fg_style(theme.text.secondary), width),
    )
}

fn push_output_lines(out: &mut Vec<Line>, output: &str, theme: &Theme, width: usize)
    ensures
        line_views(final(out)@) == line_views(old(out)@) + output_lines(
            output@,
            *theme,
            width as int,
        ),
{
    let ghost base = line_views(out@);
    let ghost all = output_lines(output@, *theme, width as int);
    let rows = lines(output);
    let mut i: usize = 0;
    assert(base + all.take(0) =~= base);
    assert(views(rows@).len() == rows@.len());
    while i < rows.len()
        invariant
            views(rows@) == text_lines(output@),
            all == output_lines(output@, *theme, width as int),
            all.len() == rows@.len(),
            i <= rows@.len(),
            line_views(out@) == base + all.take(i as int),
        decreases rows@.len() - i,
    {
        assert(views(rows@)[i as int] == rows@[i as int]@);
        let row = sanitize_terminal_line(rows[i].as_str());
        out.push(detail_line(row.as_str(), Style::fg(theme.text.secondary), width));
        i += 1;
        assert(all.take(i as int) =~= all.take(i - 1).push(all[i - 1]));
        assert(line_views(out@) =~= base + all.take(i as int));
    }
    assert(all.take(i as int) =~= all);
}

// ---------------------------------------------------------------- a command of the user

/// The word and the style of a command's status.
pub open spec fn shell_status(status: UserShellStatus, theme: Theme, t: UiText) -> (Seq<char>, Style) {
    match status {
        UserShellStatus::Running => (t.shell_status_running@, fg_style(theme.accent.primary)),
        UserShellStatus::Success => (t.shell_status_success@, fg_style(theme.status.success)),
        UserShellStatus::Failed => (t.shell_status_failed@, fg_style(theme.status.warning)),
        UserShellStatus::Cancelled => (t.shell_status_cancelled@, fg_style(theme.text.muted)),
        UserShellStatus::Unknown => (t.shell_status_unknown@, fg_style(theme.status.warning)),
    }
}

fn shell_status_of(status: UserShellStatus, theme: &Theme, t: &UiText) -> (r: (&'static str, Style))
    ensures
        (r.0@, r.1) == shell_status(status, *theme, *t),
{
    match status {
        UserShellStatus::Running => (t.shell_status_running, Style::fg(theme.accent.primary)),
        UserShellStatus::Success => (t.shell_status_success, Style::fg(theme.status.success)),
        UserShellStatus::Failed => (t.shell_status_failed, Style::fg(theme.status.warning)),
        UserShellStatus::Cancelled => (t.shell_status_cancelled, Style::fg(theme.text.muted)),
        UserShellStatus::Unknown => (t.shell_status_unknown, Style::fg(theme.status.warning)),
    }
}

/// How long a command ran, or runs, in whole seconds.
pub open spec fn shell_seconds(shell: UserShellBlock, now: u64) -> nat {
    match shell.duration_ms {
        Some(ms) => (ms / 1000) as nat,
        None => seconds_between(shell.started_elapsed_secs, now),
    }
}

/// A duration of any length: `59s`, `2m 05s`.
fn fmt_long(secs: u128) -> (r: String)
    ensures
        r@ == elapsed(secs as nat),
{
    if secs >= 60 {
        cat4(dec_wide(secs / 60).as_str(), "m ", dec2((secs % 60) as u64).as_str(), "s")
    } else {
        cat2(dec_wide(secs).as_str(), "s")
    }
}

/// A field: its label in a column of its own, then its value.
pub open spec fn field(label: Seq<char>, value: Seq<char>, style: Style, theme: Theme) -> Seq<SpanV> {
    seq![spanv(padded(label, 12), fg_style(theme.text.muted)), spanv(value, style)]
}

fn field_line(label: &str, value: &str, style: Style, theme: &Theme) -> (r: Line)
    ensures
        r@ == field(label@, value@, style, *theme),
{
    Line::of2(
        Span::new(pad_display(label, 12), Style::fg(theme.text.muted)),
        Span::text(value, style),
    )
}

/// The fields of a command. A directory keeps its tail, which names it; a command
/// keeps its head, which is what it does.
pub open spec fn shell_fields(shell: UserShellBlock, now: u64, width: int, theme: Theme, t: UiText) -> Seq<Seq<SpanV>> {
    let plain = fg_style(theme.text.primary);
    let value_w = room(width, 13, 4);
    let (word, style) = shell_status(shell.status, theme, t);
    seq![
        field(t.shell_status_label@, word, style, theme),
        field(t.shell_runtime_label@, elapsed(shell_seconds(shell, now)), plain, theme),
        field(t.shell_source_label@, t.shell_source_user@, plain, theme),
        field(t.shell_cwd_label@, head_elided(shell.cwd@, value_w), plain, theme),
        field(t.shell_command_label@, truncated(shell.command@, value_w), plain, theme),
    ] + (match shell.exit_code {
        Some(code) => seq![
            field(
                t.shell_exit_label@,
                signed_decimal(code as int),
                fg_style(
                    if code == 0 {
                        theme.status.success
                    } else {
                        theme.status.warning
                    },
                ),
                theme,
            ),
        ],
        None => Seq::empty(),
    })
}

fn shell_field_lines(shell: &UserShellBlock, now: u64, width: usize, theme: &Theme, t: &UiText) -> (r: Vec<
    Line,
>)
    ensures
        line_views(r@) == shell_fields(*shell, now, width as int, *theme, *t),
{
    let plain = Style::fg(theme.text.primary);
    let (word, style) = shell_status_of(shell.status, theme, t);
    let secs: u128 = match shell.duration_ms {
        Some(ms) => (ms / 1000) as u128,
        None => {
            let gap: i128 = now as i128 - shell.started_elapsed_secs as i128;
            if gap > 0 {
                gap as u128
            } else {
                0
            }
        },
    };
    let value_w: usize = room_of(width, 13, 4);
    let mut out: Vec<Line> = Vec::new();
    out.push(field_line(t.shell_status_label, word, style, theme));
    out.push(field_line(t.shell_runtime_label, fmt_long(secs).as_str(), plain, theme));
    out.push(field_line(t.shell_source_label, t.shell_source_user, plain, theme));
    let cwd = elide_head(shell.cwd.as_str(), value_w);
    out.push(field_line(t.shell_cwd_label, cwd.as_str(), plain, theme));
    let command = truncate_display(shell.command.as_str(), value_w);
    out.push(field_line(t.shell_command_label, command.as_str(), plain, theme));
    match shell.exit_code {
        Some(code) => {
            let color = if code == 0 {
                theme.status.success
            } else {
                theme.status.warning
            };
            let text = dec_signed(code as i64);
            out.push(field_line(t.shell_exit_label, text.as_str(), Style::fg(color), theme));
        },
        None => {},
    }
    assert(line_views(out@) =~= shell_fields(*shell, now, width as int, *theme, *t));
    out
}

/// The page of a command: its fields, then its output.
pub open spec fn shell_page(shell: UserShellBlock, now: u64, width: int, theme: Theme, t: UiText) -> Seq<Seq<SpanV>> {
    let dim = fg_style(theme.text.muted);
    shell_fields(shell, now, width, theme, t) + seq![
        Seq::empty(),
        section(t.shell_output_label@, theme),
    ] + line_if(shell.output_truncated, body_row(t.shell_truncated@, dim, width)) + (if trimmed(
        shell.output@,
    ).len() == 0 {
        seq![body_row(t.shell_no_output@, dim, width)]
    } else {
        output_lines(shell.output@, theme, width)
    })
}

/// The command that the Shell Details screen shows.
pub open spec fn shown_shell(state: AppState) -> Option<UserShellBlock> {
    match state.shell_screen_item {
        Some(i) => if i < state.transcript.items@.len() {
            match state.transcript.items@[i as int] {
                TranscriptItem::UserShell(shell) => Some(shell),
                _ => None,
            }
        } else {
            None
        },
        None => None,
    }
}

/// The Shell Details body, without chrome: status, runtime, source, directory, the
/// user's exact command, and the bounded output tail.
pub fn shell_detail_lines(state: &AppState, width: usize, theme: &Theme, t: &UiText) -> (r: Vec<Line>)
    ensures
        line_views(r@) == (match shown_shell(*state) {
            Some(shell) => shell_page(shell, state.elapsed_secs, width as int, *theme, *t),
            None => seq![styled_line(t.shell_no_output@, fg_style(theme.text.muted))],
        }),
{
    let dim = Style::fg(theme.text.muted);
    let shell = match state.focused_user_shell() {
        Some(shell) => shell,
        None => {
            let mut out: Vec<Line> = Vec::new();
            out.push(Line::of(Span::text(t.shell_no_output, dim)));
            assert(line_views(out@) =~= seq![
                styled_line(t.shell_no_output@, fg_style(theme.text.muted)),
            ]);
            return out;
        },
    };
    assert(shown_shell(*state) == Some(*shell));
    let mut out = shell_field_lines(shell, state.elapsed_secs, width, theme, t);
    out.push(Line::empty());
    out.push(section_line(t.shell_output_label, theme));
    if shell.output_truncated {
        out.push(detail_line(t.shell_truncated, dim, width));
    }
    if trim(shell.output.as_str()).as_str().is_empty() {
        out.push(detail_line(t.shell_no_output, dim, width));
    } else {
        push_output_lines(&mut out, shell.output.as_str(), theme, width);
    }
    assert(line_views(out@) =~= shell_page(
        *shell,
        state.elapsed_secs,
        width as int,
        *theme,
        *t,
    ));
    out
}

// ---------------------------------------------------------------- activities

#[derive(Clone, Copy, Debug, PartialEq, Eq, Structural)]
pub enum ActivityKind {
    BackgroundTask,
    ChildAgent,
}

#[derive(Clone, Copy, Debug, PartialEq, Eq, Structural)]
pub enum ActivityStatus {
    Running,
    Waiting,
    Completed,
    Failed,
    Stopped,
    Interrupted,
    Unreported,
}

/// What the lists and the pages say of an activity.
#[derive(Debug)]
pub struct ActivitySummary {
    pub id: ActivityId,
    pub kind: ActivityKind,
    pub status: ActivityStatus,
    pub title: String,
    pub duration_secs: u64,
    /// The sign of the status.
    pub glyph: String,
}

/// The background processes, those that run apart from those that ended.
#[derive(Debug)]
pub struct BackgroundJobList {
    pub running: Vec<ActivitySummary>,
    pub finished: Vec<ActivitySummary>,
}

pub open spec fn id_text(id: ActivityId) -> Seq<char> {
    match id {
        ActivityId::Background(s) => s@,
        ActivityId::Child(s) => s@,
    }
}

impl ActivityId {
    pub fn as_key(&self) -> (r: &str)
        ensures
            r@ == id_text(*self),
    {
        match self {
            ActivityId::Background(s) => s.as_str(),
            ActivityId::Child(s) => s.as_str(),
        }
    }
}

/// The first background process from `i` on with the id.
pub open spec fn chrome_from(tasks: Seq<(String, BackgroundTaskChrome)>, id: Seq<char>, i: int) -> Option<
    BackgroundTaskChrome,
>
    decreases tasks.len() - i,
{
    if i >= tasks.len() {
        None
    } else if tasks[i].0@ == id {
        Some(tasks[i].1)
    } else {
        chrome_from(tasks, id, i + 1)
    }
}

/// The background process with the id.
pub open spec fn chrome_of(state: AppState, id: Seq<char>) -> Option<BackgroundTaskChrome> {
    chrome_from(state.background_task_labels@, id, 0)
}

proof fn chrome_is_found_from(tasks: Seq<(String, BackgroundTaskChrome)>, i: int, at: int)
    requires
        keys_once(tasks),
        0 <= at <= i < tasks.len(),
    ensures
        chrome_from(tasks, tasks[i].0@, at) == Some(tasks[i].1),
    decreases i - at,
{
    if at < i {
        assert(tasks[at].0@ != tasks[i].0@);
        chrome_is_found_from(tasks, i, at + 1);
    }
}

/// Every background process is the one that its id finds.
pub proof fn background_tasks_are_found(state: AppState, i: int)
    requires
        state.wf(),
        0 <= i < state.background_task_labels@.len(),
    ensures
        chrome_of(state, state.background_task_labels@[i].0@) == Some(
            state.background_task_labels@[i].1,
        ),
{
    chrome_is_found_from(state.background_task_labels@, i, 0);
}

pub fn background_chrome<'a>(state: &'a AppState, task_id: &str) -> (r: Option<&'a BackgroundTaskChrome>)
    ensures
        match r {
            Some(c) => chrome_of(*state, task_id@) == Some(*c),
            None => chrome_of(*state, task_id@) is None,
        },
{
    let mut i: usize = 0;
    while i < state.background_task_labels.len()
        invariant
            i <= state.background_task_labels@.len(),
            chrome_of(*state, task_id@) == chrome_from(
                state.background_task_labels@,
                task_id@,
                i as int,
            ),
        decreases state.background_task_labels@.len() - i,
    {
        if same(state.background_task_labels[i].0.as_str(), task_id) {
            return Some(&state.background_task_labels[i].1);
        }
        i += 1;
    }
    None
}

/// The first child agent from `i` on with the id.
pub open spec fn child_from(children: Seq<ChildAgentView>, id: Seq<char>, i: int) -> Option<ChildAgentView>
    decreases children.len() - i,
{
    if i >= children.len() {
        None
    } else if children[i].id@ == id {
        Some(children[i])
    } else {
        child_from(children, id, i + 1)
    }
}

pub open spec fn child_of(state: AppState, id: Seq<char>) -> Option<ChildAgentView> {
    child_from(state.children@, id, 0)
}

pub fn find_child<'a>(state: &'a AppState, id: &str) -> (r: Option<&'a ChildAgentView>)
    ensures
        match r {
            Some(c) => child_of(*state, id@) == Some(*c),
            None => child_of(*state, id@) is None,
        },
{
    let mut i: usize = 0;
    while i < state.children.len()
        invariant
            i <= state.children@.len(),
            child_of(*state, id@) == child_from(state.children@, id@, i as int),
        decreases state.children@.len() - i,
    {
        if same(state.children[i].id.as_str(), id) {
            return Some(&state.children[i]);
        }
        i += 1;
    }
    None
}

/// Whether a stop means that the child did not finish, and not that it failed.
pub open spec fn bounded(stop: Option<ChildStop>) -> bool {
    match stop {
        Some(ChildStop::Incomplete)
        | Some(ChildStop::Budget)
        | Some(ChildStop::Cancelled)
        | Some(ChildStop::Lost) => true,
        _ => false,
    }
}

/// Whether the child behind an activity was stopped at a bound.
pub open spec fn stopped_at_bound(state: AppState, id: ActivityId) -> bool {
    match id {
        ActivityId::Child(c) => match child_of(state, c@) {
            Some(child) => bounded(child.stop),
            None => false,
        },
        ActivityId::Background(_) => false,
    }
}

/// Whether the child behind this activity was stopped at a bound rather than failing.
/// Reads the typed stop, never the summary prose.
pub fn child_stopped_at_a_bound(state: &AppState, id: &ActivityId) -> (r: bool)
    ensures
        r == stopped_at_bound(*state, *id),
{
    match id {
        ActivityId::Child(c) => match find_child(state, c.as_str()) {
            Some(child) => match child.stop {
                Some(ChildStop::Incomplete)
                | Some(ChildStop::Budget)
                | Some(ChildStop::Cancelled)
                | Some(ChildStop::Lost) => true,
                _ => false,
            },
            None => false,
        },
        ActivityId::Background(_) => false,
    }
}

/// The word of an activity's status. A child stopped at a bound did not fail: it did
/// not finish.
pub open spec fn activity_word(state: AppState, id: ActivityId, status: ActivityStatus, t: UiText) -> Seq<char> {
    match status {
        ActivityStatus::Running => t.wait_target_running@,
        ActivityStatus::Waiting => t.sub_agent_waiting@,
        ActivityStatus::Completed => t.title_completed@,
        ActivityStatus::Failed => if stopped_at_bound(state, id) {
            t.sub_agent_incomplete@
        } else {
            t.title_failed@
        },
        ActivityStatus::Stopped => t.background_status_stopped@,
        ActivityStatus::Interrupted => t.sub_agent_interrupted@,
        ActivityStatus::Unreported => t.sub_agent_unreported@,
    }
}

/// What ended an activity: the exit code of a process, the bound of a child.
pub open spec fn activity_end(state: AppState, id: ActivityId, t: UiText) -> Seq<char> {
    match id {
        ActivityId::Background(task) => match chrome_of(state, task@) {
            Some(chrome) => match chrome.exit_code {
                Some(code) => " · exit "@ + signed_decimal(code as int),
                None => Seq::empty(),
            },
            None => Seq::empty(),
        },
        ActivityId::Child(c) => match child_of(state, c@) {
            Some(child) => match stop_word(child.stop, child.limit, t) {
                Some(reason) => " · "@ + reason,
                None => Seq::empty(),
            },
            None => Seq::empty(),
        },
    }
}

/// The style of an activity's status.
pub open spec fn activity_style(status: ActivityStatus, theme: Theme) -> Style {
    match status {
        ActivityStatus::Running | ActivityStatus::Waiting => fg_style(theme.accent.primary),
        ActivityStatus::Completed => fg_style(theme.status.success),
        ActivityStatus::Failed => fg_style(theme.status.error),
        ActivityStatus::Stopped => fg_style(theme.text.secondary),
        ActivityStatus::Interrupted | ActivityStatus::Unreported => fg_style(
            theme.status.warning,
        ),
    }
}

/// Status word and ink for one activity, with the typed stop reason and a background
/// task's exit code. Shared by every detail page.
pub fn activity_status_text(
    state: &AppState,
    id: &ActivityId,
    summary: &ActivitySummary,
    t: &UiText,
    theme: &Theme,
) -> (r: (String, Style))
    ensures
        r.0@ == activity_word(*state, *id, summary.status, *t) + activity_end(*state, *id, *t),
        r.1 == activity_style(summary.status, *theme),
{
    let word = match summary.status {
        ActivityStatus::Running => t.wait_target_running,
        ActivityStatus::Waiting => t.sub_agent_waiting,
        ActivityStatus::Completed => t.title_completed,
        ActivityStatus::Failed => if child_stopped_at_a_bound(state, id) {
            t.sub_agent_incomplete
        } else {
            t.title_failed
        },
        ActivityStatus::Stopped => t.background_status_stopped,
        ActivityStatus::Interrupted => t.sub_agent_interrupted,
        ActivityStatus::Unreported => t.sub_agent_unreported,
    };
    let style = match summary.status {
        ActivityStatus::Running | ActivityStatus::Waiting => Style::fg(theme.accent.primary),
        ActivityStatus::Completed => Style::fg(theme.status.success),
        ActivityStatus::Failed => Style::fg(theme.status.error),
        // Stopped is neutral, not alarming.
        ActivityStatus::Stopped => Style::fg(theme.text.secondary),
        ActivityStatus::Interrupted | ActivityStatus::Unreported => Style::fg(
            theme.status.warning,
        ),
    };
    let mut text = word.to_owned();
    match id {
        ActivityId::Background(task) => match background_chrome(state, task.as_str()) {
            Some(chrome) => match chrome.exit_code {
                Some(code) => {
                    text.append(cat2(" · exit ", dec_signed(code as i64).as_str()).as_str());
                },
                None => {},
            },
            None => {},
        },
        // How it ended is the question the detail page exists to answer.
        ActivityId::Child(c) => match find_child(state, c.as_str()) {
            Some(child) => match child_stop_label(child.stop, child.limit, t) {
                Some(reason) => {
                    text.append(cat2(" · ", reason).as_str());
                },
                None => {},
            },
            None => {},
        },
    }
    assert(text@ =~= word@ + activity_end(*state, *id, *t));
    (text, style)
}

// ---------------------------------------------------------------- the list of processes

/// One job row: `→ ● label … duration`. The label is cut first, so that a long command
/// never pushes the duration off the edge.
pub open spec fn job_row(summary: ActivitySummary, selected: bool, width: int, theme: Theme) -> Seq<SpanV> {
    let head = DETAIL_BODY_INDENT@ + (if selected {
        "→ "@
    } else {
        "  "@
    }) + summary.glyph@ + " "@;
    let dur = elapsed(summary.duration_secs as nat);
    let head_w = unicode_str_width(head) as int;
    let dur_w = unicode_str_width(dur) as int;
    let label = truncated(summary.title@, room(width, head_w + 2 + dur_w, 4));
    let pad = minus(width, head_w + unicode_str_width(label) + dur_w);
    seq![
        spanv(
            head,
            if summary.status == ActivityStatus::Stopped {
                fg_style(theme.text.muted)
            } else {
                activity_style(summary.status, theme)
            },
        ),
        spanv(
            label,
            fg_style(
                if selected {
                    theme.text.primary
                } else {
                    theme.text.secondary
                },
            ),
        ),
        spanv(repeated(' ', pad as nat), no_style()),
        spanv(dur, fg_style(theme.text.muted)),
    ]
}

pub fn background_list_row(summary: &ActivitySummary, selected: bool, width: usize, theme: &Theme) -> (r:
    Line)
    ensures
        r@ == job_row(*summary, selected, width as int, *theme),
{
    let prefix = if selected {
        "→ "
    } else {
        "  "
    };
    let dur = fmt_elapsed(summary.duration_secs);
    let glyph_style = match summary.status {
        ActivityStatus::Running | ActivityStatus::Waiting => Style::fg(theme.accent.primary),
        ActivityStatus::Completed => Style::fg(theme.status.success),
        ActivityStatus::Failed => Style::fg(theme.status.error),
        ActivityStatus::Stopped => Style::fg(theme.text.muted),
        ActivityStatus::Interrupted | ActivityStatus::Unreported => Style::fg(
            theme.status.warning,
        ),
    };
    let label_color = if selected {
        theme.text.primary
    } else {
        theme.text.secondary
    };
    let head = cat4(DETAIL_BODY_INDENT, prefix, summary.glyph.as_str(), " ");
    let head_w: usize = str_width(head.as_str());
    let dur_w: usize = str_width(dur.as_str());
    let taken: usize = head_w.saturating_add(2).saturating_add(dur_w);
    let budget: usize = room_of(width, taken, 4);
    assert(budget == room(width as int, head_w + 2 + dur_w, 4));
    let label = truncate_display(summary.title.as_str(), budget);
    let used: usize = head_w.saturating_add(str_width(label.as_str())).saturating_add(dur_w);
    let pad: usize = width.saturating_sub(used);
    let mut line = Line::of3(
        Span::new(head, glyph_style),
        Span::new(label, Style::fg(label_color)),
        Span::new(repeat_char(' ', pad), Style::plain()),
    );
    line.push(Span::new(dur, Style::fg(theme.text.muted)));
    assert(line@ =~= job_row(*summary, selected, width as int, *theme));
    line
}

/// Whether the key is that of the activity.
pub open spec fn is_selected(selected: Option<Seq<char>>, summary: ActivitySummary) -> bool {
    selected == Some(id_text(summary.id))
}

/// The rows of a list of processes.
pub open spec fn job_rows(
    list: Seq<ActivitySummary>,
    selected: Option<Seq<char>>,
    width: int,
    theme: Theme,
) -> Seq<Seq<SpanV>> {
    Seq::new(list.len(), |i: int| job_row(list[i], is_selected(selected, list[i]), width, theme))
}

/// The last of the first `n` processes that is selected.
pub open spec fn selected_upto(list: Seq<ActivitySummary>, selected: Option<Seq<char>>, n: int) -> Option<int>
    decreases n,
{
    if n <= 0 {
        None
    } else if is_selected(selected, list[n - 1]) {
        Some(n - 1)
    } else {
        selected_upto(list, selected, n - 1)
    }
}

fn push_jobs(
    out: &mut Vec<Line>,
    list: &Vec<ActivitySummary>,
    selected: &Option<String>,
    width: usize,
    theme: &Theme,
) -> (r: Option<usize>)
    ensures
        line_views(final(out)@) == line_views(old(out)@) + job_rows(
            list@,
            opt_text(*selected),
            width as int,
            *theme,
        ),
        match r {
            Some(i) => selected_upto(list@, opt_text(*selected), list@.len() as int) == Some(
                i as int,
            ) && i < list@.len(),
            None => selected_upto(list@, opt_text(*selected), list@.len() as int) is None,
        },
{
    let ghost base = line_views(out@);
    let ghost key = opt_text(*selected);
    let ghost all = job_rows(list@, key, width as int, *theme);
    let mut found: Option<usize> = None;
    let mut i: usize = 0;
    assert(base + all.take(0) =~= base);
    while i < list.len()
        invariant
            key == opt_text(*selected),
            all == job_rows(list@, key, width as int, *theme),
            i <= list@.len(),
            line_views(out@) == base + all.take(i as int),
            match found {
                Some(k) => selected_upto(list@, key, i as int) == Some(k as int) && k < i,
                None => selected_upto(list@, key, i as int) is None,
            },
        decreases list@.len() - i,
    {
        let on = match selected {
            Some(s) => same(s.as_str(), list[i].id.as_key()),
            None => false,
        };
        if on {
            found = Some(i);
        }
        out.push(background_list_row(&list[i], on, width, theme));
        i += 1;
        assert(all.take(i as int) =~= all.take(i - 1).push(all[i - 1]));
        assert(line_views(out@) =~= base + all.take(i as int));
    }
    assert(all.take(i as int) =~= all);
    found
}

/// The section of the processes that run.
pub open spec fn running_section(
    list: BackgroundJobList,
    selected: Option<Seq<char>>,
    width: int,
    theme: Theme,
    t: UiText,
) -> Seq<Seq<SpanV>> {
    if list.running@.len() == 0 {
        Seq::empty()
    } else {
        seq![
            section(
                t.background_list_running@ + " · "@ + decimal(list.running@.len()),
                theme,
            ),
        ] + job_rows(list.running@, selected, width, theme)
    }
}

/// The section of the processes that ended.
pub open spec fn finished_section(
    list: BackgroundJobList,
    selected: Option<Seq<char>>,
    width: int,
    theme: Theme,
    t: UiText,
) -> Seq<Seq<SpanV>> {
    if list.finished@.len() == 0 {
        Seq::empty()
    } else {
        seq![
            Seq::empty(),
            section(
                t.background_list_finished@ + " · "@ + decimal(list.finished@.len()),
                theme,
            ),
        ] + job_rows(list.finished@, selected, width, theme)
    }
}

/// The body of the list.
pub open spec fn job_page(
    list: BackgroundJobList,
    selected: Option<Seq<char>>,
    width: int,
    theme: Theme,
    t: UiText,
) -> Seq<Seq<SpanV>> {
    if list.running@.len() == 0 && list.finished@.len() == 0 {
        seq![styled_line(t.background_list_empty@, fg_style(theme.text.muted))]
    } else {
        running_section(list, selected, width, theme, t) + finished_section(
            list,
            selected,
            width,
            theme,
            t,
        )
    }
}

/// The line of the selected row.
pub open spec fn selected_line(list: BackgroundJobList, selected: Option<Seq<char>>) -> Option<int> {
    let run = list.running@.len() as int;
    let before = if run == 0 {
        0
    } else {
        run + 1
    };
    match selected_upto(list.finished@, selected, list.finished@.len() as int) {
        Some(i) => Some(before + 2 + i),
        None => match selected_upto(list.running@, selected, run) {
            Some(i) => Some(1 + i),
            None => None,
        },
    }
}

/// The list body plus the line index of the selected row, or `None` when nothing is
/// selected or the list is empty.
pub fn background_list_body(
    state: &AppState,
    list: &BackgroundJobList,
    width: usize,
    theme: &Theme,
    t: &UiText,
) -> (r: (Vec<Line>, Option<usize>))
    ensures
        line_views(r.0@) == job_page(
            *list,
            opt_text(state.background_list_selected),
            width as int,
            *theme,
            *t,
        ),
        match r.1 {
            Some(i) => selected_line(*list, opt_text(state.background_list_selected)) == Some(
                i as int,
            ) && i < r.0@.len(),
            None => selected_line(*list, opt_text(state.background_list_selected)) is None,
        },
{
    let ghost key = opt_text(state.background_list_selected);
    let mut out: Vec<Line> = Vec::new();
    let mut chosen: Option<usize> = None;
    if list.running.len() == 0 && list.finished.len() == 0 {
        out.push(Line::of(Span::text(t.background_list_empty, Style::fg(theme.text.muted))));
        assert(line_views(out@) =~= job_page(*list, key, width as int, *theme, *t));
        return (out, None);
    }
    if list.running.len() > 0 {
        let count = dec(list.running.len() as u64);
        out.push(
            section_line(
                cat3(t.background_list_running, " · ", count.as_str()).as_str(),
                theme,
            ),
        );
        let base: usize = out.len();
        match push_jobs(&mut out, &list.running, &state.background_list_selected, width, theme) {
            Some(i) => {
                assert(line_views(out@).len() == out@.len());
                let n: usize = out.len();
                chosen = Some(base + i);
            },
            None => {},
        }
    }
    assert(line_views(out@) =~= running_section(*list, key, width as int, *theme, *t));
    assert(line_views(out@).len() == out@.len());
    if list.finished.len() > 0 {
        out.push(Line::empty());
        let count = dec(list.finished.len() as u64);
        out.push(
            section_line(
                cat3(t.background_list_finished, " · ", count.as_str()).as_str(),
                theme,
            ),
        );
        let base: usize = out.len();
        match push_jobs(&mut out, &list.finished, &state.background_list_selected, width, theme) {
            Some(i) => {
                assert(line_views(out@).len() == out@.len());
                let n: usize = out.len();
                chosen = Some(base + i);
            },
            None => {},
        }
    }
    assert(line_views(out@) =~= job_page(*list, key, width as int, *theme, *t));
    assert(line_views(out@).len() == out@.len());
    (out, chosen)
}

// ---------------------------------------------------------------- the activity page

/// Whether an activity can still be stopped: a child while it runs, a process while
/// the runtime holds it running.
pub open spec fn stop_offered(state: AppState, id: ActivityId, status: ActivityStatus) -> bool {
    (status is Running || status is Waiting) && match id {
        ActivityId::Child(_) => true,
        ActivityId::Background(task) => match chrome_of(state, task@) {
            Some(chrome) => chrome.ok is None,
            None => false,
        },
    }
}

/// Whether the page has output to follow.
pub open spec fn has_output(state: AppState, id: ActivityId) -> bool {
    match id {
        ActivityId::Background(task) => match chrome_of(state, task@) {
            Some(chrome) => trimmed(chrome.output@).len() != 0,
            None => false,
        },
        ActivityId::Child(_) => false,
    }
}

/// Whether the page follows its output, in words.
pub open spec fn follow_chip(state: AppState, t: UiText) -> Seq<char> {
    if state.activity_view.follow {
        t.activity_follow_on@
    } else if state.activity_view.unread > 0 {
        t.activity_follow_paused@ + " · "@ + replaced(
            t.activity_new_lines@,
            "{}"@,
            decimal(state.activity_view.unread as nat),
        )
    } else {
        t.activity_follow_paused@
    }
}

/// The hint of an activity page.
pub open spec fn activity_hint(state: AppState, id: ActivityId, status: ActivityStatus, t: UiText) -> Seq<char> {
    t.activity_esc@ + (if stop_offered(state, id, status) {
        " · "@ + t.activity_stop@
    } else {
        Seq::empty()
    }) + (if has_output(state, id) {
        " · "@ + follow_chip(state, t)
    } else {
        Seq::empty()
    }) + (" · "@ + t.activity_hint_scroll@)
}

/// The detail page's interaction hint. It promises no key that does nothing: a stop
/// is named only while there is something to stop.
pub fn activity_footer_hint(state: &AppState, id: &ActivityId, summary: &ActivitySummary, t: &UiText) -> (r:
    String)
    ensures
        r@ == activity_hint(*state, *id, summary.status, *t),
{
    let running = match summary.status {
        ActivityStatus::Running | ActivityStatus::Waiting => true,
        _ => false,
    };
    let (stoppable, output) = match id {
        ActivityId::Child(_) => (running, false),
        ActivityId::Background(task) => match background_chrome(state, task.as_str()) {
            Some(chrome) => (
                running && chrome.is_running(),
                !trim(chrome.output.as_str()).as_str().is_empty(),
            ),
            None => (false, false),
        },
    };
    let mut hint = t.activity_esc.to_owned();
    if stoppable {
        hint.append(" · ");
        hint.append(t.activity_stop);
    }
    if output {
        hint.append(" · ");
        if state.activity_view.follow {
            hint.append(t.activity_follow_on);
        } else if state.activity_view.unread > 0 {
            let n = dec(state.activity_view.unread as u64);
            hint.append(t.activity_follow_paused);
            hint.append(" · ");
            hint.append(replace(t.activity_new_lines, "{}", n.as_str()).as_str());
        } else {
            hint.append(t.activity_follow_paused);
        }
    }
    hint.append(" · ");
    hint.append(t.activity_hint_scroll);
    assert(hint@ =~= activity_hint(*state, *id, summary.status, *t));
    hint
}

/// The output that a process retained.
pub open spec fn retained(state: AppState, id: Seq<char>) -> Seq<char> {
    match chrome_of(state, id) {
        Some(chrome) => chrome.output@,
        None => Seq::empty(),
    }
}

/// The body of a process page: its command and its output.
pub open spec fn process_body(state: AppState, id: Seq<char>, title: Seq<char>, width: int, theme: Theme, t: UiText) -> Seq<
    Seq<SpanV>,
> {
    let output = retained(state, id);
    seq![
        Seq::empty(),
        section(t.activity_command_label@, theme),
        body_row("$ "@ + title, fg_style(theme.text.primary), width),
        Seq::empty(),
        section(t.activity_output_label@, theme),
    ] + (if trimmed(output).len() == 0 {
        seq![body_row(t.activity_no_output@, fg_style(theme.text.muted), width)]
    } else {
        output_lines(output, theme, width)
    })
}

/// A background task's body: the command it runs and its retained output, each under
/// its own section.
pub fn background_detail_body(
    state: &AppState,
    task_id: &str,
    summary: &ActivitySummary,
    width: usize,
    theme: &Theme,
    t: &UiText,
    lines: &mut Vec<Line>,
)
    ensures
        line_views(final(lines)@) == line_views(old(lines)@) + process_body(
            *state,
            task_id@,
            summary.title@,
            width as int,
            *theme,
            *t,
        ),
{
    let ghost base = line_views(lines@);
    lines.push(Line::empty());
    lines.push(section_line(t.activity_command_label, theme));
    let command = cat2("$ ", summary.title.as_str());
    lines.push(detail_line(command.as_str(), Style::fg(theme.text.primary), width));
    lines.push(Line::empty());
    lines.push(section_line(t.activity_output_label, theme));
    let output = match background_chrome(state, task_id) {
        Some(chrome) => chrome.output.as_str(),
        None => "",
    };
    proof {
        reveal_strlit("");
        assert(output@ =~= retained(*state, task_id@));
    }
    if trim(output).as_str().is_empty() {
        lines.push(detail_line(t.activity_no_output, Style::fg(theme.text.muted), width));
    } else {
        push_output_lines(lines, output, theme, width);
    }
    assert(line_views(lines@) =~= base + process_body(
        *state,
        task_id@,
        summary.title@,
        width as int,
        *theme,
        *t,
    ));
}

/// The parts of a child's metadata.
pub open spec fn metadata_parts(child: ChildAgentView, t: UiText) -> Seq<Seq<char>> {
    (match (child.agent_name, child.profile_id) {
        (None, Some(p)) => if trimmed(p@).len() == 0 {
            Seq::empty()
        } else {
            seq![p@]
        },
        _ => Seq::empty(),
    }) + (if child.read_only {
        seq![t.inspector_read_only@]
    } else {
        Seq::empty()
    }) + (if child.input_tokens > 0 || child.output_tokens > 0 {
        seq![
            "↑ "@ + grouped(child.input_tokens as nat) + " · ↓ "@ + grouped(
                child.output_tokens as nat,
            ),
        ]
    } else {
        Seq::empty()
    })
}

/// One muted metadata line for a child: the capability bounds and usage. Only a
/// profile with no agent name is repeated here.
pub fn child_metadata_line(child: &ChildAgentView, t: &UiText) -> (r: Option<String>)
    ensures
        opt_text(r) == (if metadata_parts(*child, *t).len() == 0 {
            None
        } else {
            Some(joined(metadata_parts(*child, *t), " · "@))
        }),
{
    let mut parts: Vec<String> = Vec::new();
    if child.agent_name.is_none() {
        match &child.profile_id {
            Some(p) => if !trim(p.as_str()).as_str().is_empty() {
                parts.push(p.clone());
            },
            None => {},
        }
    }
    if child.read_only {
        parts.push(t.inspector_read_only.to_owned());
    }
    if child.input_tokens > 0 || child.output_tokens > 0 {
        parts.push(
            cat4(
                "↑ ",
                fmt_tokens(child.input_tokens).as_str(),
                " · ↓ ",
                fmt_tokens(child.output_tokens).as_str(),
            ),
        );
    }
    assert(views(parts@) =~= metadata_parts(*child, *t));
    assert(views(parts@).len() == parts@.len());
    if parts.len() == 0 {
        None
    } else {
        Some(join(&parts, " · "))
    }
}

/// The call that a child makes now, in words; its last step where no call is known.
pub open spec fn current_text(child: ChildAgentView, locale: Locale, t: UiText, home: Option<Seq<char>>) -> Option<
    Seq<char>,
> {
    if child.activity@.len() > 0 {
        let call = child.activity@.last();
        let action = label_of(call.tool@, locale);
        let summary = summary_of(call.tool@, call.arguments@, t.tool_in@, home);
        Some(
            if summary.len() == 0 {
                action
            } else {
                action + " "@ + summary
            },
        )
    } else {
        match child.recent_step {
            Some(s) => if trimmed(s@).len() == 0 {
                None
            } else {
                Some(s@)
            },
            None => None,
        }
    }
}

/// The current call of a running child, in the same user language the main activity
/// stream uses.
pub fn child_current_line(child: &ChildAgentView, locale: Locale, t: &UiText, home: Option<&str>) -> (r:
    Option<String>)
    ensures
        opt_text(r) == current_text(*child, locale, *t, home_view(home)),
{
    let n: usize = child.activity.len();
    if n > 0 {
        let call = &child.activity[n - 1];
        let action = tool_action_label_for(call.tool.as_str(), locale);
        let summary = tool_summary_for(call.tool.as_str(), call.arguments.as_str(), t, home);
        return Some(
            if summary.as_str().is_empty() {
                action
            } else {
                cat3(action.as_str(), " ", summary.as_str())
            },
        );
    }
    match &child.recent_step {
        Some(s) => if trim(s.as_str()).as_str().is_empty() {
            None
        } else {
            Some(s.clone())
        },
        None => None,
    }
}

/// What a child was asked to do: its title, else its purpose.
pub open spec fn goal_text(child: ChildAgentView) -> Option<Seq<char>> {
    let own = match child.title {
        Some(s) => s@,
        None => Seq::empty(),
    };
    if trimmed(own).len() != 0 {
        Some(own)
    } else if trimmed(child.purpose@).len() != 0 {
        Some(child.purpose@)
    } else {
        None
    }
}

fn child_goal(child: &ChildAgentView) -> (r: Option<&str>)
    ensures
        match r {
            Some(s) => goal_text(*child) == Some(s@),
            None => goal_text(*child) is None,
        },
{
    proof {
        trimmed_of_nothing();
    }
    match &child.title {
        Some(s) => if !trim(s.as_str()).as_str().is_empty() {
            return Some(s.as_str());
        },
        None => {},
    }
    if trim(child.purpose.as_str()).as_str().is_empty() {
        None
    } else {
        Some(child.purpose.as_str())
    }
}

proof fn trimmed_of_nothing()
    ensures
        trimmed(Seq::<char>::empty()).len() == 0,
{
}

/// The first block of a child from item `i` on.
pub open spec fn block_from(items: Seq<TranscriptItem>, id: Seq<char>, i: int) -> Option<SubAgentBlock>
    decreases items.len() - i,
{
    if i >= items.len() {
        None
    } else {
        match items[i] {
            TranscriptItem::SubAgent(b) => if b.id@ == id {
                Some(b)
            } else {
                block_from(items, id, i + 1)
            },
            _ => block_from(items, id, i + 1),
        }
    }
}

fn find_block<'a>(state: &'a AppState, id: &str) -> (r: Option<&'a SubAgentBlock>)
    ensures
        match r {
            Some(b) => block_from(state.transcript.items@, id@, 0) == Some(*b),
            None => block_from(state.transcript.items@, id@, 0) is None,
        },
{
    let mut i: usize = 0;
    while i < state.transcript.items.len()
        invariant
            i <= state.transcript.items@.len(),
            block_from(state.transcript.items@, id@, 0) == block_from(
                state.transcript.items@,
                id@,
                i as int,
            ),
        decreases state.transcript.items@.len() - i,
    {
        match &state.transcript.items[i] {
            TranscriptItem::SubAgent(b) => if same(b.id.as_str(), id) {
                return Some(b);
            },
            _ => {},
        }
        i += 1;
    }
    None
}

/// What a settled child came to: its own last message, else what it contributed.
pub open spec fn result_text(state: AppState, child: ChildAgentView, t: UiText) -> Option<Seq<char>> {
    let own = match block_from(state.transcript.items@, child.id@, 0) {
        Some(b) => trimmed(b.detail@),
        None => Seq::empty(),
    };
    let text = if own.len() != 0 {
        detail_text(own, t)
    } else {
        or_empty(opt_text(child.contribution))
    };
    if trimmed(text).len() == 0 {
        None
    } else {
        Some(text)
    }
}

fn child_result(state: &AppState, child: &ChildAgentView, t: &UiText) -> (r: Option<String>)
    ensures
        opt_text(r) == result_text(*state, *child, *t),
{
    let own = match find_block(state, child.id.as_str()) {
        Some(b) => trim(b.detail.as_str()),
        None => String::new(),
    };
    let text = if !own.as_str().is_empty() {
        sub_agent_detail(own.as_str(), t)
    } else {
        match &child.contribution {
            Some(c) => c.clone(),
            None => String::new(),
        }
    };
    if trim(text.as_str()).as_str().is_empty() {
        None
    } else {
        Some(text)
    }
}

/// A title and one row, where there is something to say.
pub open spec fn titled(title: Seq<char>, body: Option<Seq<char>>, theme: Theme, width: int) -> Seq<Seq<SpanV>> {
    match body {
        Some(text) => seq![
            Seq::empty(),
            section(title, theme),
            body_row(text, fg_style(theme.text.primary), width),
        ],
        None => Seq::empty(),
    }
}

fn push_titled(out: &mut Vec<Line>, title: &str, body: Option<&str>, theme: &Theme, width: usize)
    ensures
        line_views(final(out)@) == line_views(old(out)@) + titled(
            title@,
            home_view(body),
            *theme,
            width as int,
        ),
{
    let ghost base = line_views(out@);
    match body {
        Some(text) => {
            out.push(Line::empty());
            out.push(section_line(title, theme));
            out.push(detail_line(text, Style::fg(theme.text.primary), width));
        },
        None => {},
    }
    assert(line_views(out@) =~= base + titled(title@, home_view(body), *theme, width as int));
}

/// The rows of a result.
pub open spec fn result_rows(rows: Seq<Seq<char>>, theme: Theme, width: int) -> Seq<Seq<SpanV>> {
    Seq::new(rows.len(), |i: int| body_row(rows[i], fg_style(theme.text.primary), width))
}

/// The result of a settled child.
pub open spec fn result_section(result: Option<Seq<char>>, theme: Theme, width: int, t: UiText) -> Seq<Seq<SpanV>> {
    match result {
        Some(text) => seq![Seq::empty(), section(t.activity_result@, theme)] + result_rows(
            wrapped(text, body_width(width) as usize),
            theme,
            width,
        ),
        None => Seq::empty(),
    }
}

fn push_result(out: &mut Vec<Line>, result: &Option<String>, theme: &Theme, width: usize, t: &UiText)
    ensures
        line_views(final(out)@) == line_views(old(out)@) + result_section(
            opt_text(*result),
            *theme,
            width as int,
            *t,
        ),
{
    let ghost base = line_views(out@);
    match result {
        Some(text) => {
            out.push(Line::empty());
            out.push(section_line(t.activity_result, theme));
            let rows = wrap(text.as_str(), room_of(width, 2, 4));
            let ghost all = result_rows(views(rows@), *theme, width as int);
            let ghost head = line_views(out@);
            let mut i: usize = 0;
            assert(head + all.take(0) =~= head);
            while i < rows.len()
                invariant
                    all == result_rows(views(rows@), *theme, width as int),
                    i <= rows@.len(),
                    line_views(out@) == head + all.take(i as int),
                decreases rows@.len() - i,
            {
                out.push(detail_line(rows[i].as_str(), Style::fg(theme.text.primary), width));
                i += 1;
                assert(all.take(i as int) =~= all.take(i - 1).push(all[i - 1]));
                assert(line_views(out@) =~= head + all.take(i as int));
            }
            assert(all.take(i as int) =~= all);
        },
        None => {},
    }
    assert(line_views(out@) =~= base + result_section(
        opt_text(*result),
        *theme,
        width as int,
        *t,
    ));
}

/// Lines behind the shared indent.
pub open spec fn indented_lines(lines: Seq<Seq<SpanV>>) -> Seq<Seq<SpanV>> {
    Seq::new(lines.len(), |i: int| seq![spanv(DETAIL_BODY_INDENT@, no_style())] + lines[i])
}

/// Prefix an already-built line with the shared detail indent.
pub fn prefix_indent(line: &Line, indent: &str) -> (r: Line)
    ensures
        r@ == seq![spanv(indent@, no_style())] + line@,
{
    let mut out = Line::of(Span::raw(indent));
    out.extend(line.copy());
    out
}

fn push_indented_lines(out: &mut Vec<Line>, lines: &Vec<Line>)
    ensures
        line_views(final(out)@) == line_views(old(out)@) + indented_lines(line_views(lines@)),
{
    let ghost base = line_views(out@);
    let ghost all = indented_lines(line_views(lines@));
    let mut i: usize = 0;
    assert(base + all.take(0) =~= base);
    while i < lines.len()
        invariant
            all == indented_lines(line_views(lines@)),
            i <= lines@.len(),
            line_views(out@) == base + all.take(i as int),
        decreases lines@.len() - i,
    {
        out.push(prefix_indent(&lines[i], DETAIL_BODY_INDENT));
        i += 1;
        assert(all.take(i as int) =~= all.take(i - 1).push(all[i - 1]));
        assert(line_views(out@) =~= base + all.take(i as int));
    }
    assert(all.take(i as int) =~= all);
}

/// The body of a child page: its metadata, its goal, the call it makes or the result
/// it came to, and its steps.
pub open spec fn child_page(
    state: AppState,
    id: Seq<char>,
    status: ActivityStatus,
    width: int,
    theme: Theme,
    t: UiText,
    home: Option<Seq<char>>,
    steps: Seq<Seq<SpanV>>,
) -> Seq<Seq<SpanV>> {
    let dim = fg_style(theme.text.muted);
    match child_of(state, id) {
        None => seq![Seq::empty(), body_row(t.activity_stale@, dim, width)],
        Some(child) => {
            let meta = metadata_parts(child, t);
            let settled = !(status is Running || status is Waiting);
            line_if(meta.len() != 0, styled_line(joined(meta, " · "@), dim)) + titled(
                t.activity_goal@,
                goal_text(child),
                theme,
                width,
            ) + (if settled {
                result_section(result_text(state, child, t), theme, width, t)
            } else {
                titled(
                    t.activity_current@,
                    current_text(child, state.locale, t, home),
                    theme,
                    width,
                )
            }) + seq![Seq::empty(), section(t.activity_steps@, theme)] + indented_lines(steps)
        },
    }
}

/// A sub-agent's body. The semantic task, then either the running call or the settled
/// result, then the folded activity. `steps` are the rows of that activity at the
/// width of a section body.
#[verifier::rlimit(30)]
pub fn child_detail_body(
    state: &AppState,
    child_id: &str,
    summary: &ActivitySummary,
    width: usize,
    theme: &Theme,
    t: &UiText,
    home: Option<&str>,
    steps: &Vec<Line>,
    lines: &mut Vec<Line>,
)
    ensures
        line_views(final(lines)@) == line_views(old(lines)@) + child_page(
            *state,
            child_id@,
            summary.status,
            width as int,
            *theme,
            *t,
            home_view(home),
            line_views(steps@),
        ),
{
    let ghost base = line_views(lines@);
    let ghost want = child_page(
        *state,
        child_id@,
        summary.status,
        width as int,
        *theme,
        *t,
        home_view(home),
        line_views(steps@),
    );
    let dim = Style::fg(theme.text.muted);
    let child = match find_child(state, child_id) {
        Some(child) => child,
        None => {
            lines.push(Line::empty());
            lines.push(detail_line(t.activity_stale, dim, width));
            assert(line_views(lines@) =~= base + want);
            return;
        },
    };
    match child_metadata_line(child, t) {
        Some(meta) => {
            lines.push(Line::of(Span::new(meta, dim)));
        },
        None => {},
    }
    let ghost parts = metadata_parts(*child, *t);
    assert(line_views(lines@) =~= base + line_if(
        parts.len() != 0,
        styled_line(joined(parts, " · "@), fg_style(theme.text.muted)),
    ));
    // The goal: the semantic title the runtime fixed at spawn, else the purpose.
    push_titled(lines, t.activity_goal, child_goal(child), theme, width);
    let settled = match summary.status {
        ActivityStatus::Running | ActivityStatus::Waiting => false,
        _ => true,
    };
    if settled {
        // Never an invented result harvested from tool logs.
        push_result(lines, &child_result(state, child, t), theme, width, t);
    } else {
        match child_current_line(child, state.locale, t, home) {
            Some(current) => {
                push_titled(lines, t.activity_current, Some(current.as_str()), theme, width);
            },
            None => {
                push_titled(lines, t.activity_current, None, theme, width);
            },
        }
    }
    lines.push(Line::empty());
    lines.push(section_line(t.activity_steps, theme));
    proof {
        child_id_is_its_own(state.children@, child_id@, 0);
    }
    push_indented_lines(lines, steps);
    assert(line_views(lines@) =~= base + want);
}

proof fn child_id_is_its_own(children: Seq<ChildAgentView>, id: Seq<char>, i: int)
    requires
        0 <= i,
    ensures
        child_from(children, id, i) matches Some(c) ==> c.id@ == id,
    decreases children.len() - i,
{
    if i < children.len() && children[i].id@ != id {
        child_id_is_its_own(children, id, i + 1);
    }
}

/// The page of an activity: its title, its status, then what it is about.
pub open spec fn activity_page(
    state: AppState,
    id: ActivityId,
    summary: ActivitySummary,
    width: int,
    theme: Theme,
    t: UiText,
    home: Option<Seq<char>>,
    steps: Seq<Seq<SpanV>>,
) -> Seq<Seq<SpanV>> {
    seq![
        styled_line(
            truncated(summary.title@, at_least(width, 8)),
            bold_style(theme.text.primary),
        ),
        styled_line(
            summary.glyph@ + " "@ + (activity_word(state, id, summary.status, t) + activity_end(
                state,
                id,
                t,
            )) + " · "@ + elapsed(summary.duration_secs as nat),
            activity_style(summary.status, theme),
        ),
    ] + (match id {
        ActivityId::Background(task) => process_body(
            state,
            task@,
            summary.title@,
            width,
            theme,
            t,
        ),
        ActivityId::Child(c) => child_page(
            state,
            c@,
            summary.status,
            width,
            theme,
            t,
            home,
            steps,
        ),
    })
}

/// The detail page body, without chrome.
pub fn activity_screen_lines(
    state: &AppState,
    id: &ActivityId,
    summary: &ActivitySummary,
    width: usize,
    theme: &Theme,
    t: &UiText,
    home: Option<&str>,
    steps: &Vec<Line>,
) -> (r: Vec<Line>)
    ensures
        line_views(r@) == activity_page(
            *state,
            *id,
            *summary,
            width as int,
            *theme,
            *t,
            home_view(home),
            line_views(steps@),
        ),
{
    let mut out: Vec<Line> = Vec::new();
    // The object itself owns the strongest ink: the page exists to name it.
    out.push(
        Line::of(
            Span::new(
                truncate_display(summary.title.as_str(), max_of(width, 8)),
                Style::bold(theme.text.primary),
            ),
        ),
    );
    let (status, style) = activity_status_text(state, id, summary, t, theme);
    out.push(
        Line::of(
            Span::new(
                cat5(
                    summary.glyph.as_str(),
                    " ",
                    status.as_str(),
                    " · ",
                    fmt_elapsed(summary.duration_secs).as_str(),
                ),
                style,
            ),
        ),
    );
    match id {
        ActivityId::Background(task) => {
            background_detail_body(state, task.as_str(), summary, width, theme, t, &mut out);
        },
        ActivityId::Child(c) => {
            child_detail_body(
                state,
                c.as_str(),
                summary,
                width,
                theme,
                t,
                home,
                steps,
                &mut out,
            );
        },
    }
    assert(line_views(out@) =~= activity_page(
        *state,
        *id,
        *summary,
        width as int,
        *theme,
        *t,
        home_view(home),
        line_views(steps@),
    ));
    out
}

} // verus!
