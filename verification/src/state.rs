//! [`AppState`]: what the renderer reads and the event loop changes.

use vstd::prelude::*;

use crate::composer::Composer;
use crate::i18n::{text_of, Locale, UiText};
use crate::model::views;
use crate::overlay::{Overlay, OverlayKind};
use crate::protocol::{
    ChildLimit, ChildStop, FinalizationStage, ModelRef, NotificationLevel, PermissionProfile,
    RuntimeStatus, UiDiff, UiPlan, UiSessionSummary,
};
use crate::screen::{Screen, ToolFilter, ToolsScreenState};
use crate::strings::{
    cat2, copy_all, dec, decimal, join, joined, replace, replaced, same, trim, trim_end, trimmed,
    trimmed_end,
};
use crate::theme::Theme;
use crate::transcript::{
    StopRequest, ToolCallBlock, ToolStatus, TranscriptItem, TranscriptState, UserShellBlock,
};

verus! {

broadcast use crate::model::group_views;

/// A turn input (message, steer, `/goal`) the runtime has not answered yet.
///
/// `command_id` belongs to the logical command, not to one transport attempt:
/// every retry sends this exact id, and only the runtime's answer removes it.
#[derive(Debug)]
pub struct PendingSubmission {
    pub command_id: String,
    /// The command as it is sent.
    pub command: String,
    /// The first attempt ended without an answer. Until it settles, no new turn
    /// input is sent, because this one may already be running.
    pub unconfirmed: bool,
}

#[derive(Debug)]
pub struct ApprovalRequest {
    pub id: String,
    pub tool: String,
    pub summary: String,
    pub command: Option<String>,
    pub risks: Vec<String>,
    pub call_id: Option<String>,
    pub always_persists: bool,
}

#[derive(Debug)]
pub struct ClarificationRequest {
    pub id: String,
    pub question: String,
    pub options: Vec<String>,
}

/// A runtime request that must eventually be answered by the user.
#[derive(Debug)]
pub enum PendingInteraction {
    Approval(ApprovalRequest),
    Clarification(ClarificationRequest),
}

/// The key of a request: its kind and its id.
pub open spec fn interaction_key(p: PendingInteraction) -> Seq<char> {
    match p {
        PendingInteraction::Approval(r) => "a:"@ + r.id@,
        PendingInteraction::Clarification(r) => "c:"@ + r.id@,
    }
}

impl PendingInteraction {
    /// Stable map key for sticky command-id retries.
    pub fn request_key(&self) -> (r: String)
        ensures
            r@ == interaction_key(*self),
    {
        match self {
            PendingInteraction::Approval(r) => cat2("a:", r.id.as_str()),
            PendingInteraction::Clarification(r) => cat2("c:", r.id.as_str()),
        }
    }
}

/// Two requests share a key only if they are of one kind and have one id.
pub proof fn interaction_keys_are_distinct(p: PendingInteraction, q: PendingInteraction)
    ensures
        interaction_key(p) == interaction_key(q) ==> (p is Approval) == (q is Approval) && match (
            p,
            q,
        ) {
            (PendingInteraction::Approval(a), PendingInteraction::Approval(b)) => a.id@ == b.id@,
            (PendingInteraction::Clarification(a), PendingInteraction::Clarification(b)) => a.id@
                == b.id@,
            _ => false,
        },
{
    reveal_strlit("a:");
    reveal_strlit("c:");
    if interaction_key(p) == interaction_key(q) {
        assert(interaction_key(p)[0] == (if p is Approval {
            'a'
        } else {
            'c'
        }));
        assert(interaction_key(q)[0] == (if q is Approval {
            'a'
        } else {
            'c'
        }));
        let a = interaction_key(p).skip(2);
        let b = interaction_key(q).skip(2);
        match (p, q) {
            (PendingInteraction::Approval(x), PendingInteraction::Approval(y)) => {
                assert(a =~= x.id@);
                assert(b =~= y.id@);
            },
            (PendingInteraction::Clarification(x), PendingInteraction::Clarification(y)) => {
                assert(a =~= x.id@);
                assert(b =~= y.id@);
            },
            _ => {},
        }
    }
}

/// Static boot info the runtime snapshot does not carry.
#[derive(Debug)]
pub struct Boot {
    pub session_id: String,
    pub user: String,
    pub version: String,
    /// Whether to show the welcome header for this (new) session.
    pub show_welcome: bool,
    /// Where to persist the composer draft across restarts.
    pub draft_path: Option<String>,
    /// Where to persist the input history across restarts.
    pub history_path: Option<String>,
    /// The active model's context window in tokens (for the context gauge).
    pub context_window: u32,
    /// UI language.
    pub locale: Locale,
    /// In-repo config files present but ignored for lack of trust.
    pub untrusted_config: Vec<String>,
    /// Resolved `reasoning_effort` value. `None` when the runtime has not supplied
    /// one: the chip must not invent it.
    pub reasoning_effort: Option<String>,
}

/// A transient status-line notification.
#[derive(Debug)]
pub struct Notification {
    pub level: NotificationLevel,
    pub message: String,
}

/// Which workbench region owns ↑/↓ and related keys.
#[derive(Clone, Copy, Debug, PartialEq, Eq, Structural)]
pub enum WorkbenchFocus {
    Input,
    Conversation,
    Activity,
    /// The list of inputs that wait to be sent.
    Pending,
    /// A running command row in the transcript holds the keyboard focus.
    Command,
    /// The footer's aggregated background-jobs summary holds the focus.
    Background,
}

/// What `/remote` offers to a phone.
#[derive(Debug)]
pub struct RemoteInvite {
    pub qr: Vec<String>,
    pub payload: String,
    pub host_fingerprint: String,
    pub relay_url: String,
}

/// A phone that asks to be let in.
#[derive(Debug)]
pub struct PairingRequest {
    pub device_name: String,
    pub platform: String,
    pub fingerprint: String,
}

/// The `/remote` invite, as the screen shows it.
#[derive(Debug)]
pub struct RemoteState {
    pub invite: RemoteInvite,
    /// Set once a phone has claimed the invite and is waiting to be accepted.
    pub pending: Option<PairingRequest>,
    /// What happened after the user decided, so the screen can say so.
    pub outcome: Option<String>,
}

/// A background process, from its start event on.
#[derive(Debug)]
pub struct BackgroundTaskChrome {
    pub label: String,
    pub started_elapsed_secs: u64,
    /// `None` while running. `Some(true)` completed ok; `Some(false)` failed or
    /// was stopped: read `stopped` to tell those apart.
    pub ok: Option<bool>,
    /// Ended by a cancel or a cleanup. A stopped task is not a failure, whatever
    /// its exit code.
    pub stopped: bool,
    pub exit_code: Option<i32>,
    pub duration_ms: Option<u64>,
    /// Output retained from authoritative events. Empty means none arrived.
    pub output: String,
}

/// A task's terminal outcome.
#[derive(Clone, Copy, Debug, PartialEq, Eq, Structural)]
pub enum BackgroundOutcome {
    Running,
    Completed,
    Failed,
    Stopped,
}

pub open spec fn outcome_of(ok: Option<bool>, stopped: bool) -> BackgroundOutcome {
    match ok {
        None => BackgroundOutcome::Running,
        Some(true) => BackgroundOutcome::Completed,
        Some(false) => if stopped {
            BackgroundOutcome::Stopped
        } else {
            BackgroundOutcome::Failed
        },
    }
}

impl BackgroundTaskChrome {
    pub fn running(label: &str, started_elapsed_secs: u64) -> (r: BackgroundTaskChrome)
        ensures
            r.label@ == label@,
            r.started_elapsed_secs == started_elapsed_secs,
            r.ok is None,
            !r.stopped,
            r.exit_code is None,
            r.duration_ms is None,
            r.output@ == Seq::<char>::empty(),
    {
        BackgroundTaskChrome {
            label: label.to_owned(),
            started_elapsed_secs,
            ok: None,
            stopped: false,
            exit_code: None,
            duration_ms: None,
            output: String::new(),
        }
    }

    pub fn is_running(&self) -> (r: bool)
        ensures
            r == (outcome_of(self.ok, self.stopped) is Running),
    {
        self.ok.is_none()
    }

    /// Terminal and unsuccessful because the work itself failed, not because it
    /// was stopped.
    pub fn is_failed(&self) -> (r: bool)
        ensures
            r == (outcome_of(self.ok, self.stopped) is Failed),
    {
        match self.ok {
            Some(false) => !self.stopped,
            _ => false,
        }
    }

    pub fn outcome(&self) -> (r: BackgroundOutcome)
        ensures
            r == outcome_of(self.ok, self.stopped),
    {
        match self.ok {
            None => BackgroundOutcome::Running,
            Some(true) => BackgroundOutcome::Completed,
            Some(false) => if self.stopped {
                BackgroundOutcome::Stopped
            } else {
                BackgroundOutcome::Failed
            },
        }
    }
}

/// An active model-round retry, held while the runtime waits out its backoff.
/// Times are milliseconds on one clock.
#[derive(Clone, Copy, Debug, PartialEq, Eq, Structural)]
pub struct Reconnecting {
    /// The retry about to happen (1-based).
    pub attempt: u32,
    pub max_attempts: u32,
    /// The backoff the runtime announced for this retry.
    pub delay_ms: u64,
    /// When the next attempt starts.
    pub retry_at_ms: u64,
}

impl Reconnecting {
    /// The whole seconds from `now_ms` until the next attempt, none once it is due.
    pub open spec fn left(self, now_ms: u64) -> nat {
        if self.retry_at_ms > now_ms {
            ((self.retry_at_ms - now_ms) / 1000) as nat
        } else {
            0
        }
    }

    /// Whole seconds until the next attempt starts, saturating at zero.
    pub fn remaining_secs(&self, now_ms: u64) -> (r: u64)
        ensures
            r == self.left(now_ms),
    {
        self.retry_at_ms.saturating_sub(now_ms) / 1000
    }
}

/// How long the brief "Reconnected" confirmation owns the status line after a
/// retry attempt starts again, in milliseconds.
pub const RECONNECTED_NOTICE_MS: u64 = 3000;

/// A child agent.
#[derive(Debug)]
pub struct ChildAgentView {
    pub id: String,
    pub title: Option<String>,
    pub purpose: String,
    pub agent_name: Option<String>,
    pub profile_id: Option<String>,
    pub read_only: bool,
    pub input_tokens: u32,
    pub output_tokens: u32,
    pub recent_step: Option<String>,
    pub stop: Option<ChildStop>,
    pub limit: Option<ChildLimit>,
    /// The calls it made, oldest first.
    pub activity: Vec<ChildCall>,
    /// What it contributed, in words.
    pub contribution: Option<String>,
}

/// One call of a child agent.
#[derive(Debug)]
pub struct ChildCall {
    pub tool: String,
    pub arguments: String,
}

/// A background process or a child agent.
#[derive(Debug)]
pub enum ActivityId {
    Background(String),
    Child(String),
}

/// The viewport of an activity page.
#[derive(Clone, Copy, Debug, PartialEq, Eq, Structural)]
pub struct ActivityView {
    pub follow: bool,
    pub unread: usize,
    pub scroll: usize,
    pub max_scroll: usize,
}

/// The UI state.
#[derive(Debug)]
pub struct AppState {
    pub running: bool,
    /// False once the event subscription closes. Commands stay disabled until the
    /// user exits and reconnects.
    pub runtime_connected: bool,
    pub session_id: String,
    pub transcript: TranscriptState,
    /// Live raw reasoning. Feeds only the status line.
    pub live_reasoning: String,
    /// Background tasks by id, each id once.
    pub background_task_labels: Vec<(String, BackgroundTaskChrome)>,
    pub children: Vec<ChildAgentView>,
    pub composer: Composer,
    /// The next step offered as ghost text: presentation, never input.
    pub prompt_suggestion: Option<String>,
    pub theme: Theme,
    /// Terminal size (cols, rows).
    pub size: (u16, u16),
    pub active_screen: Screen,
    pub tools_screen: ToolsScreenState,
    pub plan: Option<UiPlan>,
    pub project_rule_sources: Vec<String>,
    pub turn_diff_files: Option<usize>,
    pub history_query: Option<String>,
    pub diff: Option<UiDiff>,
    pub diff_selected: usize,
    /// Whether the current busy turn was launched with `/goal`.
    pub goal_mode_active: bool,
    pub work_profile: String,
    pub collaboration: String,
    /// The attachments staged for the next message, as they are named.
    pub pending_attachments: Vec<String>,
    pub vision: bool,
    pub sessions: Vec<UiSessionSummary>,
    pub sessions_selected: usize,
    pub context_files: Vec<String>,
    pub context_tokens: u32,
    pub token_input: u32,
    pub token_output: u32,
    pub token_cached: u32,
    pub overlay: Option<Overlay>,
    /// Requests that wait for the overlay, oldest first.
    pub pending_interactions: Vec<PendingInteraction>,
    /// The command id of each request by its key, each key once.
    pub interaction_command_ids: Vec<(String, String)>,
    /// Turn inputs sent but not yet answered by the runtime, oldest first.
    pub pending_submissions: Vec<PendingSubmission>,
    pub pending_selected: usize,
    pub pending_hover: Option<usize>,
    pub status: RuntimeStatus,
    pub finalization_stage: Option<FinalizationStage>,
    /// Number of tools started in the active turn.
    pub turn_tool_calls: usize,
    /// Coarse activity label shown while busy.
    pub activity: Option<String>,
    /// Elapsed for what `activity` names, when it owns a clock of its own.
    pub activity_elapsed_secs: Option<u64>,
    pub reconnecting: Option<Reconnecting>,
    /// When the "Reconnected" confirmation expires.
    pub reconnected_until_ms: Option<u64>,
    pub notification: Option<Notification>,
    pub web_url: Option<String>,
    pub restart_requested: bool,
    pub web_starting: bool,
    pub remote: Option<RemoteState>,
    pub available_models: Vec<ModelRef>,
    pub mode: PermissionProfile,
    pub screen_scroll: usize,
    pub workbench_focus: WorkbenchFocus,
    pub input_rect: Option<(u16, u16, u16, u16)>,
    /// Transcript index of the user shell the Shell Details screen shows.
    pub shell_screen_item: Option<usize>,
    pub activity_open: Option<ActivityId>,
    pub activity_view: ActivityView,
    pub background_list_selected: Option<String>,
    /// The background tasks whose failure was seen, each id once.
    pub background_failures_seen: Vec<String>,
    pub background_footer_hit: Option<(u16, u16, u16)>,
    /// The running command row under the Command workbench focus.
    pub command_selected: Option<String>,
    pub plan_collapsed: bool,
    pub collaboration_collapsed: bool,
    pub tools_expanded: bool,
    /// Review index into user turns (`None` = live edge).
    pub turn_nav: Option<usize>,
    pub slash_selected: usize,
    /// The popup was dismissed; it stays hidden until the text changes.
    pub slash_popup_dismissed: bool,
    pub file_candidates: Vec<String>,
    pub file_index_requested: bool,
    /// Discovered skills: `(name, description)`.
    pub skill_catalog: Vec<(String, String)>,
    pub skill_catalog_root: Option<String>,
    pub repository: String,
    pub branch: Option<String>,
    pub goal: String,
    pub model_label: String,
    pub reasoning_effort: Option<String>,
    pub mode_label: String,
    pub pending_permission: Option<PermissionProfile>,
    /// Local wall clock `HH:MM`.
    pub clock_label: String,
    pub context_window_tokens: u32,
    pub editor_chord_armed: bool,
    pub cancel_armed: bool,
    pub force_cancel_armed: bool,
    pub resumable_task: bool,
    pub quit_armed: bool,
    /// Frame counter driving the busy spinner animation.
    pub tick: u64,
    pub turn_started_at_ms: Option<u64>,
    /// Elapsed seconds of the current busy turn.
    pub elapsed_secs: u64,
    pub dark: bool,
    pub jump_to_bottom: bool,
    pub locale: Locale,
    /// In-repo config files present but ignored for lack of trust.
    pub untrusted_config: Vec<String>,
    pub boot: Boot,
}

/// What a session starts with, but for the fields that come from elsewhere: no
/// content, no selection, nothing armed.
pub open spec fn starts_blank(s: AppState) -> bool {
    &&& s.running
    &&& s.runtime_connected
    &&& s.transcript.items@.len() == 0
    &&& s.live_reasoning@.len() == 0
    &&& s.background_task_labels@.len() == 0
    &&& s.children@.len() == 0
    &&& s.composer.text@.len() == 0
    &&& s.composer.cursor == 0
    &&& !s.composer.browsing_history
    &&& s.prompt_suggestion is None
    &&& s.size == (80u16, 24u16)
    &&& s.active_screen == Screen::Conversation
    &&& s.tools_screen == (ToolsScreenState { selected: 0, filter: ToolFilter::All })
    &&& s.plan is None
    &&& s.project_rule_sources@.len() == 0
    &&& s.turn_diff_files is None
    &&& s.history_query is None
    &&& s.diff is None
    &&& s.diff_selected == 0
    &&& !s.goal_mode_active
    &&& s.work_profile@ == "balanced"@
    &&& s.collaboration@ == "chat"@
    &&& s.pending_attachments@.len() == 0
    &&& !s.vision
    &&& s.sessions@.len() == 0
    &&& s.sessions_selected == 0
    &&& s.context_files@.len() == 0
    &&& s.context_tokens == 0
    &&& s.token_input == 0
    &&& s.token_output == 0
    &&& s.token_cached == 0
    &&& s.overlay is None
    &&& s.pending_interactions@.len() == 0
    &&& s.interaction_command_ids@.len() == 0
    &&& s.pending_submissions@.len() == 0
    &&& s.pending_selected == 0
    &&& s.pending_hover is None
}

/// The rest of what a session starts with.
pub open spec fn starts_idle(s: AppState) -> bool {
    &&& s.status == RuntimeStatus::Idle
    &&& s.finalization_stage is None
    &&& s.turn_tool_calls == 0
    &&& s.activity is None
    &&& s.activity_elapsed_secs is None
    &&& s.reconnecting is None
    &&& s.reconnected_until_ms is None
    &&& s.notification is None
    &&& s.web_url is None
    &&& !s.restart_requested
    &&& !s.web_starting
    &&& s.remote is None
    &&& s.available_models@.len() == 0
    &&& s.mode == PermissionProfile::Assisted
    &&& s.screen_scroll == 0
    &&& s.workbench_focus == WorkbenchFocus::Input
    &&& s.input_rect is None
    &&& s.shell_screen_item is None
    &&& s.activity_open is None
    &&& s.activity_view == (ActivityView { follow: true, unread: 0, scroll: 0, max_scroll: 0 })
    &&& s.background_list_selected is None
    &&& s.background_failures_seen@.len() == 0
    &&& s.background_footer_hit is None
    &&& s.command_selected is None
    &&& !s.plan_collapsed
    &&& !s.collaboration_collapsed
    &&& !s.tools_expanded
    &&& s.turn_nav is None
    &&& s.slash_selected == 0
    &&& !s.slash_popup_dismissed
    &&& s.file_candidates@.len() == 0
    &&& !s.file_index_requested
    &&& s.skill_catalog@.len() == 0
    &&& s.skill_catalog_root is None
    &&& s.repository@.len() == 0
    &&& s.branch is None
    &&& s.goal@.len() == 0
    &&& s.model_label@ == "—"@
    &&& s.mode_label@ == "—"@
    &&& s.pending_permission is None
    &&& s.clock_label@.len() == 0
    &&& !s.editor_chord_armed
    &&& !s.cancel_armed
    &&& !s.force_cancel_armed
    &&& !s.resumable_task
    &&& !s.quit_armed
    &&& s.tick == 0
    &&& s.turn_started_at_ms is None
    &&& s.elapsed_secs == 0
    &&& !s.jump_to_bottom
}

/// No key occurs twice.
pub open spec fn keys_once<V>(pairs: Seq<(String, V)>) -> bool {
    forall|i: int, j: int|
        0 <= i < j < pairs.len() ==> (#[trigger] pairs[i]).0@ != (#[trigger] pairs[j]).0@
}

/// No text occurs twice.
pub open spec fn texts_once(texts: Seq<String>) -> bool {
    forall|i: int, j: int|
        0 <= i < j < texts.len() ==> (#[trigger] texts[i])@ != (#[trigger] texts[j])@
}

/// The text an optional string holds.
pub open spec fn opt_text(o: Option<String>) -> Option<Seq<char>> {
    match o {
        Some(s) => Some(s@),
        None => None,
    }
}

pub fn copy_opt(o: &Option<String>) -> (r: Option<String>)
    ensures
        opt_text(r) == opt_text(*o),
{
    match o {
        Some(s) => Some(s.clone()),
        None => None,
    }
}

/// How an image is written into a sentence in a language.
pub open spec fn image_template(locale: Locale) -> Seq<char> {
    trimmed_end(text_of(locale).attachment_chip@)
}

/// The first `n` image names of a message.
pub open spec fn image_names(template: Seq<char>, n: nat) -> Seq<Seq<char>> {
    Seq::new(n, |i: int| replaced(template, "{}"@, decimal((i + 1) as nat)))
}

/// The calls of a transcript item, none where it is no group of calls.
pub open spec fn calls_of(item: TranscriptItem) -> Seq<ToolCallBlock> {
    match item {
        TranscriptItem::ToolGroup(group) => group.calls@,
        _ => Seq::empty(),
    }
}

/// The first call from position `i` on that has the id.
pub open spec fn call_position(calls: Seq<ToolCallBlock>, id: Seq<char>, i: int) -> Option<int>
    decreases calls.len() - i,
{
    if i >= calls.len() {
        None
    } else if calls[i].id@ == id {
        Some(i)
    } else {
        call_position(calls, id, i + 1)
    }
}

/// Where the first call with the id stands, from item `i` on.
pub open spec fn location_from(items: Seq<TranscriptItem>, id: Seq<char>, i: int) -> Option<
    (int, int),
>
    decreases items.len() - i,
{
    if i >= items.len() {
        None
    } else {
        match call_position(calls_of(items[i]), id, 0) {
            Some(call) => Some((i, call)),
            None => location_from(items, id, i + 1),
        }
    }
}

impl AppState {
    /// The call that an approval holds back.
    pub open spec fn gated(self) -> Option<Seq<char>> {
        match self.overlay {
            Some(o) => if o.kind == OverlayKind::Approval {
                opt_text(o.gated_call)
            } else {
                None
            },
            None => None,
        }
    }

    /// Whether a stop may be offered at all: a live turn of a connected runtime.
    pub open spec fn may_stop(self) -> bool {
        self.runtime_connected && self.status == RuntimeStatus::Busy
    }

    /// Whether a call runs, was not asked to stop and waits for no approval.
    pub open spec fn stoppable(self, block: ToolCallBlock) -> bool {
        &&& block.status == ToolStatus::Running
        &&& block.stop != StopRequest::Sent
        &&& self.gated() != Some(block.id@)
    }

    /// The places of the stoppable calls among the first `n` calls of item `item`.
    pub open spec fn stoppable_in(self, item: int, n: int) -> Seq<(int, int)>
        decreases n,
    {
        if n <= 0 {
            Seq::empty()
        } else {
            let before = self.stoppable_in(item, n - 1);
            if self.stoppable(calls_of(self.transcript.items@[item])[n - 1]) {
                before.push((item, n - 1))
            } else {
                before
            }
        }
    }

    /// The places of the stoppable calls among the first `n` items.
    pub open spec fn stoppable_upto(self, n: int) -> Seq<(int, int)>
        decreases n,
    {
        if n <= 0 {
            Seq::empty()
        } else {
            self.stoppable_upto(n - 1) + self.stoppable_in(
                n - 1,
                calls_of(self.transcript.items@[n - 1]).len() as int,
            )
        }
    }

    /// The places of the commands that this client may stop.
    pub open spec fn stoppable_places(self) -> Seq<(int, int)> {
        if self.may_stop() {
            self.stoppable_upto(self.transcript.items@.len() as int)
        } else {
            Seq::empty()
        }
    }

    /// The call that wears the focus marker.
    pub open spec fn focused(self) -> Option<Seq<char>> {
        if self.workbench_focus != WorkbenchFocus::Command || !self.may_stop() {
            None
        } else {
            match self.command_selected {
                None => None,
                Some(id) => match location_from(self.transcript.items@, id@, 0) {
                    None => None,
                    Some((item, call)) => if self.stoppable(
                        calls_of(self.transcript.items@[item])[call],
                    ) {
                        Some(id@)
                    } else {
                        None
                    },
                },
            }
        }
    }

    /// The caret stands within the composer's text, and what is kept by a key or as a
    /// set is kept once: background tasks by their ids, command ids by their requests'
    /// keys, and the failures that were seen.
    pub open spec fn wf(self) -> bool {
        &&& self.composer.wf()
        &&& keys_once(self.background_task_labels@)
        &&& keys_once(self.interaction_command_ids@)
        &&& texts_once(self.background_failures_seen@)
    }

    /// The state that a session starts in. `dark` says whether `theme` is dark.
    pub fn new(theme: Theme, boot: Boot, dark: bool) -> (r: AppState)
        ensures
            starts_blank(r),
            starts_idle(r),
            r.wf(),
            r.composer.image_template@ == image_template(boot.locale),
            r.session_id@ == boot.session_id@,
            r.theme == theme,
            r.dark == dark,
            opt_text(r.reasoning_effort) == opt_text(boot.reasoning_effort),
            r.context_window_tokens == boot.context_window,
            r.locale == boot.locale,
            views(r.untrusted_config@) == views(boot.untrusted_config@),
            r.boot == boot,
    {
        let mut composer = Composer::new();
        // The composer writes images into the sentence in the session's own
        // language, so it needs the template before the first paste.
        composer.image_template = trim_end(boot.locale.text().attachment_chip);
        AppState {
            running: true,
            runtime_connected: true,
            session_id: boot.session_id.clone(),
            transcript: TranscriptState::new(),
            live_reasoning: String::new(),
            background_task_labels: Vec::new(),
            children: Vec::new(),
            composer,
            prompt_suggestion: None,
            theme,
            size: (80, 24),
            active_screen: Screen::Conversation,
            tools_screen: ToolsScreenState { selected: 0, filter: ToolFilter::All },
            plan: None,
            project_rule_sources: Vec::new(),
            turn_diff_files: None,
            history_query: None,
            diff: None,
            diff_selected: 0,
            goal_mode_active: false,
            work_profile: "balanced".to_owned(),
            collaboration: "chat".to_owned(),
            pending_attachments: Vec::new(),
            vision: false,
            sessions: Vec::new(),
            sessions_selected: 0,
            context_files: Vec::new(),
            context_tokens: 0,
            token_input: 0,
            token_output: 0,
            token_cached: 0,
            overlay: None,
            pending_interactions: Vec::new(),
            interaction_command_ids: Vec::new(),
            pending_submissions: Vec::new(),
            pending_selected: 0,
            pending_hover: None,
            status: RuntimeStatus::Idle,
            finalization_stage: None,
            turn_tool_calls: 0,
            activity: None,
            activity_elapsed_secs: None,
            reconnecting: None,
            reconnected_until_ms: None,
            notification: None,
            web_url: None,
            restart_requested: false,
            web_starting: false,
            remote: None,
            available_models: Vec::new(),
            mode: PermissionProfile::Assisted,
            screen_scroll: 0,
            workbench_focus: WorkbenchFocus::Input,
            input_rect: None,
            shell_screen_item: None,
            activity_open: None,
            activity_view: ActivityView { follow: true, unread: 0, scroll: 0, max_scroll: 0 },
            background_list_selected: None,
            background_failures_seen: Vec::new(),
            background_footer_hit: None,
            command_selected: None,
            plan_collapsed: false,
            collaboration_collapsed: false,
            tools_expanded: false,
            turn_nav: None,
            slash_selected: 0,
            slash_popup_dismissed: false,
            file_candidates: Vec::new(),
            file_index_requested: false,
            skill_catalog: Vec::new(),
            skill_catalog_root: None,
            repository: String::new(),
            branch: None,
            goal: String::new(),
            model_label: "—".to_owned(),
            reasoning_effort: copy_opt(&boot.reasoning_effort),
            mode_label: "—".to_owned(),
            pending_permission: None,
            clock_label: String::new(),
            context_window_tokens: boot.context_window,
            editor_chord_armed: false,
            cancel_armed: false,
            force_cancel_armed: false,
            resumable_task: false,
            quit_armed: false,
            tick: 0,
            turn_started_at_ms: None,
            elapsed_secs: 0,
            dark,
            jump_to_bottom: false,
            locale: boot.locale,
            untrusted_config: copy_all(&boot.untrusted_config),
            boot,
        }
    }

    /// The tool call an open approval overlay is holding, if any.
    ///
    /// Presentation only: this exists so that a call waiting on the human stops
    /// wearing the running mark. A request that names no call gates no row.
    pub fn approval_gated_call(&self) -> (r: Option<&String>)
        ensures
            match r {
                Some(id) => self.gated() == Some(id@),
                None => self.gated() is None,
            },
    {
        match &self.overlay {
            Some(o) => if o.kind == OverlayKind::Approval {
                match &o.gated_call {
                    Some(id) => Some(id),
                    None => None,
                }
            } else {
                None
            },
            None => None,
        }
    }

    /// Localized UI strings for the active locale.
    pub fn t(&self) -> (r: UiText)
        ensures
            r == text_of(self.locale),
    {
        self.locale.text()
    }

    /// How an image is written into a sentence: `[图片 #{}]`, in the session's
    /// language. One name for a picture, and never a path.
    pub fn image_token_template(&self) -> (r: String)
        ensures
            r@ == image_template(self.locale),
    {
        trim_end(self.t().attachment_chip)
    }

    /// A message as the conversation shows it. This only speaks for a message that
    /// carried pictures and no words at all, which would read as an empty line.
    pub fn message_with_images(&self, images: usize, text: &str) -> (r: String)
        ensures
            r@ == (if trimmed(text@).len() != 0 || images == 0 {
                text@
            } else {
                joined(image_names(image_template(self.locale), images as nat), " "@)
            }),
    {
        if !trim(text).as_str().is_empty() || images == 0 {
            return text.to_owned();
        }
        let template = self.image_token_template();
        let mut names: Vec<String> = Vec::new();
        let mut n: usize = 0;
        while n < images
            invariant
                n <= images,
                template@ == image_template(self.locale),
                views(names@) =~= image_names(template@, n as nat),
            decreases images - n,
        {
            names.push(replace(template.as_str(), "{}", dec(n as u64 + 1).as_str()));
            n += 1;
        }
        join(&names, " ")
    }

    pub fn is_busy(&self) -> (r: bool)
        ensures
            r == (self.status == RuntimeStatus::Busy),
    {
        self.status == RuntimeStatus::Busy
    }

    /// Whether this client may offer a stop for a running command at all.
    ///
    /// A stop is a live execution action: a residual running row left by a replay
    /// must not expose a cancel.
    pub fn can_stop_commands(&self) -> (r: bool)
        ensures
            r == self.may_stop(),
    {
        self.runtime_connected && self.is_busy()
    }

    /// Whether a call is a running command this client may stop.
    fn is_stoppable(&self, block: &ToolCallBlock) -> (r: bool)
        ensures
            r == self.stoppable(*block),
    {
        if block.status != ToolStatus::Running || block.stop == StopRequest::Sent {
            return false;
        }
        match self.approval_gated_call() {
            Some(id) => !same(id.as_str(), block.id.as_str()),
            None => true,
        }
    }

    /// Whether the call at `(item, call)` is a running command this client may
    /// stop: still running, not already asked to stop, not awaiting approval.
    pub fn command_is_stoppable(&self, item: usize, call: usize) -> (r: bool)
        ensures
            r == (item < self.transcript.items@.len() && call < calls_of(
                self.transcript.items@[item as int],
            ).len() && self.stoppable(calls_of(self.transcript.items@[item as int])[call as int])),
    {
        if item >= self.transcript.items.len() {
            return false;
        }
        match &self.transcript.items[item] {
            TranscriptItem::ToolGroup(group) => call < group.calls.len() && self.is_stoppable(
                &group.calls[call],
            ),
            _ => false,
        }
    }

    /// The transcript location of a running command by its authoritative id.
    pub fn command_location(&self, id: &str) -> (r: Option<(usize, usize)>)
        ensures
            match r {
                Some((item, call)) => location_from(self.transcript.items@, id@, 0) == Some(
                    (item as int, call as int),
                ) && item < self.transcript.items@.len() && call < calls_of(
                    self.transcript.items@[item as int],
                ).len(),
                None => location_from(self.transcript.items@, id@, 0) is None,
            },
    {
        let mut item: usize = 0;
        while item < self.transcript.items.len()
            invariant
                item <= self.transcript.items@.len(),
                location_from(self.transcript.items@, id@, 0) == location_from(
                    self.transcript.items@,
                    id@,
                    item as int,
                ),
            decreases self.transcript.items@.len() - item,
        {
            match &self.transcript.items[item] {
                TranscriptItem::ToolGroup(group) => {
                    let mut call: usize = 0;
                    while call < group.calls.len()
                        invariant
                            item < self.transcript.items@.len(),
                            self.transcript.items@[item as int] == TranscriptItem::ToolGroup(*group),
                            location_from(self.transcript.items@, id@, 0) == location_from(
                                self.transcript.items@,
                                id@,
                                item as int,
                            ),
                            call <= group.calls@.len(),
                            call_position(group.calls@, id@, 0) == call_position(
                                group.calls@,
                                id@,
                                call as int,
                            ),
                        decreases group.calls@.len() - call,
                    {
                        if same(group.calls[call].id.as_str(), id) {
                            return Some((item, call));
                        }
                        call += 1;
                    }
                },
                _ => {},
            }
            item += 1;
        }
        None
    }

    /// The call that is painted with the focus marker, when the Command focus is
    /// active and the selection is still a stoppable running command. A stale
    /// selection gives `None`, so a finished row never keeps the marker.
    pub fn focused_command(&self) -> (r: Option<&String>)
        ensures
            match r {
                Some(id) => self.focused() == Some(id@),
                None => self.focused() is None,
            },
    {
        if self.workbench_focus != WorkbenchFocus::Command || !self.can_stop_commands() {
            return None;
        }
        match &self.command_selected {
            None => None,
            Some(id) => match self.command_location(id.as_str()) {
                None => None,
                Some((item, call)) => if self.command_is_stoppable(item, call) {
                    Some(id)
                } else {
                    None
                },
            },
        }
    }

    /// The running commands this client may stop, in transcript order, as
    /// `(item, call, id)`. Empty unless [`AppState::can_stop_commands`].
    pub fn stoppable_commands(&self) -> (r: Vec<(usize, usize, String)>)
        ensures
            r@.len() == self.stoppable_places().len(),
            forall|i: int|
                0 <= i < r@.len() ==> (#[trigger] r@[i]).0 == self.stoppable_places()[i].0 && r@[i].1
                    == self.stoppable_places()[i].1 && r@[i].2@ == calls_of(
                    self.transcript.items@[r@[i].0 as int],
                )[r@[i].1 as int].id@,
    {
        let mut out: Vec<(usize, usize, String)> = Vec::new();
        if !self.can_stop_commands() {
            return out;
        }
        let mut item: usize = 0;
        while item < self.transcript.items.len()
            invariant
                item <= self.transcript.items@.len(),
                out@.len() == self.stoppable_upto(item as int).len(),
                forall|i: int|
                    0 <= i < out@.len() ==> (#[trigger] out@[i]).0 == self.stoppable_upto(
                        item as int,
                    )[i].0 && out@[i].1 == self.stoppable_upto(item as int)[i].1 && out@[i].2@
                        == calls_of(
                        self.transcript.items@[out@[i].0 as int],
                    )[out@[i].1 as int].id@,
            decreases self.transcript.items@.len() - item,
        {
            match &self.transcript.items[item] {
                TranscriptItem::ToolGroup(group) => {
                    let mut call: usize = 0;
                    let ghost before = self.stoppable_upto(item as int);
                    while call < group.calls.len()
                        invariant
                            item < self.transcript.items@.len(),
                            self.transcript.items@[item as int] == TranscriptItem::ToolGroup(*group),
                            call <= group.calls@.len(),
                            out@.len() == (before + self.stoppable_in(item as int, call as int)).len(),
                            forall|i: int|
                                0 <= i < out@.len() ==> (#[trigger] out@[i]).0 == (before
                                    + self.stoppable_in(item as int, call as int))[i].0
                                    && out@[i].1 == (before + self.stoppable_in(
                                    item as int,
                                    call as int,
                                ))[i].1 && out@[i].2@ == calls_of(
                                    self.transcript.items@[out@[i].0 as int],
                                )[out@[i].1 as int].id@,
                        decreases group.calls@.len() - call,
                    {
                        if self.is_stoppable(&group.calls[call]) {
                            out.push((item, call, group.calls[call].id.clone()));
                        }
                        call += 1;
                    }
                },
                _ => {},
            }
            item += 1;
        }
        out
    }

    /// The active model's context window in tokens (0 = unknown).
    pub fn context_window(&self) -> (r: u32)
        ensures
            r == self.context_window_tokens,
    {
        self.context_window_tokens
    }

    pub fn user(&self) -> (r: &str)
        ensures
            r@ == self.boot.user@,
    {
        self.boot.user.as_str()
    }

    pub fn version(&self) -> (r: &str)
        ensures
            r@ == self.boot.version@,
    {
        self.boot.version.as_str()
    }

    pub fn show_welcome(&self) -> (r: bool)
        ensures
            r == self.boot.show_welcome,
    {
        self.boot.show_welcome
    }

    pub fn draft_path(&self) -> (r: Option<&String>)
        ensures
            match r {
                Some(p) => self.boot.draft_path == Some(*p),
                None => self.boot.draft_path is None,
            },
    {
        self.boot.draft_path.as_ref()
    }

    pub fn history_path(&self) -> (r: Option<&String>)
        ensures
            match r {
                Some(p) => self.boot.history_path == Some(*p),
                None => self.boot.history_path is None,
            },
    {
        self.boot.history_path.as_ref()
    }

    /// Clear any pending Ctrl+C escalation (any other activity resets it).
    #[verifier::rlimit(30)]
    pub fn disarm_ctrlc(&mut self)
        ensures
            *final(self) == (AppState {
                cancel_armed: false,
                force_cancel_armed: false,
                quit_armed: false,
                ..*old(self)
            }),
    {
        self.cancel_armed = false;
        self.force_cancel_armed = false;
        self.quit_armed = false;
    }

    /// The user shell block the Shell Details screen is focused on.
    pub fn focused_user_shell(&self) -> (r: Option<&UserShellBlock>)
        ensures
            match self.shell_screen_item {
                Some(i) => if i < self.transcript.items@.len() {
                    match self.transcript.items@[i as int] {
                        TranscriptItem::UserShell(shell) => r == Some(&shell),
                        _ => r is None,
                    }
                } else {
                    r is None
                },
                None => r is None,
            },
    {
        match self.shell_screen_item {
            None => None,
            Some(i) => if i < self.transcript.items.len() {
                match &self.transcript.items[i] {
                    TranscriptItem::UserShell(shell) => Some(shell),
                    _ => None,
                }
            } else {
                None
            },
        }
    }
}

/// Without a live turn of a connected runtime no command can be stopped, and no
/// row wears the focus marker.
pub proof fn no_stop_without_a_live_turn(s: AppState)
    requires
        !s.runtime_connected || s.status != RuntimeStatus::Busy,
    ensures
        s.stoppable_places().len() == 0,
        s.focused() is None,
{
}

/// The call that an approval holds back is never offered for a stop, and never
/// wears the focus marker.
pub proof fn gated_call_is_not_stoppable(s: AppState, block: ToolCallBlock)
    requires
        s.gated() == Some(block.id@),
    ensures
        !s.stoppable(block),
{
}

} // verus!
