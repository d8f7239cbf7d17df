//! The decisions of the event loop: what an effect asks of the host, when a notice
//! fades, when a frame is painted, and what is kept on exit.

use vstd::prelude::*;

use crate::i18n::text_of;
use crate::json::{parse_texts, print_texts, texts_parsed, texts_printed};
use crate::model::views;
use crate::number::minus;
use crate::protocol::{NotificationLevel, RuntimeStatus};
use crate::screen::Screen;
use crate::state::{interaction_key, keys_once, AppState, Notification, PendingInteraction};
use crate::strings::{cat2, cat4, control, is_control, same, trim, trimmed};

verus! {

broadcast use crate::model::group_views;

/// Shown when the host brought no launcher for the Web UI. A local daemon carries one,
/// so that this says nothing of where the runtime is.
pub const WEB_LAUNCHER_UNAVAILABLE: &'static str = "当前 TUI 没有可用的 Web UI 启动器";

pub const URL_OPENER_UNAVAILABLE: &'static str = "当前主机没有可用的 URL 打开器";

pub const REMOTE_UNAVAILABLE: &'static str = "当前 TUI 连接的是远程 daemon，不能把这台机器开放给手机";

pub const INTERACTION_NOT_SENT: &'static str = "事件流已断开；审批/澄清未发送，请退出后重新连接";

/// The prompt of the quit confirmation.
pub const QUIT_PROMPT: &'static str = "再按一次 Ctrl+C 退出";

/// How many history entries persist across restarts.
pub const HISTORY_CAP: usize = 100;

/// Errors running the terminal UI.
#[derive(Debug)]
pub enum TuiError {
    /// What the terminal's I/O failed with.
    Io(String),
}

impl TuiError {
    pub fn message(&self) -> (r: String)
        ensures
            match self {
                TuiError::Io(e) => r@ == "terminal io error: "@ + e@,
            },
    {
        match self {
            TuiError::Io(e) => cat2("terminal io error: ", e.as_str()),
        }
    }
}

// ---------------------------------------------------------------- effects

/// What the reducer asks for. `C` is a command to the runtime.
pub enum Effect<C> {
    Send(C),
    Submit { command: C, command_id: String },
    SendInteraction { command: C, restore: PendingInteraction, command_id: String },
    LoadFileCandidates { repository: String },
    StartWeb,
    StartRemote { local: bool },
    AnswerPairing { accept: bool },
    OpenWebUrl(String),
    OpenExternalEditor { text: String },
    Quit,
}

/// What is handed to the delivery worker.
pub enum DeliveryJob<C> {
    Command { session_id: String, command: C },
    Submission { session_id: String, command_id: String, command: C },
    Interaction {
        session_id: String,
        command: C,
        restore: PendingInteraction,
        command_id: String,
        key: String,
    },
}

/// What is asked of the remote side.
#[derive(Clone, Copy, Debug, PartialEq, Eq, Structural)]
pub enum RemoteRequest {
    Invite { local: bool },
    Pending,
    Accept,
    Reject,
}

/// What the host can do.
#[derive(Clone, Copy, Debug, PartialEq, Eq, Structural)]
pub struct HostAbilities {
    pub web_launcher: bool,
    pub url_opener: bool,
    pub remote_launcher: bool,
}

/// What the host does about an effect.
pub enum Dispatch<C> {
    /// Nothing more: the state says why, or that it is over.
    Done,
    Deliver(DeliveryJob<C>),
    /// The answer was not sent: its overlay comes back.
    RestoreInteraction(PendingInteraction),
    LoadFiles { repository: String },
    LaunchWeb,
    WebUnavailable { message: String },
    /// Ask the remote side; `poll` where it is then asked for a waiting phone.
    AskRemote { request: RemoteRequest, poll: bool },
    RemoteUnavailable { message: String },
    OpenUrl { url: String },
    UrlUnavailable { url: String, message: String },
    Edit { text: String },
}

/// The notice on screen says `text` as an error.
pub open spec fn says_error(state: AppState, text: Seq<char>) -> bool {
    state.notification matches Some(n) && n.level == NotificationLevel::Error && n.message@ == text
}

/// Everything but the notice is what it was.
pub open spec fn only_notice_changed(a: AppState, b: AppState) -> bool {
    b == (AppState { notification: b.notification, ..a })
}

/// The command id kept for a key.
pub open spec fn kept_id(ids: Seq<(String, String)>, key: Seq<char>, i: int) -> Option<Seq<char>>
    decreases ids.len() - i,
{
    if i >= ids.len() {
        None
    } else if ids[i].0@ == key {
        Some(ids[i].1@)
    } else {
        kept_id(ids, key, i + 1)
    }
}

proof fn kept_id_of_push(ids: Seq<(String, String)>, entry: (String, String), key: Seq<char>, i: int)
    requires
        0 <= i <= ids.len(),
    ensures
        kept_id(ids.push(entry), key, i) == (match kept_id(ids, key, i) {
            Some(v) => Some(v),
            None => if entry.0@ == key {
                Some(entry.1@)
            } else {
                None
            },
        }),
    decreases ids.len() - i,
{
    let all = ids.push(entry);
    if i < ids.len() {
        assert(all[i] == ids[i]);
        kept_id_of_push(ids, entry, key, i + 1);
    } else {
        assert(all[i] == entry);
        reveal_with_fuel(kept_id, 2);
    }
}

proof fn kept_id_of_update(
    ids: Seq<(String, String)>,
    at: int,
    entry: (String, String),
    key: Seq<char>,
    i: int,
)
    requires
        0 <= i <= ids.len(),
        0 <= at < ids.len(),
        ids[at].0@ == entry.0@,
        forall|k: int| 0 <= k < at ==> (#[trigger] ids[k]).0@ != entry.0@,
    ensures
        key != entry.0@ ==> kept_id(ids.update(at, entry), key, i) == kept_id(ids, key, i),
        key == entry.0@ && i <= at ==> kept_id(ids.update(at, entry), key, i) == Some(entry.1@),
    decreases ids.len() - i,
{
    let all = ids.update(at, entry);
    if i < ids.len() {
        kept_id_of_update(ids, at, entry, key, i + 1);
        if i == at {
            assert(all[i] == entry);
        } else {
            assert(all[i] == ids[i]);
        }
    }
}

proof fn kept_id_from(ids: Seq<(String, String)>, i: int, at: int)
    requires
        keys_once(ids),
        0 <= at <= i < ids.len(),
    ensures
        kept_id(ids, ids[i].0@, at) == Some(ids[i].1@),
    decreases i - at,
{
    if at < i {
        assert(ids[at].0@ != ids[i].0@);
        kept_id_from(ids, i, at + 1);
    }
}

/// Every kept id is the one that its key finds.
pub proof fn kept_ids_are_found(ids: Seq<(String, String)>, i: int)
    requires
        keys_once(ids),
        0 <= i < ids.len(),
    ensures
        kept_id(ids, ids[i].0@, 0) == Some(ids[i].1@),
{
    kept_id_from(ids, i, 0);
}

/// Keep the id of a request, so that a retry reuses the same envelope.
fn keep_id(ids: &mut Vec<(String, String)>, key: &str, command_id: &str)
    ensures
        keys_once(old(ids)@) ==> keys_once(final(ids)@),
        kept_id(final(ids)@, key@, 0) == Some(command_id@),
        forall|k: Seq<char>|
            k != key@ ==> #[trigger] kept_id(final(ids)@, k, 0) == kept_id(old(ids)@, k, 0),
{
    let ghost before = ids@;
    let mut i: usize = 0;
    while i < ids.len()
        invariant
            ids@ == before,
            before == old(ids)@,
            i <= ids@.len(),
            forall|k: int| 0 <= k < i ==> (#[trigger] before[k]).0@ != key@,
            kept_id(before, key@, 0) == kept_id(before, key@, i as int),
        decreases ids@.len() - i,
    {
        if same(ids[i].0.as_str(), key) {
            let entry = (key.to_owned(), command_id.to_owned());
            let ghost e = entry;
            ids.set(i, entry);
            proof {
                assert(ids@ =~= before.update(i as int, e));
                kept_id_of_update(before, i as int, e, key@, 0);
                assert forall|k: Seq<char>| k != key@ implies #[trigger] kept_id(ids@, k, 0)
                    == kept_id(before, k, 0) by {
                    kept_id_of_update(before, i as int, e, k, 0);
                }
            }
            return ;
        }
        i += 1;
    }
    let entry = (key.to_owned(), command_id.to_owned());
    let ghost e = entry;
    ids.push(entry);
    proof {
        assert(ids@ =~= before.push(e));
        kept_id_of_push(before, e, key@, 0);
        assert forall|k: Seq<char>| k != key@ implies #[trigger] kept_id(ids@, k, 0) == kept_id(
            before,
            k,
            0,
        ) by {
            kept_id_of_push(before, e, k, 0);
        }
    }
}

fn error_notice(text: &str) -> (r: Option<Notification>)
    ensures
        r matches Some(n) && n.level == NotificationLevel::Error && n.message@ == text@,
{
    Some(Notification { level: NotificationLevel::Error, message: text.to_owned() })
}

#[verifier::rlimit(30)]
fn tell_error(state: &mut AppState, text: &str)
    ensures
        only_notice_changed(*old(state), *final(state)),
        says_error(*final(state), text@),
{
    state.notification = error_notice(text);
}

/// Everything but the kept ids is what it was.
pub open spec fn only_ids_changed(a: AppState, b: AppState) -> bool {
    b == (AppState { interaction_command_ids: b.interaction_command_ids, ..a })
}

#[verifier::rlimit(30)]
fn keep_interaction_id(state: &mut AppState, key: &str, command_id: &str)
    ensures
        only_ids_changed(*old(state), *final(state)),
        keys_once(old(state).interaction_command_ids@) ==> keys_once(
            final(state).interaction_command_ids@,
        ),
        kept_id(final(state).interaction_command_ids@, key@, 0) == Some(command_id@),
        forall|k: Seq<char>|
            k != key@ ==> #[trigger] kept_id(final(state).interaction_command_ids@, k, 0)
                == kept_id(old(state).interaction_command_ids@, k, 0),
{
    keep_id(&mut state.interaction_command_ids, key, command_id);
}

/// A command is delivered while the runtime is connected, and refused in words
/// otherwise.
pub open spec fn command_sent<C>(a: AppState, command: C, b: AppState, r: Dispatch<C>) -> bool {
    if a.runtime_connected {
        &&& b == a
        &&& r matches Dispatch::Deliver(DeliveryJob::Command { session_id, command: c })
        &&& session_id@ == a.session_id@
        &&& c == command
    } else {
        &&& r is Done
        &&& only_notice_changed(a, b)
        &&& says_error(b, text_of(a.locale).commands_disabled_disconnected@)
    }
}

pub fn send_command<C>(state: &mut AppState, command: C) -> (r: Dispatch<C>)
    ensures
        command_sent(*old(state), command, *final(state), r),
{
    if !state.runtime_connected {
        let text = state.t().commands_disabled_disconnected;
        tell_error(state, text);
        return Dispatch::Done;
    }
    Dispatch::Deliver(DeliveryJob::Command { session_id: state.session_id.clone(), command })
}

/// The answer to a request. Its id is kept first, so that a user's retry reuses the
/// same envelope; without a connection it comes back unsent.
pub open spec fn interaction_sent<C>(
    a: AppState,
    command: C,
    restore: PendingInteraction,
    command_id: Seq<char>,
    b: AppState,
    r: Dispatch<C>,
) -> bool {
    &&& b == (AppState {
        notification: b.notification,
        interaction_command_ids: b.interaction_command_ids,
        ..a
    })
    &&& keys_once(a.interaction_command_ids@) ==> keys_once(b.interaction_command_ids@)
    &&& kept_id(b.interaction_command_ids@, interaction_key(restore), 0) == Some(command_id)
    &&& forall|k: Seq<char>|
        k != interaction_key(restore) ==> #[trigger] kept_id(b.interaction_command_ids@, k, 0)
            == kept_id(a.interaction_command_ids@, k, 0)
    &&& if a.runtime_connected {
        &&& b.notification == a.notification
        &&& r matches Dispatch::Deliver(
            DeliveryJob::Interaction { session_id, command: c, restore: p, command_id: id, key },
        )
        &&& session_id@ == a.session_id@
        &&& c == command
        &&& p == restore
        &&& id@ == command_id
        &&& key@ == interaction_key(restore)
    } else {
        &&& r matches Dispatch::RestoreInteraction(p)
        &&& p == restore
        &&& says_error(b, INTERACTION_NOT_SENT@)
    }
}

pub fn send_interaction<C>(
    state: &mut AppState,
    command: C,
    restore: PendingInteraction,
    command_id: String,
) -> (r: Dispatch<C>)
    ensures
        interaction_sent(*old(state), command, restore, command_id@, *final(state), r),
        old(state).wf() ==> final(state).wf(),
{
    let key = restore.request_key();
    keep_interaction_id(state, key.as_str(), command_id.as_str());
    if !state.runtime_connected {
        tell_error(state, INTERACTION_NOT_SENT);
        return Dispatch::RestoreInteraction(restore);
    }
    Dispatch::Deliver(
        DeliveryJob::Interaction {
            session_id: state.session_id.clone(),
            command,
            restore,
            command_id,
            key,
        },
    )
}

/// What is asked of the remote side, or that this machine is not the one to ask.
fn ask_remote<C>(request: RemoteRequest, poll: bool, host: HostAbilities) -> (r: Dispatch<C>)
    ensures
        asked_remote(request, poll, host, r),
{
    if host.remote_launcher {
        Dispatch::AskRemote { request, poll }
    } else {
        Dispatch::RemoteUnavailable { message: REMOTE_UNAVAILABLE.to_owned() }
    }
}

/// What an effect that touches no state asks of the host.
pub open spec fn asked_of_host<C>(effect: Effect<C>, host: HostAbilities, r: Dispatch<C>) -> bool {
    match effect {
        Effect::LoadFileCandidates { repository } => r == Dispatch::<C>::LoadFiles { repository },
        Effect::StartWeb => if host.web_launcher {
            r is LaunchWeb
        } else {
            r matches Dispatch::WebUnavailable { message } && message@
                == WEB_LAUNCHER_UNAVAILABLE@
        },
        Effect::StartRemote { local } => asked_remote(
            RemoteRequest::Invite { local },
            true,
            host,
            r,
        ),
        Effect::AnswerPairing { accept } => asked_remote(
            if accept {
                RemoteRequest::Accept
            } else {
                RemoteRequest::Reject
            },
            false,
            host,
            r,
        ),
        Effect::OpenWebUrl(url) => if host.url_opener {
            r == Dispatch::<C>::OpenUrl { url }
        } else {
            r matches Dispatch::UrlUnavailable { url: u, message } && u == url && message@
                == URL_OPENER_UNAVAILABLE@
        },
        Effect::OpenExternalEditor { text } => r == Dispatch::<C>::Edit { text },
        _ => true,
    }
}

/// What is asked of the remote side.
pub open spec fn asked_remote<C>(
    request: RemoteRequest,
    poll: bool,
    host: HostAbilities,
    r: Dispatch<C>,
) -> bool {
    if host.remote_launcher {
        r == Dispatch::<C>::AskRemote { request, poll }
    } else {
        r matches Dispatch::RemoteUnavailable { message } && message@ == REMOTE_UNAVAILABLE@
    }
}

fn host_effect<C>(effect: Effect<C>, host: HostAbilities) -> (r: Dispatch<C>)
    ensures
        asked_of_host(effect, host, r),
{
    match effect {
        Effect::LoadFileCandidates { repository } => Dispatch::LoadFiles { repository },
        Effect::StartWeb => if host.web_launcher {
            Dispatch::LaunchWeb
        } else {
            Dispatch::WebUnavailable { message: WEB_LAUNCHER_UNAVAILABLE.to_owned() }
        },
        // A phone claims the invite seconds later and then waits for a person, and
        // nothing pushes that fact here.
        Effect::StartRemote { local } => ask_remote(RemoteRequest::Invite { local }, true, host),
        Effect::AnswerPairing { accept } => if accept {
            ask_remote(RemoteRequest::Accept, false, host)
        } else {
            ask_remote(RemoteRequest::Reject, false, host)
        },
        Effect::OpenWebUrl(url) => if host.url_opener {
            Dispatch::OpenUrl { url }
        } else {
            Dispatch::UrlUnavailable { url, message: URL_OPENER_UNAVAILABLE.to_owned() }
        },
        Effect::OpenExternalEditor { text } => Dispatch::Edit { text },
        _ => Dispatch::Done,
    }
}

/// What an effect does to the state, and what it asks of the host.
pub open spec fn dispatched<C>(
    a: AppState,
    effect: Effect<C>,
    host: HostAbilities,
    b: AppState,
    r: Dispatch<C>,
) -> bool {
    match effect {
        Effect::Send(command) => command_sent(a, command, b, r),
        Effect::Submit { command, command_id } => {
            &&& b == a
            &&& r matches Dispatch::Deliver(
                DeliveryJob::Submission { session_id, command_id: id, command: c },
            )
            &&& session_id@ == a.session_id@
            &&& id == command_id
            &&& c == command
        },
        Effect::SendInteraction { command, restore, command_id } => interaction_sent(
            a,
            command,
            restore,
            command_id@,
            b,
            r,
        ),
        Effect::Quit => r is Done && b == (AppState { running: false, ..a }),
        _ => b == a && asked_of_host(effect, host, r),
    }
}

/// Carry out one of the reducer's effects: what the state becomes, and what the host
/// has to do.
pub fn dispatch_effect<C>(state: &mut AppState, effect: Effect<C>, host: HostAbilities) -> (r: Dispatch<
    C,
>)
    ensures
        dispatched(*old(state), effect, host, *final(state), r),
        old(state).wf() ==> final(state).wf(),
{
    match effect {
        Effect::Send(command) => send_command(state, command),
        Effect::SendInteraction { command, restore, command_id } => send_interaction(
            state,
            command,
            restore,
            command_id,
        ),
        Effect::Quit => {
            state.running = false;
            Dispatch::Done
        },
        // It is only asked for while the runtime is connected, and the id is already
        // held among the pending submissions.
        Effect::Submit { command, command_id } => Dispatch::Deliver(
            DeliveryJob::Submission { session_id: state.session_id.clone(), command_id, command },
        ),
        other => host_effect(other, host),
    }
}

/// Whether the remote side is asked again for a waiting phone: up to six hundred
/// times, until one waits or nobody listens.
pub fn keep_polling(asked: u32, delivered: bool, waiting: bool) -> (r: bool)
    ensures
        r == (asked < 600 && delivered && !waiting),
{
    asked < 600 && delivered && !waiting
}

/// No effect breaks the state: the keys that stood once still do.
pub proof fn effects_keep_the_state_well_formed<C>(
    a: AppState,
    effect: Effect<C>,
    host: HostAbilities,
    b: AppState,
    r: Dispatch<C>,
)
    requires
        a.wf(),
        dispatched(a, effect, host, b, r),
    ensures
        b.wf(),
{
}

/// A disconnected client delivers neither a command nor an answer, and the user is
/// told.
pub proof fn disconnected_delivers_nothing<C>(
    a: AppState,
    effect: Effect<C>,
    host: HostAbilities,
    b: AppState,
    r: Dispatch<C>,
)
    requires
        !a.runtime_connected,
        effect is Send || effect is SendInteraction,
        dispatched(a, effect, host, b, r),
    ensures
        !(r is Deliver),
        b.notification matches Some(n) && n.level == NotificationLevel::Error,
{
}

// ---------------------------------------------------------------- notices

/// A notice as contracts speak of it.
pub open spec fn notice_view(n: Notification) -> (NotificationLevel, Seq<char>) {
    (n.level, n.message@)
}

/// The notice that was seen last, and when it appeared.
pub open spec fn shown_view(shown: Option<(Notification, u64)>) -> Option<
    ((NotificationLevel, Seq<char>), u64),
> {
    match shown {
        Some((n, at)) => Some((notice_view(n), at)),
        None => None,
    }
}

/// Errors and the quit confirmation stay until the user acts.
pub open spec fn sticky(n: Notification) -> bool {
    n.level == NotificationLevel::Error || n.message@ == QUIT_PROMPT@
}

/// How long a notice stays on screen, in milliseconds.
pub open spec fn lifetime(level: NotificationLevel) -> int {
    if level == NotificationLevel::Info {
        4000
    } else {
        8000
    }
}

/// When the notice that was seen last appeared.
pub open spec fn seen_at(shown: Option<(Notification, u64)>) -> int {
    match shown {
        Some((_, at)) => at as int,
        None => 0,
    }
}

/// The notice on screen is the one that was seen before.
pub open spec fn still_shown(n: Notification, shown: Option<(Notification, u64)>) -> bool {
    shown matches Some((seen, _)) && notice_view(seen) == notice_view(n)
}

/// The notice has been on screen for its time.
pub open spec fn is_due(state: AppState, shown: Option<(Notification, u64)>, now_ms: u64) -> bool {
    match state.notification {
        Some(n) => !sticky(n) && still_shown(n, shown) && minus(now_ms as int, seen_at(shown))
            >= lifetime(n.level),
        None => false,
    }
}

/// What is remembered of the notice on screen.
pub open spec fn seen_after(state: AppState, shown: Option<(Notification, u64)>, now_ms: u64) -> Option<
    ((NotificationLevel, Seq<char>), u64),
> {
    match state.notification {
        Some(n) => if !sticky(n) && still_shown(n, shown) {
            shown_view(shown)
        } else {
            Some((notice_view(n), now_ms))
        },
        None => None,
    }
}

fn copy_notice(n: &Notification) -> (r: Notification)
    ensures
        notice_view(r) == notice_view(*n),
{
    Notification { level: n.level, message: n.message.clone() }
}

/// When the notice on screen was first seen, where its clock runs.
fn running_since(n: &Notification, shown: &Option<(Notification, u64)>) -> (r: Option<u64>)
    ensures
        r == (if !sticky(*n) && still_shown(*n, *shown) {
            Some(seen_at(*shown) as u64)
        } else {
            None
        }),
{
    if n.level == NotificationLevel::Error || same(n.message.as_str(), QUIT_PROMPT) {
        return None;
    }
    match shown {
        Some((seen, at)) => if seen.level == n.level && same(
            seen.message.as_str(),
            n.message.as_str(),
        ) {
            Some(*at)
        } else {
            None
        },
        None => None,
    }
}

fn notice_is_due(state: &AppState, shown: &Option<(Notification, u64)>, now_ms: u64) -> (r: bool)
    ensures
        r == is_due(*state, *shown, now_ms),
{
    match &state.notification {
        Some(n) => match running_since(n, shown) {
            Some(at) => {
                let ttl: u64 = if n.level == NotificationLevel::Info {
                    4000
                } else {
                    8000
                };
                now_ms.saturating_sub(at) >= ttl
            },
            None => false,
        },
        None => false,
    }
}

fn next_seen(state: &AppState, shown: &Option<(Notification, u64)>, now_ms: u64) -> (r: Option<
    (Notification, u64),
>)
    ensures
        shown_view(r) == seen_after(*state, *shown, now_ms),
{
    match &state.notification {
        Some(n) => match running_since(n, shown) {
            Some(at) => Some((copy_notice(n), at)),
            None => Some((copy_notice(n), now_ms)),
        },
        None => None,
    }
}

/// Clear the notice once it has been on screen for its time. The clock restarts when
/// the notice is replaced, and never runs for an error or for the quit confirmation.
/// The Ctrl+C escalation closes with its prompt.
pub fn expire_notification(
    state: &mut AppState,
    shown: &mut Option<(Notification, u64)>,
    now_ms: u64,
) -> (r: bool)
    ensures
        r == is_due(*old(state), *old(shown), now_ms),
        r ==> *final(shown) is None && *final(state) == (AppState {
            notification: None,
            cancel_armed: false,
            force_cancel_armed: false,
            quit_armed: false,
            ..*old(state)
        }),
        !r ==> *final(state) == *old(state) && shown_view(*final(shown)) == seen_after(
            *old(state),
            *old(shown),
            now_ms,
        ),
{
    let due = notice_is_due(state, shown, now_ms);
    if due {
        state.notification = None;
        state.disarm_ctrlc();
        *shown = None;
    } else {
        let next = next_seen(state, shown, now_ms);
        *shown = next;
    }
    due
}

/// A sticky notice never expires, whatever the clock says; another one expires in the
/// end, once it has been seen.
pub proof fn sticky_notices_stay(state: AppState, shown: Option<(Notification, u64)>, now_ms: u64)
    requires
        state.notification is Some,
    ensures
        sticky(state.notification->0) ==> !is_due(state, shown, now_ms),
        !sticky(state.notification->0) && still_shown(state.notification->0, shown) && now_ms
            >= seen_at(shown) + 8000 ==> is_due(state, shown, now_ms),
        !still_shown(state.notification->0, shown) ==> !is_due(state, shown, now_ms),
{
}

/// The event stream lagged and could not be read again: the user is told instead of
/// being left with a stale view.
#[verifier::rlimit(30)]
pub fn resync_failed(state: &mut AppState, error: &str)
    ensures
        only_notice_changed(*old(state), *final(state)),
        says_error(*final(state), "事件流滞后后重同步失败："@ + error@),
{
    state.notification = error_notice(cat2("事件流滞后后重同步失败：", error).as_str());
}

/// The event stream is closed: commands stay disabled.
#[verifier::rlimit(30)]
pub fn stream_closed(state: &mut AppState)
    ensures
        says_error(*final(state), "与运行时的事件流已断开"@),
        *final(state) == (AppState {
            runtime_connected: false,
            notification: final(state).notification,
            ..*old(state)
        }),
{
    state.runtime_connected = false;
    state.notification = error_notice("与运行时的事件流已断开");
}

// ---------------------------------------------------------------- frames

/// The state after one round of the loop.
pub open spec fn ticked_state(s: AppState, now_ms: u64) -> AppState {
    let busy = s.status == RuntimeStatus::Busy;
    let start = match s.turn_started_at_ms {
        Some(at) => at,
        None => now_ms,
    };
    AppState {
        tick: if s.tick == u64::MAX {
            0
        } else {
            (s.tick + 1) as u64
        },
        turn_started_at_ms: if busy {
            Some(start)
        } else {
            None
        },
        elapsed_secs: if busy {
            (minus(now_ms as int, start as int) / 1000) as u64
        } else {
            0
        },
        ..s
    }
}

/// The frame counter, the start of the turn and its seconds, for the next round.
fn next_clock(state: &AppState, now_ms: u64) -> (r: (u64, Option<u64>, u64))
    ensures
        ({
            let n = ticked_state(*state, now_ms);
            r.0 == n.tick && r.1 == n.turn_started_at_ms && r.2 == n.elapsed_secs
        }),
{
    let tick: u64 = if state.tick == u64::MAX {
        0
    } else {
        state.tick + 1
    };
    if state.is_busy() {
        let start: u64 = match state.turn_started_at_ms {
            Some(at) => at,
            None => now_ms,
        };
        (tick, Some(start), now_ms.saturating_sub(start) / 1000)
    } else {
        (tick, None, 0)
    }
}

/// The busy spinner and the elapsed clock. A turn's clock starts with the first round
/// that sees it busy, and stops when it is not.
pub fn advance_clock(state: &mut AppState, now_ms: u64)
    ensures
        *final(state) == ticked_state(*old(state), now_ms),
{
    let (tick, started, elapsed) = next_clock(state, now_ms);
    state.tick = tick;
    state.turn_started_at_ms = started;
    state.elapsed_secs = elapsed;
}

/// The wall clock in the header. It asks for a frame when the minute rolls over.
#[verifier::rlimit(30)]
pub fn update_clock_label(state: &mut AppState, clock: String) -> (r: bool)
    ensures
        r == (clock@ != old(state).clock_label@),
        r ==> *final(state) == (AppState { clock_label: clock, ..*old(state) }),
        !r ==> *final(state) == *old(state),
{
    if same(clock.as_str(), state.clock_label.as_str()) {
        return false;
    }
    state.clock_label = clock;
    true
}

/// End returns to the conversation's live edge.
#[verifier::rlimit(30)]
pub fn take_jump(state: &mut AppState) -> (r: bool)
    ensures
        r == old(state).jump_to_bottom,
        r ==> *final(state) == (AppState {
            jump_to_bottom: false,
            active_screen: Screen::Conversation,
            ..*old(state)
        }),
        !r ==> *final(state) == *old(state),
{
    if !state.jump_to_bottom {
        return false;
    }
    state.jump_to_bottom = false;
    state.active_screen = Screen::Conversation;
    true
}

/// Whether a frame is painted: on input, on the tick while busy, and on a runtime
/// update while idle. A busy turn's updates wait for the tick.
pub fn wants_paint(paint_now: bool, ticked: bool, busy: bool, runtime_update: bool) -> (r: bool)
    ensures
        r == (paint_now || (if busy {
            ticked
        } else {
            runtime_update
        })),
{
    paint_now || (ticked && busy) || (!busy && runtime_update)
}

/// Whether the stream of another session must be followed.
pub fn follows_other_session(state: &AppState, opened: &str) -> (r: bool)
    ensures
        r == (opened@ != state.session_id@),
{
    !same(opened, state.session_id.as_str())
}

/// What came over the event stream.
#[derive(Debug)]
pub enum Received {
    /// An event, and the session that it opens, where it opens one.
    Event { opened: Option<String> },
    /// Events were lost.
    Lagged,
    Closed,
}

/// What the loop does about it.
#[derive(Debug)]
pub enum StreamStep {
    /// Fold the event in. Where a session is named, its stream is followed first.
    Fold { follow: Option<String> },
    /// Read the session again.
    Resync,
    /// Wait for this stream no more.
    Stop,
}

/// An event is folded in, and another session's stream is followed from it on; lost
/// events are made good by reading the session; a closed stream disables the commands
/// and is said.
pub open spec fn streamed(a: AppState, received: Received, b: AppState, r: StreamStep) -> bool {
    match received {
        Received::Event { opened } => b == a && r == (StreamStep::Fold {
            follow: match opened {
                Some(id) => if id@ != a.session_id@ {
                    Some(id)
                } else {
                    None
                },
                None => None,
            },
        }),
        Received::Lagged => b == a && r is Resync,
        Received::Closed => r is Stop && says_error(b, "与运行时的事件流已断开"@) && b == (AppState {
            runtime_connected: false,
            notification: b.notification,
            ..a
        }),
    }
}

pub fn stream_step(state: &mut AppState, received: Received) -> (r: StreamStep)
    ensures
        streamed(*old(state), received, *final(state), r),
{
    match received {
        Received::Event { opened } => match opened {
            Some(id) => if follows_other_session(state, id.as_str()) {
                StreamStep::Fold { follow: Some(id) }
            } else {
                StreamStep::Fold { follow: None }
            },
            None => StreamStep::Fold { follow: None },
        },
        Received::Lagged => StreamStep::Resync,
        Received::Closed => {
            stream_closed(state);
            StreamStep::Stop
        },
    }
}

/// The state with the wall clock's label.
pub open spec fn labelled(s: AppState, clock: String) -> AppState {
    if clock@ == s.clock_label@ {
        s
    } else {
        AppState { clock_label: clock, ..s }
    }
}

/// The state once a notice that is due has faded.
pub open spec fn faded(s: AppState, due: bool) -> AppState {
    if due {
        AppState {
            notification: None,
            cancel_armed: false,
            force_cancel_armed: false,
            quit_armed: false,
            ..s
        }
    } else {
        s
    }
}

/// The state once a wanted jump to the live edge is made.
pub open spec fn jumped(s: AppState) -> AppState {
    if s.jump_to_bottom {
        AppState { jump_to_bottom: false, active_screen: Screen::Conversation, ..s }
    } else {
        s
    }
}

/// What every round of the loop does once its event is folded in: the spinner and the
/// turn's clock move, the wall clock is shown, a notice that is due fades, and a wanted
/// jump is made. Whether a frame shows something of it.
#[verifier::rlimit(30)]
pub fn after_event(
    state: &mut AppState,
    shown: &mut Option<(Notification, u64)>,
    clock: String,
    now_ms: u64,
) -> (r: bool)
    ensures
        *final(state) == jumped(
            faded(
                labelled(ticked_state(*old(state), now_ms), clock),
                is_due(*old(state), *old(shown), now_ms),
            ),
        ),
        shown_view(*final(shown)) == (if is_due(*old(state), *old(shown), now_ms) {
            None
        } else {
            seen_after(*old(state), *old(shown), now_ms)
        }),
        r == (clock@ != old(state).clock_label@ || is_due(*old(state), *old(shown), now_ms) || old(
            state,
        ).jump_to_bottom),
{
    advance_clock(state, now_ms);
    let minute = update_clock_label(state, clock);
    let due = expire_notification(state, shown, now_ms);
    let jump = take_jump(state);
    minute || due || jump
}

// ---------------------------------------------------------------- keys

/// A key press, as far as plain text is concerned.
#[derive(Clone, Copy, Debug, PartialEq, Eq, Structural)]
pub struct KeyPress {
    pub release: bool,
    pub control: bool,
    pub alt: bool,
    /// The character, where the key is one.
    pub character: Option<char>,
}

/// The character that a key types.
pub open spec fn typed(key: KeyPress) -> Option<char> {
    if key.release || key.control || key.alt {
        None
    } else {
        match key.character {
            Some(c) => if control(c) {
                None
            } else {
                Some(c)
            },
            None => None,
        }
    }
}

pub fn plain_text_char(key: &KeyPress) -> (r: Option<char>)
    ensures
        r == typed(*key),
{
    if key.release || key.control || key.alt {
        return None;
    }
    match key.character {
        Some(c) => if is_control(c) {
            None
        } else {
            Some(c)
        },
        None => None,
    }
}

/// Text typed in a burst, for terminals that deliver a paste as plain keys.
#[derive(Debug)]
pub struct Burst {
    pub text: String,
}

impl Burst {
    /// A burst begins with a typed character in the conversation, with no overlay open.
    pub fn begin(state: &AppState, key: &KeyPress) -> (r: Option<Burst>)
        ensures
            r is Some <==> typed(*key) is Some && state.overlay is None && state.active_screen
                == Screen::Conversation,
            r matches Some(b) ==> b.text@ == seq![typed(*key)->0],
    {
        if state.overlay.is_some() || state.active_screen != Screen::Conversation {
            return None;
        }
        match plain_text_char(key) {
            Some(c) => {
                let mut text = String::new();
                text.push(c);
                assert(text@ =~= seq![c]);
                Some(Burst { text })
            },
            None => None,
        }
    }

    /// Takes one more key. Anything but a typed character ends the burst, and is left
    /// for the next round.
    pub fn feed(&mut self, key: Option<&KeyPress>) -> (r: bool)
        ensures
            r == (key matches Some(k) && typed(*k) is Some),
            final(self).text@ == (match key {
                Some(k) => match typed(*k) {
                    Some(c) => old(self).text@.push(c),
                    None => old(self).text@,
                },
                None => old(self).text@,
            }),
    {
        match key {
            Some(k) => match plain_text_char(k) {
                Some(c) => {
                    self.text.push(c);
                    true
                },
                None => false,
            },
            None => false,
        }
    }
}

// ---------------------------------------------------------------- leaving

/// The draft that is kept for the next launch: nothing of a blank one.
pub fn draft_is_kept(draft: &str) -> (r: bool)
    ensures
        r == (trimmed(draft@).len() > 0),
{
    !trim(draft).as_str().is_empty()
}

/// The entries that persist: the last hundred.
pub fn history_tail(history: &Vec<String>) -> (r: Vec<String>)
    ensures
        views(r@) == views(history@).skip(minus(history@.len() as int, 100)),
{
    let n: usize = history.len();
    let from: usize = n.saturating_sub(HISTORY_CAP);
    let mut out: Vec<String> = Vec::new();
    let ghost all = views(history@).skip(from as int);
    let mut i: usize = from;
    assert(views(out@) =~= all.take(0));
    while i < n
        invariant
            from <= i <= n,
            n == history@.len(),
            all == views(history@).skip(from as int),
            views(out@) == all.take(i - from),
        decreases n - i,
    {
        out.push(history[i].clone());
        i += 1;
        assert(all.take(i - from) =~= all.take(i - from - 1).push(all[i - from - 1]));
    }
    assert(all.take(i - from) =~= all);
    out
}

/// The input history that a file's text holds; `None` where the text is no JSON array
/// of texts.
pub fn loaded_history(text: &str) -> (r: Option<Vec<String>>)
    ensures
        match r {
            Some(v) => texts_parsed(text@) == Some(views(v@)),
            None => texts_parsed(text@) is None,
        },
{
    parse_texts(text)
}

/// The text that keeps the end of an input history: loading it gives the last hundred
/// entries back, or all of a shorter history.
pub fn saved_history(history: &Vec<String>) -> (r: Option<String>)
    ensures
        r matches Some(t) && texts_printed(
            views(history@).skip(minus(history@.len() as int, 100)),
        ) == Some(t@) && texts_parsed(t@) == Some(
            views(history@).skip(minus(history@.len() as int, 100)),
        ),
{
    print_texts(&history_tail(history))
}

/// What is printed on exit: the whole command that reopens the conversation.
///
/// The primary screen may still hold other content on these rows, so each line ends by
/// clearing the rest of its row, and the last one the rest of the screen.
pub fn session_exit_hint(session_id: &str) -> (r: String)
    ensures
        r@ == ("Session: "@ + session_id@ + "\x1b[K\nReopen:  leveler resume "@ + session_id@)
            + "\x1b[K\n(or `leveler resume` to pick from recent sessions)\x1b[J"@,
{
    let head = cat4("Session: ", session_id, "\x1b[K\nReopen:  leveler resume ", session_id);
    cat2(
        head.as_str(),
        "\x1b[K\n(or `leveler resume` to pick from recent sessions)\x1b[J",
    )
}

/// The outcome of an edit outside. The terminal is taken back even where the edit
/// failed, and a terminal that could not be is the worse news.
pub fn editor_outcome(edited: Result<String, String>, resumed: Result<(), String>) -> (r: Result<
    String,
    String,
>)
    ensures
        match resumed {
            Ok(_) => r == edited,
            Err(e) => r matches Err(m) && m@ == "终端未能恢复："@ + e@,
        },
{
    match resumed {
        Ok(_) => edited,
        Err(e) => Err(cat2("终端未能恢复：", e.as_str())),
    }
}

/// The editor was not started, because the terminal could not be given away.
pub fn editor_not_started(error: &str) -> (r: String)
    ensures
        r@ == "无法让出终端："@ + error@,
{
    cat2("无法让出终端：", error)
}

} // verus!
