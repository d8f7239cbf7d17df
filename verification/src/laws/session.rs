//! What the session's clocks, notices, deliveries and commands promise.

use vstd::prelude::*;

use crate::delivery::{
    answer_of, pause_before, stepped, submission_end, ClientReply, DeliveryAnswer, EffectCompletion,
    Settling,
};
use crate::laws::{absent, only_gap_is_filled};
use crate::overlay::OverlayKind;
use crate::protocol::{NotificationLevel, RuntimeStatus};
use crate::run::{
    dispatched, is_due, notice_view, seen_after, ticked_state, typed, Dispatch, Effect,
    HostAbilities, KeyPress, RemoteRequest, DeliveryJob,
};
use crate::screen::Screen;
use crate::state::{
    call_position, calls_of, image_names, location_from, outcome_of, AppState, Notification,
    Reconnecting, WorkbenchFocus,
};
use crate::strings::{control, decimal, joined, text_words};
use crate::suggestion::{shown, suggestion_of};
use crate::transcript::{StopRequest, ToolCallBlock, ToolStatus, TranscriptItem};
use crate::width::unicode_graphemes;

verus! {

// ---------------------------------------------------------------- notices

/// A notice that has not changed goes after four seconds where it informs and after
/// eight where it warns, not earlier; an error and the question whether to quit stay.
pub proof fn notices_last_their_time(state: AppState, n: Notification, at: u64, now_ms: u64)
    requires
        state.notification is Some,
        notice_view(state.notification->0) == notice_view(n),
        at <= now_ms,
    ensures
        ({
            let due = is_due(state, Some((n, at)), now_ms);
            let asks = n.message@ == "再按一次 Ctrl+C 退出"@;
            &&& n.level == NotificationLevel::Error || asks ==> !due
            &&& n.level == NotificationLevel::Info && !asks ==> (due <==> now_ms - at >= 4000)
            &&& n.level != NotificationLevel::Info && n.level != NotificationLevel::Error && !asks
                ==> (due <==> now_ms - at >= 8000)
        }),
{
}

/// A notice that was not seen yet begins its time now and does not go.
pub proof fn new_notice_begins_its_time(
    state: AppState,
    seen: Option<(Notification, u64)>,
    now_ms: u64,
)
    requires
        state.notification is Some,
        seen is None || notice_view((seen->0).0) != notice_view(state.notification->0),
    ensures
        !is_due(state, seen, now_ms),
        seen_after(state, seen, now_ms) == Some((notice_view(state.notification->0), now_ms)),
{
}

/// Without a notice nothing is due and nothing is remembered.
pub proof fn no_notice_is_due(state: AppState, seen: Option<(Notification, u64)>, now_ms: u64)
    requires
        state.notification is None,
    ensures
        !is_due(state, seen, now_ms),
        seen_after(state, seen, now_ms) is None,
{
}

// ---------------------------------------------------------------- the clock

/// While a turn runs, its clock is the whole seconds since it was first seen running;
/// at rest there is no clock. Nothing else changes.
pub proof fn clock_counts_the_turn(s: AppState, at: u64, now_ms: u64)
    requires
        at <= now_ms,
    ensures
        s.status == RuntimeStatus::Busy && s.turn_started_at_ms == Some(at) ==> {
            let next = ticked_state(s, now_ms);
            &&& next.turn_started_at_ms == Some(at)
            &&& next.elapsed_secs * 1000 <= now_ms - at < (next.elapsed_secs + 1) * 1000
        },
        s.status == RuntimeStatus::Busy && s.turn_started_at_ms is None ==> ticked_state(
            s,
            now_ms,
        ).turn_started_at_ms == Some(now_ms) && ticked_state(s, now_ms).elapsed_secs == 0,
        s.status != RuntimeStatus::Busy ==> ticked_state(s, now_ms).turn_started_at_ms is None
            && ticked_state(s, now_ms).elapsed_secs == 0,
        s.tick < u64::MAX ==> ticked_state(s, now_ms).tick == s.tick + 1,
        ticked_state(s, now_ms) == (AppState {
            tick: ticked_state(s, now_ms).tick,
            turn_started_at_ms: ticked_state(s, now_ms).turn_started_at_ms,
            elapsed_secs: ticked_state(s, now_ms).elapsed_secs,
            ..s
        }),
{
    let d = now_ms - at;
    assert(d / 1000 * 1000 <= d < (d / 1000 + 1) * 1000);
}

// ---------------------------------------------------------------- delivery

/// An answer of the runtime is a rejection with its words; a reply that was lost or whose
/// outcome is unknown is no answer.
pub proof fn replies_are_told_apart(m: String)
    ensures
        answer_of(ClientReply::Delivered) is Delivered,
        answer_of(ClientReply::OutcomeUnknown) is NoAnswer,
        answer_of(ClientReply::Lost) is NoAnswer,
        answer_of(ClientReply::Unresolvable) is Unresolvable,
        answer_of(ClientReply::Runtime(m)) == DeliveryAnswer::Rejected(m),
        answer_of(ClientReply::Failed(m)) == DeliveryAnswer::Rejected(m),
{
}

/// A submission settles on an answer, under its own id, and on nothing else.
pub proof fn submissions_settle_on_an_answer(id: String, m: String)
    ensures
        submission_end(DeliveryAnswer::NoAnswer, id) is None,
        submission_end(DeliveryAnswer::Delivered, id) == Some(
            EffectCompletion::SubmissionDelivered { command_id: id },
        ),
        submission_end(DeliveryAnswer::Rejected(m), id) == Some(
            EffectCompletion::SubmissionRejected { command_id: id, message: m },
        ),
        submission_end(DeliveryAnswer::Unresolvable, id) == Some(
            EffectCompletion::SubmissionUnresolvable { command_id: id },
        ),
{
}

/// The pauses between deliveries double from half a second up to five seconds.
pub proof fn pauses_double()
    ensures
        pause_before(0) == 500,
        pause_before(1) == 1000,
        pause_before(2) == 2000,
        pause_before(3) == 4000,
        pause_before(4) == 5000,
        pause_before(5) == 5000,
{
    reveal_with_fuel(pause_before, 6);
}

/// A delivery in flight is awaited before the pause grows.
pub proof fn flight_is_awaited_first(s: Settling)
    requires
        s.backoff_ms <= 5000,
    ensures
        s.in_flight ==> stepped(s).backoff_ms == s.backoff_ms && !stepped(s).in_flight,
        !s.in_flight && s.backoff_ms <= 2500 ==> stepped(s).backoff_ms == 2 * s.backoff_ms,
        !s.in_flight && s.backoff_ms > 2500 ==> stepped(s).backoff_ms == 5000,
        stepped(s).command_id == s.command_id,
{
}

// ---------------------------------------------------------------- effects

/// A command goes to the session that is open, as it is, and only while connected.
pub proof fn commands_go_to_the_open_session<C>(
    a: AppState,
    command: C,
    host: HostAbilities,
    b: AppState,
    r: Dispatch<C>,
)
    requires
        dispatched(a, Effect::Send(command), host, b, r),
    ensures
        a.runtime_connected ==> b == a && (r matches Dispatch::Deliver(
            DeliveryJob::Command { session_id, command: c },
        ) && session_id@ == a.session_id@ && c == command),
        !a.runtime_connected ==> r is Done && b.notification is Some
            && b.notification->0.level == NotificationLevel::Error,
{
}

/// A pairing that is accepted is accepted and one that is not is rejected; asking for an
/// invitation polls, answering does not.
pub proof fn pairing_is_answered_as_asked<C>(
    a: AppState,
    accept: bool,
    local: bool,
    host: HostAbilities,
    b: AppState,
    r: Dispatch<C>,
)
    requires
        host.remote_launcher,
    ensures
        dispatched(a, Effect::AnswerPairing { accept }, host, b, r) ==> r
            == (Dispatch::<C>::AskRemote {
            request: if accept {
                RemoteRequest::Accept
            } else {
                RemoteRequest::Reject
            },
            poll: false,
        }),
        dispatched(a, Effect::StartRemote { local }, host, b, r) ==> r
            == (Dispatch::<C>::AskRemote { request: RemoteRequest::Invite { local }, poll: true }),
{
}

/// Only quitting stops the program.
pub proof fn only_quit_stops<C>(
    a: AppState,
    effect: Effect<C>,
    host: HostAbilities,
    b: AppState,
    r: Dispatch<C>,
)
    requires
        a.running,
        dispatched(a, effect, host, b, r),
    ensures
        b.running <==> !(effect is Quit),
{
}

proof fn printable_is_no_control(c: char)
    requires
        32 <= c as int <= 126,
    ensures
        !control(c),
{
    assert(c as u32 == c as int);
}

/// A key types its character where it is pressed alone and the character is no control.
pub proof fn plain_keys_type(key: KeyPress)
    ensures
        key.release || key.control || key.alt || key.character is None ==> typed(key) is None,
        typed(key) is Some ==> typed(key) == key.character,
        !key.release && !key.control && !key.alt && key.character is Some && 32
            <= key.character->0 as int <= 126 ==> typed(key) == key.character,
{
    if key.character is Some && 32 <= key.character->0 as int <= 126 {
        printable_is_no_control(key.character->0);
    }
}

// ---------------------------------------------------------------- commands that run

/// A background task that has no result runs; with one it completed, or else was
/// stopped, or failed.
pub proof fn outcomes_are_told_apart(stopped: bool)
    ensures
        outcome_of(None, stopped) is Running,
        outcome_of(Some(true), stopped) is Completed,
        outcome_of(Some(false), true) is Stopped,
        outcome_of(Some(false), false) is Failed,
{
}

/// Whether the call at a place can be stopped: it runs, no stop was sent, and no approval
/// holds it.
pub open spec fn can_stop(s: AppState, item: int, call: int) -> bool {
    &&& 0 <= item < s.transcript.items@.len()
    &&& 0 <= call < calls_of(s.transcript.items@[item]).len()
    &&& calls_of(s.transcript.items@[item])[call].status == ToolStatus::Running
    &&& calls_of(s.transcript.items@[item])[call].stop != StopRequest::Sent
    &&& !(s.overlay is Some && s.overlay->0.kind == OverlayKind::Approval
        && s.overlay->0.gated_call is Some && s.overlay->0.gated_call->0@ == calls_of(
        s.transcript.items@[item],
    )[call].id@)
}

/// Whether one place stands before another.
pub open spec fn earlier(a: (int, int), b: (int, int)) -> bool {
    a.0 < b.0 || (a.0 == b.0 && a.1 < b.1)
}

proof fn stoppable_calls_of_item(s: AppState, item: int, n: int)
    requires
        0 <= item < s.transcript.items@.len(),
        0 <= n <= calls_of(s.transcript.items@[item]).len(),
    ensures
        forall|k: int|
            0 <= k < s.stoppable_in(item, n).len() ==> {
                let p = #[trigger] s.stoppable_in(item, n)[k];
                p.0 == item && p.1 < n && can_stop(s, p.0, p.1)
            },
        forall|j: int|
            0 <= j < n && can_stop(s, item, j) ==> #[trigger] s.stoppable_in(item, n).contains(
                (item, j),
            ),
        forall|j: int, k: int|
            0 <= j < k < s.stoppable_in(item, n).len() ==> earlier(
                #[trigger] s.stoppable_in(item, n)[j],
                #[trigger] s.stoppable_in(item, n)[k],
            ),
    decreases n,
{
    if n > 0 {
        stoppable_calls_of_item(s, item, n - 1);
        let before = s.stoppable_in(item, n - 1);
        let after = s.stoppable_in(item, n);
        assert(s.stoppable(calls_of(s.transcript.items@[item])[n - 1]) <==> can_stop(
            s,
            item,
            n - 1,
        ));
        assert forall|j: int| 0 <= j < n && can_stop(s, item, j) implies #[trigger] after.contains(
            (item, j),
        ) by {
            if j < n - 1 {
                assert(before.contains((item, j)));
                let k = before.index_of((item, j));
                assert(after[k] == (item, j));
            } else {
                assert(after[after.len() - 1] == (item, j));
            }
        }
    }
}

proof fn stoppable_calls_upto(s: AppState, n: int)
    requires
        0 <= n <= s.transcript.items@.len(),
    ensures
        forall|k: int|
            0 <= k < s.stoppable_upto(n).len() ==> {
                let p = #[trigger] s.stoppable_upto(n)[k];
                p.0 < n && can_stop(s, p.0, p.1)
            },
        forall|i: int, j: int|
            i < n && can_stop(s, i, j) ==> #[trigger] s.stoppable_upto(n).contains((i, j)),
        forall|j: int, k: int|
            0 <= j < k < s.stoppable_upto(n).len() ==> earlier(
                #[trigger] s.stoppable_upto(n)[j],
                #[trigger] s.stoppable_upto(n)[k],
            ),
    decreases n,
{
    if n > 0 {
        stoppable_calls_upto(s, n - 1);
        let calls = calls_of(s.transcript.items@[n - 1]).len() as int;
        stoppable_calls_of_item(s, n - 1, calls);
        let before = s.stoppable_upto(n - 1);
        let own = s.stoppable_in(n - 1, calls);
        let after = s.stoppable_upto(n);
        assert(after == before + own);
        assert forall|i: int, j: int| i < n && can_stop(s, i, j) implies #[trigger] after.contains(
            (i, j),
        ) by {
            if i < n - 1 {
                assert(before.contains((i, j)));
                let k = before.index_of((i, j));
                assert(after[k] == (i, j));
            } else {
                assert(own.contains((n - 1, j)));
                let k = own.index_of((n - 1, j));
                assert(after[before.len() + k] == (i, j));
            }
        }
    }
}

/// While a turn runs and the runtime is there, the commands that can be stopped are
/// exactly the running calls that no stop was sent to and no approval holds, in the order
/// of the conversation.
pub proof fn stoppable_commands_are_the_running_ones(s: AppState)
    requires
        s.runtime_connected,
        s.status == RuntimeStatus::Busy,
    ensures
        forall|i: int, j: int| can_stop(s, i, j) <==> s.stoppable_places().contains((i, j)),
        forall|j: int, k: int|
            0 <= j < k < s.stoppable_places().len() ==> earlier(
                #[trigger] s.stoppable_places()[j],
                #[trigger] s.stoppable_places()[k],
            ),
{
    let n = s.transcript.items@.len() as int;
    stoppable_calls_upto(s, n);
    assert forall|i: int, j: int| can_stop(s, i, j) <==> s.stoppable_places().contains((i, j)) by {
        if s.stoppable_places().contains((i, j)) {
            let k = s.stoppable_places().index_of((i, j));
            assert(s.stoppable_upto(n)[k] == (i, j));
        }
        if can_stop(s, i, j) {
            assert(s.stoppable_upto(n).contains((i, j)));
        }
    }
}

proof fn position_is_first(calls: Seq<ToolCallBlock>, id: Seq<char>, i: int)
    requires
        0 <= i <= calls.len(),
    ensures
        match call_position(calls, id, i) {
            Some(k) => i <= k < calls.len() && calls[k].id@ == id && forall|m: int|
                i <= m < k ==> (#[trigger] calls[m]).id@ != id,
            None => forall|m: int| i <= m < calls.len() ==> (#[trigger] calls[m]).id@ != id,
        },
    decreases calls.len() - i,
{
    if i < calls.len() && calls[i].id@ != id {
        position_is_first(calls, id, i + 1);
    }
}

/// A command is found by its id at the first place in the conversation that holds it,
/// and not at all where none does.
pub proof fn command_is_found_where_it_stands(items: Seq<TranscriptItem>, id: Seq<char>, from: int)
    requires
        0 <= from <= items.len(),
    ensures
        match location_from(items, id, from) {
            Some((i, j)) => {
                &&& from <= i < items.len()
                &&& 0 <= j < calls_of(items[i]).len()
                &&& calls_of(items[i])[j].id@ == id
                &&& forall|a: int, b: int|
                    #![trigger calls_of(items[a])[b]]
                    from <= a <= i && 0 <= b < calls_of(items[a]).len() && earlier(
                        (a, b),
                        (i, j),
                    ) ==> calls_of(items[a])[b].id@ != id
            },
            None => forall|a: int, b: int|
                #![trigger calls_of(items[a])[b]]
                from <= a < items.len() && 0 <= b < calls_of(items[a]).len() ==> calls_of(
                    items[a],
                )[b].id@ != id,
        },
    decreases items.len() - from,
{
    if from < items.len() {
        position_is_first(calls_of(items[from]), id, 0);
        if call_position(calls_of(items[from]), id, 0) is None {
            command_is_found_where_it_stands(items, id, from + 1);
        }
    }
}

/// The images of a message are numbered from one.
pub proof fn images_are_numbered(n: nat, i: int, head: Seq<char>, tail: Seq<char>)
    requires
        0 <= i < n,
        !head.contains('{'),
        !tail.contains('{'),
    ensures
        image_names(head + "{}"@ + tail, n).len() == n,
        image_names(head + "{}"@ + tail, n)[i] == head + decimal((i + 1) as nat) + tail,
{
    reveal_strlit("{}");
    absent(tail, "{}"@);
    only_gap_is_filled(head, "{}"@, tail, decimal((i + 1) as nat));
}

// ---------------------------------------------------------------- suggestions

/// A suggestion is the words of the text, one space apart; a longer one is cut to its
/// first hundred and twenty characters and says so. Blank text suggests nothing.
pub proof fn suggestion_is_one_short_line(text: Seq<char>)
    ensures
        ({
            let line = joined(text_words(text), " "@);
            let gs = unicode_graphemes(line);
            &&& line.len() == 0 <==> suggestion_of(text) is None
            &&& line.len() > 0 && gs.len() <= 120 ==> suggestion_of(text) == Some(
                crate::width::concat(gs),
            )
            &&& line.len() > 0 && gs.len() > 120 ==> suggestion_of(text) == Some(
                crate::width::concat(gs.take(120)) + seq!['…'],
            )
        }),
{
    let line = joined(text_words(text), " "@);
    let gs = unicode_graphemes(line);
    assert(gs.take(gs.len() as int) =~= gs);
    let kept = crate::width::concat(gs.take(120));
    assert(kept.push('…') =~= kept + seq!['…']);
}

/// A suggestion is shown only on an empty, focused composer of the idle and connected
/// conversation, with nothing above it.
pub proof fn suggestion_stays_out_of_the_way(state: AppState)
    ensures
        shown(state) ==> {
            &&& state.prompt_suggestion is Some
            &&& state.active_screen == Screen::Conversation
            &&& state.status == RuntimeStatus::Idle
            &&& state.runtime_connected
            &&& state.workbench_focus == WorkbenchFocus::Input
            &&& state.composer.text@.len() == 0
            &&& !state.composer.browsing_history
            &&& state.overlay is None
            &&& state.turn_nav is None
        },
{
}

/// A command is focused where the focus is on commands, a turn runs, and the command that
/// was picked can still be stopped.
pub proof fn only_a_stoppable_command_is_focused(s: AppState, id: String, item: int, call: int)
    requires
        s.command_selected == Some(id),
        location_from(s.transcript.items@, id@, 0) == Some((item, call)),
        0 <= item < s.transcript.items@.len(),
        0 <= call < calls_of(s.transcript.items@[item]).len(),
    ensures
        s.focused() == (if s.workbench_focus == WorkbenchFocus::Command && s.runtime_connected
            && s.status == RuntimeStatus::Busy && can_stop(s, item, call) {
            Some(id@)
        } else {
            None
        }),
{
}

/// The seconds until the next attempt are whole ones, and none once it is due.
pub proof fn attempts_count_down(r: Reconnecting, now_ms: u64)
    ensures
        now_ms >= r.retry_at_ms ==> r.left(now_ms) == 0,
        now_ms < r.retry_at_ms ==> r.left(now_ms) * 1000 <= r.retry_at_ms - now_ms < (r.left(now_ms)
            + 1) * 1000,
{
}

} // verus!
