//! What the terminal's title promises.

use vstd::prelude::*;

use crate::i18n::text_of;
use crate::overlay::OverlayKind;
use crate::protocol::RuntimeStatus;
use crate::render::text::truncated;
use crate::laws::text::trimming_takes_the_ends;
use crate::state::AppState;
use crate::strings::{control, whitespace};
use crate::render::footer::first_line;
use crate::terminal_title::{
    activity_of, clean, collapsed, ended, icon_of, last_request, next_identity, task_status,
    title_of, TerminalTaskStatus,
};
use crate::transcript::{TranscriptItem, TurnEndStatus};
use crate::width::unicode_str_width;

verus! {

/// Each state has its own icon.
pub proof fn icons_tell_the_state()
    ensures
        icon_of(TerminalTaskStatus::Idle) == "○"@,
        icon_of(TerminalTaskStatus::Running) == "◐"@,
        icon_of(TerminalTaskStatus::Waiting) == "◌"@,
        icon_of(TerminalTaskStatus::NeedsUser) == "!"@,
        icon_of(TerminalTaskStatus::Completed) == "✓"@,
        icon_of(TerminalTaskStatus::Failed) == "×"@,
{
}

/// What the task is doing, from what the state holds: a question to the user first, then
/// the work; at rest a turn that did not end well, then work in the background, then a
/// turn that did.
pub proof fn status_is_what_matters_most(state: AppState)
    ensures
        ({
            let asks = state.overlay is Some && (state.overlay->0.kind
                == OverlayKind::Clarification || state.overlay->0.status_hint is Some);
            let calm = state.overlay is None && state.status != RuntimeStatus::Busy;
            let well = ended(state) == Some(TurnEndStatus::Completed) || ended(state) == Some(
                TurnEndStatus::Answered,
            );
            &&& asks ==> task_status(state) == TerminalTaskStatus::NeedsUser
            &&& state.overlay is None && state.status == RuntimeStatus::Busy ==> task_status(state)
                == TerminalTaskStatus::Running
            &&& calm && ended(state) is Some && !well ==> task_status(state)
                == TerminalTaskStatus::Failed
            &&& calm && (ended(state) is None || well) && state.background_task_labels@.len() > 0
                ==> task_status(state) == TerminalTaskStatus::Waiting
            &&& calm && well && state.background_task_labels@.len() == 0 ==> task_status(state)
                == TerminalTaskStatus::Completed
            &&& calm && ended(state) is None && state.background_task_labels@.len() == 0
                ==> task_status(state) == TerminalTaskStatus::Idle
        }),
{
}

/// The words beside the request say the same as the icon.
pub proof fn activity_tells_the_state(state: AppState)
    ensures
        ({
            let t = text_of(state.locale);
            &&& activity_of(state, TerminalTaskStatus::Idle) is None
            &&& activity_of(state, TerminalTaskStatus::Waiting) == Some(t.title_waiting_background@)
            &&& activity_of(state, TerminalTaskStatus::Completed) == Some(t.title_completed@)
            &&& state.overlay is Some && state.overlay->0.kind == OverlayKind::Clarification
                ==> activity_of(state, TerminalTaskStatus::NeedsUser) == Some(
                t.title_awaiting_input@,
            )
            &&& state.overlay is Some && state.overlay->0.kind != OverlayKind::Clarification
                ==> activity_of(state, TerminalTaskStatus::NeedsUser) == Some(
                t.title_awaiting_approval@,
            )
            &&& state.activity is None ==> activity_of(state, TerminalTaskStatus::Running) == Some(
                t.title_working@,
            )
            &&& (state.activity matches Some(a) ==> activity_of(state, TerminalTaskStatus::Running)
                == Some(
                if clean(first_line(a@)).len() > 0 {
                    clean(first_line(a@))
                } else {
                    t.title_working@
                },
            ))
            &&& ended(state) == Some(TurnEndStatus::Unverified) ==> activity_of(
                state,
                TerminalTaskStatus::Failed,
            ) == Some(t.title_unverified@)
            &&& ended(state) == Some(TurnEndStatus::Cancelled) ==> activity_of(
                state,
                TerminalTaskStatus::Failed,
            ) == Some(t.title_cancelled@)
            &&& ended(state) == Some(TurnEndStatus::Failed) ==> activity_of(
                state,
                TerminalTaskStatus::Failed,
            ) == Some(t.title_failed@)
        }),
{
}

proof fn requests_ignore_what_follows(items: Seq<TranscriptItem>, item: TranscriptItem, n: int)
    requires
        n <= items.len(),
    ensures
        last_request(items.push(item), n) == last_request(items, n),
    decreases n,
{
    if n > 0 {
        requests_ignore_what_follows(items, item, n - 1);
        assert(items.push(item)[n - 1] == items[n - 1]);
    }
}

/// The request is the first line of the user's last message that says anything; what
/// others say does not change it.
pub proof fn last_request_is_the_users(items: Seq<TranscriptItem>, item: TranscriptItem)
    ensures
        ({
            let n = items.len() as int;
            let after = last_request(items.push(item), n + 1);
            &&& (item matches TranscriptItem::User(text) ==> (clean(first_line(text@)).len() > 0
                ==> after == Some(clean(first_line(text@)))))
            &&& !(item is User) ==> after == last_request(items, n)
        }),
{
    requests_ignore_what_follows(items, item, items.len() as int);
    assert(items.push(item)[items.len() as int] == item);
}

/// A title that has room is the icon, the request and what is done; without a request
/// it is the icon and the name of the program.
pub proof fn title_joins_its_parts(
    status: TerminalTaskStatus,
    id: Seq<char>,
    act: Seq<char>,
)
    ensures
        ({
            let base = icon_of(status) + " "@ + truncated(id, 40);
            let left = 64 - unicode_str_width(base) - 3;
            &&& title_of(status, None, Some(act)) == icon_of(status) + " CodeLeveler"@
            &&& title_of(status, Some(Seq::empty()), Some(act)) == icon_of(status)
                + " CodeLeveler"@
            &&& id.len() > 0 ==> title_of(status, Some(id), None) == base
            &&& id.len() > 0 && act.len() > 0 && left >= 4 ==> title_of(status, Some(id), Some(act))
                == base + " · "@ + truncated(act, left)
            &&& id.len() > 0 && (act.len() == 0 || left < 4) ==> title_of(
                status,
                Some(id),
                Some(act),
            ) == base
        }),
{
}

/// While a task runs or asks, the title goes by the newest request; at rest it keeps the
/// one that it has; without any request it has none.
pub proof fn title_follows_the_running_request(
    identity: Option<Seq<char>>,
    request: Seq<char>,
    status: TerminalTaskStatus,
)
    ensures
        status == TerminalTaskStatus::Running || status == TerminalTaskStatus::NeedsUser
            ==> next_identity(identity, Some(request), status) == Some(request),
        identity is None ==> next_identity(identity, Some(request), status) == Some(request),
        next_identity(identity, None, status) is None,
{
}

proof fn plain_stays(s: Seq<char>, i: int, spaced: bool)
    requires
        0 <= i <= s.len(),
        forall|k: int| i <= k < s.len() ==> !control(#[trigger] s[k]) && s[k] != ' ',
    ensures
        collapsed(s, i, spaced) == s.skip(i),
    decreases s.len() - i,
{
    if i < s.len() {
        plain_stays(s, i + 1, false);
        assert(collapsed(s, i, spaced) =~= s.skip(i));
    } else {
        assert(s.skip(i) =~= Seq::<char>::empty());
    }
}

proof fn gap_is_one_space(a: Seq<char>, g: Seq<char>, b: Seq<char>, i: int, spaced: bool)
    requires
        0 <= i <= a.len() + g.len(),
        g.len() > 0,
        forall|k: int| 0 <= k < a.len() ==> !control(#[trigger] a[k]) && a[k] != ' ',
        forall|k: int| 0 <= k < b.len() ==> !control(#[trigger] b[k]) && b[k] != ' ',
        forall|k: int| 0 <= k < g.len() ==> control(#[trigger] g[k]) || g[k] == ' ',
        i == a.len() ==> !spaced,
        i > a.len() ==> spaced,
    ensures
        i <= a.len() ==> collapsed(a + g + b, i, spaced) == a.skip(i) + seq![' '] + b,
        i > a.len() ==> collapsed(a + g + b, i, spaced) == b,
    decreases a.len() + g.len() - i,
{
    let s = a + g + b;
    let n = (a.len() + g.len()) as int;
    if i < a.len() {
        assert(s[i] == a[i]);
        gap_is_one_space(a, g, b, i + 1, false);
        assert(collapsed(s, i, spaced) =~= a.skip(i) + seq![' '] + b);
    } else if i < n {
        assert(s[i] == g[i - a.len()]);
        gap_is_one_space(a, g, b, i + 1, true);
        if i == a.len() {
            assert(collapsed(s, i, spaced) =~= a.skip(i) + seq![' '] + b);
        } else {
            assert(collapsed(s, i, spaced) =~= b);
        }
    } else {
        assert forall|k: int| i <= k < s.len() implies !control(#[trigger] s[k]) && s[k]
            != ' ' by {
            assert(s[k] == b[k - n]);
        }
        plain_stays(s, i, spaced);
        assert(s.skip(i) =~= b);
    }
}

/// Two words stay as they are, and whatever spaces and control characters stand between
/// them are one space.
pub proof fn gaps_are_one_space(a: Seq<char>, g: Seq<char>, b: Seq<char>)
    requires
        a.len() > 0,
        g.len() > 0,
        b.len() > 0,
        forall|k: int| 0 <= k < a.len() ==> !control(#[trigger] a[k]) && !whitespace(a[k]),
        forall|k: int| 0 <= k < b.len() ==> !control(#[trigger] b[k]) && !whitespace(b[k]),
        forall|k: int| 0 <= k < g.len() ==> control(#[trigger] g[k]) || g[k] == ' ',
    ensures
        clean(a + g + b) == a + seq![' '] + b,
        clean(a) == a,
{
    assert(whitespace(' '));
    assert forall|k: int| 0 <= k < a.len() implies !control(#[trigger] a[k]) && a[k] != ' ' by {}
    assert forall|k: int| 0 <= k < b.len() implies !control(#[trigger] b[k]) && b[k] != ' ' by {}
    gap_is_one_space(a, g, b, 0, true);
    assert(a.skip(0) =~= a);
    let w = a + seq![' '] + b;
    assert(Seq::<char>::empty() + w + Seq::<char>::empty() =~= w);
    assert(w[0] == a[0] && w.last() == b.last());
    trimming_takes_the_ends(Seq::empty(), w, Seq::empty());
    plain_stays(a, 0, true);
    assert(Seq::<char>::empty() + a + Seq::<char>::empty() =~= a);
    trimming_takes_the_ends(Seq::empty(), a, Seq::empty());
}

} // verus!
