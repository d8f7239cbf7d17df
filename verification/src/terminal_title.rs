//! The terminal's dynamic title: `<icon> <task> · <activity>`.
//!
//! It makes several tabs identifiable at a glance and shows which one needs attention.
//! It is a projection: it reads the state and decides the title, and owns nothing but
//! the task's identity, which is sticky. A finished tab keeps reading
//! `✓ task · done` until a turn starts with another request.

use vstd::prelude::*;

use crate::i18n::text_of;
use crate::number::minus;
use crate::overlay::OverlayKind;
use crate::render::footer::{first_line, first_line_of};
use crate::render::text::{flat, less_one, truncate_display, truncated};
use crate::state::{opt_text, AppState};
use crate::status_line::{phase_of, status_phase, StatusPhase};
use crate::strings::{
    cat2, cat3, chars_of, control, is_control, same, skip_white, trim, trimmed, trimmed_is_inside,
};
use crate::transcript::{last_end, TranscriptItem, TurnEndStatus};
use crate::width::{fit_end, fit_end_is_longest, str_width, unicode_str_width};

verus! {

/// Presentation-only status, derived on every projection.
#[derive(Clone, Copy, Debug, PartialEq, Eq, Structural)]
pub enum TerminalTaskStatus {
    Idle,
    Running,
    Waiting,
    NeedsUser,
    Completed,
    Failed,
}

/// The symbol of a status. It carries the state by itself: a title has no color.
pub open spec fn icon_of(s: TerminalTaskStatus) -> Seq<char> {
    match s {
        TerminalTaskStatus::Idle => "○"@,
        TerminalTaskStatus::Running => "◐"@,
        TerminalTaskStatus::Waiting => "◌"@,
        TerminalTaskStatus::NeedsUser => "!"@,
        TerminalTaskStatus::Completed => "✓"@,
        TerminalTaskStatus::Failed => "×"@,
    }
}

impl TerminalTaskStatus {
    pub fn icon(self) -> (r: &'static str)
        ensures
            r@ == icon_of(self),
    {
        match self {
            TerminalTaskStatus::Idle => "○",
            TerminalTaskStatus::Running => "◐",
            TerminalTaskStatus::Waiting => "◌",
            TerminalTaskStatus::NeedsUser => "!",
            TerminalTaskStatus::Completed => "✓",
            TerminalTaskStatus::Failed => "×",
        }
    }
}

/// Overall display budget, and the part that keeps the identity recognizable before
/// any activity detail survives. Both are cells, not bytes.
pub const TITLE_MAX_CELLS: usize = 64;

const IDENTITY_MAX_CELLS: usize = 40;

// ---------------------------------------------------------------- clean text

/// `s` from `i` on, each control character as a space, and each run of spaces as one;
/// none at the front where `spaced`.
pub open spec fn collapsed(s: Seq<char>, i: int, spaced: bool) -> Seq<char>
    decreases s.len() - i,
{
    if i >= s.len() {
        Seq::empty()
    } else if control(s[i]) || s[i] == ' ' {
        (if spaced {
            Seq::empty()
        } else {
            seq![' ']
        }) + collapsed(s, i + 1, true)
    } else {
        seq![s[i]] + collapsed(s, i + 1, false)
    }
}

/// A text that may travel in a title.
pub open spec fn clean(s: Seq<char>) -> Seq<char> {
    trimmed(collapsed(s, 0, true))
}

/// A title travels inside a control sequence, and reaches tab bars, multiplexers and
/// screenshots: control characters in the user's text become spaces.
pub fn sanitize(text: &str) -> (r: String)
    ensures
        r@ == clean(text@),
{
    let v = chars_of(text);
    let mut out = String::new();
    let mut spaced = true;
    let mut i: usize = 0;
    assert(out@ + collapsed(v@, 0, true) =~= collapsed(v@, 0, true));
    while i < v.len()
        invariant
            i <= v@.len(),
            out@ + collapsed(v@, i as int, spaced) == collapsed(v@, 0, true),
        decreases v@.len() - i,
    {
        let ghost before = out@;
        let c = v[i];
        if is_control(c) || c == ' ' {
            if !spaced {
                out.push(' ');
            }
            spaced = true;
            assert(before + ((if out@ == before {
                Seq::empty()
            } else {
                seq![' ']
            }) + collapsed(v@, i + 1, true)) =~= out@ + collapsed(v@, i + 1, true));
        } else {
            out.push(c);
            spaced = false;
            assert(before + (seq![c] + collapsed(v@, i + 1, false)) =~= out@ + collapsed(
                v@,
                i + 1,
                false,
            ));
        }
        i += 1;
    }
    assert(out@ =~= collapsed(v@, 0, true));
    trim(out.as_str())
}

proof fn collapsed_is_clean(s: Seq<char>, i: int, spaced: bool)
    requires
        0 <= i,
    ensures
        forall|k: int|
            0 <= k < collapsed(s, i, spaced).len() ==> !control(
                #[trigger] collapsed(s, i, spaced)[k],
            ),
    decreases s.len() - i,
{
    if i < s.len() {
        let rest = collapsed(s, i + 1, control(s[i]) || s[i] == ' ');
        collapsed_is_clean(s, i + 1, control(s[i]) || s[i] == ' ');
        let all = collapsed(s, i, spaced);
        assert forall|k: int| 0 <= k < all.len() implies !control(#[trigger] all[k]) by {
            let lead = all.len() - rest.len();
            if k >= lead {
                assert(all[k] == rest[k - lead]);
            }
        }
    }
}

/// No control character survives into a title's text.
pub proof fn clean_text_has_no_control(s: Seq<char>)
    ensures
        forall|k: int| 0 <= k < clean(s).len() ==> !control(#[trigger] clean(s)[k]),
{
    let c = collapsed(s, 0, true);
    collapsed_is_clean(s, 0, true);
    trimmed_is_inside(c);
    assert forall|k: int| 0 <= k < clean(s).len() implies !control(#[trigger] clean(s)[k]) by {
        assert(clean(s)[k] == c[skip_white(c, 0) + k]);
    }
}

// ---------------------------------------------------------------- status

/// What a turn's end makes of the title: only a completion or an answer earns the
/// check mark. An unverified end does not: a title has no room for the caveat, and a
/// bare check mark would claim more than is known.
pub open spec fn end_status(end: TurnEndStatus) -> TerminalTaskStatus {
    if end == TurnEndStatus::Completed || end == TurnEndStatus::Answered {
        TerminalTaskStatus::Completed
    } else {
        TerminalTaskStatus::Failed
    }
}

pub fn terminal_status(end: TurnEndStatus) -> (r: TerminalTaskStatus)
    ensures
        r == end_status(end),
{
    if end == TurnEndStatus::Completed || end == TurnEndStatus::Answered {
        TerminalTaskStatus::Completed
    } else {
        TerminalTaskStatus::Failed
    }
}

/// How the last turn ended.
pub open spec fn ended(state: AppState) -> Option<TurnEndStatus> {
    match last_end(state.transcript.items@, state.transcript.items@.len() as int) {
        Some(b) => Some(b.status),
        None => None,
    }
}

/// Whether the last turn ended without a completion or an answer.
pub open spec fn failed_end(state: AppState) -> bool {
    ended(state) matches Some(end) && end_status(end) == TerminalTaskStatus::Failed
}

/// Attention beats failure beats work beats waiting beats done. A failure is that of
/// the latest turn: once a new turn runs, how an earlier one ended is settled and the
/// title shows the work.
pub open spec fn task_status(state: AppState) -> TerminalTaskStatus {
    match phase_of(state) {
        StatusPhase::AwaitingUser => TerminalTaskStatus::NeedsUser,
        StatusPhase::Busy => TerminalTaskStatus::Running,
        StatusPhase::Idle => if failed_end(state) {
            TerminalTaskStatus::Failed
        } else if state.background_task_labels@.len() > 0 {
            TerminalTaskStatus::Waiting
        } else if ended(state) is Some {
            TerminalTaskStatus::Completed
        } else {
            TerminalTaskStatus::Idle
        },
    }
}

fn last_turn_end(state: &AppState) -> (r: Option<TurnEndStatus>)
    ensures
        r == ended(*state),
{
    match state.transcript.last_turn_end() {
        Some(b) => Some(b.status),
        None => None,
    }
}

/// The status that the title shows: attention beats failure beats work beats waiting
/// beats done. It answers whether the tab must be looked at. While a turn runs, the
/// failure of an earlier one no longer counts.
pub fn derive_status(state: &AppState) -> (r: TerminalTaskStatus)
    ensures
        r == task_status(*state),
{
    match status_phase(state) {
        StatusPhase::AwaitingUser => TerminalTaskStatus::NeedsUser,
        StatusPhase::Busy => TerminalTaskStatus::Running,
        StatusPhase::Idle => {
            let settled = match last_turn_end(state) {
                Some(end) => terminal_status(end),
                None => TerminalTaskStatus::Idle,
            };
            if settled != TerminalTaskStatus::Failed && state.background_task_labels.len() > 0 {
                TerminalTaskStatus::Waiting
            } else {
                settled
            }
        },
    }
}

// ---------------------------------------------------------------- the two halves

/// The last request among the first `n` items that says anything.
pub open spec fn last_request(items: Seq<TranscriptItem>, n: int) -> Option<Seq<char>>
    decreases n,
{
    if n <= 0 {
        None
    } else {
        match items[n - 1] {
            TranscriptItem::User(text) => {
                let line = clean(first_line(text@));
                if line.len() == 0 {
                    last_request(items, n - 1)
                } else {
                    Some(line)
                }
            },
            _ => last_request(items, n - 1),
        }
    }
}

/// The last request of the conversation.
pub open spec fn request_of(state: AppState) -> Option<Seq<char>> {
    last_request(state.transcript.items@, state.transcript.items@.len() as int)
}

pub fn last_user_text(state: &AppState) -> (r: Option<String>)
    ensures
        opt_text(r) == request_of(*state),
{
    let items = &state.transcript.items;
    let mut n: usize = items.len();
    while n > 0
        invariant
            items@ == state.transcript.items@,
            n <= items@.len(),
            last_request(items@, items@.len() as int) == last_request(items@, n as int),
        decreases n,
    {
        n -= 1;
        match &items[n] {
            TranscriptItem::User(text) => {
                let line = sanitize(first_line_of(text.as_str()).as_str());
                if !line.as_str().is_empty() {
                    return Some(line);
                }
            },
            _ => {},
        }
    }
    None
}

/// The short activity half. Structured sources only, never the model's prose.
pub open spec fn activity_of(state: AppState, status: TerminalTaskStatus) -> Option<Seq<char>> {
    let t = text_of(state.locale);
    match status {
        TerminalTaskStatus::Idle => None,
        TerminalTaskStatus::NeedsUser => Some(
            if state.overlay matches Some(o) && o.kind == OverlayKind::Clarification {
                t.title_awaiting_input@
            } else {
                t.title_awaiting_approval@
            },
        ),
        TerminalTaskStatus::Running => Some(
            match state.activity {
                Some(a) => if clean(first_line(a@)).len() > 0 {
                    clean(first_line(a@))
                } else {
                    t.title_working@
                },
                None => t.title_working@,
            },
        ),
        TerminalTaskStatus::Waiting => Some(t.title_waiting_background@),
        TerminalTaskStatus::Completed => Some(t.title_completed@),
        TerminalTaskStatus::Failed => Some(
            match ended(state) {
                Some(TurnEndStatus::Unverified) => t.title_unverified@,
                Some(TurnEndStatus::Cancelled) => t.title_cancelled@,
                Some(TurnEndStatus::Failed) => t.title_failed@,
                _ => t.title_incomplete@,
            },
        ),
    }
}

pub fn activity(state: &AppState, status: TerminalTaskStatus) -> (r: Option<String>)
    ensures
        opt_text(r) == activity_of(*state, status),
{
    let t = state.t();
    match status {
        TerminalTaskStatus::Idle => None,
        TerminalTaskStatus::NeedsUser => {
            let clarifies = match &state.overlay {
                Some(o) => o.kind == OverlayKind::Clarification,
                None => false,
            };
            if clarifies {
                Some(t.title_awaiting_input.to_owned())
            } else {
                Some(t.title_awaiting_approval.to_owned())
            }
        },
        TerminalTaskStatus::Running => {
            match &state.activity {
                Some(a) => {
                    let line = sanitize(first_line_of(a.as_str()).as_str());
                    if !line.as_str().is_empty() {
                        return Some(line);
                    }
                },
                None => {},
            }
            Some(t.title_working.to_owned())
        },
        TerminalTaskStatus::Waiting => Some(t.title_waiting_background.to_owned()),
        TerminalTaskStatus::Completed => Some(t.title_completed.to_owned()),
        TerminalTaskStatus::Failed => match last_turn_end(state) {
            Some(TurnEndStatus::Unverified) => Some(t.title_unverified.to_owned()),
            Some(TurnEndStatus::Cancelled) => Some(t.title_cancelled.to_owned()),
            Some(TurnEndStatus::Failed) => Some(t.title_failed.to_owned()),
            _ => Some(t.title_incomplete.to_owned()),
        },
    }
}

// ---------------------------------------------------------------- the title

/// The title: icon, then a recognizable identity, then as much of the activity as the
/// budget leaves.
pub open spec fn title_of(
    status: TerminalTaskStatus,
    identity: Option<Seq<char>>,
    activity: Option<Seq<char>>,
) -> Seq<char> {
    match identity {
        Some(id) => if id.len() == 0 {
            icon_of(status) + " CodeLeveler"@
        } else {
            let base = icon_of(status) + " "@ + truncated(id, 40);
            match activity {
                Some(act) => {
                    let left = minus(64, unicode_str_width(base) + 3);
                    if act.len() == 0 || left < 4 {
                        base
                    } else {
                        base + " · "@ + truncated(act, left)
                    }
                },
                None => base,
            }
        },
        None => icon_of(status) + " CodeLeveler"@,
    }
}

/// Compose within the display budget. Several tabs must never collapse into the same
/// activity, so the identity is cut last.
pub fn compose(
    status: TerminalTaskStatus,
    identity: &Option<String>,
    activity: &Option<String>,
) -> (r: String)
    ensures
        r@ == title_of(status, opt_text(*identity), opt_text(*activity)),
{
    let icon = status.icon();
    let id = match identity {
        Some(s) => if s.as_str().is_empty() {
            return cat2(icon, " CodeLeveler");
        } else {
            truncate_display(s.as_str(), IDENTITY_MAX_CELLS)
        },
        None => {
            return cat2(icon, " CodeLeveler");
        },
    };
    let base = cat3(icon, " ", id.as_str());
    match activity {
        Some(act) => {
            let used: usize = str_width(base.as_str());
            let left: usize = TITLE_MAX_CELLS.saturating_sub(used.saturating_add(3));
            if act.as_str().is_empty() || left < 4 {
                base
            } else {
                cat3(base.as_str(), " · ", truncate_display(act.as_str(), left).as_str())
            }
        },
        None => base,
    }
}

/// The identity after a projection: the request of a live turn; what it was in any
/// other state; nothing once the conversation holds no request.
pub open spec fn next_identity(
    identity: Option<Seq<char>>,
    request: Option<Seq<char>>,
    status: TerminalTaskStatus,
) -> Option<Seq<char>> {
    if request is None {
        None
    } else if status == TerminalTaskStatus::Running || status == TerminalTaskStatus::NeedsUser {
        request
    } else if identity is None {
        request
    } else {
        identity
    }
}

/// The sticky projection. Nothing derived from time feeds the title, so it changes
/// only when its meaning does.
#[derive(Debug)]
pub struct TerminalTitleProjection {
    pub last: Option<String>,
    /// Captured when work starts, replaced when a new request starts work, cleared
    /// when the conversation resets.
    pub identity: Option<String>,
}

impl Default for TerminalTitleProjection {
    fn default() -> (r: Self)
        ensures
            r.last is None,
            r.identity is None,
    {
        TerminalTitleProjection { last: None, identity: None }
    }
}

impl TerminalTitleProjection {
    /// The title for `state`.
    pub fn project(&mut self, state: &AppState) -> (r: String)
        ensures
            final(self).last == old(self).last,
            opt_text(final(self).identity) == next_identity(
                opt_text(old(self).identity),
                request_of(*state),
                task_status(*state),
            ),
            r@ == title_of(
                task_status(*state),
                opt_text(final(self).identity),
                activity_of(*state, task_status(*state)),
            ),
    {
        let status = derive_status(state);
        let last_user = last_user_text(state);
        if last_user.is_none() {
            // The conversation was reset: no identity.
            self.identity = None;
        } else if status == TerminalTaskStatus::Running || status == TerminalTaskStatus::NeedsUser {
            // A turn is live: the request that started it is the identity.
            self.identity = last_user;
        } else if self.identity.is_none() {
            self.identity = last_user;
        }
        let act = activity(state, status);
        compose(status, &self.identity, &act)
    }

    /// The title to write for `state`, or nothing where it stands already.
    pub fn next_title(&mut self, state: &AppState) -> (r: Option<String>)
        ensures
            opt_text(final(self).identity) == next_identity(
                opt_text(old(self).identity),
                request_of(*state),
                task_status(*state),
            ),
            ({
                let title = title_of(
                    task_status(*state),
                    opt_text(final(self).identity),
                    activity_of(*state, task_status(*state)),
                );
                &&& opt_text(final(self).last) == Some(title)
                &&& opt_text(r) == (if opt_text(old(self).last) == Some(title) {
                    None
                } else {
                    Some(title)
                })
            }),
    {
        let title = self.project(state);
        let stands = match &self.last {
            Some(l) => same(l.as_str(), title.as_str()),
            None => false,
        };
        if stands {
            return None;
        }
        self.last = Some(title.clone());
        Some(title)
    }
}

// ---------------------------------------------------------------- laws

/// A turn that did not complete never shows a check mark: in an idle conversation the
/// title begins with the cross, whatever runs in the background.
pub proof fn failure_never_wears_a_check(state: AppState, identity: Option<Seq<char>>)
    requires
        phase_of(state) == StatusPhase::Idle,
        ended(state) matches Some(end) && end != TurnEndStatus::Completed && end
            != TurnEndStatus::Answered,
    ensures
        ({
            let title = title_of(
                task_status(state),
                identity,
                activity_of(state, task_status(state)),
            );
            title.len() > 0 && title[0] == '×'
        }),
{
    reveal_strlit("×");
    let status = task_status(state);
    assert(status == TerminalTaskStatus::Failed);
    icon_leads(status, identity, activity_of(state, status));
}

/// Every title begins with its status's icon.
pub proof fn icon_leads(
    status: TerminalTaskStatus,
    identity: Option<Seq<char>>,
    activity: Option<Seq<char>>,
)
    ensures
        icon_of(status).len() == 1,
        title_of(status, identity, activity).len() > 0,
        title_of(status, identity, activity)[0] == icon_of(status)[0],
{
    reveal_strlit("○");
    reveal_strlit("◐");
    reveal_strlit("◌");
    reveal_strlit("!");
    reveal_strlit("✓");
    reveal_strlit("×");
}

/// The identity stays the same across changes of the activity, and when the turn has
/// ended: it is replaced only when a turn with another request starts, and cleared
/// only with the conversation.
pub proof fn identity_is_sticky(
    identity: Option<Seq<char>>,
    request: Option<Seq<char>>,
    status: TerminalTaskStatus,
)
    ensures
        identity is Some && request is Some && status != TerminalTaskStatus::Running && status
            != TerminalTaskStatus::NeedsUser ==> next_identity(identity, request, status)
            == identity,
        identity is Some && identity == request ==> next_identity(identity, request, status)
            == identity,
        next_identity(next_identity(identity, request, status), request, status)
            == next_identity(identity, request, status),
{
}

proof fn flat_is_clean(s: Seq<char>, max: int)
    requires
        0 <= max,
    ensures
        forall|k: int| 0 <= k < truncated(s, max).len() ==> !control(#[trigger] truncated(s, max)[k]),
{
    let f = flat(s);
    let r = truncated(s, max);
    if unicode_str_width(f) > max {
        let e = fit_end(f, 0, less_one(max));
        fit_end_is_longest(f, 0, less_one(max));
        assert(r == f.take(e).push('…'));
    }
}

/// No control character reaches a title, whatever the request and the activity hold.
pub proof fn title_has_no_control(
    status: TerminalTaskStatus,
    identity: Option<Seq<char>>,
    activity: Option<Seq<char>>,
)
    ensures
        forall|k: int|
            0 <= k < title_of(status, identity, activity).len() ==> !control(
                #[trigger] title_of(status, identity, activity)[k],
            ),
{
    reveal_strlit("○");
    reveal_strlit("◐");
    reveal_strlit("◌");
    reveal_strlit("!");
    reveal_strlit("✓");
    reveal_strlit("×");
    reveal_strlit(" CodeLeveler");
    reveal_strlit(" ");
    reveal_strlit(" · ");
    match identity {
        Some(id) => {
            flat_is_clean(id, 40);
            let base = icon_of(status) + " "@ + truncated(id, 40);
            assert(forall|k: int| 0 <= k < base.len() ==> !control(#[trigger] base[k]));
            match activity {
                Some(act) => {
                    let left = minus(64, unicode_str_width(base) + 3);
                    flat_is_clean(act, left);
                },
                None => {},
            }
        },
        None => {},
    }
}

} // verus!
