//! Delivering commands to the runtime: what an attempt's end means, and when an
//! unanswered submission is delivered again.

use vstd::prelude::*;

use crate::number::at_most;

verus! {

/// How one delivery attempt came back.
#[derive(Debug)]
pub enum ClientReply {
    Delivered,
    /// The connection broke before an answer, or the receipt is unsettled.
    OutcomeUnknown,
    /// The runtime proves that it cannot recover the outcome.
    Unresolvable,
    /// Refused by the runtime, in its own words.
    Runtime(String),
    /// Any other error of the client, in its words.
    Failed(String),
    /// The task that ran the attempt went away.
    Lost,
}

/// What the runtime answered for one delivery attempt.
#[derive(Debug)]
pub enum DeliveryAnswer {
    Delivered,
    /// Rejected, in the runtime's own words.
    Rejected(String),
    /// Admitted, with an outcome the runtime proves it cannot recover.
    Unresolvable,
    /// No answer: nothing may be concluded.
    NoAnswer,
}

pub open spec fn answer_of(reply: ClientReply) -> DeliveryAnswer {
    match reply {
        ClientReply::Delivered => DeliveryAnswer::Delivered,
        ClientReply::OutcomeUnknown => DeliveryAnswer::NoAnswer,
        ClientReply::Lost => DeliveryAnswer::NoAnswer,
        ClientReply::Unresolvable => DeliveryAnswer::Unresolvable,
        ClientReply::Runtime(m) => DeliveryAnswer::Rejected(m),
        ClientReply::Failed(m) => DeliveryAnswer::Rejected(m),
    }
}

pub fn delivery_answer(reply: ClientReply) -> (r: DeliveryAnswer)
    ensures
        r == answer_of(reply),
{
    match reply {
        ClientReply::Delivered => DeliveryAnswer::Delivered,
        ClientReply::OutcomeUnknown => DeliveryAnswer::NoAnswer,
        ClientReply::Lost => DeliveryAnswer::NoAnswer,
        ClientReply::Unresolvable => DeliveryAnswer::Unresolvable,
        ClientReply::Runtime(m) => DeliveryAnswer::Rejected(m),
        ClientReply::Failed(m) => DeliveryAnswer::Rejected(m),
    }
}

/// What the reducer is told once a delivery is over, or left open.
#[derive(Debug)]
pub enum EffectCompletion {
    CommandDelivered,
    CommandRejected { message: String },
    CommandUncertain,
    SubmissionDelivered { command_id: String },
    SubmissionRejected { command_id: String, message: String },
    /// Final: the old id is never sent again.
    SubmissionUnresolvable { command_id: String },
    SubmissionUnconfirmed { command_id: String },
    InteractionDelivered { key: String },
    InteractionUncertain { key: String },
}

/// A completion, and whether the session must be read again to tell what the runtime
/// did meanwhile.
#[derive(Debug)]
pub struct Completion {
    pub what: EffectCompletion,
    pub resync: bool,
}

/// What becomes of a plain command. `answer` is absent where the wait timed out: then
/// it is no delivery that this client saw.
pub fn command_completion(answer: Option<DeliveryAnswer>) -> (r: Completion)
    ensures
        match answer {
            Some(DeliveryAnswer::Delivered) => r.what is CommandDelivered && !r.resync,
            Some(DeliveryAnswer::Rejected(m)) => r.resync && r.what == (
            EffectCompletion::CommandRejected { message: m }),
            _ => r.what is CommandUncertain && r.resync,
        },
{
    match answer {
        Some(DeliveryAnswer::Delivered) => Completion {
            what: EffectCompletion::CommandDelivered,
            resync: false,
        },
        Some(DeliveryAnswer::Rejected(m)) => Completion {
            what: EffectCompletion::CommandRejected { message: m },
            resync: true,
        },
        _ => Completion { what: EffectCompletion::CommandUncertain, resync: true },
    }
}

/// What becomes of an answer to a request. Anything but a delivery leaves it open.
pub fn interaction_completion(delivered: bool, key: String) -> (r: Completion)
    ensures
        r.resync == !delivered,
        r.what == (if delivered {
            EffectCompletion::InteractionDelivered { key }
        } else {
            EffectCompletion::InteractionUncertain { key }
        }),
{
    if delivered {
        Completion { what: EffectCompletion::InteractionDelivered { key }, resync: false }
    } else {
        Completion { what: EffectCompletion::InteractionUncertain { key }, resync: true }
    }
}

// ---------------------------------------------------------------- submissions

/// The end of a submission that was answered; nothing without an answer.
pub open spec fn submission_end(answer: DeliveryAnswer, command_id: String) -> Option<
    EffectCompletion,
> {
    match answer {
        DeliveryAnswer::Delivered => Some(EffectCompletion::SubmissionDelivered { command_id }),
        DeliveryAnswer::Rejected(message) => Some(
            EffectCompletion::SubmissionRejected { command_id, message },
        ),
        DeliveryAnswer::Unresolvable => Some(
            EffectCompletion::SubmissionUnresolvable { command_id },
        ),
        DeliveryAnswer::NoAnswer => None,
    }
}

fn end_of(answer: DeliveryAnswer, command_id: String) -> (r: Option<EffectCompletion>)
    ensures
        r == submission_end(answer, command_id),
{
    match answer {
        DeliveryAnswer::Delivered => Some(EffectCompletion::SubmissionDelivered { command_id }),
        DeliveryAnswer::Rejected(message) => Some(
            EffectCompletion::SubmissionRejected { command_id, message },
        ),
        DeliveryAnswer::Unresolvable => Some(
            EffectCompletion::SubmissionUnresolvable { command_id },
        ),
        DeliveryAnswer::NoAnswer => None,
    }
}

/// The first delivery of a submission.
#[derive(Debug)]
pub enum FirstAttempt {
    Settled(Completion),
    /// No answer yet: it is unconfirmed, and settled in the background.
    Open(Settling),
}

/// What the first attempt came to. `answer` is absent where the wait timed out: the
/// attempt still runs, and its answer is not thrown away.
pub fn first_submission_attempt(answer: Option<DeliveryAnswer>, command_id: String) -> (r: FirstAttempt)
    ensures
        match answer {
            None => r == FirstAttempt::Open(
                Settling { command_id, backoff_ms: 500, in_flight: true },
            ),
            Some(a) => match submission_end(a, command_id) {
                Some(what) => r == FirstAttempt::Settled(
                    Completion { what, resync: !(a is Delivered) },
                ),
                None => r == FirstAttempt::Open(
                    Settling { command_id, backoff_ms: 500, in_flight: false },
                ),
            },
        },
{
    match answer {
        None => FirstAttempt::Open(Settling::new(command_id, true)),
        Some(DeliveryAnswer::Delivered) => FirstAttempt::Settled(
            Completion {
                what: EffectCompletion::SubmissionDelivered { command_id },
                resync: false,
            },
        ),
        Some(DeliveryAnswer::Rejected(message)) => FirstAttempt::Settled(
            Completion {
                what: EffectCompletion::SubmissionRejected { command_id, message },
                resync: true,
            },
        ),
        Some(DeliveryAnswer::Unresolvable) => FirstAttempt::Settled(
            Completion {
                what: EffectCompletion::SubmissionUnresolvable { command_id },
                resync: true,
            },
        ),
        Some(DeliveryAnswer::NoAnswer) => FirstAttempt::Open(Settling::new(command_id, false)),
    }
}

/// Pause before the first re-delivery. It doubles up to the cap, so that a runtime
/// that stays away costs an attempt every few seconds and not a busy loop.
pub const REDELIVERY_BACKOFF_MIN_MS: u64 = 500;

pub const REDELIVERY_BACKOFF_MAX_MS: u64 = 5000;

/// An unanswered submission. Every attempt carries the same command id, so that the
/// runtime's durable receipt turns them into at most one dispatch.
#[derive(Debug)]
pub struct Settling {
    pub command_id: String,
    pub backoff_ms: u64,
    /// An attempt still runs whose answer was not awaited to its end.
    pub in_flight: bool,
}

/// What to do next about an unanswered submission.
#[derive(Debug)]
pub enum SettleStep {
    /// Wait for the attempt that still runs.
    AwaitInFlight,
    /// Pause, deliver again under this id, and wait for the answer.
    Redeliver { pause_ms: u64, command_id: String },
}

impl Settling {
    /// The pause is within its bounds.
    pub open spec fn wf(self) -> bool {
        500 <= self.backoff_ms <= 5000
    }

    pub fn new(command_id: String, in_flight: bool) -> (r: Settling)
        ensures
            r == (Settling { command_id, backoff_ms: 500, in_flight }),
            r.wf(),
    {
        Settling { command_id, backoff_ms: REDELIVERY_BACKOFF_MIN_MS, in_flight }
    }

    /// What is told while there is no answer.
    pub fn unconfirmed(&self) -> (r: Completion)
        ensures
            !r.resync,
            r.what matches EffectCompletion::SubmissionUnconfirmed { command_id } && command_id@
                == self.command_id@,
    {
        Completion {
            what: EffectCompletion::SubmissionUnconfirmed { command_id: self.command_id.clone() },
            resync: false,
        }
    }

    /// The next attempt.
    pub fn next(&mut self) -> (r: SettleStep)
        requires
            old(self).wf(),
        ensures
            final(self).wf(),
            *final(self) == stepped(*old(self)),
            old(self).in_flight ==> r is AwaitInFlight,
            !old(self).in_flight ==> {
                &&& r matches SettleStep::Redeliver { pause_ms, command_id }
                &&& pause_ms == old(self).backoff_ms
                &&& command_id@ == old(self).command_id@
            },
    {
        if self.in_flight {
            self.in_flight = false;
            return SettleStep::AwaitInFlight;
        }
        let pause_ms: u64 = self.backoff_ms;
        let doubled: u64 = pause_ms * 2;
        self.backoff_ms = if doubled < REDELIVERY_BACKOFF_MAX_MS {
            doubled
        } else {
            REDELIVERY_BACKOFF_MAX_MS
        };
        SettleStep::Redeliver { pause_ms, command_id: self.command_id.clone() }
    }

    /// An attempt is over. Only an answer ends the retries; no answer is never read as
    /// "not delivered".
    pub fn answered(&self, answer: DeliveryAnswer) -> (r: Option<Completion>)
        ensures
            r is None <==> answer is NoAnswer,
            r matches Some(c) ==> {
                &&& c.resync
                &&& match answer {
                    DeliveryAnswer::Delivered => c.what matches EffectCompletion::SubmissionDelivered {
                        command_id,
                    } && command_id@ == self.command_id@,
                    DeliveryAnswer::Rejected(m) => c.what
                        matches EffectCompletion::SubmissionRejected { command_id, message }
                        && command_id@ == self.command_id@ && message == m,
                    _ => c.what matches EffectCompletion::SubmissionUnresolvable { command_id }
                        && command_id@ == self.command_id@,
                }
            },
    {
        match end_of(answer, self.command_id.clone()) {
            Some(what) => Some(Completion { what, resync: true }),
            None => None,
        }
    }
}

/// The submission after one more attempt: one that still runs is waited for first, and
/// every re-delivery doubles the pause up to its cap.
pub open spec fn stepped(s: Settling) -> Settling {
    if s.in_flight {
        Settling { in_flight: false, ..s }
    } else {
        Settling { backoff_ms: at_most(2 * s.backoff_ms, 5000) as u64, ..s }
    }
}

/// The submission after `n` attempts.
pub open spec fn after_attempts(s: Settling, n: nat) -> Settling
    decreases n,
{
    if n == 0 {
        s
    } else {
        stepped(after_attempts(s, (n - 1) as nat))
    }
}

/// The pause before the `n`-th re-delivery.
pub open spec fn pause_before(n: nat) -> int
    decreases n,
{
    if n == 0 {
        500
    } else {
        at_most(2 * pause_before((n - 1) as nat), 5000)
    }
}

/// The pauses never shrink, stay between half a second and five seconds, and reach the
/// cap at the fifth re-delivery.
pub proof fn pauses_grow_to_the_cap(n: nat)
    ensures
        500 <= pause_before(n) <= pause_before(n + 1) <= 5000,
        n >= 4 ==> pause_before(n) == 5000,
    decreases n,
{
    if n > 0 {
        pauses_grow_to_the_cap((n - 1) as nat);
    }
    if n >= 4 {
        reveal_with_fuel(pause_before, 6);
        if n > 4 {
            pauses_grow_to_the_cap((n - 1) as nat);
        }
    }
}

/// However often a submission is delivered again, it is under the id of the first
/// attempt, and after the pause of that attempt's number. An attempt that still runs is
/// waited for before the first of them.
pub proof fn every_attempt_carries_one_id(command_id: String, in_flight: bool, n: nat)
    ensures
        ({
            let first = Settling { command_id, backoff_ms: 500, in_flight };
            let waited: nat = if in_flight {
                1
            } else {
                0
            };
            &&& after_attempts(first, n).command_id == command_id
            &&& after_attempts(first, n + waited) == (Settling {
                command_id,
                backoff_ms: pause_before(n) as u64,
                in_flight: false,
            })
        }),
    decreases n,
{
    reveal_with_fuel(after_attempts, 3);
    if n > 0 {
        every_attempt_carries_one_id(command_id, in_flight, (n - 1) as nat);
        pauses_grow_to_the_cap((n - 1) as nat);
        let first = Settling { command_id, backoff_ms: 500, in_flight };
        let waited: nat = if in_flight {
            1
        } else {
            0
        };
        assert((n + waited - 1) as nat == (n - 1) as nat + waited);
    }
}

} // verus!
