//! The runtime's facts as this library reads them.

use vstd::prelude::*;

use crate::strings::{chars_of, find_char, find_from, string_of};

verus! {

/// Whether a turn is running.
#[derive(Clone, Copy, Debug, PartialEq, Eq, Structural)]
pub enum RuntimeStatus {
    Idle,
    Busy,
    Error,
}

#[derive(Clone, Copy, Debug, PartialEq, Eq, Structural)]
pub enum PlanStepStatus {
    Pending,
    Running,
    Done,
    Failed,
}

#[derive(Debug)]
pub struct UiPlanStep {
    /// Position of the step, from zero.
    pub index: usize,
    pub description: String,
    pub status: PlanStepStatus,
}

#[derive(Debug)]
pub struct UiPlan {
    pub steps: Vec<UiPlanStep>,
}

/// What the runtime does between the last answer and the end of a turn.
#[derive(Clone, Copy, Debug, PartialEq, Eq, Structural)]
pub enum FinalizationStage {
    SettlingDependencies,
    Verification,
    Evidence,
    Review,
    ResolvingOutcome,
    PublishingTerminal,
}

/// How a child agent was stopped.
#[derive(Clone, Copy, Debug, PartialEq, Eq, Structural)]
pub enum ChildStop {
    Incomplete,
    Budget,
    Cancelled,
    Lost,
    Failed,
}

/// The bound that a child agent ran into.
#[derive(Clone, Copy, Debug, PartialEq, Eq, Structural)]
pub enum ChildLimit {
    Duration,
    ModelTokens,
    Cost,
    Commands,
    ModifiedFiles,
    RoundWindow,
    RoundCeiling,
}

#[derive(Clone, Copy, Debug, PartialEq, Eq, Structural)]
pub enum NotificationLevel {
    Info,
    Warning,
    Error,
}

#[derive(Clone, Copy, Debug, PartialEq, Eq, Structural)]
pub enum PermissionProfile {
    RequestApproval,
    Assisted,
    FullAccess,
}

/// A model and who provides it.
#[derive(Debug)]
pub struct ModelRef {
    pub provider: String,
    pub model: String,
}

/// The model and the provider that `provider/model` names.
pub open spec fn model_ref(raw: Seq<char>) -> Option<(Seq<char>, Seq<char>)> {
    let i = find_from(raw, '/', 0);
    if 0 < i && i + 1 < raw.len() {
        Some((raw.take(i), raw.skip(i + 1)))
    } else {
        None
    }
}

impl ModelRef {
    /// Reads `provider/model`; neither part is empty.
    pub fn parse(raw: &str) -> (r: Option<ModelRef>)
        ensures
            match r {
                Some(m) => model_ref(raw@) == Some((m.provider@, m.model@)),
                None => model_ref(raw@) is None,
            },
    {
        let v = chars_of(raw);
        let n: usize = v.len();
        let i: usize = find_char(&v, '/', 0);
        if i == 0 || i >= n || n - i == 1 {
            return None;
        }
        let provider = string_of(&v, 0, i);
        let model = string_of(&v, i + 1, n);
        assert(provider@ =~= raw@.take(i as int));
        assert(model@ =~= raw@.skip(i + 1));
        Some(ModelRef { provider, model })
    }
}

/// What a finished turn changed and checked.
#[derive(Clone, Copy, Debug)]
pub struct UiCompletionReport {
    pub files_changed: u64,
    pub added: u64,
    pub removed: u64,
    pub checks_passed: u64,
    pub checks_total: u64,
    pub success: bool,
}

#[derive(Debug)]
pub struct UiDiffFile {
    pub path: String,
    pub added: u64,
    pub removed: u64,
    pub patch: Option<String>,
}

#[derive(Debug)]
pub struct UiDiff {
    pub files: Vec<UiDiffFile>,
}

#[derive(Debug)]
pub struct UiSessionSummary {
    pub goal: String,
    pub status: String,
    pub model: String,
}

/// A turn ended without code changes.
pub const REASON_NO_CODE_CHANGES: &'static str = "no_code_changes";

/// A turn ended without a verification that could run by itself.
pub const REASON_NO_AUTOMATIC_VERIFICATION: &'static str = "no_automatic_verification";

} // verus!
