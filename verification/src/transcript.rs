//! The items of a conversation.

use vstd::prelude::*;

use crate::protocol::{ChildLimit, ChildStop, UiCompletionReport, UiPlan};

verus! {

#[derive(Clone, Copy, Debug, PartialEq, Eq, Structural)]
pub enum ToolStatus {
    Running,
    Succeeded,
    Failed,
    Cancelled,
    Unknown,
}

/// Whether the user asked for a call to be stopped.
#[derive(Clone, Copy, Debug, PartialEq, Eq, Structural)]
pub enum StopRequest {
    NotSent,
    Sent,
}

/// One tool call.
#[derive(Debug)]
pub struct ToolCallBlock {
    pub id: String,
    pub name: String,
    /// The arguments as the model wrote them, most often a JSON object.
    pub arguments: String,
    pub status: ToolStatus,
    pub stop: StopRequest,
    pub preview: Option<String>,
    pub duration_ms: Option<u64>,
}

/// Consecutive tool calls.
#[derive(Debug)]
pub struct ToolGroupBlock {
    pub calls: Vec<ToolCallBlock>,
    /// Whether more calls may still join the group.
    pub open: bool,
    pub expanded: bool,
}

/// What a child agent has used so far.
#[derive(Clone, Copy, Debug, PartialEq, Eq, Structural)]
pub struct SubAgentProgress {
    pub active: bool,
    pub input_tokens: u32,
    pub output_tokens: u32,
    pub cached_input_tokens: u32,
}

/// What a child agent gave back.
#[derive(Clone, Copy, Debug, PartialEq, Eq, Structural)]
pub enum Contribution {
    Pending,
    Reported { total: u64 },
}

/// What a child agent is for, as far as it has a name of its own.
#[derive(Clone, Copy, Debug, PartialEq, Eq, Structural)]
pub enum SubAgentRole {
    Explorer,
    Worker,
    Reviewer,
    Other,
}

/// A spawned child agent.
#[derive(Debug)]
pub struct SubAgentBlock {
    pub id: String,
    pub nickname: String,
    pub agent_name: Option<String>,
    pub role: SubAgentRole,
    pub status: ToolStatus,
    pub task: String,
    pub detail: String,
    pub progress: SubAgentProgress,
    pub recent_step: Option<String>,
    pub started_elapsed_secs: u64,
    pub settled_elapsed_secs: Option<u64>,
    pub expanded: bool,
    pub contribution: Contribution,
    pub stop: Option<ChildStop>,
    pub limit: Option<ChildLimit>,
    pub interrupted: bool,
    pub unreported: bool,
}

#[derive(Clone, Copy, Debug, PartialEq, Eq, Structural)]
pub enum UserShellStatus {
    Running,
    Success,
    Failed,
    Cancelled,
    Unknown,
}

/// One command that the user ran.
#[derive(Debug)]
pub struct UserShellBlock {
    pub command: String,
    pub cwd: String,
    pub status: UserShellStatus,
    pub output: String,
    pub output_truncated: bool,
    pub exit_code: Option<i32>,
    pub duration_ms: Option<u64>,
    pub started_elapsed_secs: i64,
    pub expanded: bool,
}

/// How a turn ended.
#[derive(Clone, Copy, Debug, PartialEq, Eq, Structural)]
pub enum TurnEndStatus {
    Completed,
    CompletedWithWarnings,
    Answered,
    Unverified,
    ChecksFailed,
    NoFinalAnswer,
    Truncated,
    Incomplete,
    Failed,
    Cancelled,
}

#[derive(Debug)]
pub struct TurnEndBlock {
    pub status: TurnEndStatus,
    pub tool_calls: u64,
    pub elapsed_secs: u64,
    pub summary: Option<String>,
    pub detail: Option<String>,
}

#[derive(Debug)]
pub struct RecapBlock {
    pub summary: Option<String>,
    pub next_step: String,
}

/// The fields of a recorded goal checkpoint.
#[derive(Debug)]
pub struct GoalRecap {
    pub display_summary: String,
    pub next_action: Option<String>,
    pub phase: Option<String>,
    pub completed_milestones: Vec<String>,
    pub plan_completed: Option<u64>,
    pub plan_total: Option<u64>,
    pub verification: String,
    pub verification_detail: Option<String>,
    pub findings_total: Option<u64>,
    pub known_limitations: Vec<String>,
    pub unresolved_work: Vec<String>,
}

#[derive(Debug)]
pub struct GoalRecapBlock {
    pub recap: GoalRecap,
    pub expanded: bool,
}

/// The terminal failure of a turn.
#[derive(Debug)]
pub struct FailureBlock {
    pub title: String,
    pub summary: String,
    pub subtitle: Option<String>,
    pub detail: String,
    pub expanded: bool,
}

/// A message of the model.
#[derive(Debug)]
pub struct AssistantBlock {
    pub text: String,
    pub done: bool,
}

#[derive(Debug)]
pub enum TranscriptItem {
    User(String),
    Assistant(AssistantBlock),
    ToolGroup(ToolGroupBlock),
    SubAgent(SubAgentBlock),
    UserShell(UserShellBlock),
    Plan(UiPlan),
    Completion(UiCompletionReport),
    Error(String),
    Failure(FailureBlock),
    Note(String),
    TurnEnd(TurnEndBlock),
    Recap(RecapBlock),
    GoalRecap(GoalRecapBlock),
}

/// The conversation, oldest item first.
#[derive(Debug)]
pub struct TranscriptState {
    pub items: Vec<TranscriptItem>,
}

impl TranscriptState {
    pub fn new() -> (r: TranscriptState)
        ensures
            r.items@.len() == 0,
    {
        TranscriptState { items: Vec::new() }
    }

    /// How the last ended turn ended.
    pub fn last_turn_end(&self) -> (r: Option<&TurnEndBlock>)
        ensures
            last_end(self.items@, self.items@.len() as int) == (match r {
                Some(b) => Some(*b),
                None => None,
            }),
    {
        let mut n: usize = self.items.len();
        while n > 0
            invariant
                n <= self.items@.len(),
                last_end(self.items@, self.items@.len() as int) == last_end(self.items@, n as int),
            decreases n,
        {
            n -= 1;
            match &self.items[n] {
                TranscriptItem::TurnEnd(block) => {
                    return Some(block);
                },
                _ => {},
            }
        }
        None
    }
}

/// The last turn end among the first `n` items.
pub open spec fn last_end(items: Seq<TranscriptItem>, n: int) -> Option<TurnEndBlock>
    decreases n,
{
    if n <= 0 {
        None
    } else {
        match items[n - 1] {
            TranscriptItem::TurnEnd(block) => Some(block),
            _ => last_end(items, n - 1),
        }
    }
}

} // verus!
