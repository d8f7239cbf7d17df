//! What the rows of sub-agents promise.

use vstd::prelude::*;

use crate::i18n::UiText;
use crate::laws::{absent, first_gap_is_filled, ink, larger, only_gap_is_filled, strong};
use crate::line::Color;
use crate::model::SpanV;
use crate::protocol::{ChildLimit, ChildStop};
use crate::render::sub_agents::{
    batch_tokens, child_body, child_detail, child_elapsed, child_lines, contribution_text,
    count_status, count_timeout, detail_text, display_name, distinct_tasks, facts_of, first_start,
    last_settled, outcome_parts, run_lines, run_stats, shows_children, status_word, stop_word,
    token_sum, tree_child_status, usage_text, RunFacts,
};
use crate::status_line::{elapsed, grouped};
use crate::render::text::wrapped;
use crate::strings::{begins, decimal, joined, replaced, trimmed};
use crate::theme::Theme;
use crate::transcript::{Contribution, SubAgentBlock, SubAgentRole, ToolStatus};

verus! {

/// The mark of a child and its color: what was never reported or was interrupted before
/// anything else, then how the child stands.
pub open spec fn marked(block: SubAgentBlock, glyph: Seq<char>, color: Color, theme: Theme) -> bool {
    forall|t: UiText, width: int, now: u64|
        (#[trigger] child_lines(block, theme, width, t, now))[0][0] == (SpanV {
            content: glyph + " "@,
            style: ink(color),
        })
}

/// A child's row begins with the mark of its state, in that state's color, and tells the
/// same state in words.
pub proof fn child_tells_its_state(block: SubAgentBlock, theme: Theme, t: UiText)
    ensures
        block.unreported ==> marked(block, "?"@, theme.status.warning, theme) && status_word(
            block,
            t,
        ) == t.sub_agent_unreported@,
        !block.unreported && block.interrupted ==> marked(block, "⏸"@, theme.status.warning, theme)
            && status_word(block, t) == t.sub_agent_interrupted@,
        !block.unreported && !block.interrupted && block.status == ToolStatus::Running ==> marked(
            block,
            "◌"@,
            theme.accent.primary,
            theme,
        ) && status_word(block, t) == (if block.progress.active {
            t.sub_agent_running@
        } else {
            t.sub_agent_waiting@
        }),
        !block.unreported && !block.interrupted && block.status == ToolStatus::Succeeded ==> marked(
            block,
            "✓"@,
            theme.status.success,
            theme,
        ) && status_word(block, t) == t.sub_agent_completed@,
        !block.unreported && !block.interrupted && block.status == ToolStatus::Failed ==> marked(
            block,
            "✗"@,
            theme.status.error,
            theme,
        ) && (block.stop is None ==> status_word(block, t) == t.sub_agent_incomplete@) && (
        block.stop == Some(ChildStop::Cancelled) ==> status_word(block, t) == t.child_cancelled@)
            && (block.stop == Some(ChildStop::Lost) ==> status_word(block, t) == t.child_lost@) && (
        block.stop == Some(ChildStop::Budget) ==> status_word(block, t) == t.child_budget@),
{
}

/// A child's head is its mark, its name in bold, its state, and after those whatever is
/// known of its findings, its clock, its step and its usage, in this order, each behind
/// a dot; the step alone in the accent color.
pub proof fn child_head_stands_in_order(
    block: SubAgentBlock,
    theme: Theme,
    width: int,
    t: UiText,
    now: u64,
)
    ensures
        ({
            let row = child_lines(block, theme, width, t, now)[0];
            let dim = ink(theme.text.secondary);
            let found: int = if block.contribution is Reported {
                1
            } else {
                0
            };
            let clock: int = if block.status == ToolStatus::Running {
                1
            } else {
                0
            };
            let step: int = if block.recent_step is Some && block.recent_step->0@.len() > 0 {
                1
            } else {
                0
            };
            let used: int = if block.progress.input_tokens > 0 || block.progress.output_tokens
                > 0 {
                1
            } else {
                0
            };
            &&& row.len() == 3 + found + clock + step + used
            &&& row[1] == (SpanV {
                content: match block.agent_name {
                    Some(a) => display_name(block, t) + " ("@ + a@ + ")"@,
                    None => display_name(block, t),
                },
                style: strong(theme.accent.primary),
            })
            &&& row[2] == (SpanV { content: " · "@ + status_word(block, t), style: dim })
            &&& found == 1 ==> row[3] == (SpanV {
                content: " · "@ + contribution_text(block.contribution, t)->0,
                style: dim,
            })
            &&& clock == 1 ==> row[3 + found] == (SpanV {
                content: " · "@ + elapsed(
                    if now > block.started_elapsed_secs {
                        (now - block.started_elapsed_secs) as nat
                    } else {
                        0
                    },
                ),
                style: dim,
            })
            &&& step == 1 ==> row[3 + found + clock] == (SpanV {
                content: " · "@ + block.recent_step->0@,
                style: ink(theme.accent.primary),
            })
            &&& used == 1 ==> row[3 + found + clock + step] == (SpanV {
                content: " · "@ + usage_text(block, t),
                style: dim,
            })
        }),
{
    reveal_strlit("s");
    reveal_strlit("↑ ");
    crate::laws::decimal_reads_back(0);
    let secs: nat = if now > block.started_elapsed_secs {
        (now - block.started_elapsed_secs) as nat
    } else {
        0
    };
    assert(elapsed(secs).len() > 0);
    assert(block.status == ToolStatus::Running ==> child_elapsed(block, now) == elapsed(secs));
    assert(block.progress.input_tokens > 0 || block.progress.output_tokens > 0 ==> usage_text(
        block,
        t,
    ).len() > 0);
}

/// What a child sent stands behind an arrow up and what it received behind an arrow
/// down; where some of what it sent was cached, the share follows in whole percent.
pub proof fn child_usage_names_both_ways(
    block: SubAgentBlock,
    t: UiText,
    sent: nat,
    received: nat,
    cached: nat,
    pct: nat,
)
    requires
        sent == block.progress.input_tokens,
        received == block.progress.output_tokens,
        cached == block.progress.cached_input_tokens,
    ensures
        sent == 0 && received == 0 ==> usage_text(block, t).len() == 0,
        sent + received > 0 && (cached == 0 || sent == 0) ==> usage_text(block, t) == "↑ "@
            + grouped(sent) + " · ↓ "@ + grouped(received),
        sent > 0 && cached > 0 && pct * sent <= 100 * cached < (pct + 1) * sent ==> usage_text(
            block,
            t,
        ) == "↑ "@ + grouped(sent) + " · ↓ "@ + grouped(received) + " · "@ + t.sub_agent_cached@
            + " "@ + decimal(pct) + "%"@,
{
    assert("↑ "@ + grouped(sent) + " · ↓ "@ + grouped(received) + Seq::<char>::empty() =~= "↑ "@
        + grouped(sent) + " · ↓ "@ + grouped(received));
    if sent > 0 && cached > 0 && pct * sent <= 100 * cached && 100 * cached < (pct + 1) * sent {
        assert(100 * cached - pct * sent < sent) by (nonlinear_arith)
            requires
                100 * cached < (pct + 1) * sent,
        ;
        vstd::arithmetic::div_mod::lemma_fundamental_div_mod_converse(
            (100 * cached) as int,
            sent as int,
            pct as int,
            100 * cached - pct * sent,
        );
        let share = " · "@ + t.sub_agent_cached@ + " "@ + decimal(pct) + "%"@;
        assert("↑ "@ + grouped(sent) + " · ↓ "@ + grouped(received) + share =~= "↑ "@ + grouped(sent)
            + " · ↓ "@ + grouped(received) + " · "@ + t.sub_agent_cached@ + " "@ + decimal(pct)
            + "%"@);
    }
}

/// A child that the runtime numbered goes by its role and its number, another by its
/// nickname.
pub proof fn numbered_children_go_by_their_role(block: SubAgentBlock, t: UiText, id: Seq<char>)
    requires
        id.len() > 0,
        block.id@ == "agent-"@ + id,
    ensures
        display_name(block, t) == (match block.role {
            SubAgentRole::Explorer => t.sub_agent_explorer@,
            SubAgentRole::Worker => t.sub_agent_worker@,
            SubAgentRole::Reviewer => t.sub_agent_reviewer@,
            SubAgentRole::Other => t.sub_agent_default@,
        }) + " "@ + id,
{
    let p = "agent-"@;
    assert(block.id@.subrange(0, p.len() as int) =~= p);
    assert(block.id@.skip(p.len() as int) =~= id);
}

/// A child without the runtime's number goes by its nickname.
pub proof fn other_children_go_by_their_nickname(block: SubAgentBlock, t: UiText)
    requires
        block.id@.len() == 0 || block.id@[0] != 'a' || block.id@.len() <= 6,
    ensures
        display_name(block, t) == block.nickname@,
{
    reveal_strlit("agent-");
    let p = "agent-"@;
    if block.id@.len() > 6 {
        assert(block.id@.subrange(0, p.len() as int)[0] == block.id@[0]);
    }
}

/// Findings are counted by their number; a child that has not reported tells none.
pub proof fn findings_are_counted(total: u64, t: UiText, head: Seq<char>, tail: Seq<char>)
    requires
        t.sub_agent_findings@ == head + "{}"@ + tail,
        !head.contains('{'),
        !tail.contains('{'),
    ensures
        contribution_text(Contribution::Reported { total }, t) == Some(
            head + decimal(total as nat) + tail,
        ),
        contribution_text(Contribution::Pending, t) is None,
{
    reveal_strlit("{}");
    absent(tail, "{}"@);
    only_gap_is_filled(head, "{}"@, tail, decimal(total as nat));
}

/// A child that stopped tells why: on a budget, by its clock where that was the limit,
/// by a cancel or because it was lost.
pub proof fn stops_have_their_words(limit: Option<ChildLimit>, t: UiText)
    ensures
        stop_word(Some(ChildStop::Budget), Some(ChildLimit::Duration), t) == Some(
            t.agent_status_timeout@,
        ),
        limit != Some(ChildLimit::Duration) ==> stop_word(Some(ChildStop::Budget), limit, t)
            == Some(t.child_budget@),
        stop_word(Some(ChildStop::Cancelled), limit, t) == Some(t.child_cancelled@),
        stop_word(Some(ChildStop::Lost), limit, t) == Some(t.child_lost@),
        stop_word(None, limit, t) is None,
{
}

/// A folded child shows at most four rows of what it says and counts the rest; an open
/// one shows every row. Each row stands behind two columns.
pub proof fn long_results_fold(
    rows: Seq<Seq<char>>,
    expanded: bool,
    theme: Theme,
    t: UiText,
    head: Seq<char>,
    tail: Seq<char>,
    i: int,
)
    requires
        t.fold_more_lines@ == head + "{}"@ + tail,
        !head.contains('{'),
        !tail.contains('{'),
    ensures
        ({
            let body = child_body(rows, expanded, theme, t);
            let all = expanded || rows.len() <= 4;
            &&& all ==> body.len() == rows.len()
            &&& !all ==> body.len() == 5 && body[4] == seq![
                SpanV {
                    content: "  "@ + (head + decimal((rows.len() - 4) as nat) + tail),
                    style: ink(theme.text.muted),
                },
            ]
            &&& 0 <= i < rows.len() && (all || i < 4) ==> body[i] == seq![
                SpanV { content: "  "@, style: crate::laws::bare() },
                SpanV { content: rows[i], style: ink(theme.text.secondary) },
            ]
        }),
{
    reveal_strlit("{}");
    absent(tail, "{}"@);
    if rows.len() > 4 {
        only_gap_is_filled(head, "{}"@, tail, decimal((rows.len() - 4) as nat));
    }
}

/// What a running child is told is its task, what a settled one is told its result.
pub proof fn task_then_result(block: SubAgentBlock, t: UiText)
    ensures
        block.status == ToolStatus::Running ==> child_detail(block, t) == trimmed(
            t.sub_agent_task@ + detail_text(trimmed(block.detail@), t),
        ),
        block.status != ToolStatus::Running ==> child_detail(block, t) == trimmed(
            t.sub_agent_result@ + detail_text(trimmed(block.detail@), t),
        ),
{
}

proof fn states_ignore_what_follows(
    blocks: Seq<&SubAgentBlock>,
    b: &SubAgentBlock,
    status: ToolStatus,
    n: int,
)
    requires
        n <= blocks.len(),
    ensures
        count_status(blocks.push(b), status, n) == count_status(blocks, status, n),
    decreases n,
{
    if n > 0 {
        states_ignore_what_follows(blocks, b, status, n - 1);
        assert(blocks.push(b)[n - 1] == blocks[n - 1]);
    }
}

proof fn counts_ignore_what_follows(blocks: Seq<&SubAgentBlock>, b: &SubAgentBlock, n: int, now: u64)
    requires
        n <= blocks.len(),
    ensures
        count_timeout(blocks.push(b), n) == count_timeout(blocks, n),
        token_sum(blocks.push(b), n) == token_sum(blocks, n),
        n > 0 ==> first_start(blocks.push(b), now, n) == first_start(blocks, now, n),
        last_settled(blocks.push(b), n) == last_settled(blocks, n),
        distinct_tasks(blocks.push(b), n) == distinct_tasks(blocks, n),
    decreases n,
{
    if n > 0 {
        counts_ignore_what_follows(blocks, b, n - 1, now);
        assert(blocks.push(b)[n - 1] == blocks[n - 1]);
    }
}

/// One child more adds itself to the run: one to the count of its state, what it sent
/// and received to the tokens, an earlier start to the start and a later end to the end.
pub proof fn child_joins_the_run(
    blocks: Seq<&SubAgentBlock>,
    b: &SubAgentBlock,
    now: u64,
    f: RunFacts,
    g: RunFacts,
)
    requires
        blocks.len() > 0,
        facts_of(f, blocks, now),
        facts_of(g, blocks.push(b), now),
    ensures
        g.total == f.total + 1,
        g.running == f.running + (if b.status == ToolStatus::Running {
            1int
        } else {
            0
        }),
        g.completed == f.completed + (if b.status == ToolStatus::Succeeded {
            1int
        } else {
            0
        }),
        g.timeout == f.timeout + (if b.status == ToolStatus::Failed && b.stop == Some(
            ChildStop::Budget,
        ) && b.limit == Some(ChildLimit::Duration) {
            1int
        } else {
            0
        }),
        g.tokens == f.tokens + b.progress.input_tokens + b.progress.output_tokens,
        g.started == (if b.started_elapsed_secs < f.started {
            b.started_elapsed_secs
        } else {
            f.started
        }),
        b.settled_elapsed_secs is None ==> g.settled == f.settled,
        b.settled_elapsed_secs is Some && f.settled is None ==> g.settled == b.settled_elapsed_secs,
        b.settled_elapsed_secs is Some && f.settled is Some ==> g.settled == Some(
            if b.settled_elapsed_secs->0 > f.settled->0 {
                b.settled_elapsed_secs->0
            } else {
                f.settled->0
            },
        ),
{
    counts_ignore_what_follows(blocks, b, blocks.len() as int, now);
    states_ignore_what_follows(blocks, b, ToolStatus::Running, blocks.len() as int);
    states_ignore_what_follows(blocks, b, ToolStatus::Succeeded, blocks.len() as int);
    assert(blocks.push(b)[blocks.len() as int] == b);
}

/// A run of one child has that child's facts.
pub proof fn first_child_is_the_run(b: &SubAgentBlock, now: u64, f: RunFacts)
    requires
        facts_of(f, seq![b], now),
    ensures
        f.total == 1,
        f.running == 1 <==> b.status == ToolStatus::Running,
        f.completed == 1 <==> b.status == ToolStatus::Succeeded,
        f.tokens == b.progress.input_tokens + b.progress.output_tokens,
        f.started == b.started_elapsed_secs,
        f.settled == b.settled_elapsed_secs,
{
    reveal_with_fuel(count_status, 2);
    reveal_with_fuel(count_timeout, 2);
    reveal_with_fuel(token_sum, 2);
    reveal_with_fuel(first_start, 2);
    reveal_with_fuel(last_settled, 2);
}

/// A task is told once, where it first occurs, and a blank one not at all.
pub proof fn tasks_are_told_once(blocks: Seq<&SubAgentBlock>, b: &SubAgentBlock)
    ensures
        ({
            let before = distinct_tasks(blocks, blocks.len() as int);
            let after = distinct_tasks(blocks.push(b), blocks.len() as int + 1);
            let task = trimmed(b.task@);
            &&& task.len() == 0 || before.contains(task) ==> after == before
            &&& task.len() > 0 && !before.contains(task) ==> after == before.push(task)
        }),
{
    counts_ignore_what_follows(blocks, b, blocks.len() as int, 0);
    assert(blocks.push(b)[blocks.len() as int] == b);
}

/// A run is told as going on while any child runs, as done where every child completed,
/// and with a warning otherwise. Its header counts the children.
pub proof fn run_tells_how_it_stands(
    f: RunFacts,
    tasks: Seq<Seq<char>>,
    theme: Theme,
    width: int,
    t: UiText,
    now: u64,
    w: (Seq<char>, Seq<char>, Seq<char>, Seq<char>, Seq<char>, Seq<char>),
)
    requires
        t.agents_running_header@ == w.0 + "{}"@ + w.1,
        t.agents_done_header@ == w.2 + "{}"@ + w.3,
        t.agents_ended_header@ == w.4 + "{}"@ + w.5,
        !w.0.contains('{') && !w.2.contains('{') && !w.4.contains('{'),
    ensures
        ({
            let row = run_lines(f, tasks, theme, width, t, now)[0];
            let n = decimal(f.total as nat);
            &&& row.len() == 3
            &&& f.running > 0 ==> row[0] == (SpanV {
                content: "◌"@ + " "@,
                style: ink(theme.accent.primary),
            }) && row[1].content == w.0 + n + w.1
            &&& f.running == 0 && f.completed == f.total ==> row[0] == (SpanV {
                content: "✓"@ + " "@,
                style: ink(theme.status.success),
            }) && row[1].content == w.2 + n + w.3
            &&& f.running == 0 && f.completed != f.total ==> row[0] == (SpanV {
                content: "⚠"@ + " "@,
                style: ink(theme.status.warning),
            }) && row[1].content == w.4 + n + w.5
            &&& row[1].style == strong(theme.text.primary)
            &&& row[2].style == ink(theme.text.muted)
        }),
{
    reveal_strlit("{}");
    let n = decimal(f.total as nat);
    first_gap_is_filled(w.0, "{}"@, w.1, n);
    first_gap_is_filled(w.2, "{}"@, w.3, n);
    first_gap_is_filled(w.4, "{}"@, w.5, n);
}

/// The tail of a run's row: its tokens where there were any, the time from its first
/// start to its last end (to now while a child runs), and, once it ended without every
/// child completed, how many ended in which way.
pub proof fn run_tells_its_numbers(f: RunFacts, now: u64, t: UiText)
    requires
        f.running + f.completed + f.timeout <= f.total,
    ensures
        ({
            let end = if f.running > 0 || f.settled is None {
                now
            } else {
                f.settled->0
            };
            let clocked = end >= f.started && (f.running > 0 || f.settled is Some);
            let failed = (f.total - f.completed - f.timeout) as nat;
            let tokens = if f.tokens == 0 {
                Seq::empty()
            } else {
                " · "@ + batch_tokens(
                    if f.tokens > u32::MAX {
                        u32::MAX as nat
                    } else {
                        f.tokens as nat
                    },
                ) + " tokens"@
            };
            let clock = if clocked {
                " · "@ + elapsed((end - f.started) as nat)
            } else {
                Seq::empty()
            };
            &&& f.running > 0 || f.completed == f.total ==> run_stats(f, now, t) == tokens + clock
            &&& f.running == 0 && f.completed == 0 && f.timeout == 0 && failed > 0 ==> run_stats(
                f,
                now,
                t,
            ) == tokens + clock + (" · "@ + (decimal(failed) + " "@ + t.sub_agent_incomplete@))
            &&& f.running == 0 && f.completed == 0 && f.timeout > 0 && failed == 0 ==> run_stats(
                f,
                now,
                t,
            ) == tokens + clock + (" · "@ + (decimal(f.timeout as nat) + " "@
                + t.agent_status_timeout@))
            &&& f.running == 0 && f.completed > 0 && f.timeout == 0 && failed > 0 ==> run_stats(
                f,
                now,
                t,
            ) == tokens + clock + (" · "@ + ((decimal(f.completed as nat) + " "@
                + t.agent_status_completed@) + " · "@ + (decimal(failed) + " "@
                + t.sub_agent_incomplete@)))
            &&& f.running == 0 && f.completed > 0 && f.timeout > 0 && failed == 0 ==> run_stats(
                f,
                now,
                t,
            ) == tokens + clock + (" · "@ + ((decimal(f.completed as nat) + " "@
                + t.agent_status_completed@) + " · "@ + (decimal(f.timeout as nat) + " "@
                + t.agent_status_timeout@)))
            &&& f.running == 0 && f.completed == 0 && f.timeout > 0 && failed > 0 ==> run_stats(
                f,
                now,
                t,
            ) == tokens + clock + (" · "@ + ((decimal(f.timeout as nat) + " "@
                + t.agent_status_timeout@) + " · "@ + (decimal(failed) + " "@
                + t.sub_agent_incomplete@)))
            &&& f.running == 0 && f.completed > 0 && f.timeout > 0 && failed > 0 ==> run_stats(
                f,
                now,
                t,
            ) == tokens + clock + (" · "@ + ((decimal(f.completed as nat) + " "@
                + t.agent_status_completed@) + " · "@ + (decimal(f.timeout as nat) + " "@
                + t.agent_status_timeout@) + " · "@ + (decimal(failed) + " "@
                + t.sub_agent_incomplete@)))
        }),
{
    reveal_with_fuel(joined, 4);
    let parts = outcome_parts(f, t);
    let done = decimal(f.completed as nat) + " "@ + t.agent_status_completed@;
    let late = decimal(f.timeout as nat) + " "@ + t.agent_status_timeout@;
    let failed = (f.total - f.completed - f.timeout) as nat;
    let lost = decimal(failed) + " "@ + t.sub_agent_incomplete@;
    if f.completed > 0 && f.timeout > 0 && failed > 0 {
        assert(parts =~= seq![done, late, lost]);
        assert(parts.drop_last() =~= seq![done, late]);
        assert(parts.drop_last().drop_last() =~= seq![done]);
    } else if f.completed > 0 && f.timeout > 0 {
        assert(parts =~= seq![done, late]);
        assert(parts.drop_last() =~= seq![done]);
    } else if f.completed > 0 && failed > 0 {
        assert(parts =~= seq![done, lost]);
        assert(parts.drop_last() =~= seq![done]);
    } else if f.timeout > 0 && failed > 0 {
        assert(parts =~= seq![late, lost]);
        assert(parts.drop_last() =~= seq![late]);
    } else if f.timeout > 0 {
        assert(parts =~= seq![late]);
    } else if failed > 0 {
        assert(parts =~= seq![lost]);
    }
    assert(run_stats(f, now, t) =~= run_stats(f, now, t) + Seq::<char>::empty());
}

/// One child is shown in full, several as a run, none as nothing.
pub proof fn one_child_is_shown_in_full(
    lines: Seq<Seq<SpanV>>,
    b: &SubAgentBlock,
    theme: Theme,
    width: int,
    t: UiText,
    now: u64,
)
    ensures
        shows_children(lines, Seq::empty(), theme, width, t, now) ==> lines.len() == 0,
        shows_children(lines, seq![b], theme, width, t, now) ==> lines == child_lines(
            *b,
            theme,
            width,
            t,
            now,
        ),
{
}

/// In the tree a child is told by its state in the state's color: what it was stopped by
/// where it failed, and what is unknown with a question mark.
pub proof fn tree_tells_the_state(block: SubAgentBlock, theme: Theme, t: UiText)
    ensures
        ({
            let (word, color) = tree_child_status(block, theme, t);
            &&& block.status == ToolStatus::Running && block.progress.active ==> word
                == t.agent_status_running@ && color == theme.accent.primary
            &&& block.status == ToolStatus::Running && !block.progress.active ==> word
                == t.sub_agent_waiting@ && color == theme.text.secondary
            &&& block.status == ToolStatus::Succeeded ==> word == "✓ "@ + t.agent_status_completed@
                && color == theme.status.success
            &&& block.status != ToolStatus::Running && block.status != ToolStatus::Succeeded ==> {
                &&& block.unreported ==> word == "? "@ + t.sub_agent_unreported@ && color
                    == theme.status.warning
                &&& !block.unreported && block.interrupted ==> word == "⏸ "@
                    + t.sub_agent_interrupted@ && color == theme.status.warning
                &&& !block.unreported && !block.interrupted && block.status == ToolStatus::Failed
                    ==> color == theme.status.error && (block.stop is None ==> word == "✗ "@
                    + t.sub_agent_incomplete@) && (block.stop == Some(ChildStop::Lost) ==> word
                    == "✗ "@ + t.child_lost@) && (block.stop == Some(ChildStop::Cancelled)
                    ==> word == "✗ "@ + t.child_cancelled@) && (block.stop == Some(
                    ChildStop::Budget,
                ) ==> word == "✗ "@ + (if block.limit == Some(ChildLimit::Duration) {
                    t.agent_status_timeout@
                } else {
                    t.child_budget@
                }))
            }
        }),
{
}

/// The tokens of a run are shortened to thousands and millions, with a tenth where it
/// says something.
pub proof fn run_tokens_are_shortened(whole: nat, tenth: nat, rest: nat)
    requires
        tenth < 10,
    ensures
        whole < 1000 ==> batch_tokens(whole) == decimal(whole),
        1 <= whole < 1000 && rest < 100 ==> batch_tokens(whole * 1000 + tenth * 100 + rest) == (
        if tenth == 0 {
            decimal(whole) + "k"@
        } else {
            decimal(whole) + "."@ + decimal(tenth) + "k"@
        }),
        1 <= whole && rest < 100_000 ==> batch_tokens(
            whole * 1_000_000 + tenth * 100_000 + rest,
        ) == (if tenth == 0 {
            decimal(whole) + "M"@
        } else {
            decimal(whole) + "."@ + decimal(tenth) + "M"@
        }),
{
    if rest < 100 {
        let n = whole * 1000 + tenth * 100 + rest;
        assert(n / 1000 == whole && (n % 1000) / 100 == tenth);
    }
    if rest < 100_000 {
        let n = whole * 1_000_000 + tenth * 100_000 + rest;
        assert(n / 1_000_000 == whole && (n % 1_000_000) / 100_000 == tenth);
    }
}

/// The tasks of a run stand under its row, joined, each row two columns in.
pub proof fn run_tells_its_tasks(
    f: RunFacts,
    tasks: Seq<Seq<char>>,
    theme: Theme,
    width: int,
    t: UiText,
    now: u64,
    i: int,
)
    ensures
        ({
            let rows = run_lines(f, tasks, theme, width, t, now);
            let told = wrapped(joined(tasks, t.task_separator@), larger(width - 2, 1) as usize);
            &&& tasks.len() == 0 ==> rows.len() == 1
            &&& tasks.len() > 0 ==> rows.len() == 1 + told.len()
            &&& tasks.len() > 0 && 0 <= i < told.len() ==> rows[1 + i] == seq![
                SpanV { content: "  "@, style: crate::laws::bare() },
                SpanV { content: told[i], style: ink(theme.text.secondary) },
            ]
        }),
{
}

/// A child that stopped at its limit of rounds is told so in the user's language, with
/// the number of rounds, and what it said besides follows.
pub proof fn round_limit_is_told(
    rounds: nat,
    rest: Seq<char>,
    t: UiText,
    head: Seq<char>,
    tail: Seq<char>,
)
    requires
        t.sub_agent_round_limit@ == head + "{}"@ + tail,
        !head.contains('{'),
        !tail.contains('{'),
    ensures
        detail_text(
            "Reached the "@ + decimal(rounds) + "-round limit before finishing."@ + rest,
            t,
        ) == replaced(
            head + decimal(rounds) + tail + rest,
            "Latest note: "@,
            t.sub_agent_latest_note@,
        ),
        !begins(rest, "Reached the "@) ==> detail_text(rest, t) == replaced(
            rest,
            "Latest note: "@,
            t.sub_agent_latest_note@,
        ),
{
    let p = "Reached the "@;
    let q = "-round limit before finishing."@;
    reveal_strlit("Reached the ");
    reveal_strlit("-round limit before finishing.");
    reveal_strlit("{}");
    let d = decimal(rounds);
    let s = p + d + q + rest;
    assert(s.subrange(0, p.len() as int) =~= p);
    let behind = d + q + rest;
    assert(s.skip(p.len() as int) =~= behind);
    crate::laws::decimal_reads_back(rounds);
    assert(!d.contains('-')) by {
        if d.contains('-') {
            let k = choose|k: int| 0 <= k < d.len() && d[k] == '-';
            assert(crate::strings::is_digit(d[k]));
        }
    }
    crate::laws::found_at(d, q, rest);
    assert(behind.take(d.len() as int) =~= d);
    assert(behind.skip((d.len() + q.len()) as int) =~= rest);
    absent(tail, "{}"@);
    only_gap_is_filled(head, "{}"@, tail, d);
}

} // verus!
