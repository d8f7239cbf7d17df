//! Child agents in the conversation.

use vstd::prelude::*;

use crate::i18n::UiText;
use crate::line::{bold_style, fg_style, no_style, spanv, styled_line, Color, Line, Span, Style};
use crate::model::{line_views, views, SpanV};
use crate::number::{room, room_of};
use crate::protocol::{ChildLimit, ChildStop};
use crate::render::rows::{behind, push_behind, span_if};
use crate::render::text::{wrap, wrapped};
use crate::state::opt_text;
use crate::status_line::{elapsed, fmt_elapsed, fmt_tokens, grouped, one_decimal};
use crate::strings::{
    begins, cat2, cat3, cat4, cat5, chars_of, dec, decimal, find_text, find_text_from, holds, join,
    joined, replace, replace_first, replaced, replaced_first, string_of, strip_prefix, trim,
    trimmed,
};
use crate::theme::Theme;
use crate::transcript::{Contribution, SubAgentBlock, SubAgentRole, ToolStatus};

verus! {

broadcast use crate::model::group_views;

// ---------------------------------------------------------------- words

/// The word for the way a child was stopped. Only the wall clock is a timeout; any
/// other bound is a spent budget. A failed child, one that gave up, and one whose
/// stop is not known have no word of their own.
pub open spec fn stop_word(stop: Option<ChildStop>, limit: Option<ChildLimit>, t: UiText) -> Option<
    Seq<char>,
> {
    match stop {
        Some(ChildStop::Budget) => if limit == Some(ChildLimit::Duration) {
            Some(t.agent_status_timeout@)
        } else {
            Some(t.child_budget@)
        },
        Some(ChildStop::Cancelled) => Some(t.child_cancelled@),
        Some(ChildStop::Lost) => Some(t.child_lost@),
        _ => None,
    }
}

/// Whether a child ran into its wall clock.
pub open spec fn timed_out(stop: Option<ChildStop>, limit: Option<ChildLimit>) -> bool {
    stop == Some(ChildStop::Budget) && limit == Some(ChildLimit::Duration)
}

pub fn child_stop_label(stop: Option<ChildStop>, limit: Option<ChildLimit>, t: &UiText) -> (r: Option<
    &'static str,
>)
    ensures
        match r {
            Some(s) => stop_word(stop, limit, *t) == Some(s@),
            None => stop_word(stop, limit, *t) is None,
        },
{
    match stop {
        Some(ChildStop::Budget) => match limit {
            Some(ChildLimit::Duration) => Some(t.agent_status_timeout),
            _ => Some(t.child_budget),
        },
        Some(ChildStop::Cancelled) => Some(t.child_cancelled),
        Some(ChildStop::Lost) => Some(t.child_lost),
        _ => None,
    }
}

/// A child's name, with the declared agent behind it.
pub open spec fn label_with_agent(name: Seq<char>, agent: Option<Seq<char>>) -> Seq<char> {
    match agent {
        Some(a) => name + " ("@ + a + ")"@,
        None => name,
    }
}

pub fn child_label(name: &str, agent: &Option<String>) -> (r: String)
    ensures
        r@ == label_with_agent(name@, opt_text(*agent)),
{
    match agent {
        Some(a) => cat4(name, " (", a.as_str(), ")"),
        None => name.to_owned(),
    }
}

/// What a child contributed, in words; nothing while it is not known.
pub open spec fn contribution_text(c: Contribution, t: UiText) -> Option<Seq<char>> {
    match c {
        Contribution::Pending => None,
        Contribution::Reported { total } => Some(
            replaced(t.sub_agent_findings@, "{}"@, decimal(total as nat)),
        ),
    }
}

pub fn contribution_line(c: Contribution, t: &UiText) -> (r: Option<String>)
    ensures
        opt_text(r) == contribution_text(c, *t),
{
    match c {
        Contribution::Pending => None,
        Contribution::Reported { total } => Some(
            replace(t.sub_agent_findings, "{}", dec(total).as_str()),
        ),
    }
}

/// A child's name: its role and its number where the id has one, else its nickname.
pub open spec fn display_name(block: SubAgentBlock, t: UiText) -> Seq<char> {
    let role = match block.role {
        SubAgentRole::Explorer => t.sub_agent_explorer@,
        SubAgentRole::Worker => t.sub_agent_worker@,
        SubAgentRole::Reviewer => t.sub_agent_reviewer@,
        SubAgentRole::Other => t.sub_agent_default@,
    };
    if begins(block.id@, "agent-"@) && block.id@.len() > "agent-"@.len() {
        role + " "@ + block.id@.skip("agent-"@.len() as int)
    } else {
        block.nickname@
    }
}

pub fn sub_agent_display_name(block: &SubAgentBlock, t: &UiText) -> (r: String)
    ensures
        r@ == display_name(*block, *t),
{
    let role = match block.role {
        SubAgentRole::Explorer => t.sub_agent_explorer,
        SubAgentRole::Worker => t.sub_agent_worker,
        SubAgentRole::Reviewer => t.sub_agent_reviewer,
        SubAgentRole::Other => t.sub_agent_default,
    };
    match strip_prefix(block.id.as_str(), "agent-") {
        Some(number) => if number.as_str().is_empty() {
            block.nickname.clone()
        } else {
            cat3(role, " ", number.as_str())
        },
        None => block.nickname.clone(),
    }
}

/// The state of a child, in words.
pub open spec fn status_word(block: SubAgentBlock, t: UiText) -> Seq<char> {
    if block.unreported {
        t.sub_agent_unreported@
    } else if block.interrupted {
        t.sub_agent_interrupted@
    } else {
        match block.status {
            ToolStatus::Running => if block.progress.active {
                t.sub_agent_running@
            } else {
                t.sub_agent_waiting@
            },
            ToolStatus::Succeeded => t.sub_agent_completed@,
            ToolStatus::Failed => match stop_word(block.stop, None, t) {
                Some(word) => word,
                None => t.sub_agent_incomplete@,
            },
            ToolStatus::Cancelled | ToolStatus::Unknown => t.sub_agent_unreported@,
        }
    }
}

pub fn sub_agent_status(block: &SubAgentBlock, t: &UiText) -> (r: &'static str)
    ensures
        r@ == status_word(*block, *t),
{
    if block.unreported {
        return t.sub_agent_unreported;
    }
    if block.interrupted {
        return t.sub_agent_interrupted;
    }
    match block.status {
        ToolStatus::Running => if block.progress.active {
            t.sub_agent_running
        } else {
            t.sub_agent_waiting
        },
        ToolStatus::Succeeded => t.sub_agent_completed,
        ToolStatus::Failed => match child_stop_label(block.stop, None, t) {
            Some(word) => word,
            None => t.sub_agent_incomplete,
        },
        ToolStatus::Cancelled | ToolStatus::Unknown => t.sub_agent_unreported,
    }
}

/// The tokens of a child; nothing while it has used none.
pub open spec fn usage_text(block: SubAgentBlock, t: UiText) -> Seq<char> {
    let p = block.progress;
    if p.input_tokens == 0 && p.output_tokens == 0 {
        Seq::empty()
    } else {
        "↑ "@ + grouped(p.input_tokens as nat) + " · ↓ "@ + grouped(p.output_tokens as nat) + (if p.cached_input_tokens
            > 0 && p.input_tokens > 0 {
            " · "@ + t.sub_agent_cached@ + " "@ + decimal(
                (p.cached_input_tokens as nat * 100) / p.input_tokens as nat,
            ) + "%"@
        } else {
            Seq::empty()
        })
    }
}

pub fn sub_agent_usage(block: &SubAgentBlock, t: &UiText) -> (r: String)
    ensures
        r@ == usage_text(*block, *t),
{
    let p = &block.progress;
    if p.input_tokens == 0 && p.output_tokens == 0 {
        return String::new();
    }
    let mut text = cat4(
        "↑ ",
        fmt_tokens(p.input_tokens).as_str(),
        " · ↓ ",
        fmt_tokens(p.output_tokens).as_str(),
    );
    if p.cached_input_tokens > 0 && p.input_tokens > 0 {
        let pct: u64 = (p.cached_input_tokens as u64 * 100) / p.input_tokens as u64;
        text.append(
            cat5(" · ", t.sub_agent_cached, " ", dec(pct).as_str(), "%").as_str(),
        );
    }
    assert(text@ =~= usage_text(*block, *t));
    text
}

/// What a child wrote, with the runtime's own phrases in the language of the user.
pub open spec fn detail_text(detail: Seq<char>, t: UiText) -> Seq<char> {
    let prefix = "Reached the "@;
    let suffix = "-round limit before finishing."@;
    let rest = detail.skip(prefix.len() as int);
    let i = find_text_from(rest, suffix, 0);
    let shown = if begins(detail, prefix) && i >= 0 {
        replaced(t.sub_agent_round_limit@, "{}"@, rest.take(i)) + rest.skip(
            i + suffix.len(),
        )
    } else {
        detail
    };
    replaced(shown, "Latest note: "@, t.sub_agent_latest_note@)
}

pub fn sub_agent_detail(detail: &str, t: &UiText) -> (r: String)
    ensures
        r@ == detail_text(detail@, *t),
{
    let mut shown = detail.to_owned();
    match strip_prefix(detail, "Reached the ") {
        Some(rest) => {
            let v = chars_of(rest.as_str());
            let n: usize = v.len();
            let p = chars_of("-round limit before finishing.");
            match find_text(&v, &p, 0) {
                Some(i) => {
                    let rounds = string_of(&v, 0, i);
                    let tail = string_of(&v, i + p.len(), n);
                    assert(rounds@ =~= rest@.take(i as int));
                    assert(tail@ =~= rest@.skip(i + p@.len()));
                    shown = cat2(
                        replace(t.sub_agent_round_limit, "{}", rounds.as_str()).as_str(),
                        tail.as_str(),
                    );
                },
                None => {},
            }
        },
        None => {},
    }
    replace(shown.as_str(), "Latest note: ", t.sub_agent_latest_note)
}

// ---------------------------------------------------------------- one child

/// The sign and the color of a child.
pub open spec fn child_glyph(block: SubAgentBlock, theme: Theme) -> (Seq<char>, Color) {
    if block.unreported {
        ("?"@, theme.status.warning)
    } else if block.interrupted {
        ("⏸"@, theme.status.warning)
    } else {
        match block.status {
            ToolStatus::Running => ("◌"@, theme.accent.primary),
            ToolStatus::Succeeded => ("✓"@, theme.status.success),
            ToolStatus::Failed => ("✗"@, theme.status.error),
            ToolStatus::Cancelled | ToolStatus::Unknown => ("?"@, theme.status.warning),
        }
    }
}

fn glyph_and_color(block: &SubAgentBlock, theme: &Theme) -> (r: (&'static str, Color))
    ensures
        (r.0@, r.1) == child_glyph(*block, *theme),
{
    if block.unreported {
        return ("?", theme.status.warning);
    }
    if block.interrupted {
        return ("⏸", theme.status.warning);
    }
    match block.status {
        ToolStatus::Running => ("◌", theme.accent.primary),
        ToolStatus::Succeeded => ("✓", theme.status.success),
        ToolStatus::Failed => ("✗", theme.status.error),
        ToolStatus::Cancelled | ToolStatus::Unknown => ("?", theme.status.warning),
    }
}

/// How long a running child runs; nothing for any other.
pub open spec fn child_elapsed(block: SubAgentBlock, now: u64) -> Seq<char> {
    if block.status != ToolStatus::Running {
        Seq::empty()
    } else if now > block.started_elapsed_secs {
        elapsed((now - block.started_elapsed_secs) as nat)
    } else {
        elapsed(0)
    }
}

pub fn sub_agent_elapsed(block: &SubAgentBlock, now_elapsed_secs: u64) -> (r: String)
    ensures
        r@ == child_elapsed(*block, now_elapsed_secs),
{
    if block.status != ToolStatus::Running {
        return String::new();
    }
    fmt_elapsed(now_elapsed_secs.saturating_sub(block.started_elapsed_secs))
}

/// A part of the head, behind a separator.
pub open spec fn head_part(part: Seq<char>, color: Color) -> Seq<SpanV> {
    span_if(part.len() != 0, spanv(" · "@ + part, fg_style(color)))
}

fn push_part(line: &mut Line, part: &str, color: Color)
    ensures
        final(line)@ == old(line)@ + head_part(part@, color),
{
    if !part.is_empty() {
        line.push(Span::new(cat2(" · ", part), Style::fg(color)));
    }
    assert(line@ =~= old(line)@ + head_part(part@, color));
}

/// The text an optional text holds, or an empty one.
pub open spec fn or_empty(o: Option<Seq<char>>) -> Seq<char> {
    match o {
        Some(s) => s,
        None => Seq::empty(),
    }
}

/// The head of a child: its sign and name, its state, what it contributed, how long
/// it runs, what it does, what it used.
pub open spec fn child_head(block: SubAgentBlock, theme: Theme, t: UiText, now: u64) -> Seq<SpanV> {
    let (glyph, color) = child_glyph(block, theme);
    let dim = theme.text.secondary;
    let contribution = contribution_text(block.contribution, t);
    seq![
        spanv(glyph + " "@, fg_style(color)),
        spanv(
            label_with_agent(display_name(block, t), opt_text(block.agent_name)),
            bold_style(theme.accent.primary),
        ),
        spanv(" · "@ + status_word(block, t), fg_style(dim)),
    ] + (match contribution {
        Some(line) => seq![spanv(" · "@ + line, fg_style(dim))],
        None => Seq::empty(),
    }) + head_part(child_elapsed(block, now), dim) + head_part(
        or_empty(opt_text(block.recent_step)),
        theme.accent.primary,
    ) + head_part(usage_text(block, t), dim)
}

fn child_head_line(block: &SubAgentBlock, theme: &Theme, t: &UiText, now: u64) -> (r: Line)
    ensures
        r@ == child_head(*block, *theme, *t, now),
{
    let (glyph, color) = glyph_and_color(block, theme);
    let dim = theme.text.secondary;
    let name = sub_agent_display_name(block, t);
    let mut line = Line::of3(
        Span::new(cat2(glyph, " "), Style::fg(color)),
        Span::new(
            child_label(name.as_str(), &block.agent_name),
            Style::bold(theme.accent.primary),
        ),
        Span::new(cat2(" · ", sub_agent_status(block, t)), Style::fg(dim)),
    );
    let ghost first = line@;
    match contribution_line(block.contribution, t) {
        Some(c) => {
            line.push(Span::new(cat2(" · ", c.as_str()), Style::fg(dim)));
        },
        None => {},
    }
    assert(line@ =~= first + (match contribution_text(block.contribution, *t) {
        Some(c) => seq![spanv(" · "@ + c, fg_style(dim))],
        None => Seq::<SpanV>::empty(),
    }));
    push_part(&mut line, sub_agent_elapsed(block, now).as_str(), dim);
    let step = match &block.recent_step {
        Some(s) => s.as_str(),
        None => "",
    };
    proof {
        reveal_strlit("");
        assert(step@ =~= or_empty(opt_text(block.recent_step)));
    }
    push_part(&mut line, step, theme.accent.primary);
    push_part(&mut line, sub_agent_usage(block, t).as_str(), dim);
    line
}

/// How many rows of a result are shown before it is cut.
pub const MAX_ROWS: usize = 4;

/// The task of a running child, or the result of a finished one.
pub open spec fn child_detail(block: SubAgentBlock, t: UiText) -> Seq<char> {
    trimmed(
        (if block.status == ToolStatus::Running {
            t.sub_agent_task@
        } else {
            t.sub_agent_result@
        }) + detail_text(trimmed(block.detail@), t),
    )
}

/// The rows under the head: the whole text of an expanded child; four rows of any
/// other, and how many more there are.
pub open spec fn child_body(rows: Seq<Seq<char>>, expanded: bool, theme: Theme, t: UiText) -> Seq<
    Seq<SpanV>,
> {
    let lead = spanv("  "@, no_style());
    let style = fg_style(theme.text.secondary);
    if !expanded && rows.len() > 4 {
        behind(rows.take(4), lead, lead, style).push(
            styled_line(
                "  "@ + replaced(t.fold_more_lines@, "{}"@, decimal((rows.len() - 4) as nat)),
                fg_style(theme.text.muted),
            ),
        )
    } else {
        behind(rows, lead, lead, style)
    }
}

/// A child in the conversation.
pub open spec fn child_lines(block: SubAgentBlock, theme: Theme, width: int, t: UiText, now: u64) -> Seq<
    Seq<SpanV>,
> {
    let detail = child_detail(block, t);
    seq![child_head(block, theme, t, now)] + (if detail.len() == 0 {
        Seq::empty()
    } else {
        child_body(wrapped(detail, room(width, 2, 1) as usize), block.expanded, theme, t)
    })
}

/// A spawned sub-agent block: a clear role and ordinal with its state, then the task
/// while it runs or its result once done.
pub fn sub_agent_lines(
    block: &SubAgentBlock,
    theme: &Theme,
    wrap_width: usize,
    out: &mut Vec<Line>,
    t: &UiText,
    now_elapsed_secs: u64,
)
    ensures
        line_views(final(out)@) == line_views(old(out)@) + child_lines(
            *block,
            *theme,
            wrap_width as int,
            *t,
            now_elapsed_secs,
        ),
{
    let ghost base = line_views(out@);
    out.push(child_head_line(block, theme, t, now_elapsed_secs));
    let label = if block.status == ToolStatus::Running {
        t.sub_agent_task
    } else {
        t.sub_agent_result
    };
    let inner_text = trim(block.detail.as_str());
    let whole = cat2(label, sub_agent_detail(inner_text.as_str(), t).as_str());
    let detail = trim(whole.as_str());
    if !detail.as_str().is_empty() {
        let mut rows = wrap(detail.as_str(), room_of(wrap_width, 2, 1));
        let ghost all = views(rows@);
        let lead = Span::raw("  ");
        let style = Style::fg(theme.text.secondary);
        let n: usize = rows.len();
        // Bound a long result and mark the cut.
        let cut = !block.expanded && n > MAX_ROWS;
        if cut {
            let ghost held = rows@;
            rows.truncate(MAX_ROWS);
            assert(views(rows@) =~= all.take(4));
        }
        push_behind(out, &rows, &lead, &lead, style);
        if cut {
            let more = replace(t.fold_more_lines, "{}", dec((n - MAX_ROWS) as u64).as_str());
            out.push(
                Line::of(Span::new(cat2("  ", more.as_str()), Style::fg(theme.text.muted))),
            );
        }
        assert(line_views(out@) =~= base + (seq![
            child_head(*block, *theme, *t, now_elapsed_secs),
        ] + child_body(all, block.expanded, *theme, *t)));
    }
    assert(line_views(out@) =~= base + child_lines(
        *block,
        *theme,
        wrap_width as int,
        *t,
        now_elapsed_secs,
    ));
}

// ---------------------------------------------------------------- a run of children

/// How many of the first `n` children have the status.
pub open spec fn count_status(blocks: Seq<&SubAgentBlock>, status: ToolStatus, n: int) -> nat
    decreases n,
{
    if n <= 0 {
        0
    } else {
        count_status(blocks, status, n - 1) + (if blocks[n - 1].status == status {
            1nat
        } else {
            0
        })
    }
}

/// How many of the first `n` children failed at their wall clock.
pub open spec fn count_timeout(blocks: Seq<&SubAgentBlock>, n: int) -> nat
    decreases n,
{
    if n <= 0 {
        0
    } else {
        count_timeout(blocks, n - 1) + (if blocks[n - 1].status == ToolStatus::Failed && timed_out(
            blocks[n - 1].stop,
            blocks[n - 1].limit,
        ) {
            1nat
        } else {
            0
        })
    }
}

/// The tokens of the first `n` children, both ways.
pub open spec fn token_sum(blocks: Seq<&SubAgentBlock>, n: int) -> nat
    decreases n,
{
    if n <= 0 {
        0
    } else {
        token_sum(blocks, n - 1) + blocks[n - 1].progress.input_tokens as nat + blocks[n
            - 1].progress.output_tokens as nat
    }
}

/// When the first of the first `n` children started.
pub open spec fn first_start(blocks: Seq<&SubAgentBlock>, now: u64, n: int) -> u64
    decreases n,
{
    if n <= 0 {
        now
    } else if n == 1 {
        blocks[0].started_elapsed_secs
    } else if blocks[n - 1].started_elapsed_secs < first_start(blocks, now, n - 1) {
        blocks[n - 1].started_elapsed_secs
    } else {
        first_start(blocks, now, n - 1)
    }
}

/// When the last of the first `n` children settled, where one did.
pub open spec fn last_settled(blocks: Seq<&SubAgentBlock>, n: int) -> Option<u64>
    decreases n,
{
    if n <= 0 {
        None
    } else {
        match (last_settled(blocks, n - 1), blocks[n - 1].settled_elapsed_secs) {
            (Some(a), Some(b)) => if a < b {
                Some(b)
            } else {
                Some(a)
            },
            (Some(a), None) => Some(a),
            (None, b) => b,
        }
    }
}

/// The tasks of the first `n` children, each once.
pub open spec fn distinct_tasks(blocks: Seq<&SubAgentBlock>, n: int) -> Seq<Seq<char>>
    decreases n,
{
    if n <= 0 {
        Seq::empty()
    } else {
        let before = distinct_tasks(blocks, n - 1);
        let task = trimmed(blocks[n - 1].task@);
        if task.len() == 0 || before.contains(task) {
            before
        } else {
            before.push(task)
        }
    }
}

/// What a run of children came to.
#[derive(Clone, Copy, Debug, PartialEq, Eq, Structural)]
pub struct RunFacts {
    pub total: usize,
    pub running: usize,
    pub completed: usize,
    pub timeout: usize,
    pub tokens: u128,
    pub started: u64,
    pub settled: Option<u64>,
}

pub open spec fn facts_of(f: RunFacts, blocks: Seq<&SubAgentBlock>, now: u64) -> bool {
    let n = blocks.len() as int;
    &&& f.total == n
    &&& f.running == count_status(blocks, ToolStatus::Running, n)
    &&& f.completed == count_status(blocks, ToolStatus::Succeeded, n)
    &&& f.timeout == count_timeout(blocks, n)
    &&& f.tokens == token_sum(blocks, n)
    &&& f.started == first_start(blocks, now, n)
    &&& f.settled == last_settled(blocks, n)
    &&& f.running + f.completed + f.timeout <= n
}

fn run_facts(blocks: &Vec<&SubAgentBlock>, now: u64) -> (f: RunFacts)
    ensures
        facts_of(f, blocks@, now),
{
    let mut running: usize = 0;
    let mut completed: usize = 0;
    let mut timeout: usize = 0;
    let mut tokens: u128 = 0;
    let mut started: u64 = now;
    let mut settled: Option<u64> = None;
    let mut i: usize = 0;
    while i < blocks.len()
        invariant
            i <= blocks@.len(),
            running == count_status(blocks@, ToolStatus::Running, i as int),
            completed == count_status(blocks@, ToolStatus::Succeeded, i as int),
            timeout == count_timeout(blocks@, i as int),
            running + completed + timeout <= i,
            tokens == token_sum(blocks@, i as int),
            tokens <= i * 0x1_ffff_fffe,
            started == first_start(blocks@, now, i as int),
            settled == last_settled(blocks@, i as int),
        decreases blocks@.len() - i,
    {
        let b = blocks[i];
        match b.status {
            ToolStatus::Running => {
                running += 1;
            },
            ToolStatus::Succeeded => {
                completed += 1;
            },
            ToolStatus::Failed => match (b.stop, b.limit) {
                (Some(ChildStop::Budget), Some(ChildLimit::Duration)) => {
                    timeout += 1;
                },
                _ => {},
            },
            _ => {},
        }
        tokens = tokens + b.progress.input_tokens as u128 + b.progress.output_tokens as u128;
        if i == 0 || b.started_elapsed_secs < started {
            started = b.started_elapsed_secs;
        }
        settled = match (settled, b.settled_elapsed_secs) {
            (Some(x), Some(y)) => if x < y {
                Some(y)
            } else {
                Some(x)
            },
            (Some(x), None) => Some(x),
            (None, y) => y,
        };
        i += 1;
    }
    RunFacts { total: blocks.len(), running, completed, timeout, tokens, started, settled }
}

/// A count of tokens with one decimal of its unit.
pub open spec fn batch_tokens(n: nat) -> Seq<char> {
    if n >= 1_000_000 {
        one_decimal(n / 1_000_000, (n % 1_000_000) / 100_000, "M"@)
    } else if n >= 1_000 {
        one_decimal(n / 1_000, (n % 1_000) / 100, "k"@)
    } else {
        decimal(n)
    }
}

fn fmt_batch_tokens(n: u64) -> (r: String)
    ensures
        r@ == batch_tokens(n as nat),
{
    let (whole, tenth, unit): (u64, u64, &str) = if n >= 1_000_000 {
        (n / 1_000_000, (n % 1_000_000) / 100_000, "M")
    } else if n >= 1_000 {
        (n / 1_000, (n % 1_000) / 100, "k")
    } else {
        return dec(n);
    };
    if tenth == 0 {
        cat2(dec(whole).as_str(), unit)
    } else {
        cat4(dec(whole).as_str(), ".", dec(tenth).as_str(), unit)
    }
}

/// The largest count of tokens that is written out.
pub open spec fn shown_tokens(n: nat) -> nat {
    if n > u32::MAX {
        u32::MAX as nat
    } else {
        n
    }
}

/// How the children ended, one part for each way that occurred.
pub open spec fn outcome_parts(f: RunFacts, t: UiText) -> Seq<Seq<char>> {
    let failed = f.total - f.completed - f.timeout;
    (if f.completed > 0 {
        seq![decimal(f.completed as nat) + " "@ + t.agent_status_completed@]
    } else {
        Seq::empty()
    }) + (if f.timeout > 0 {
        seq![decimal(f.timeout as nat) + " "@ + t.agent_status_timeout@]
    } else {
        Seq::empty()
    }) + (if failed > 0 {
        seq![decimal(failed as nat) + " "@ + t.sub_agent_incomplete@]
    } else {
        Seq::empty()
    })
}

/// When a run ended, or the present while it runs.
pub open spec fn run_end(f: RunFacts, now: u64) -> u64 {
    match f.settled {
        Some(s) => if f.running > 0 {
            now
        } else {
            s
        },
        None => now,
    }
}

/// What is said of a run behind its header: its tokens, its time, and how it ended
/// where it ended and not all is well.
pub open spec fn run_stats(f: RunFacts, now: u64, t: UiText) -> Seq<char> {
    (if f.tokens > 0 {
        " · "@ + batch_tokens(shown_tokens(f.tokens as nat)) + " tokens"@
    } else {
        Seq::empty()
    }) + (if run_end(f, now) >= f.started && (f.running > 0 || f.settled is Some) {
        " · "@ + elapsed((run_end(f, now) - f.started) as nat)
    } else {
        Seq::empty()
    }) + (if f.running == 0 && f.completed < f.total {
        " · "@ + joined(outcome_parts(f, t), " · "@)
    } else {
        Seq::empty()
    })
}

fn run_stats_text(f: &RunFacts, now: u64, t: &UiText) -> (r: String)
    requires
        f.completed + f.timeout <= f.total,
    ensures
        r@ == run_stats(*f, now, *t),
{
    let mut stats = String::new();
    if f.tokens > 0 {
        let n: u64 = if f.tokens > 0xffff_ffff {
            0xffff_ffff
        } else {
            f.tokens as u64
        };
        stats.append(cat3(" · ", fmt_batch_tokens(n).as_str(), " tokens").as_str());
    }
    let end: u64 = match f.settled {
        Some(s) => if f.running > 0 {
            now
        } else {
            s
        },
        None => now,
    };
    if end >= f.started && (f.running > 0 || f.settled.is_some()) {
        stats.append(cat2(" · ", fmt_elapsed(end - f.started).as_str()).as_str());
    }
    // A finished-but-not-clean run breaks down how each agent ended.
    if f.running == 0 && f.completed < f.total {
        let failed: usize = f.total - f.completed - f.timeout;
        let mut parts: Vec<String> = Vec::new();
        if f.completed > 0 {
            parts.push(cat3(dec(f.completed as u64).as_str(), " ", t.agent_status_completed));
        }
        if f.timeout > 0 {
            parts.push(cat3(dec(f.timeout as u64).as_str(), " ", t.agent_status_timeout));
        }
        if failed > 0 {
            parts.push(cat3(dec(failed as u64).as_str(), " ", t.sub_agent_incomplete));
        }
        assert(views(parts@) =~= outcome_parts(*f, *t));
        stats.append(cat2(" · ", join(&parts, " · ").as_str()).as_str());
    }
    assert(stats@ =~= run_stats(*f, now, *t));
    stats
}

/// The sign, the color and the words of a run.
pub open spec fn run_header(f: RunFacts, theme: Theme, t: UiText) -> (Seq<char>, Color, Seq<char>) {
    let count = decimal(f.total as nat);
    if f.running > 0 {
        ("◌"@, theme.accent.primary, replaced_first(t.agents_running_header@, "{}"@, count))
    } else if f.completed == f.total {
        ("✓"@, theme.status.success, replaced_first(t.agents_done_header@, "{}"@, count))
    } else {
        ("⚠"@, theme.status.warning, replaced_first(t.agents_ended_header@, "{}"@, count))
    }
}

/// The rows of a run with these facts and these tasks.
pub open spec fn run_lines(
    f: RunFacts,
    tasks: Seq<Seq<char>>,
    theme: Theme,
    width: int,
    t: UiText,
    now: u64,
) -> Seq<Seq<SpanV>> {
    let (glyph, color, header) = run_header(f, theme, t);
    let lead = spanv("  "@, no_style());
    seq![
        seq![
            spanv(glyph + " "@, fg_style(color)),
            spanv(header, bold_style(theme.text.primary)),
            spanv(run_stats(f, now, t), fg_style(theme.text.muted)),
        ],
    ] + (if tasks.len() == 0 {
        Seq::empty()
    } else {
        behind(
            wrapped(joined(tasks, t.task_separator@), room(width, 2, 1) as usize),
            lead,
            lead,
            fg_style(theme.text.secondary),
        )
    })
}

fn tasks_of(blocks: &Vec<&SubAgentBlock>) -> (r: Vec<String>)
    ensures
        views(r@) == distinct_tasks(blocks@, blocks@.len() as int),
{
    let mut tasks: Vec<String> = Vec::new();
    let mut i: usize = 0;
    assert(views(tasks@) =~= Seq::<Seq<char>>::empty());
    while i < blocks.len()
        invariant
            i <= blocks@.len(),
            views(tasks@) == distinct_tasks(blocks@, i as int),
        decreases blocks@.len() - i,
    {
        let task = trim(blocks[i].task.as_str());
        if !task.as_str().is_empty() && !holds(&tasks, task.as_str()) {
            tasks.push(task);
        }
        i += 1;
    }
    tasks
}

/// The rows of two or more consecutive children: an aggregate header and one durable
/// summary of their tasks.
pub fn sub_agent_tree_group_lines(
    blocks: &Vec<&SubAgentBlock>,
    theme: &Theme,
    wrap_width: usize,
    out: &mut Vec<Line>,
    t: &UiText,
    now_elapsed_secs: u64,
)
    ensures
        exists|f: RunFacts| #[trigger]
            facts_of(f, blocks@, now_elapsed_secs) && line_views(final(out)@) == line_views(
                old(out)@,
            ) + run_lines(
                f,
                distinct_tasks(blocks@, blocks@.len() as int),
                *theme,
                wrap_width as int,
                *t,
                now_elapsed_secs,
            ),
{
    let ghost base = line_views(out@);
    let f = run_facts(blocks, now_elapsed_secs);
    let count = dec(f.total as u64);
    let (glyph, color, header) = if f.running > 0 {
        (
            "◌",
            theme.accent.primary,
            replace_first(t.agents_running_header, "{}", count.as_str()),
        )
    } else if f.completed == f.total {
        (
            "✓",
            theme.status.success,
            replace_first(t.agents_done_header, "{}", count.as_str()),
        )
    } else {
        (
            "⚠",
            theme.status.warning,
            replace_first(t.agents_ended_header, "{}", count.as_str()),
        )
    };
    let stats = run_stats_text(&f, now_elapsed_secs, t);
    out.push(
        Line::of3(
            Span::new(cat2(glyph, " "), Style::fg(color)),
            Span::new(header, Style::bold(theme.text.primary)),
            Span::new(stats, Style::fg(theme.text.muted)),
        ),
    );
    let tasks = tasks_of(blocks);
    let ghost all = distinct_tasks(blocks@, blocks@.len() as int);
    assert(all.len() == tasks@.len());
    if tasks.len() > 0 {
        let text = join(&tasks, t.task_separator);
        let rows = wrap(text.as_str(), room_of(wrap_width, 2, 1));
        let lead = Span::raw("  ");
        push_behind(out, &rows, &lead, &lead, Style::fg(theme.text.secondary));
    }
    assert(line_views(out@) =~= base + run_lines(
        f,
        all,
        *theme,
        wrap_width as int,
        *t,
        now_elapsed_secs,
    ));
    assert(facts_of(f, blocks@, now_elapsed_secs));
}

/// What a run of consecutive children shows: nothing for none, the classic rows for
/// one, a tree for more.
pub open spec fn shows_children(
    lines: Seq<Seq<SpanV>>,
    blocks: Seq<&SubAgentBlock>,
    theme: Theme,
    width: int,
    t: UiText,
    now: u64,
) -> bool {
    if blocks.len() == 0 {
        lines == Seq::<Seq<SpanV>>::empty()
    } else if blocks.len() == 1 {
        lines == child_lines(*blocks[0], theme, width, t, now)
    } else {
        exists|f: RunFacts| #[trigger]
            facts_of(f, blocks, now) && lines == run_lines(
                f,
                distinct_tasks(blocks, blocks.len() as int),
                theme,
                width,
                t,
                now,
            )
    }
}

/// Render a run of consecutive sub-agent blocks as one inline tree. A lone agent
/// keeps the classic single-block rendering.
pub fn sub_agent_tree_lines(
    blocks: &Vec<&SubAgentBlock>,
    theme: &Theme,
    wrap_width: usize,
    t: &UiText,
    now_elapsed_secs: u64,
) -> (r: Vec<Line>)
    ensures
        shows_children(
            line_views(r@),
            blocks@,
            *theme,
            wrap_width as int,
            *t,
            now_elapsed_secs,
        ),
{
    let mut out: Vec<Line> = Vec::new();
    assert(line_views(out@) =~= Seq::<Seq<SpanV>>::empty());
    if blocks.len() == 1 {
        sub_agent_lines(blocks[0], theme, wrap_width, &mut out, t, now_elapsed_secs);
        assert(line_views(out@) =~= child_lines(
            *blocks@[0],
            *theme,
            wrap_width as int,
            *t,
            now_elapsed_secs,
        ));
    } else if blocks.len() > 1 {
        sub_agent_tree_group_lines(blocks, theme, wrap_width, &mut out, t, now_elapsed_secs);
        proof {
            let f = choose|f: RunFacts| #[trigger]
                facts_of(f, blocks@, now_elapsed_secs) && line_views(out@) == Seq::<
                    Seq<SpanV>,
                >::empty() + run_lines(
                    f,
                    distinct_tasks(blocks@, blocks@.len() as int),
                    *theme,
                    wrap_width as int,
                    *t,
                    now_elapsed_secs,
                );
            assert(line_views(out@) =~= run_lines(
                f,
                distinct_tasks(blocks@, blocks@.len() as int),
                *theme,
                wrap_width as int,
                *t,
                now_elapsed_secs,
            ));
        }
    }
    out
}

/// The facts of a run are fixed by its children.
pub proof fn run_facts_are_unique(a: RunFacts, b: RunFacts, blocks: Seq<&SubAgentBlock>, now: u64)
    requires
        facts_of(a, blocks, now),
        facts_of(b, blocks, now),
    ensures
        a == b,
{
}

/// The word and the color of one child of a run.
pub open spec fn tree_child_status(block: SubAgentBlock, theme: Theme, t: UiText) -> (Seq<char>, Color) {
    match block.status {
        ToolStatus::Running => if block.progress.active {
            (t.agent_status_running@, theme.accent.primary)
        } else {
            (t.sub_agent_waiting@, theme.text.secondary)
        },
        ToolStatus::Succeeded => ("✓ "@ + t.agent_status_completed@, theme.status.success),
        _ => if block.unreported {
            ("? "@ + t.sub_agent_unreported@, theme.status.warning)
        } else if block.interrupted {
            ("⏸ "@ + t.sub_agent_interrupted@, theme.status.warning)
        } else if block.status == ToolStatus::Failed {
            (
                "✗ "@ + (match stop_word(block.stop, block.limit, t) {
                    Some(word) => word,
                    None => t.sub_agent_incomplete@,
                }),
                theme.status.error,
            )
        } else {
            ("? "@ + t.sub_agent_unreported@, theme.status.warning)
        },
    }
}

/// Status word for one child of a run. Running agents keep the waiting/running
/// distinction; finished ones carry a sign.
pub fn sub_agent_tree_child_status(block: &SubAgentBlock, theme: &Theme, t: &UiText) -> (r: (
    String,
    Color,
))
    ensures
        (r.0@, r.1) == tree_child_status(*block, *theme, *t),
{
    match block.status {
        ToolStatus::Running => if block.progress.active {
            (t.agent_status_running.to_owned(), theme.accent.primary)
        } else {
            (t.sub_agent_waiting.to_owned(), theme.text.secondary)
        },
        ToolStatus::Succeeded => (cat2("✓ ", t.agent_status_completed), theme.status.success),
        _ => if block.unreported {
            (cat2("? ", t.sub_agent_unreported), theme.status.warning)
        } else if block.interrupted {
            (cat2("⏸ ", t.sub_agent_interrupted), theme.status.warning)
        } else if block.status == ToolStatus::Failed {
            let word = match child_stop_label(block.stop, block.limit, t) {
                Some(word) => word,
                None => t.sub_agent_incomplete,
            };
            (cat2("✗ ", word), theme.status.error)
        } else {
            (cat2("? ", t.sub_agent_unreported), theme.status.warning)
        },
    }
}

} // verus!
