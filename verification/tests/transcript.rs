use leveler_tui::i18n::{Locale, UiText};
use leveler_tui::line::{Line, Span, Style};
use leveler_tui::protocol::{
    ChildLimit, ChildStop, PlanStepStatus, UiCompletionReport, UiPlan, UiPlanStep,
    REASON_NO_AUTOMATIC_VERIFICATION, REASON_NO_CODE_CHANGES,
};
use leveler_tui::render::sub_agents::{
    child_label, child_stop_label, contribution_line, sub_agent_detail, sub_agent_tree_child_status,
    sub_agent_tree_lines,
};
use leveler_tui::render::text::wrap;
use leveler_tui::render::transcript_lines::{
    assistant_render, assistant_split, item_is_final, item_render, items_need_gap,
    plan_done_total, user_shell_lines, user_shell_presentation, DisclosurePresentation, Made,
    PlanGlyphs,
};
use leveler_tui::render::turn_end::{localized_turn_detail, turn_end_marker};
use leveler_tui::theme::{Theme, ThemeId};
use leveler_tui::transcript::{
    AssistantBlock, Contribution, FailureBlock, GoalRecap, GoalRecapBlock, RecapBlock,
    SubAgentBlock, SubAgentProgress, SubAgentRole, ToolCallBlock, ToolGroupBlock, ToolStatus,
    TranscriptItem, TranscriptState, TurnEndBlock, TurnEndStatus, UserShellBlock, UserShellStatus,
};
use leveler_tui::transcript::StopRequest;

fn default_theme() -> Theme {
    Theme::named(ThemeId::DEFAULT, true)
}

fn line_text(line: &Line) -> String {
    line.spans.iter().map(|s| s.content.as_str()).collect()
}

fn joined(lines: &[Line]) -> String {
    lines.iter().map(line_text).collect::<Vec<_>>().join("\n")
}

fn glyphs() -> PlanGlyphs {
    PlanGlyphs { pending: "○", running: "◐", done: "●", failed: "✗" }
}

fn made(lines: Vec<Line>) -> Made {
    Made { lines, stable: 0, plan_glyphs: glyphs() }
}

fn nothing_made() -> Made {
    made(Vec::new())
}

/// A message as plain wrapped rows.
fn prose(text: &str, width: usize) -> Made {
    let mut lines = Vec::new();
    for row in text.lines() {
        for piece in wrap(row, width) {
            lines.push(Line::of(Span::raw(&piece)));
        }
    }
    let stable = lines.len();
    Made { lines, stable, plan_glyphs: glyphs() }
}

fn render(item: &TranscriptItem, theme: &Theme, width: usize, t: &UiText) -> Vec<Line> {
    item_render(item, theme, width, t, &nothing_made())
}

/// One disclosure row: the label and the sign of what a click does.
fn disclosure(p: &DisclosurePresentation) -> Vec<Line> {
    let sign = if p.drill_down {
        "↗"
    } else if p.expanded {
        "▾"
    } else {
        "▸"
    };
    vec![Line::of(Span::raw(&format!("{} {}", p.label, sign)))]
}

fn shell_row(shell: &UserShellBlock) -> String {
    let t = Locale::Zh.text();
    let rows = disclosure(&user_shell_presentation(shell, &t));
    user_shell_lines(shell, &Theme::no_color(), 80, &t, 0, &rows)
        .iter()
        .map(line_text)
        .collect()
}

fn shell(command: &str, status: UserShellStatus) -> UserShellBlock {
    UserShellBlock {
        command: command.into(),
        cwd: "/repo".into(),
        status,
        output: String::new(),
        output_truncated: false,
        exit_code: None,
        duration_ms: Some(2_000),
        started_elapsed_secs: 0,
        expanded: false,
    }
}

/// A user shell whose stop could not be confirmed reads as unknown: never failed, never
/// cancelled.
#[test]
fn a_user_shell_with_an_unconfirmed_stop_reads_as_unknown() {
    let row = shell_row(&shell("sleep 30", UserShellStatus::Unknown));
    assert!(row.contains("状态未知"), "{row:?}");
    assert!(!row.contains('✗') && !row.contains("已取消"), "{row:?}");
}

/// A user shell row opens its own screen, so it carries the drill-down marker and not
/// the one that a tool group expands with.
#[test]
fn a_user_shell_row_advertises_drill_down_not_inline_expand() {
    let mut block = shell("cargo test", UserShellStatus::Success);
    block.output = "ok".into();
    block.exit_code = Some(0);
    block.duration_ms = Some(1_000);
    let row = shell_row(&block);
    assert!(row.contains('↗'), "{row:?}");
    assert!(!row.contains('▸') && !row.contains('▾'), "{row:?}");
}

#[test]
fn a_failed_shell_names_its_exit_code_and_its_last_words() {
    let t = Locale::Zh.text();
    let mut block = shell("make", UserShellStatus::Failed);
    block.output = "step one\nboom\n\n".into();
    block.exit_code = Some(2);
    let p = user_shell_presentation(&block, &t);
    assert_eq!(p.failed, 1);
    assert_eq!(p.failed_suffix.as_deref(), Some("exit 2"));
    assert_eq!(p.first_error.as_deref(), Some("boom"));
    block.expanded = true;
    assert_eq!(user_shell_presentation(&block, &t).first_error, None);
    block.exit_code = Some(-9);
    assert_eq!(
        user_shell_presentation(&block, &t).failed_suffix.as_deref(),
        Some("exit -9")
    );
}

#[test]
fn an_expanded_shell_shows_its_output_under_the_header() {
    let t = Locale::En.text();
    let mut block = shell("ls", UserShellStatus::Success);
    block.output = "a.rs\nb.rs".into();
    block.output_truncated = true;
    block.expanded = true;
    let header = vec![Line::of(Span::raw("head"))];
    let lines = user_shell_lines(&block, &Theme::no_color(), 80, &t, 0, &header);
    let text: Vec<String> = lines.iter().map(line_text).collect();
    assert_eq!(text[0], "head");
    assert_eq!(text[1], format!("  {}", t.shell_truncated));
    assert_eq!(text[2], "  a.rs");
    assert_eq!(text[3], "  b.rs");
    assert_eq!(text.len(), 4);
}

// ---- Prose of the model is never folded ----

const LONG_PROGRESS: &str = "全部验证通过：

- ping → 200
- MCP 路径返回 404 是因为入口路径可能不同，但 HTTPS 层已通

最后确认续期配置没问题。certbot 自动装的 timer 指向标准路径，但我们的 hook 在非标准位置。

检查 renewal conf：";

fn block(text: &str) -> AssistantBlock {
    AssistantBlock { text: text.to_string(), done: true }
}

fn rows(block: &AssistantBlock, width: usize) -> Vec<String> {
    let made = prose(&block.text, width);
    assistant_render(block, &Theme::no_color(), &made).iter().map(line_text).collect()
}

#[test]
fn long_progress_prose_renders_in_full_with_no_disclosure() {
    let lines = rows(&block(LONG_PROGRESS), 60);
    for fragment in ["全部验证通过", "ping → 200", "certbot", "检查 renewal conf"] {
        assert!(
            lines.iter().any(|l| l.contains(fragment)),
            "{fragment} missing: {lines:?}"
        );
    }
    assert!(
        !lines.iter().any(|l| l.contains('▸') || l.contains("过程说明")),
        "{lines:?}"
    );
}

/// Streaming prose grows in place with its live cursor.
#[test]
fn streaming_prose_renders_in_full_with_its_cursor() {
    let mut streaming = block(LONG_PROGRESS);
    streaming.done = false;
    let lines = rows(&streaming, 60);
    assert!(
        lines.iter().any(|l| l.contains("检查 renewal conf")),
        "{lines:?}"
    );
    assert!(lines.iter().any(|l| l.contains('▌')), "{lines:?}");
}

/// The answer is never compacted, however long it is.
#[test]
fn a_long_final_answer_is_never_folded() {
    let text = (1..=20).map(|i| format!("第 {i} 行结论")).collect::<Vec<_>>().join("\n\n");
    let lines = rows(&block(&text), 60);
    assert!(
        lines.iter().any(|l| l.contains("第 20 行结论")),
        "{lines:?}"
    );
}

#[test]
fn a_message_starts_behind_its_sign_and_keeps_the_rest_indented() {
    let message = block("one\ntwo");
    let lines = rows(&message, 60);
    assert_eq!(lines.len(), 2);
    assert!(lines[0].ends_with("one"), "{lines:?}");
    assert_ne!(lines[0], "one");
    assert_eq!(lines[1], "  two");
    let (_, stable) = assistant_split(&message, &Theme::no_color(), &prose("one\ntwo", 60));
    assert!(stable <= 2);
}

#[test]
fn item_render_hides_successful_update_goal() {
    let theme = Theme::no_color();
    let t = Locale::Zh.text();
    let item = TranscriptItem::ToolGroup(ToolGroupBlock {
        calls: vec![ToolCallBlock {
            id: "g1".into(),
            name: "update_goal".into(),
            arguments: r#"{"status":"complete","summary":"用户询问这是什么项目，已回答"}"#.into(),
            status: ToolStatus::Succeeded,
            stop: StopRequest::NotSent,
            preview: Some("Goal resolved.".into()),
            duration_ms: Some(1),
        }],
        open: false,
        expanded: false,
    });
    let text = joined(&render(&item, &theme, 120, &t));
    assert!(text.trim().is_empty(), "{text:?}");
    assert!(!text.contains("目标收尾"), "{text:?}");
    assert!(!text.contains("完成："), "{text:?}");
}

fn turn_end(status: TurnEndStatus, detail: Option<&str>) -> TurnEndBlock {
    TurnEndBlock {
        status,
        tool_calls: 0,
        elapsed_secs: 0,
        summary: None,
        detail: detail.map(str::to_string),
    }
}

#[test]
fn no_code_changes_marker_is_calm_and_omits_machine_token() {
    let theme = default_theme();
    let t = Locale::Zh.text();
    let mut end = turn_end(TurnEndStatus::Unverified, Some(REASON_NO_CODE_CHANGES));
    end.tool_calls = 20;
    end.elapsed_secs = 88;
    let lines = render(&TranscriptItem::TurnEnd(end), &theme, 80, &t);
    assert_eq!(lines.len(), 1);
    let text = line_text(&lines[0]);
    assert!(
        text.contains("◇ 结束 · 未改源码 · 20 次工具 · 1m 28s"),
        "unexpected marker: {text}"
    );
    assert!(!text.contains("未验证"), "{text}");
    assert!(!text.contains("no_code_changes"), "{text}");
}

#[test]
fn soft_unverified_is_calm_and_does_not_lecture() {
    let theme = default_theme();
    let t = Locale::Zh.text();
    let mut end = turn_end(TurnEndStatus::Unverified, Some(REASON_NO_AUTOMATIC_VERIFICATION));
    end.tool_calls = 3;
    end.elapsed_secs = 12;
    let lines = render(&TranscriptItem::TurnEnd(end), &theme, 100, &t);
    assert_eq!(lines.len(), 1, "soft unverified stays one line");
    let text = line_text(&lines[0]);
    assert!(text.contains("实现完成 · 验证未运行"), "{text}");
    assert!(text.contains("3 次工具"), "{text}");
    assert!(!text.contains("浏览器预览"), "{text}");
    assert!(!text.contains("未配置适用的自动验证命令"), "{text}");
}

#[test]
fn automatic_verification_marker_is_short_in_english() {
    let theme = default_theme();
    let t = Locale::En.text();
    let end = turn_end(TurnEndStatus::Unverified, Some(REASON_NO_AUTOMATIC_VERIFICATION));
    let text = joined(&render(&TranscriptItem::TurnEnd(end), &theme, 140, &t));
    assert!(
        text.contains("implementation done · verification not run"),
        "{text}"
    );
    assert!(!text.contains("browser preview"), "{text}");
    assert!(!text.contains("no applicable automatic verification"), "{text}");
}

fn turn_end_text(status: TurnEndStatus, detail: Option<&str>) -> String {
    let item = TranscriptItem::TurnEnd(turn_end(status, detail));
    joined(&render(&item, &default_theme(), 120, &Locale::Zh.text()))
}

/// A reason is appended to the marker line only if it fits there.
#[test]
fn a_reason_that_does_not_fit_the_marker_is_shown_under_it() {
    let theme = default_theme();
    let t = Locale::Zh.text();
    let reason =
        "develop: stopped before Review passed — Review produced no verdict for the change";
    let item = TranscriptItem::TurnEnd(TurnEndBlock {
        status: TurnEndStatus::CompletedWithWarnings,
        tool_calls: 14,
        elapsed_secs: 439,
        summary: Some("验证 ✓".into()),
        detail: Some(reason.to_string()),
    });
    let lines: Vec<String> = render(&item, &theme, 120, &t).iter().map(line_text).collect();
    for line in &lines {
        assert!(
            unicode_width::UnicodeWidthStr::width(line.as_str()) <= 120,
            "no line overruns the width: {line:?}"
        );
    }
    let below = lines[1..].join(" ");
    assert!(
        below.contains("Review produced no verdict"),
        "the whole reason is readable: {lines:#?}"
    );
}

#[test]
fn turn_end_marker_distinguishes_all_terminal_states() {
    let completed = turn_end_text(TurnEndStatus::Completed, None);
    assert!(completed.contains("✓ 任务已完成"), "{completed}");
    let answered = turn_end_text(TurnEndStatus::Answered, None);
    assert!(answered.contains("✓ 任务已完成"), "{answered}");
    let truncated = turn_end_text(TurnEndStatus::Truncated, Some("context limit"));
    assert!(truncated.contains("⚠ 已完成，但有警告"), "{truncated}");
    let incomplete = turn_end_text(TurnEndStatus::Incomplete, Some("预算已耗尽"));
    assert!(incomplete.contains("⚠ 未完成"), "{incomplete}");
    let gate = turn_end_text(TurnEndStatus::Incomplete, Some("failed gate(s): cargo test"));
    assert!(gate.contains("⚠ 验证未通过"), "{gate}");
    assert!(gate.contains("cargo test"), "{gate}");
    assert!(!gate.contains("被阻塞"), "{gate}");
    assert!(!gate.contains("failed gate(s)"), "{gate}");
    let unverified = turn_end_text(TurnEndStatus::Unverified, Some("verify failed"));
    assert!(unverified.contains("⚠ 已完成，但有警告"), "{unverified}");
    let failed = turn_end_text(TurnEndStatus::Failed, Some("boom"));
    assert!(failed.contains("✗ 失败"), "{failed}");
    let cancelled = turn_end_text(TurnEndStatus::Cancelled, None);
    assert!(cancelled.contains("⊘ 已取消"), "{cancelled}");
}

#[test]
fn turn_end_marker_colors_only_symbol_and_word_not_stats() {
    let theme = default_theme();
    let t = Locale::Zh.text();
    let mut end = turn_end(TurnEndStatus::Failed, Some("boom"));
    end.tool_calls = 2;
    end.elapsed_secs = 5;
    let lines = render(&TranscriptItem::TurnEnd(end), &theme, 80, &t);
    assert_eq!(lines.len(), 1);
    let stats = &lines[0].spans[2];
    assert!(stats.content.contains("boom"), "{stats:?}");
    assert_eq!(stats.style.fg, Some(theme.text.secondary), "{stats:?}");
    assert_eq!(lines[0].spans[1].style.fg, Some(theme.status.error));
}

/// No end but a completed or an answered one carries the check mark.
#[test]
fn only_a_finished_turn_wears_a_check() {
    let theme = default_theme();
    let t = Locale::Zh.text();
    let all = [
        TurnEndStatus::Completed,
        TurnEndStatus::CompletedWithWarnings,
        TurnEndStatus::Answered,
        TurnEndStatus::Unverified,
        TurnEndStatus::ChecksFailed,
        TurnEndStatus::NoFinalAnswer,
        TurnEndStatus::Truncated,
        TurnEndStatus::Incomplete,
        TurnEndStatus::Failed,
        TurnEndStatus::Cancelled,
    ];
    for status in all {
        let (marker, _) = turn_end_marker(&turn_end(status, None), &theme, &t);
        let done = matches!(status, TurnEndStatus::Completed | TurnEndStatus::Answered);
        assert_eq!(marker.contains('✓'), done, "{status:?} {marker}");
    }
}

#[test]
fn an_unknown_turn_detail_is_shown_as_it_is() {
    let t = Locale::Zh.text();
    assert_eq!(localized_turn_detail("boom", &t), "boom");
}

fn sub_agent(id: &str, nickname: &str, status: ToolStatus) -> SubAgentBlock {
    let failed = status == ToolStatus::Failed;
    SubAgentBlock {
        id: id.into(),
        nickname: nickname.into(),
        agent_name: None,
        role: SubAgentRole::Explorer,
        status,
        task: "task".into(),
        detail: if failed {
            "Reached the 6-round limit before finishing.".into()
        } else {
            "done".into()
        },
        progress: SubAgentProgress {
            active: false,
            input_tokens: 0,
            output_tokens: 0,
            cached_input_tokens: 0,
        },
        recent_step: None,
        started_elapsed_secs: 0,
        settled_elapsed_secs: (status != ToolStatus::Running).then_some(0),
        expanded: false,
        contribution: Contribution::Pending,
        stop: failed.then_some(ChildStop::Budget),
        limit: failed.then_some(ChildLimit::Duration),
        interrupted: false,
        unreported: false,
    }
}

#[test]
fn a_long_sub_agent_result_is_bounded_and_says_so() {
    let theme = default_theme();
    let t = Locale::Zh.text();
    let mut a = sub_agent("agent-1", "Euclid", ToolStatus::Succeeded);
    a.detail = (1..=20)
        .map(|i| format!("结论第 {i} 条，这一行足够长以至于会占满整行宽度不会被合并"))
        .collect::<Vec<_>>()
        .join("\n");
    let lines = sub_agent_tree_lines(&vec![&a], &theme, 80, &t, 0);
    assert!(lines.len() <= 6, "got {} rows", lines.len());
    let text: String = lines.iter().map(line_text).collect();
    assert!(
        text.contains("还有 16 行"),
        "the cut must be named truthfully: {text}"
    );
    assert!(!text.contains("Ctrl+O"), "shortcuts are not advertised: {text}");
}

#[test]
fn expanding_a_sub_agent_shows_its_whole_result() {
    let theme = default_theme();
    let t = Locale::Zh.text();
    let mut a = sub_agent("agent-1", "Euclid", ToolStatus::Succeeded);
    a.detail = (1..=20).map(|i| format!("结论第 {i} 条")).collect::<Vec<_>>().join("\n");
    a.expanded = true;
    let lines = sub_agent_tree_lines(&vec![&a], &theme, 80, &t, 0);
    let text: String = lines.iter().map(line_text).collect();
    assert!(text.contains("结论第 20 条"), "expanded must be complete: {text}");
}

#[test]
fn a_finished_explorer_shows_its_finding_count() {
    let theme = default_theme();
    let t = Locale::Zh.text();
    let mut a = sub_agent("agent-1", "Euclid", ToolStatus::Succeeded);
    a.contribution = Contribution::Reported { total: 3 };
    let lines = sub_agent_tree_lines(&vec![&a], &theme, 80, &t, 0);
    let text: String = lines.iter().map(line_text).collect();
    assert!(
        text.contains("3 项发现"),
        "finding count must be on the head line: {text}"
    );
    assert_eq!(contribution_line(Contribution::Pending, &t), None);
}

#[test]
fn a_short_sub_agent_result_is_untouched() {
    let theme = default_theme();
    let t = Locale::Zh.text();
    let a = sub_agent("agent-1", "Euclid", ToolStatus::Succeeded);
    let lines = sub_agent_tree_lines(&vec![&a], &theme, 80, &t, 0);
    let text: String = lines.iter().map(line_text).collect();
    assert!(!text.contains("Ctrl+O"), "no cut, no hint: {text}");
}

#[test]
fn sub_agent_tree_keeps_tasks_instead_of_live_tool_steps() {
    let theme = default_theme();
    let t = Locale::Zh.text();
    let mut a = sub_agent("agent-1", "Euclid", ToolStatus::Running);
    a.progress.active = true;
    a.recent_step = Some("list_files".into());
    let mut b = sub_agent("agent-2", "Newton", ToolStatus::Running);
    b.progress.active = true;
    b.recent_step = Some("grep ✓".into());
    let text = joined(&sub_agent_tree_lines(&vec![&a, &b], &theme, 100, &t, 0));
    assert!(text.contains("task"), "{text}");
    assert!(
        !text.contains("list_files") && !text.contains("grep ✓"),
        "{text}"
    );
}

#[test]
fn sub_agent_tree_aggregates_running_agents() {
    let theme = default_theme();
    let t = Locale::Zh.text();
    let mut a = sub_agent("agent-1", "Euclid", ToolStatus::Running);
    a.progress.active = true;
    a.progress.input_tokens = 1_200;
    a.progress.output_tokens = 80;
    let mut b = sub_agent("agent-2", "Newton", ToolStatus::Running);
    b.progress.input_tokens = 2_400;
    b.progress.output_tokens = 160;
    let text = joined(&sub_agent_tree_lines(&vec![&a, &b], &theme, 100, &t, 0));
    assert!(text.contains("◌ 2 个 agents 正在运行"), "{text}");
    assert!(text.contains("3.8k tokens"), "{text}");
    assert!(text.contains("task"), "{text}");
    assert!(
        !text.contains("├─ Euclid") && !text.contains("└─ Newton"),
        "{text}"
    );
}

#[test]
fn running_sub_agents_show_the_batch_elapsed_time() {
    let theme = default_theme();
    let t = Locale::Zh.text();
    let mut a = sub_agent("agent-1", "Euclid", ToolStatus::Running);
    a.started_elapsed_secs = 3;
    let mut b = sub_agent("agent-2", "Newton", ToolStatus::Running);
    b.started_elapsed_secs = 10;
    let text = joined(&sub_agent_tree_lines(&vec![&a, &b], &theme, 100, &t, 15));
    assert!(text.contains("12s"), "batch elapsed missing: {text}");
    assert!(
        !text.contains("5s"),
        "per-agent time belongs to the live panel: {text}"
    );
}

#[test]
fn sub_agent_tree_all_done_shows_stats_not_status_words() {
    let theme = default_theme();
    let t = Locale::Zh.text();
    let mut a = sub_agent("agent-1", "Euclid", ToolStatus::Succeeded);
    a.progress.input_tokens = 87_800;
    let b = sub_agent("agent-2", "Newton", ToolStatus::Succeeded);
    let text = joined(&sub_agent_tree_lines(&vec![&a, &b], &theme, 100, &t, 0));
    assert!(text.contains("✓ 2 个 agents 完成"), "{text}");
    assert!(text.contains("87.8k tokens"), "{text}");
    assert!(!text.contains("├─ Euclid"), "{text}");
}

#[test]
fn sub_agent_tree_with_failure_breaks_down_outcomes() {
    let theme = default_theme();
    let t = Locale::Zh.text();
    let a = sub_agent("agent-1", "Euclid", ToolStatus::Succeeded);
    let b = sub_agent("agent-2", "Newton", ToolStatus::Failed);
    let text = joined(&sub_agent_tree_lines(&vec![&a, &b], &theme, 100, &t, 0));
    assert!(text.contains("⚠ 2 个 agents 结束"), "{text}");
    assert!(text.contains("1 已完成 · 1 超时"), "{text}");
    assert!(
        !text.contains("├─ Euclid") && !text.contains("✗ 超时"),
        "{text}"
    );
}

/// Duration is the wall clock; every other budget stop is a spent budget; a missing
/// bound is never a guessed timeout.
#[test]
fn a_failed_childs_termination_label_reads_the_typed_bound() {
    let theme = default_theme();
    let t = Locale::Zh.text();
    let cases: &[(Option<ChildStop>, Option<ChildLimit>, &str)] = &[
        (Some(ChildStop::Budget), Some(ChildLimit::Duration), "超时"),
        (Some(ChildStop::Budget), Some(ChildLimit::ModelTokens), "预算耗尽"),
        (Some(ChildStop::Budget), Some(ChildLimit::Cost), "预算耗尽"),
        (Some(ChildStop::Budget), Some(ChildLimit::Commands), "预算耗尽"),
        (Some(ChildStop::Budget), Some(ChildLimit::ModifiedFiles), "预算耗尽"),
        (Some(ChildStop::Budget), Some(ChildLimit::RoundWindow), "预算耗尽"),
        (Some(ChildStop::Budget), Some(ChildLimit::RoundCeiling), "预算耗尽"),
        (Some(ChildStop::Budget), None, "预算耗尽"),
        (Some(ChildStop::Cancelled), None, "已取消"),
        (Some(ChildStop::Lost), None, "已丢失"),
        (Some(ChildStop::Failed), None, "未完成"),
        (Some(ChildStop::Incomplete), None, "未完成"),
    ];
    for (stop, limit, expected) in cases {
        let mut child = sub_agent("agent-1", "Euclid", ToolStatus::Failed);
        child.stop = *stop;
        child.limit = *limit;
        let (label, _) = sub_agent_tree_child_status(&child, &theme, &t);
        assert_eq!(label, format!("✗ {expected}"), "stop={stop:?} limit={limit:?}");
        let shared = child_stop_label(*stop, *limit, &t).unwrap_or(t.sub_agent_incomplete);
        assert_eq!(label, format!("✗ {shared}"), "stop={stop:?} limit={limit:?}");
    }
}

#[test]
fn a_completed_child_still_reads_as_completed() {
    let theme = default_theme();
    let t = Locale::Zh.text();
    let child = sub_agent("agent-1", "Euclid", ToolStatus::Succeeded);
    let (label, _) = sub_agent_tree_child_status(&child, &theme, &t);
    assert_eq!(label, "✓ 已完成");
}

/// Only the wall clock is a timeout. A spent token budget is not.
#[test]
fn the_group_breakdown_counts_only_the_wall_clock_as_timeout() {
    let theme = default_theme();
    let t = Locale::Zh.text();
    let ok = sub_agent("agent-1", "Euclid", ToolStatus::Succeeded);

    let mut token_budget = sub_agent("agent-2", "Newton", ToolStatus::Failed);
    token_budget.stop = Some(ChildStop::Budget);
    token_budget.limit = Some(ChildLimit::ModelTokens);
    let text = joined(&sub_agent_tree_lines(&vec![&ok, &token_budget], &theme, 100, &t, 0));
    assert!(text.contains("1 已完成"), "{text}");
    assert!(
        !text.contains("超时"),
        "a spent token budget is not a timeout:\n{text}"
    );
    assert!(text.contains("未完成"), "{text}");

    let mut timed_out = sub_agent("agent-2", "Newton", ToolStatus::Failed);
    timed_out.stop = Some(ChildStop::Budget);
    timed_out.limit = Some(ChildLimit::Duration);
    let text = joined(&sub_agent_tree_lines(&vec![&ok, &timed_out], &theme, 100, &t, 0));
    assert!(text.contains("1 超时"), "{text}");
    assert!(
        !text.contains("✗ 超时"),
        "per-agent outcome belongs to the live panel: {text}"
    );
}

#[test]
fn single_sub_agent_keeps_classic_rendering() {
    let theme = default_theme();
    let t = Locale::Zh.text();
    let a = sub_agent("agent-1", "Euclid", ToolStatus::Running);
    let text = joined(&sub_agent_tree_lines(&vec![&a], &theme, 100, &t, 0));
    assert!(text.contains("◌ 探索 Agent 1"), "{text}");
    assert!(!text.contains("├─"), "{text}");
}

#[test]
fn a_named_child_carries_its_agent() {
    assert_eq!(child_label("Euclid", &None), "Euclid");
    let named = child_label("Euclid", &Some("scout".into()));
    assert!(named.contains("Euclid") && named.contains("scout"), "{named}");
    let t = Locale::Zh.text();
    assert_eq!(sub_agent_detail("plain words", &t), "plain words");
}

#[test]
fn completion_report_is_localized() {
    let theme = default_theme();
    let report = UiCompletionReport {
        files_changed: 3,
        added: 86,
        removed: 31,
        checks_passed: 4,
        checks_total: 5,
        success: true,
    };
    let item = TranscriptItem::Completion(report);
    let zh = joined(&render(&item, &theme, 120, &Locale::Zh.text()));
    assert!(zh.contains("✓ 任务已完成"), "{zh}");
    assert!(zh.contains("修改 3 个文件  +86 / -31"), "{zh}");
    assert!(zh.contains("验证 4/5 通过"), "{zh}");
    assert!(zh.contains("/diff 查看改动"), "{zh}");

    let en = joined(&render(&item, &theme, 120, &Locale::En.text()));
    assert!(en.contains("✓ Task completed"), "{en}");
    assert!(en.contains("3 files changed"), "{en}");
    assert!(en.contains("verification 4/5 passed"), "{en}");
    assert!(en.contains("/diff to view changes"), "{en}");
}

#[test]
fn notes_errors_and_recaps_carry_their_signs() {
    let theme = Theme::no_color();
    let t = Locale::En.text();
    let note = joined(&render(&TranscriptItem::Note("saved".into()), &theme, 80, &t));
    assert_eq!(note, "◆ saved");
    let error = joined(&render(&TranscriptItem::Error("no net".into()), &theme, 80, &t));
    assert_eq!(error, "✗ no net");
    let recap = RecapBlock { summary: Some("did it".into()), next_step: "test".into() };
    let text = joined(&render(&TranscriptItem::Recap(recap), &theme, 120, &t));
    assert!(text.starts_with(&format!("※ {}: did it · ", t.recap_label)), "{text}");
    assert!(text.ends_with("test"), "{text}");
}

#[test]
fn a_failure_opens_to_its_detail() {
    let theme = Theme::no_color();
    let t = Locale::En.text();
    let failure = |expanded: bool| {
        TranscriptItem::Failure(FailureBlock {
            title: "Model call failed".into(),
            summary: "rate limited".into(),
            subtitle: None,
            detail: "HTTP 429 body".into(),
            expanded,
        })
    };
    let closed = joined(&render(&failure(false), &theme, 80, &t));
    assert!(closed.contains("Model call failed"), "{closed}");
    assert!(!closed.contains("HTTP 429 body"), "{closed}");
    let open = joined(&render(&failure(true), &theme, 80, &t));
    assert!(open.contains("HTTP 429 body"), "{open}");
}

#[test]
fn completed_turn_renders_a_summary_divider() {
    let t = Locale::Zh.text();
    let mut end = turn_end(TurnEndStatus::Completed, None);
    end.tool_calls = 2;
    end.elapsed_secs = 261;
    let mut transcript = TranscriptState::new();
    transcript.items.push(TranscriptItem::Assistant(AssistantBlock {
        text: "两个文件都读过了。".into(),
        done: true,
    }));
    transcript.items.push(TranscriptItem::TurnEnd(end));
    let rendered: Vec<String> = transcript
        .items
        .iter()
        .flat_map(|item| render(item, &default_theme(), 80, &t))
        .map(|line| line_text(&line))
        .collect();
    let marker = rendered
        .iter()
        .position(|line| line.contains("已完成"))
        .unwrap_or_else(|| panic!("completion marker missing: {}", rendered.join("\n")));
    assert!(rendered[marker].contains("2 次工具"), "{:?}", rendered[marker]);
    assert!(rendered[marker].contains("4m 21s"), "{:?}", rendered[marker]);

    transcript.items.push(TranscriptItem::User("继续".into()));
    assert!(matches!(
        &transcript.items[transcript.items.len() - 2],
        TranscriptItem::TurnEnd(end) if end.status == TurnEndStatus::Completed
    ));
}

#[test]
fn failed_turn_renders_a_stopped_divider() {
    let item = TranscriptItem::TurnEnd(turn_end(TurnEndStatus::Failed, Some("boom")));
    let text = joined(&render(&item, &default_theme(), 80, &Locale::Zh.text()));
    assert!(text.contains("✗ 失败"), "{text}");
}

fn refused_request(subtitle: &str, detail: &str, expanded: bool) -> String {
    let item = TranscriptItem::Failure(FailureBlock {
        title: "模型服务拒绝了当前请求。".into(),
        summary: String::new(),
        subtitle: Some(subtitle.into()),
        detail: detail.into(),
        expanded,
    });
    joined(&render(&item, &default_theme(), 120, &Locale::Zh.text()))
}

#[test]
fn a_structured_failure_hides_the_raw_detail_until_disclosed() {
    let raw = r#"{"error":{"message":"tools.function.parameters is not a valid moonshot flavored json schema"}}"#;
    let text = refused_request("moonshot · invalid_request · HTTP 400", raw, false);
    assert!(text.contains("模型服务拒绝了当前请求。"), "{text}");
    assert!(text.contains("moonshot · invalid_request"), "{text}");
    assert!(
        !text.contains("flavored json schema"),
        "the raw detail must not leak into the default view:\n{text}"
    );
    let expanded = refused_request("moonshot · invalid_request · HTTP 400", raw, true);
    assert!(
        expanded.contains("flavored json schema"),
        "the raw detail must be readable once disclosed:\n{expanded}"
    );
}

/// How a child ended is read off its typed terminal, not guessed from its text.
#[test]
fn a_child_terminal_reads_its_typed_stop() {
    for (stop, expected) in [
        (ChildStop::Cancelled, "已取消"),
        (ChildStop::Lost, "已丢失"),
        (ChildStop::Budget, "预算耗尽"),
    ] {
        let mut block = sub_agent("agent-1", "Euclid", ToolStatus::Failed);
        block.detail = "result".into();
        block.stop = Some(stop);
        block.limit = None;
        let text = joined(&render(
            &TranscriptItem::SubAgent(block),
            &default_theme(),
            100,
            &Locale::Zh.text(),
        ));
        assert!(text.contains(expected), "{stop:?}: {text}");
    }
}

/// A child whose end never reached this view, and one that was paused.
#[test]
fn a_child_without_a_terminal_is_not_called_failed() {
    let shown = |interrupted: bool, unreported: bool| {
        let mut block = sub_agent("agent-1", "Euclid", ToolStatus::Running);
        block.interrupted = interrupted;
        block.unreported = unreported;
        joined(&render(
            &TranscriptItem::SubAgent(block),
            &default_theme(),
            100,
            &Locale::Zh.text(),
        ))
    };
    let unreported = shown(false, true);
    assert!(unreported.contains("未收到结束状态"), "{unreported}");
    assert!(!unreported.contains("未完成") && !unreported.contains("已中断"), "{unreported}");
    assert!(shown(true, false).contains("已中断"));
    assert!(!shown(false, false).contains("已中断"));
}

#[test]
fn a_goal_recap_opens_to_its_facts() {
    let theme = Theme::no_color();
    let t = Locale::En.text();
    let recap = |expanded: bool| {
        TranscriptItem::GoalRecap(GoalRecapBlock {
            recap: GoalRecap {
                display_summary: "half way".into(),
                next_action: Some("wire it".into()),
                phase: None,
                completed_milestones: vec!["parser done".into()],
                plan_completed: Some(1),
                plan_total: Some(2),
                verification: "passed".into(),
                verification_detail: None,
                findings_total: None,
                known_limitations: Vec::new(),
                unresolved_work: vec!["docs".into()],
            },
            expanded,
        })
    };
    let closed = joined(&render(&recap(false), &theme, 100, &t));
    assert!(closed.contains("half way"), "{closed}");
    assert!(!closed.contains("parser done"), "{closed}");
    let open = joined(&render(&recap(true), &theme, 100, &t));
    assert!(open.contains("parser done") && open.contains("docs"), "{open}");
}

#[test]
fn a_past_plan_shows_each_step_with_its_sign() {
    let theme = Theme::no_color();
    let t = Locale::En.text();
    let step = |index: usize, text: &str, status: PlanStepStatus| UiPlanStep {
        index,
        description: text.into(),
        status,
    };
    let plan = UiPlan {
        steps: vec![
            step(0, "read", PlanStepStatus::Done),
            step(1, "write", PlanStepStatus::Running),
            step(2, "check", PlanStepStatus::Failed),
        ],
    };
    assert_eq!(plan_done_total(&plan), (1, 3));
    let text = joined(&render(&TranscriptItem::Plan(plan), &theme, 80, &t));
    assert!(text.contains("● ") && text.contains("read"), "{text}");
    assert!(text.contains("✗ ") && text.contains("check"), "{text}");
    assert!(text.contains("1/3"), "{text}");
}

#[test]
fn streaming_items_are_not_final() {
    let mut message = block("hi");
    assert!(item_is_final(&TranscriptItem::Assistant(message)));
    message = block("hi");
    message.done = false;
    assert!(!item_is_final(&TranscriptItem::Assistant(message)));
    let child = sub_agent("a", "Euclid", ToolStatus::Running);
    assert!(!item_is_final(&TranscriptItem::SubAgent(child)));
    assert!(item_is_final(&TranscriptItem::Note("n".into())));
}

#[test]
fn a_question_stands_apart_from_its_answer() {
    let user = TranscriptItem::User("q".into());
    let answer = TranscriptItem::Assistant(block("a"));
    assert!(items_need_gap(&user, &answer));
}

#[test]
fn the_last_turn_end_is_the_newest() {
    let mut state = TranscriptState::new();
    assert!(state.last_turn_end().is_none());
    state.items.push(TranscriptItem::TurnEnd(turn_end(TurnEndStatus::Failed, None)));
    state.items.push(TranscriptItem::TurnEnd(turn_end(TurnEndStatus::Completed, None)));
    state.items.push(TranscriptItem::Note("n".into()));
    assert_eq!(
        state.last_turn_end().map(|b| b.status),
        Some(TurnEndStatus::Completed)
    );
}

#[test]
fn styles_compose() {
    let theme = Theme::dark();
    let style = Style::fg(theme.text.primary).on(theme.text.muted);
    assert_eq!(style.fg, Some(theme.text.primary));
    assert_eq!(style.bg, Some(theme.text.muted));
}

#[test]
fn unknown_facts_are_said_and_never_a_pass() {
    let theme = Theme::no_color();
    let recap = |verification: &str, findings: Option<u64>| {
        TranscriptItem::GoalRecap(GoalRecapBlock {
            recap: GoalRecap {
                display_summary: "s".into(),
                next_action: None,
                phase: None,
                completed_milestones: Vec::new(),
                plan_completed: None,
                plan_total: None,
                verification: verification.into(),
                verification_detail: None,
                findings_total: findings,
                known_limitations: Vec::new(),
                unresolved_work: Vec::new(),
            },
            expanded: true,
        })
    };
    for locale in [Locale::Zh, Locale::En] {
        let t = locale.text();
        let text = joined(&render(&recap("", None), &theme, 80, &t));
        assert!(!text.contains('✓'), "{text}");
        assert!(text.contains(t.goal_recap_unmeasured), "{text}");
        assert!(text.contains(t.goal_recap_findings_unknown), "{text}");
        let failed = joined(&render(&recap("failed", Some(2)), &theme, 80, &t));
        assert!(failed.contains('✗') && !failed.contains('✓'), "{failed}");
        let passed = joined(&render(&recap("passed", Some(2)), &theme, 80, &t));
        assert!(passed.contains('✓'), "{passed}");
    }
}
