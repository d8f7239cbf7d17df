use leveler_tui::i18n::Locale;
use leveler_tui::line::Line;
use leveler_tui::overlay::{Overlay, OverlayKind};
use leveler_tui::protocol::{
    FinalizationStage, ModelRef, PlanStepStatus, RuntimeStatus, UiPlan, UiPlanStep,
};
use leveler_tui::state::{AppState, BackgroundTaskChrome, Boot, Reconnecting};
use leveler_tui::status_line::{
    estimate_tokens, fmt_clock, fmt_elapsed, fmt_tokens, fmt_tokens_compact, footer_cache_chip,
    footer_ctx_chip, footer_usage_line, header_line, permission_chip_label, runtime_status_chip,
    status_line_content, status_lines, status_phase, StatusPhase, WaitKind, WaitView,
};
use leveler_tui::theme::Theme;

const SPINNER: [&str; 10] = ["⠋", "⠙", "⠹", "⠸", "⠼", "⠴", "⠦", "⠧", "⠇", "⠏"];
const WAIT_MARKER: &str = "◌";
const NOW: u64 = 1_000_000;

fn test_state() -> AppState {
    AppState::new(
        Theme::no_color(),
        Boot {
            session_id: "s1".into(),
            user: "u".into(),
            version: "0".into(),
            show_welcome: false,
            draft_path: None,
            history_path: None,
            context_window: 0,
            locale: Locale::Zh,
            untrusted_config: Vec::new(),
            reasoning_effort: None,
        },
        true,
    )
}

fn plain(line: &Line) -> String {
    line.spans.iter().map(|s| s.content.as_str()).collect()
}

fn content(state: &AppState, width: usize) -> String {
    plain(&status_line_content(state, &None, &Vec::new(), NOW, width))
}

fn status_text(state: &AppState, wait: Option<WaitView>) -> String {
    status_lines(state, &wait, &Vec::new(), NOW, 120)
        .iter()
        .map(plain)
        .collect::<Vec<_>>()
        .join("\n")
}

fn busy_line(state: &AppState) -> String {
    status_lines(state, &None, &Vec::new(), NOW, 140)
        .first()
        .map(plain)
        .unwrap_or_default()
}

fn plan_at(current: usize, total: usize) -> UiPlan {
    UiPlan {
        steps: (0..total)
            .map(|i| UiPlanStep {
                index: i,
                description: format!("step {}", i + 1),
                status: if i < current {
                    PlanStepStatus::Done
                } else if i == current {
                    PlanStepStatus::Running
                } else {
                    PlanStepStatus::Pending
                },
            })
            .collect(),
    }
}

fn running(label: &str, started: u64) -> BackgroundTaskChrome {
    BackgroundTaskChrome {
        label: label.into(),
        started_elapsed_secs: started,
        ok: None,
        stopped: false,
        exit_code: None,
        duration_ms: None,
        output: String::new(),
    }
}

/// With a real plan and real tool calls, the live line says where in
/// the plan the turn is and how much work it has done.
#[test]
fn the_live_line_reports_the_plan_step_and_the_tool_count() {
    let mut state = test_state();
    state.status = RuntimeStatus::Busy;
    state.activity = Some("正在检查 WorkerConfig".into());
    state.plan = Some(plan_at(1, 4));
    state.turn_tool_calls = 3;
    state.elapsed_secs = 12;
    let line = busy_line(&state);
    assert!(line.contains("正在检查 WorkerConfig"), "{line}");
    assert!(
        line.contains("第 2/4 步进行中"),
        "the step the plan declares in progress, 1-based: {line}"
    );
    assert!(!line.contains("当前"), "no runtime cursor: {line}");
    assert!(line.contains("3 次工具"), "{line}");
    assert!(line.contains("12s"), "{line}");
}

/// No plan, no step counter.
#[test]
fn without_a_plan_the_live_line_claims_no_step() {
    let mut state = test_state();
    state.status = RuntimeStatus::Busy;
    state.activity = Some("正在分析".into());
    state.turn_tool_calls = 2;
    let line = busy_line(&state);
    assert!(!line.contains("步骤"), "{line}");
    assert!(!line.contains('/'), "no invented fraction: {line}");
    assert!(line.contains("2 次工具"), "{line}");
}

/// Nothing has run yet, so nothing is counted.
#[test]
fn a_turn_with_no_tool_calls_yet_shows_no_count() {
    let mut state = test_state();
    state.status = RuntimeStatus::Busy;
    state.activity = Some("正在思考".into());
    assert!(
        !busy_line(&state).contains("次工具"),
        "{}",
        busy_line(&state)
    );
}

#[test]
fn token_estimate_scales_with_text() {
    assert_eq!(estimate_tokens(""), 0);
    let short = estimate_tokens("介绍一下这个项目");
    let long = estimate_tokens(&"介绍一下这个项目".repeat(10));
    assert!(long > short);
    assert_eq!(estimate_tokens("abcd"), 1);
}

#[test]
fn header_is_branch_and_path_only() {
    let mut state = test_state();
    state.branch = Some("kcn".into());
    state.repository = "/Users/example/projects/example-service".into();
    state.model_label = "deepseek/v3".into();
    state.mode_label = "Assisted".into();
    let header = plain(&header_line(&state, None, 120));
    assert!(header.contains("kcn"), "{header}");
    assert!(
        header.contains("example-service") || header.contains("projects"),
        "{header}"
    );
    assert!(
        !header.contains("deepseek") && !header.contains("替我审批"),
        "model/perm belong near prompt, not header: {header}"
    );
}

#[test]
fn compact_token_and_footer_ctx_chip() {
    assert_eq!(fmt_tokens_compact(41181), "41k");
    assert_eq!(fmt_tokens_compact(1_048_576), "1M");
    assert_eq!(fmt_tokens_compact(900), "900");
    let mut state = test_state();
    state.context_tokens = 41_181;
    state.context_window_tokens = 1_048_576;
    assert_eq!(footer_ctx_chip(&state).as_deref(), Some("上下文 41k/1M"));
    assert_eq!(footer_cache_chip(&state), None);
    assert_eq!(footer_usage_line(&state).as_deref(), Some("上下文 41k/1M"));
    state.token_input = 1000;
    state.token_cached = 420;
    assert_eq!(footer_cache_chip(&state).as_deref(), Some("缓存 42%"));
    assert_eq!(
        footer_usage_line(&state).as_deref(),
        Some("上下文 41k/1M · 缓存 42%")
    );
}

#[test]
fn clock_formats_as_24h_hh_mm_without_seconds() {
    assert_eq!(fmt_clock(0, 5, 0).as_deref(), Some("00:05"));
    assert_eq!(fmt_clock(9, 7, 0).as_deref(), Some("09:07"));
    assert_eq!(fmt_clock(22, 22, 59).as_deref(), Some("22:22"));
    assert_eq!(fmt_clock(23, 59, 0).as_deref(), Some("23:59"));
    assert_eq!(fmt_clock(24, 0, 0), None);
    assert_eq!(fmt_clock(0, 60, 0), None);
}

/// Usage is just the chips; the clock is placed elsewhere.
#[test]
fn footer_usage_line_reports_the_runtime_chips_only() {
    let mut state = test_state();
    state.context_tokens = 254_000;
    state.context_window_tokens = 1_048_576;
    state.token_input = 1000;
    state.token_cached = 990;
    state.clock_label = "22:22".into();
    assert_eq!(
        footer_usage_line(&state).as_deref(),
        Some("上下文 254k/1M · 缓存 99%")
    );
}

/// A session with no usage has no usage row at all.
#[test]
fn footer_usage_line_is_hidden_without_usage() {
    let mut state = test_state();
    state.clock_label = "09:07".into();
    assert_eq!(footer_usage_line(&state), None);
}

#[test]
fn goal_mode_is_visible_in_status() {
    let mut state = test_state();
    state.status = RuntimeStatus::Busy;
    state.goal_mode_active = true;
    let status = content(&state, 120);
    assert!(status.contains("目标模式"), "status: {status}");
    assert!(status.contains("等待模型"), "status: {status}");
}

/// Reasoning tokens arriving is not waiting.
#[test]
fn streaming_reasoning_is_not_reported_as_waiting() {
    let mut state = test_state();
    state.status = RuntimeStatus::Busy;
    state.live_reasoning = "先确认环境，再决定怎么落盘……".repeat(20);
    let status = content(&state, 120);
    assert!(status.contains("思考"), "status: {status}");
    assert!(!status.contains("等待模型"), "status: {status}");
}

/// A running command owns the status line.
#[test]
fn a_running_command_still_outranks_streaming_reasoning() {
    let mut state = test_state();
    state.status = RuntimeStatus::Busy;
    state.live_reasoning = "……".repeat(40);
    state.activity = Some("运行 cargo test".into());
    let status = content(&state, 120);
    assert!(status.contains("运行 cargo test"), "status: {status}");
}

/// Before a single reasoning token arrives, waiting is exactly what it is.
#[test]
fn an_idle_model_call_still_reads_as_waiting() {
    let mut state = test_state();
    state.status = RuntimeStatus::Busy;
    let status = content(&state, 120);
    assert!(status.contains("等待模型"), "status: {status}");
}

#[test]
fn finalizing_status_names_the_runtime_stage_not_the_model() {
    let mut state = test_state();
    state.status = RuntimeStatus::Busy;
    state.finalization_stage = Some(FinalizationStage::Verification);
    let status = content(&state, 120);
    assert!(status.contains("正在验证"), "status: {status}");
    assert!(!status.contains("等待模型"), "status: {status}");
}

#[test]
fn header_prefers_branch_when_narrow() {
    let mut state = test_state();
    state.branch = Some("main".into());
    state.repository = "/very/long/path/to/a/repository".into();
    let narrow = plain(&header_line(&state, None, 12));
    assert!(narrow.contains("main") || narrow.contains("⑂"), "{narrow}");
}

#[test]
fn permission_chip_labels_are_english_product_terms() {
    let mut state = test_state();
    state.mode_label = "Assisted".into();
    assert_eq!(permission_chip_label(&state), "auto");
    state.mode_label = "RequestApproval".into();
    assert_eq!(permission_chip_label(&state), "ask");
    state.mode_label = "FullAccess".into();
    assert_eq!(permission_chip_label(&state), "full");
}

#[test]
fn runtime_chip_strips_provider_and_shows_effort() {
    let mut state = test_state();
    state.model_label = "deepseek/deepseek-v4-flash".into();
    state.reasoning_effort = Some("max".into());
    state.work_profile = "balanced".into();
    state.mode_label = "RequestApproval".into();
    state.collaboration = "chat".into();
    assert_eq!(
        runtime_status_chip(&state, 80),
        "deepseek-v4-flash (max) · balanced · ask · chat"
    );
}

#[test]
fn runtime_chip_omits_effort_when_unset() {
    let mut state = test_state();
    state.model_label = "deepseek/deepseek-v4-flash".into();
    state.reasoning_effort = None;
    state.work_profile = "balanced".into();
    state.mode_label = "RequestApproval".into();
    state.collaboration = "chat".into();
    let chip = runtime_status_chip(&state, 80);
    assert_eq!(chip, "deepseek-v4-flash · balanced · ask · chat");
    assert!(!chip.contains('('), "{chip}");
}

#[test]
fn runtime_chip_keeps_provider_when_model_names_collide() {
    let mut state = test_state();
    state.model_label = "openai/gpt-5".into();
    state.available_models = vec![
        ModelRef::parse("openai/gpt-5").unwrap(),
        ModelRef::parse("azure/gpt-5").unwrap(),
    ];
    state.work_profile = "balanced".into();
    state.mode_label = "Assisted".into();
    state.collaboration = "chat".into();
    assert!(
        runtime_status_chip(&state, 80).starts_with("openai/gpt-5"),
        "{}",
        runtime_status_chip(&state, 80)
    );
}

#[test]
fn runtime_chip_drops_low_priority_fields_when_narrow() {
    let mut state = test_state();
    state.model_label = "deepseek/deepseek-v4-flash".into();
    state.reasoning_effort = Some("max".into());
    state.work_profile = "balanced".into();
    state.mode_label = "RequestApproval".into();
    state.collaboration = "chat".into();
    let mid = runtime_status_chip(&state, 36);
    assert!(mid.contains("deepseek-v4-flash"), "{mid}");
    assert!(mid.contains("balanced"), "{mid}");
    assert!(!mid.contains("chat"), "session is dropped first: {mid}");
    let tight = runtime_status_chip(&state, 22);
    assert!(tight.contains("deepseek-v4-flash"), "{tight}");
    assert!(!tight.contains("balanced"), "{tight}");
}

#[test]
fn status_phase_idle_when_nothing_running() {
    let state = test_state();
    assert_eq!(status_phase(&state), StatusPhase::Idle);
    let text = content(&state, 120);
    assert!(
        text.is_empty() || !SPINNER.iter().any(|s| text.contains(s)),
        "idle must not look busy: {text}"
    );
}

#[test]
fn status_phase_busy_shows_spinner_activity() {
    let mut state = test_state();
    state.status = RuntimeStatus::Busy;
    state.activity = Some("running tools".into());
    state.tick = 0;
    assert_eq!(status_phase(&state), StatusPhase::Busy);
    let text = content(&state, 120);
    assert!(
        text.contains(SPINNER[0]) && text.contains("running tools"),
        "busy status: {text}"
    );
}

#[test]
fn approval_overlay_is_awaiting_user_without_spinner_even_if_busy() {
    let mut state = test_state();
    state.status = RuntimeStatus::Busy;
    state.activity = Some("should not show as running".into());
    state.tick = 3;
    state.overlay = Some(Overlay {
        kind: OverlayKind::Approval,
        status_hint: Some(state.t().overlay_approval.to_string()),
        gated_call: None,
    });
    assert_eq!(status_phase(&state), StatusPhase::AwaitingUser);
    let text = content(&state, 120);
    assert!(
        text.contains(state.t().overlay_approval)
            || text.contains("授权")
            || text.contains("approval"),
        "awaiting-user copy: {text}"
    );
    for frame in SPINNER {
        assert!(
            !text.contains(frame),
            "must not paint busy spinner while awaiting approval: {text}"
        );
    }
    assert!(
        !text.contains("should not show as running"),
        "must not leak busy activity under approval: {text}"
    );
}

#[test]
fn clarification_overlay_is_awaiting_user() {
    let mut state = test_state();
    state.status = RuntimeStatus::Busy;
    state.overlay = Some(Overlay {
        kind: OverlayKind::Clarification,
        status_hint: None,
        gated_call: None,
    });
    assert_eq!(status_phase(&state), StatusPhase::AwaitingUser);
    let text = content(&state, 120);
    assert!(
        text.contains(state.t().waiting_reply)
            || text.contains("等待")
            || text.contains("waiting"),
        "clarification wait copy: {text}"
    );
    for frame in SPINNER {
        assert!(!text.contains(frame), "no spinner: {text}");
    }
}

/// A live round must show live progress, not only the last round's totals.
#[test]
fn streaming_reasoning_shows_live_progress_not_stale_totals() {
    let mut state = test_state();
    state.status = RuntimeStatus::Busy;
    // Previous round reported usage.
    state.token_input = 51_360;
    state.token_output = 633;
    // Current round is streaming reasoning and nothing else yet.
    state.live_reasoning = "思考".repeat(400);
    let status = content(&state, 160);
    assert!(
        status.contains('~'),
        "a live round must show a live estimate, not only frozen totals: {status}"
    );
}

/// A command's duration is the command's: it has a clock of its own.
#[test]
fn a_command_is_never_given_the_turn_clock() {
    let mut state = test_state();
    state.status = RuntimeStatus::Busy;
    state.elapsed_secs = 294;
    state.activity = Some("执行命令 node --version".into());
    state.activity_elapsed_secs = Some(0);
    let text = status_text(&state, None);
    assert!(text.contains("执行命令 node --version"), "{text}");
    assert!(
        !text.contains("4m 54s"),
        "the turn's clock is not the command's: {text}"
    );
}

/// A tool that has no clock of its own still reports the turn's.
#[test]
fn a_read_still_reports_the_turn_clock() {
    let mut state = test_state();
    state.status = RuntimeStatus::Busy;
    state.elapsed_secs = 294;
    state.activity = Some("读取文件 a.rs".into());
    state.activity_elapsed_secs = None;
    let text = status_text(&state, None);
    assert!(text.contains("读取文件 a.rs"), "{text}");
    assert!(text.contains("4m 54s"), "{text}");
}

/// One running command, one elapsed.
#[test]
fn a_running_command_shows_one_elapsed_not_two() {
    let mut state = test_state();
    state.status = RuntimeStatus::Busy;
    state.elapsed_secs = 0;
    state.activity = Some("运行 cargo test --workspace".into());
    state.activity_elapsed_secs = Some(137);
    let text = status_text(&state, None);
    let durations = text
        .split(" · ")
        .filter(|p| {
            p.ends_with('s') && p.chars().next().is_some_and(|c| c.is_ascii_digit())
                || p.contains("m ") && p.ends_with('s')
        })
        .count();
    assert_eq!(
        durations, 1,
        "one running command, one elapsed — got {durations} in: {text}"
    );
    assert!(
        text.contains("2m 17s"),
        "and it must be the command's: {text}"
    );
}

/// A turn blocked on a task is main execution state: the strip names the wait, and
/// the task itself occupies no row.
#[test]
fn status_strip_names_a_background_wait_without_a_task_row() {
    let mut state = test_state();
    state.status = RuntimeStatus::Busy;
    state.elapsed_secs = 54;
    state
        .background_task_labels
        .push(("bg-2".into(), running("cargo test --workspace", 10)));
    state.activity = Some("等待任务".into());
    let text = status_text(
        &state,
        Some(WaitView {
            kind: WaitKind::Target,
            headline: "等待后台任务".into(),
        }),
    );
    assert!(text.contains("等待后台任务"), "{text}");
    assert!(
        !text.contains("cargo test --workspace"),
        "the task row left the strip: {text}"
    );
    assert!(!text.contains('↗'), "the row affordance left too: {text}");
    assert!(text.contains(WAIT_MARKER), "{text}");
    for line in text.lines() {
        if line.contains("等待任务") {
            assert!(line.contains("等待后台任务"), "{text}");
        }
    }
    assert!(!text.contains("可能卡住"), "{text}");
    assert!(!text.contains("最近活动"), "{text}");
}

#[test]
fn status_strip_does_not_treat_background_as_a_main_wait() {
    let mut state = test_state();
    state.status = RuntimeStatus::Busy;
    state.activity = Some("正在汇总审计结果".into());
    state
        .background_task_labels
        .push(("bg-1".into(), running("cargo test --workspace", 0)));
    let text = status_text(&state, None);
    assert!(text.contains("正在汇总审计结果"), "{text}");
    assert!(
        !text.contains("cargo test --workspace"),
        "a running background task never occupies a strip row: {text}"
    );
    assert!(!text.contains("等待后台任务"), "{text}");
}

/// A live reconnect is the one fact that must survive the busy status line.
#[test]
fn a_reconnect_owns_the_status_line_over_the_model_wait() {
    let mut state = test_state();
    state.status = RuntimeStatus::Busy;
    state.reconnecting = Some(Reconnecting {
        attempt: 2,
        max_attempts: 10,
        delay_ms: 4_000,
        retry_at_ms: NOW + 4_000,
    });
    let text = status_text(&state, None);
    assert!(text.contains("正在重连 · 2/10 · "), "{text}");
    assert!(text.contains('s'), "the countdown is shown: {text}");
    assert!(!text.contains("等待模型"), "{text}");
}

/// The brief confirmation owns the line, then yields to the normal status.
#[test]
fn a_brief_reconnected_confirmation_yields_to_streaming() {
    let mut state = test_state();
    state.status = RuntimeStatus::Busy;
    state.reconnected_until_ms = Some(NOW + 3_000);
    assert!(status_text(&state, None).contains("已重连"));

    // Once the confirmation window passes, a stale one must not linger.
    state.reconnected_until_ms = Some(NOW - 1_000);
    assert!(!status_text(&state, None).contains("已重连"));
}

#[test]
fn numbers_read_at_a_glance() {
    assert_eq!(fmt_elapsed(59), "59s");
    assert_eq!(fmt_elapsed(294), "4m 54s");
    assert_eq!(fmt_elapsed(61), "1m 01s");
    assert_eq!(fmt_tokens(0), "0");
    assert_eq!(fmt_tokens(999), "999");
    assert_eq!(fmt_tokens(1_234_567), "1,234,567");
    assert_eq!(fmt_tokens_compact(999_999), "999k");
}

#[test]
fn home_is_collapsed_in_the_header() {
    let mut state = test_state();
    state.repository = "/home/u/app".into();
    let header = plain(&header_line(&state, Some("/home/u"), 120));
    assert!(header.contains("~/app"), "{header}");
}

#[test]
fn a_token_estimate_grows_and_ignores_order() {
    assert_eq!(estimate_tokens("abcd"), 1);
    let text = "介绍 the 项目 once more";
    let mut last = 0;
    for (i, _) in text.char_indices() {
        let now = estimate_tokens(&text[..i]);
        assert!(now >= last, "{i}");
        last = now;
    }
    let back: String = text.chars().rev().collect();
    assert_eq!(estimate_tokens(&back), estimate_tokens(text));
}
