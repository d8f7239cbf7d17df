use leveler_tui::i18n::Locale;
use leveler_tui::overlay::{Overlay, OverlayKind};
use leveler_tui::protocol::RuntimeStatus;
use leveler_tui::state::{AppState, BackgroundTaskChrome, Boot};
use leveler_tui::terminal_title::{sanitize, TerminalTitleProjection, TITLE_MAX_CELLS};
use leveler_tui::theme::{Theme, ThemeId};
use leveler_tui::transcript::{TranscriptItem, TurnEndBlock, TurnEndStatus};

fn test_state() -> AppState {
    AppState::new(
        Theme::named(ThemeId::DEFAULT, true),
        Boot {
            session_id: "s1".into(),
            user: "u".into(),
            version: "0.1.0".into(),
            show_welcome: false,
            draft_path: None,
            history_path: None,
            context_window: 200_000,
            locale: Locale::Zh,
            untrusted_config: Vec::new(),
            reasoning_effort: None,
        },
        true,
    )
}

fn push_user(state: &mut AppState, text: &str) {
    state
        .transcript
        .items
        .push(TranscriptItem::User(text.to_string()));
}

fn end_turn(state: &mut AppState, status: TurnEndStatus) {
    state.transcript.items.push(TranscriptItem::TurnEnd(TurnEndBlock {
        status,
        tool_calls: 1,
        elapsed_secs: 10,
        summary: None,
        detail: None,
    }));
}

#[test]
fn idle_fallback_is_the_bare_product_name() {
    let mut p = TerminalTitleProjection::default();
    assert_eq!(p.project(&test_state()), "○ CodeLeveler");
}

#[test]
fn running_shows_task_identity_and_structured_activity() {
    let mut state = test_state();
    push_user(&mut state, "修复 Completion Truth 收口");
    state.status = RuntimeStatus::Busy;
    state.activity = Some("跑测试".into());
    let mut p = TerminalTitleProjection::default();
    assert_eq!(p.project(&state), "◐ 修复 Completion Truth 收口 · 跑测试");
}

#[test]
fn identity_stays_stable_across_activity_changes() {
    let mut state = test_state();
    push_user(&mut state, "Completion Truth");
    state.status = RuntimeStatus::Busy;
    let mut p = TerminalTitleProjection::default();
    for act in ["搜索代码", "修改实现", "跑测试"] {
        state.activity = Some(act.to_string());
        let title = p.project(&state);
        assert!(
            title.starts_with("◐ Completion Truth · "),
            "identity must not rename itself: {title}"
        );
    }
}

#[test]
fn approval_wins_over_running_work() {
    let mut state = test_state();
    push_user(&mut state, "Task");
    state.status = RuntimeStatus::Busy;
    state.activity = Some("Agents running".into());
    state.overlay = Some(Overlay {
        kind: OverlayKind::Approval,
        status_hint: None,
        gated_call: None,
    });
    let mut p = TerminalTitleProjection::default();
    assert_eq!(p.project(&state), "! Task · 等待授权");
}

#[test]
fn completed_keeps_the_identity_until_a_new_task_starts() {
    let mut state = test_state();
    push_user(&mut state, "Task A");
    state.status = RuntimeStatus::Busy;
    let mut p = TerminalTitleProjection::default();
    p.project(&state);
    state.status = RuntimeStatus::Idle;
    end_turn(&mut state, TurnEndStatus::Completed);
    assert_eq!(p.project(&state), "✓ Task A · 已完成");
    // Still there on the next projection — no transient disappearance.
    assert_eq!(p.project(&state), "✓ Task A · 已完成");
    // A new request replaces it.
    push_user(&mut state, "Task B");
    state.status = RuntimeStatus::Busy;
    state.activity = None;
    let title = p.project(&state);
    assert!(title.starts_with("◐ Task B"), "{title}");
}

#[test]
fn failure_truth_never_renders_a_checkmark() {
    for end in [
        TurnEndStatus::Failed,
        TurnEndStatus::Incomplete,
        TurnEndStatus::Truncated,
        TurnEndStatus::Unverified,
        TurnEndStatus::Cancelled,
    ] {
        let mut state = test_state();
        push_user(&mut state, "Task");
        state.status = RuntimeStatus::Idle;
        end_turn(&mut state, end);
        let mut p = TerminalTitleProjection::default();
        let title = p.project(&state);
        assert!(title.starts_with("× "), "{end:?}: {title}");
        assert!(!title.contains('✓'), "{end:?}: {title}");
    }
}

#[test]
fn background_tasks_read_as_waiting_when_the_turn_is_over() {
    let mut state = test_state();
    push_user(&mut state, "Task");
    state.status = RuntimeStatus::Idle;
    state.background_task_labels.push((
        "bg-1".into(),
        BackgroundTaskChrome {
            label: "cargo test".into(),
            started_elapsed_secs: 0,
            ok: None,
            stopped: false,
            exit_code: None,
            duration_ms: None,
            output: String::new(),
        },
    ));
    let mut p = TerminalTitleProjection::default();
    assert_eq!(p.project(&state), "◌ Task · 等待后台任务");
}

#[test]
fn control_bytes_in_the_task_text_cannot_escape_the_title() {
    let hostile = "evil\x1b]0;pwned\x07\ntitle\rhere\ttoo";
    let clean = sanitize(hostile);
    assert!(!clean.contains('\x1b'), "{clean:?}");
    assert!(!clean.contains('\x07'), "{clean:?}");
    assert!(!clean.contains('\n') && !clean.contains('\r'), "{clean:?}");
    let mut state = test_state();
    push_user(&mut state, hostile);
    state.status = RuntimeStatus::Busy;
    let mut p = TerminalTitleProjection::default();
    let title = p.project(&state);
    assert!(
        title.chars().all(|c| !c.is_control()),
        "no control byte may survive into the title: {title:?}"
    );
}

#[test]
fn cjk_width_is_measured_in_cells_and_identity_survives_truncation() {
    let mut state = test_state();
    push_user(
        &mut state,
        "把清理页面列表改紧凑一点，然后修复点击展开详情的交互，再顺手把所有边距统一",
    );
    state.status = RuntimeStatus::Busy;
    state.activity = Some("正在运行 workspace 的完整 cargo test 套件与全部集成测试".into());
    let mut p = TerminalTitleProjection::default();
    let title = p.project(&state);
    let width = unicode_width::UnicodeWidthStr::width(title.as_str());
    assert!(width <= TITLE_MAX_CELLS + 2, "width {width}: {title}");
    assert!(title.starts_with("◐ 把清理页面列表"), "{title}");
}

#[test]
fn identical_projections_write_the_title_once() {
    let mut state = test_state();
    push_user(&mut state, "Task");
    state.status = RuntimeStatus::Busy;
    state.activity = Some("跑测试".into());
    let mut p = TerminalTitleProjection::default();
    assert!(p.next_title(&state).is_some(), "first projection writes");
    assert!(
        p.next_title(&state).is_none(),
        "identical title must not rewrite"
    );
    state.activity = Some("修改实现".into());
    assert!(p.next_title(&state).is_some(), "semantic change writes again");
}

#[test]
fn a_reset_conversation_forgets_its_task() {
    let mut state = test_state();
    push_user(&mut state, "Task");
    state.status = RuntimeStatus::Busy;
    let mut p = TerminalTitleProjection::default();
    p.project(&state);
    state.transcript.items.clear();
    state.status = RuntimeStatus::Idle;
    assert_eq!(p.project(&state), "○ CodeLeveler");
    assert!(p.identity.is_none());
}

#[test]
fn a_failure_beats_waiting_and_a_new_turn_beats_the_failure() {
    let chrome = || BackgroundTaskChrome {
        label: "cargo test".into(),
        started_elapsed_secs: 0,
        ok: None,
        stopped: false,
        exit_code: None,
        duration_ms: None,
        output: String::new(),
    };
    let mut state = test_state();
    push_user(&mut state, "Task");
    state.status = RuntimeStatus::Idle;
    state.background_task_labels.push(("bg-1".into(), chrome()));
    end_turn(&mut state, TurnEndStatus::Failed);
    assert!(TerminalTitleProjection::default().project(&state).starts_with("× Task"));
    state.status = RuntimeStatus::Busy;
    assert!(TerminalTitleProjection::default().project(&state).starts_with("◐ Task"));
    state.status = RuntimeStatus::Idle;
    end_turn(&mut state, TurnEndStatus::Completed);
    assert_eq!(
        TerminalTitleProjection::default().project(&state),
        "◌ Task · 等待后台任务"
    );
}
