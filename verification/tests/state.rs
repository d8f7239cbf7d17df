use leveler_tui::geometry::Rect;
use leveler_tui::i18n::Locale;
use leveler_tui::line::{Line, Span};
use leveler_tui::overlay::{Overlay, OverlayKind};
use leveler_tui::protocol::RuntimeStatus;
use leveler_tui::render::composer_box::composer_visible_rows;
use leveler_tui::render::footer::composer_view;
use leveler_tui::render::transcript_lines::prose_width;
use leveler_tui::screen::{
    is_exact_slash_token, is_known_slash_token, is_skill_slash_token, slash_def, Screen,
    ToolFilter, ToolsScreenState,
};
use leveler_tui::secondary::{header_row, SecondaryPage};
use leveler_tui::state::{
    AppState, ApprovalRequest, BackgroundOutcome, BackgroundTaskChrome, Boot,
    ClarificationRequest, PendingInteraction, WorkbenchFocus,
};
use leveler_tui::suggestion::{accept, clear, is_visible, offer};
use leveler_tui::theme::Theme;
use leveler_tui::tool_cell::{tool_summary, tool_summary_pub};
use leveler_tui::transcript::{
    StopRequest, ToolCallBlock, ToolGroupBlock, ToolStatus, TranscriptItem,
};

fn state() -> AppState {
    AppState::new(
        Theme::no_color(),
        Boot {
            session_id: "s1".into(),
            user: "u".into(),
            version: "0".into(),
            show_welcome: false,
            draft_path: None,
            history_path: None,
            context_window: 0,
            locale: Locale::En,
            untrusted_config: Vec::new(),
            reasoning_effort: None,
        },
        true,
    )
}

fn call(id: &str, status: ToolStatus, stop: StopRequest) -> ToolCallBlock {
    ToolCallBlock {
        id: id.into(),
        name: "run_command".into(),
        arguments: "{}".into(),
        status,
        stop,
        preview: None,
        duration_ms: None,
    }
}

fn busy_with_calls() -> AppState {
    let mut s = state();
    s.status = RuntimeStatus::Busy;
    s.transcript.items.push(TranscriptItem::User("go".into()));
    s.transcript.items.push(TranscriptItem::ToolGroup(ToolGroupBlock {
        calls: vec![
            call("done", ToolStatus::Succeeded, StopRequest::NotSent),
            call("a", ToolStatus::Running, StopRequest::NotSent),
            call("b", ToolStatus::Running, StopRequest::Sent),
            call("c", ToolStatus::Running, StopRequest::NotSent),
        ],
        open: true,
        expanded: false,
    }));
    s
}

#[test]
fn only_running_calls_that_were_not_stopped_can_be_stopped() {
    let s = busy_with_calls();
    let found: Vec<(usize, usize, String)> = s.stoppable_commands();
    assert_eq!(found, vec![(1, 1, "a".to_string()), (1, 3, "c".to_string())]);
    assert!(s.command_is_stoppable(1, 1));
    assert!(!s.command_is_stoppable(1, 2));
    assert!(!s.command_is_stoppable(0, 0));
    assert!(!s.command_is_stoppable(9, 0));
    assert_eq!(s.command_location("c"), Some((1, 3)));
    assert_eq!(s.command_location("x"), None);
}

#[test]
fn nothing_can_be_stopped_without_a_live_turn() {
    let mut s = busy_with_calls();
    s.workbench_focus = WorkbenchFocus::Command;
    s.command_selected = Some("a".into());
    assert_eq!(s.focused_command().map(|id| id.as_str()), Some("a"));
    s.runtime_connected = false;
    assert!(s.stoppable_commands().is_empty());
    assert_eq!(s.focused_command(), None);
    s.runtime_connected = true;
    s.status = RuntimeStatus::Idle;
    assert!(s.stoppable_commands().is_empty());
}

#[test]
fn a_call_behind_an_approval_cannot_be_stopped() {
    let mut s = busy_with_calls();
    s.overlay = Some(Overlay {
        kind: OverlayKind::Approval,
        status_hint: None,
        gated_call: Some("a".into()),
    });
    assert_eq!(s.approval_gated_call().map(|id| id.as_str()), Some("a"));
    assert!(!s.command_is_stoppable(1, 1));
    assert_eq!(s.stoppable_commands().len(), 1);
}

#[test]
fn a_request_is_known_by_its_kind_and_its_id() {
    let approval = PendingInteraction::Approval(ApprovalRequest {
        id: "1".into(),
        tool: "t".into(),
        summary: String::new(),
        command: None,
        risks: Vec::new(),
        call_id: None,
        always_persists: false,
    });
    let question = PendingInteraction::Clarification(ClarificationRequest {
        id: "1".into(),
        question: "?".into(),
        options: Vec::new(),
    });
    assert_eq!(approval.request_key(), "a:1");
    assert_eq!(question.request_key(), "c:1");
}

#[test]
fn a_stopped_process_is_no_failure() {
    let mut task = BackgroundTaskChrome::running("make", 3);
    assert!(task.is_running() && !task.is_failed());
    assert_eq!(task.outcome(), BackgroundOutcome::Running);
    task.ok = Some(false);
    assert!(task.is_failed());
    task.stopped = true;
    assert!(!task.is_failed());
    assert_eq!(task.outcome(), BackgroundOutcome::Stopped);
    task.ok = Some(true);
    assert_eq!(task.outcome(), BackgroundOutcome::Completed);
}

#[test]
fn a_message_of_pictures_alone_names_them() {
    let s = state();
    assert_eq!(s.message_with_images(2, "look"), "look");
    assert_eq!(s.message_with_images(0, " "), " ");
    let named = s.message_with_images(2, "  ");
    let template = s.image_token_template();
    assert_eq!(
        named,
        format!("{} {}", template.replace("{}", "1"), template.replace("{}", "2"))
    );
}

#[test]
fn slash_tokens_are_known_by_name_and_by_alias() {
    assert!(slash_def("/permission").is_some());
    assert!(is_exact_slash_token("/mode"));
    assert!(!is_exact_slash_token("/nothing"));
    assert!(is_known_slash_token("model"));
    let mut s = state();
    s.skill_catalog = vec![("deploy".into(), "Ship".into())];
    assert!(is_skill_slash_token(&s, "Deploy"));
    assert!(!is_skill_slash_token(&s, "model"));
    assert!(!is_skill_slash_token(&s, "other"));
}

#[test]
fn the_tools_selection_stays_in_the_list() {
    let mut tools = ToolsScreenState { selected: 0, filter: ToolFilter::All };
    tools.move_up();
    assert_eq!(tools.selected, 0);
    tools.move_down(2);
    tools.move_down(2);
    assert_eq!(tools.selected, 1);
    tools.move_down(0);
    assert_eq!(tools.selected, 1);
    tools.cycle_filter();
    assert_eq!((tools.selected, tools.filter), (0, ToolFilter::Read));
}

#[test]
fn both_summaries_are_one() {
    let args = r#"{"program":"make","args":["all"]}"#;
    assert_eq!(
        tool_summary_pub("run_command", args, None),
        tool_summary("run_command", args, None)
    );
    assert_eq!(tool_summary_pub("run_command", args, None), "make all");
}

#[test]
fn a_suggestion_yields_to_a_draft() {
    let mut s = state();
    offer(&mut s, "run\nthe tests");
    assert_eq!(s.prompt_suggestion.as_deref(), Some("run the tests"));
    assert!(is_visible(&s));
    s.active_screen = Screen::Help;
    assert!(!is_visible(&s));
    s.active_screen = Screen::Conversation;
    accept(&mut s);
    assert_eq!(s.composer.text, "run the tests");
    assert!(!is_visible(&s));
    offer(&mut s, "more");
    assert_eq!(s.prompt_suggestion, None);
    s.composer.replace(String::new());
    offer(&mut s, "more");
    clear(&mut s);
    assert_eq!(s.prompt_suggestion, None);
}

#[test]
fn the_composer_grows_to_its_limit_and_places_the_caret() {
    let mut s = state();
    assert_eq!(composer_visible_rows(&s, 40), 3);
    s.composer.replace("a\n".repeat(40));
    assert_eq!(composer_visible_rows(&s, 40), 10);
    s.composer.replace("ab".into());
    let area = Rect { x: 5, y: 7, width: 40, height: 3 };
    let (lines, caret) = composer_view(&s, area);
    assert_eq!(lines.len(), 3);
    let (x, y) = caret.expect("the composer has the focus");
    assert_eq!(y, 8);
    assert!(x > 5 && x < 45);
    let (lines, caret) = composer_view(&s, Rect { height: 1, ..area });
    assert_eq!(lines.len(), 1);
    assert_eq!(caret, None);
}

#[test]
fn the_header_halves_leave_a_gap() {
    let theme = Theme::no_color();
    let page = SecondaryPage {
        title: "Help".into(),
        status: Line::of(Span::raw("busy")),
        hint: String::new(),
    };
    let header = Rect { x: 2, y: 0, width: 20, height: 1 };
    let row = header_row(header, &page, &theme);
    let (identity, left) = row.identity.expect("identity");
    let right = row.status.expect("status");
    assert_eq!(identity.content, "← Help");
    assert!(left.x + left.width < right.x);
    assert_eq!((right.x, right.width), (18, 4));
    let narrow = header_row(Rect { width: 3, ..header }, &page, &theme);
    assert!(narrow.status.is_none());
    let none = header_row(Rect { height: 0, ..header }, &page, &theme);
    assert!(none.identity.is_none() && none.status.is_none());
}

#[test]
fn prose_leaves_room_for_its_bullet() {
    assert_eq!(prose_width(80), 78);
    assert_eq!(prose_width(1), 1);
}
