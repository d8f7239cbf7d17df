use leveler_tui::geometry::Rect;
use leveler_tui::i18n::Locale;
use leveler_tui::line::{Line, Span, Style};
use leveler_tui::protocol::{ChildLimit, ChildStop, RuntimeStatus, UiDiffFile, UiSessionSummary};
use leveler_tui::render::composer_box::{composer_box_lines, COMPOSER_MAX_ROWS};
use leveler_tui::render::detail::{
    background_list_body, child_metadata_line, ActivityKind, ActivityStatus, ActivitySummary,
    BackgroundJobList,
};
use leveler_tui::render::footer::{attachments_line, key_hint_line, user_turn_summaries};
use leveler_tui::render::pages::{
    activity_screen, app_frame, background_list_screen, remote_lines, shell_screen, RunStatus,
    ScreenPage,
};
use leveler_tui::render::panes::{
    focused_pane, list_scroll_offset, pad_line_to_width, scrolled_pane, selection_pane, tail_pane,
};
use leveler_tui::render::remote::{
    center_display, pad_to_width, remote_screen_lines, wrap_display,
};
use leveler_tui::render::screens::{
    diff_detail_lines, diff_list_lines, help_lines, sessions_lines,
};
use leveler_tui::render::text::{sanitize_terminal_line, take_display_prefix, truncate_display, wrap};
use leveler_tui::render::tools_screen::{
    filtered_calls, tools_detail_lines, tools_focus, tools_list_lines, tools_list_title,
};
use leveler_tui::render::transcript_lines::{
    assistant_split, item_is_final, item_render, Made, PlanGlyphs,
};
use leveler_tui::screen::ToolFilter;
use leveler_tui::secondary::{footer_hint_line, header_row, layout, rule_line};
use leveler_tui::state::{
    ActivityId, AppState, BackgroundTaskChrome, Boot, ChildAgentView, PairingRequest, RemoteInvite,
    RemoteState,
};
use leveler_tui::status_line::{runtime_status_chip, status_line_content};
use leveler_tui::theme::Theme;
use leveler_tui::tool_cell::{tool_action_label, tool_lines, tool_summary as summary_at_home};
use leveler_tui::transcript::{
    AssistantBlock, Contribution, RecapBlock, StopRequest, SubAgentBlock, SubAgentProgress,
    SubAgentRole, ToolCallBlock, ToolGroupBlock, ToolStatus, TranscriptItem, UserShellBlock,
    UserShellStatus,
};
use ratatui::buffer::Buffer;
use unicode_width::UnicodeWidthStr;

fn tool_summary(name: &str, arguments: &str) -> String {
    summary_at_home(name, arguments, Some("/home/u"))
}

fn line_str(line: &Line) -> String {
    line.spans.iter().map(|s| s.content.as_str()).collect()
}

fn joined(lines: &[Line]) -> String {
    lines.iter().map(line_str).collect::<Vec<_>>().join("\n")
}

fn raw(text: &str) -> Line {
    Line::of(Span::raw(text))
}

fn rect(x: u16, y: u16, width: u16, height: u16) -> Rect {
    Rect { x, y, width, height }
}

fn boot() -> Boot {
    Boot {
        session_id: "s1".into(),
        user: "u".into(),
        version: "0".into(),
        show_welcome: false,
        draft_path: None,
        history_path: None,
        context_window: 0,
        locale: Locale::Zh,
        untrusted_config: Vec::new(),
        reasoning_effort: None,
    }
}

fn test_state() -> AppState {
    AppState::new(Theme::no_color(), boot(), true)
}

fn still() -> RunStatus {
    RunStatus { wait: None, rows: Vec::new(), now_ms: 0 }
}

// ---- cells ----

fn put(buf: &mut Buffer, x: u16, y: u16, text: &str, width: u16) {
    buf.set_stringn(x, y, text, width as usize, ratatui::style::Style::default());
}

fn put_rows(buf: &mut Buffer, area: Rect, lines: &[Line]) {
    for (i, line) in lines.iter().enumerate().take(area.height as usize) {
        put(buf, area.x, area.y + i as u16, &line_str(line), area.width);
    }
}

fn text_of(buf: &Buffer) -> String {
    let mut out = String::new();
    for y in 0..buf.area.height {
        let mut x = 0;
        while x < buf.area.width {
            let sym = buf.cell((x, y)).map(|c| c.symbol()).unwrap_or(" ");
            out.push_str(sym);
            x += sym.width().max(1) as u16;
        }
        out.push('\n');
    }
    out
}

fn screen() -> (u16, u16) {
    (90, 30)
}

/// A page in its chrome, as cells.
fn page_text(
    state: &AppState,
    size: (u16, u16),
    make: &dyn Fn(&RunStatus, u16, Rect) -> ScreenPage,
) -> String {
    let (w, h) = size;
    let area = rect(0, 0, w, h);
    let mut buf = Buffer::empty(ratatui::layout::Rect::new(0, 0, w, h));
    let l = layout(area, 0);
    let shown = make(&still(), w, l.content);
    let header = header_row(l.header, &shown.page, &state.theme);
    if let Some((span, at)) = header.identity {
        put(&mut buf, at.x, at.y, &span.content, at.width);
    }
    if let Some(at) = header.status {
        put(&mut buf, at.x, at.y, &line_str(&shown.page.status), at.width);
    }
    for rule in [l.rule_top, l.rule_bottom] {
        if let Some(line) = rule_line(rule, &state.theme) {
            put_rows(&mut buf, rule, &[line]);
        }
    }
    if let Some((line, at)) = footer_hint_line(l.footer, &shown.page, &state.theme) {
        put_rows(&mut buf, at, &[line]);
    }
    put_rows(&mut buf, l.content, &shown.body);
    text_of(&buf)
}

fn shell_text(state: &AppState, size: (u16, u16)) -> String {
    page_text(state, size, &|run, w, body| shell_screen(state, run, w, body))
}

fn activity_text(state: &AppState, summary: &ActivitySummary, size: (u16, u16)) -> String {
    page_text(state, size, &|run, w, body| {
        activity_screen(state, run, w, body, Some(summary), None, &Vec::new())
    })
}

// ---- text ----

#[test]
fn truncate_display_measures_by_width_not_char_count() {
    let out = truncate_display("你好世界啊", 6);
    assert!(UnicodeWidthStr::width(out.as_str()) <= 6, "got {out:?}");
    assert!(out.ends_with('…'));
    assert_eq!(truncate_display("abc", 3), "abc");
    assert_eq!(truncate_display("你好", 4), "你好");
}

#[test]
fn truncate_display_neutralizes_control_chars() {
    let out = truncate_display("a\r\tb\nc", 20);
    assert!(!out.contains('\r') && !out.contains('\t') && !out.contains('\n'));
    assert_eq!(out, "a  b c");
}

#[test]
fn sanitize_terminal_line_expands_tabs_and_strips_controls() {
    let out = sanitize_terminal_line("a\tb\r\x1bc");
    assert!(!out.contains('\t'), "tab must expand: {out:?}");
    assert!(!out.contains('\r'), "cr must not reach Print: {out:?}");
    assert!(!out.contains('\u{1b}'), "esc must not reach Print: {out:?}");
    assert!(out.starts_with("a       b"), "tabstop-8 expand: {out:?}");
    assert_eq!(out, "a       b  c");
}

#[test]
fn a_display_prefix_and_its_rest_are_the_text() {
    let (head, rest) = take_display_prefix("你好世界", 5);
    assert_eq!(head, "你好");
    assert_eq!(rest, "世界");
    assert_eq!(wrap("one two three", 7), vec!["one two", "three"]);
}

// ---- panes ----

#[test]
fn list_scroll_offset_keeps_focus_visible() {
    assert_eq!(list_scroll_offset(20, 10, 0), 0);
    assert_eq!(list_scroll_offset(20, 10, 9), 0);
    assert_eq!(list_scroll_offset(20, 10, 10), 1);
    assert_eq!(list_scroll_offset(20, 10, 15), 6);
    assert_eq!(list_scroll_offset(20, 10, 19), 10);
    assert_eq!(list_scroll_offset(5, 10, 4), 0);
}

#[test]
fn pad_line_to_width_fills_and_truncates() {
    let padded = pad_line_to_width(&raw("hi"), 5);
    let w: usize = padded
        .spans
        .iter()
        .map(|s| UnicodeWidthStr::width(s.content.as_str()))
        .sum();
    assert_eq!(w, 5);
    let truncated = pad_line_to_width(&raw("hello world"), 5);
    let tw: usize = truncated
        .spans
        .iter()
        .map(|s| UnicodeWidthStr::width(s.content.as_str()))
        .sum();
    assert_eq!(tw, 5);
}

#[test]
fn partial_pane_rendering_clears_stale_line_tails() {
    let mut buf = Buffer::empty(ratatui::layout::Rect::new(0, 0, 24, 4));
    let area = rect(0, 0, 24, 2);
    let first = |buf: &Buffer| text_of(buf).lines().next().unwrap_or("").to_string();

    put_rows(&mut buf, area, &scrolled_pane(&vec![raw("very very long stale tail")], area, 0));
    put_rows(&mut buf, area, &scrolled_pane(&vec![raw("short")], area, 0));
    let row = first(&buf);
    assert!(
        !row.contains("stale") && !row.contains("tail"),
        "scrolled pane left stale text: {row:?}"
    );
    assert!(row.trim_end().ends_with("short"), "short row: {row:?}");

    put_rows(&mut buf, area, &focused_pane(&vec![raw("selected row with stale tail")], area, 0));
    put_rows(&mut buf, area, &focused_pane(&vec![raw("row")], area, 0));
    let row = first(&buf);
    assert!(
        !row.contains("stale") && !row.contains("tail"),
        "focused list left stale text: {row:?}"
    );
    assert!(row.trim_end().ends_with("row"), "row: {row:?}");
}

#[test]
fn scrolled_pane_clears_rows_that_scroll_off() {
    let mut buf = Buffer::empty(ratatui::layout::Rect::new(0, 0, 20, 3));
    let area = rect(0, 0, 20, 3);
    let dense = vec![
        raw("+AuthModule,Middleware"),
        raw("+OrgModule,WsModule,"),
        raw("+ProjectModule,Roles"),
    ];
    put_rows(&mut buf, area, &scrolled_pane(&dense, area, 0));
    put_rows(&mut buf, area, &scrolled_pane(&vec![raw("help")], area, 0));
    let view = text_of(&buf);
    for ghost in ["Auth", "Module", "Middleware", "Org", "Project", "Roles"] {
        assert!(
            !view.contains(ghost),
            "file switch left residual {ghost:?} in {view:?}"
        );
    }
    assert!(view.contains("help"), "expected help in view: {view:?}");

    let tall: Vec<Line> = (0..10)
        .map(|i| raw(&format!("+ModuleName{i:02},tailXXXX")))
        .chain(std::iter::once(raw("help")))
        .collect();
    put_rows(&mut buf, area, &scrolled_pane(&tall, area, 0));
    put_rows(&mut buf, area, &scrolled_pane(&tall, area, 100));
    let view = text_of(&buf);
    assert!(
        !view.contains("ModuleName00") && !view.contains("tailXXXX"),
        "scroll-to-end left early residual: {view:?}"
    );
    assert!(view.contains("help"), "footer should be visible: {view:?}");
}

#[test]
fn a_tail_page_shows_its_end_and_pages_back() {
    let lines = || (0..10).map(|i| raw(&format!("r{i}"))).collect::<Vec<_>>();
    assert_eq!(joined(&tail_pane(lines(), 3, 0)), "r7\nr8\nr9");
    assert_eq!(joined(&tail_pane(lines(), 3, 2)), "r5\nr6\nr7");
    assert_eq!(joined(&tail_pane(lines(), 3, 100)), "r0\nr1\nr2");
    assert_eq!(joined(&selection_pane(lines(), 3, Some(4))), "r2\nr3\nr4");
    assert_eq!(joined(&selection_pane(lines(), 3, None)), "r0\nr1\nr2");
}

// ---- a streamed message ----

/// The paragraphs of a message as rows, and how many of them are settled.
fn paragraphs(text: &str, done: bool) -> Made {
    let parts: Vec<&str> = text.split("\n\n").collect();
    let mut lines: Vec<Line> = Vec::new();
    let mut stable = 0;
    for (i, part) in parts.iter().enumerate() {
        if i > 0 {
            lines.push(Line::empty());
        }
        if i + 1 == parts.len() {
            stable = lines.len();
        }
        lines.push(raw(part));
    }
    if done {
        stable = lines.len();
    }
    Made {
        lines,
        stable,
        plan_glyphs: PlanGlyphs { pending: "○", running: "◐", done: "●", failed: "✗" },
    }
}

#[test]
fn progressive_commit_reproduces_full_message_exactly() {
    let theme = Theme::no_color();
    let final_text = "# Overview\n\nfirst point here\n\nsecond point here\n\nthird and last";
    let snapshots = [
        "# Over",
        "# Overview\n\nfirst point",
        "# Overview\n\nfirst point here\n\nsecond point here",
        "# Overview\n\nfirst point here\n\nsecond point here\n\nthird and last",
    ];
    let mut committed: Vec<String> = Vec::new();
    for (i, text) in snapshots.iter().enumerate() {
        let done = i == snapshots.len() - 1;
        let block = AssistantBlock { text: text.to_string(), done };
        let (full, stable) = assistant_split(&block, &theme, &paragraphs(text, done));
        let upto = if done { full.len() } else { stable };
        if upto > committed.len() {
            committed.extend(full[committed.len()..upto].iter().map(line_str));
        }
    }
    let done = AssistantBlock { text: final_text.to_string(), done: true };
    let full: Vec<String> = assistant_split(&done, &theme, &paragraphs(final_text, true))
        .0
        .iter()
        .map(line_str)
        .collect();
    assert_eq!(committed, full);
}

// ---- what a call is about ----

#[test]
fn run_command_shows_the_command() {
    let s = tool_summary(
        "run_command",
        r#"{"program":"cargo","args":["check","-p","example-core"]}"#,
    );
    assert_eq!(s, "cargo check -p example-core");
}

#[test]
fn run_command_hides_duplicate_program_arg() {
    let s = tool_summary(
        "run_command",
        r#"{"program":"pytest","args":["pytest","tests/providers/test_retry_classification.py","-q"]}"#,
    );
    assert_eq!(s, "pytest tests/providers/test_retry_classification.py -q");
}

#[test]
fn read_file_shows_path_and_range() {
    let s = tool_summary(
        "read_file",
        r#"{"path":"src/lib.rs","start_line":1,"end_line":100}"#,
    );
    assert_eq!(s, "src/lib.rs:1-100");
}

/// A JSON object of one text.
fn json_text(key: &str, value: &str) -> String {
    let mut map = serde_json::Map::new();
    map.insert(key.to_string(), serde_json::Value::String(value.to_string()));
    serde_json::Value::Object(map).to_string()
}

#[test]
fn apply_patch_shows_touched_files() {
    let s = tool_summary(
        "apply_patch",
        r#"{"patch":"*** Begin Patch\n*** Update File: src/a.rs\n*** End Patch"}"#,
    );
    assert_eq!(s, "src/a.rs");
    let s = tool_summary(
        "apply_patch",
        &json_text(
            "patch",
            "*** Begin Patch\n*** Add File: crates/api/src/sse/chat.rs\n+//! SSE parsing\n*** End Patch",
        ),
    );
    assert_eq!(s, "crates/api/src/sse/chat.rs");

    let s = tool_summary(
        "apply_patch",
        "{\"patch\":\"*** Begin Patch\n*** Update File: src/cli.ts\n*** End Patch\"}",
    );
    assert_eq!(s, "src/cli.ts");
}

#[test]
fn update_plan_shows_explanation_not_raw_json() {
    let s = tool_summary(
        "update_plan",
        r#"{"explanation":"WireApi 枚举已更新，现在创建 Chat SSE 解析器","plan":[{"step":"x","status":"pending"}]}"#,
    );
    assert!(
        s.contains("WireApi") && !s.contains('{'),
        "explanation, not raw JSON: {s}"
    );
    assert_eq!(tool_action_label("update_plan"), "更新计划");
}

#[test]
fn update_goal_shows_human_resolution_not_raw_json() {
    let s = tool_summary(
        "update_goal",
        r#"{"status":"complete","summary":"完成了对示例 CLI 项目的安装验证"}"#,
    );
    assert_eq!(s, "完成：完成了对示例 CLI 项目的安装验证");
    assert_eq!(tool_action_label("update_goal"), "目标收尾");
    assert_eq!(tool_action_label("request_user_input"), "询问");
    assert_eq!(tool_action_label("ask_user"), "询问");
}

#[test]
fn unknown_or_non_json_falls_back() {
    assert_eq!(tool_summary("run_command", "cargo test"), "cargo test");
}

#[test]
fn shell_command_summary_is_human_readable() {
    let s = tool_summary(
        "shell_command",
        r#"{"cmd":"cd /tmp && cargo test --workspace"}"#,
    );
    assert_eq!(s, "cargo test --workspace");
    assert!(!s.contains("cmd"), "{s}");
    assert!(!s.contains('{'), "{s}");
}

// ---- the pages ----

/// The tail of a path names it, so a cut keeps the tail and is marked.
#[test]
fn shell_details_marks_a_cut_path_and_keeps_its_tail() {
    let mut state = test_state();
    let cwd = "/private/tmp/agent-501/-Users-example-Develop-app-codeleveler/\
               b6daaffb-de00-45ce-bd4d-b457-f1fd58344a9c/scratchpad/h-inv";
    state.transcript.items.push(TranscriptItem::UserShell(UserShellBlock {
        command: format!("git {} --stat", "verylongsubcommand".repeat(6)),
        cwd: cwd.into(),
        status: UserShellStatus::Running,
        output: String::new(),
        output_truncated: false,
        exit_code: None,
        duration_ms: None,
        started_elapsed_secs: 0,
        expanded: false,
    }));
    state.shell_screen_item = Some(0);
    let screen = shell_text(&state, (80, 30));
    let dir = screen
        .lines()
        .find(|l| l.contains("目录"))
        .expect("the cwd field is on screen")
        .to_string();
    assert!(dir.contains('…'), "the cut is unmarked: {dir:?}");
    assert!(
        dir.contains("h-inv"),
        "the tail is what names the directory: {dir:?}"
    );
    let cmd = screen
        .lines()
        .find(|l| l.contains("命令"))
        .expect("the command field is on screen")
        .to_string();
    assert!(cmd.contains('…'), "the cut is unmarked: {cmd:?}");
}

#[test]
fn a_running_shell_offers_a_stop_and_a_settled_one_does_not() {
    let mut state = test_state();
    let t = state.t();
    let shell = |status: UserShellStatus| {
        TranscriptItem::UserShell(UserShellBlock {
            command: "ls".into(),
            cwd: "/repo".into(),
            status,
            output: "x".into(),
            output_truncated: false,
            exit_code: None,
            duration_ms: None,
            started_elapsed_secs: 0,
            expanded: false,
        })
    };
    state.transcript.items.push(shell(UserShellStatus::Running));
    state.transcript.items.push(shell(UserShellStatus::Success));
    state.shell_screen_item = Some(0);
    let body = rect(2, 2, 60, 20);
    assert_eq!(shell_screen(&state, &still(), 64, body).page.hint, t.shell_hint_running);
    state.shell_screen_item = Some(1);
    assert_eq!(shell_screen(&state, &still(), 64, body).page.hint, t.shell_hint_done);
    state.shell_screen_item = None;
    let none = shell_screen(&state, &still(), 64, body);
    assert_eq!(none.page.hint, t.shell_hint_done);
    assert_eq!(joined(&none.body), t.shell_no_output);
}

/// A full-screen view answers every key itself, so no draft is drawn under it.
#[test]
fn a_full_screen_view_does_not_draw_an_input_it_will_not_accept() {
    let mut state = test_state();
    state.composer.replace("DRAFTMARKER".into());
    let t = state.t();
    let theme = state.theme;
    let none: Vec<&ToolCallBlock> = Vec::new();
    let summary = job("bg-1", "make", ActivityStatus::Running);
    let views = [
        shell_text(&state, (80, 30)),
        joined(&tools_list_lines(&none, 0, 40, &theme, None)),
        joined(&tools_detail_lines(&none, 0, 40, &theme)),
        joined(&diff_list_lines(&Vec::new(), 0, 40, &theme, &t).0),
        joined(&help_lines(&t, &theme)),
        joined(&sessions_lines(&state).0),
        activity_text(&state, &summary, (80, 30)),
    ];
    for text in views {
        assert!(!text.contains("DRAFTMARKER"), "{text}");
    }
}

fn job(id: &str, title: &str, status: ActivityStatus) -> ActivitySummary {
    ActivitySummary {
        id: ActivityId::Background(id.into()),
        kind: ActivityKind::BackgroundTask,
        status,
        title: title.into(),
        duration_secs: 0,
        glyph: "●".into(),
    }
}

fn background(chrome: BackgroundTaskChrome) -> AppState {
    let mut state = test_state();
    state.background_task_labels.push(("bg-1".into(), chrome));
    state.activity_open = Some(ActivityId::Background("bg-1".into()));
    state
}

/// An empty output section is still a section: its state sits at the body indent.
#[test]
fn background_detail_empty_output_is_an_indented_section_state() {
    let mut state = test_state();
    state
        .background_task_labels
        .push(("bg-empty".into(), BackgroundTaskChrome::running("make up", 0)));
    state.activity_open = Some(ActivityId::Background("bg-empty".into()));
    let summary = job("bg-empty", "make up", ActivityStatus::Running);
    let text = activity_text(&state, &summary, (90, 24));
    assert!(text.contains("  输出"), "section present: {text}");
    assert!(
        text.lines().any(|l| l.trim_end() == "    暂无输出"),
        "empty state is indented under its section:\n{text}"
    );
}

#[test]
fn background_detail_shows_command_output_and_follow_state() {
    let mut state = background(BackgroundTaskChrome {
        label: "cargo test --workspace".into(),
        started_elapsed_secs: 0,
        ok: None,
        stopped: false,
        exit_code: None,
        duration_ms: None,
        output: "Compiling leveler-core ...\ntest result: ok\n".into(),
    });
    let summary = job("bg-1", "cargo test --workspace", ActivityStatus::Running);
    let text = activity_text(&state, &summary, screen());
    assert!(text.contains("Background Task"), "{text}");
    assert!(text.contains("$ cargo test --workspace"), "{text}");
    assert!(text.contains("Compiling leveler-core"), "{text}");
    assert!(text.contains("Follow ON"), "{text}");

    state.activity_view.follow = false;
    let text = activity_text(&state, &summary, screen());
    assert!(text.contains("Follow PAUSED"), "{text}");
    assert!(!text.contains("Follow ON"), "{text}");
}

#[test]
fn a_finished_background_detail_stays_readable() {
    let state = background(BackgroundTaskChrome {
        label: "cargo test --workspace".into(),
        started_elapsed_secs: 0,
        ok: Some(true),
        stopped: false,
        exit_code: Some(0),
        duration_ms: Some(133_000),
        output: "test result: ok. 428 passed\n".into(),
    });
    let summary = job("bg-1", "cargo test --workspace", ActivityStatus::Completed);
    let text = activity_text(&state, &summary, screen());
    assert!(text.contains("Background Task"), "{text}");
    assert!(text.contains("test result: ok"), "{text}");
    assert!(text.contains("exit 0"), "{text}");
    assert!(
        !text.contains("x 停止"),
        "a terminal task has nothing left to stop:\n{text}"
    );
}

/// The navigation owns the edge, the page body sits on the shared gutter, and a
/// section's body is one level deeper.
#[test]
fn detail_pages_share_one_content_gutter() {
    let state = background(BackgroundTaskChrome {
        label: "cargo test --workspace".into(),
        started_elapsed_secs: 0,
        ok: None,
        stopped: false,
        exit_code: None,
        duration_ms: None,
        output: "Compiling leveler-tui\n".into(),
    });
    let summary = job("bg-1", "cargo test --workspace", ActivityStatus::Running);
    let text = activity_text(&state, &summary, screen());
    let lines: Vec<&str> = text.lines().collect();
    let header = lines
        .iter()
        .find(|l| l.contains("Background Task"))
        .expect("identity header");
    assert!(header.starts_with('←'), "back nav owns the edge: {header:?}");
    for expected in [
        "  cargo test --workspace",
        "  命令",
        "    $ cargo test --workspace",
        "  输出",
        "    Compiling leveler-tui",
    ] {
        assert!(
            lines.iter().any(|l| l.trim_end() == expected),
            "missing {expected:?} in:\n{text}"
        );
    }
}

fn child_view() -> ChildAgentView {
    ChildAgentView {
        id: "c1".into(),
        title: Some("调查选择器归属".into()),
        purpose: "调查 portal-web 的选择器归属".into(),
        agent_name: None,
        profile_id: None,
        read_only: true,
        input_tokens: 0,
        output_tokens: 0,
        recent_step: None,
        stop: None,
        limit: None,
        activity: Vec::new(),
        contribution: None,
    }
}

fn child_state(stop: Option<ChildStop>, limit: Option<ChildLimit>) -> AppState {
    let mut state = test_state();
    let mut child = child_view();
    child.stop = stop;
    child.limit = limit;
    state.children.push(child);
    state.activity_open = Some(ActivityId::Child("c1".into()));
    state
}

fn child_summary(status: ActivityStatus) -> ActivitySummary {
    ActivitySummary {
        id: ActivityId::Child("c1".into()),
        kind: ActivityKind::ChildAgent,
        status,
        title: "调查选择器归属".into(),
        duration_secs: 0,
        glyph: "●".into(),
    }
}

/// A running task can be stopped, a settled one cannot, and `Esc` is always there.
#[test]
fn detail_footer_says_stop_only_while_stoppable() {
    let state = child_state(None, None);
    let run_text = activity_text(&state, &child_summary(ActivityStatus::Running), screen());
    assert!(run_text.contains("Esc 返回"), "{run_text}");
    assert!(run_text.contains("x 停止"), "{run_text}");

    let settled_text = activity_text(&state, &child_summary(ActivityStatus::Completed), screen());
    assert!(settled_text.contains("Esc 返回"), "{settled_text}");
    assert!(
        !settled_text.contains("x 停止"),
        "a settled child has nothing to stop:\n{settled_text}"
    );
}

#[test]
fn detail_pages_do_not_panic_on_a_narrow_terminal() {
    for (w, h) in [(12u16, 5u16), (20, 6), (30, 5), (40, 24)] {
        let state = background(BackgroundTaskChrome {
            label: "a-very-long-command --with a-very-long-argument".into(),
            started_elapsed_secs: 0,
            ok: None,
            stopped: false,
            exit_code: None,
            duration_ms: None,
            output: "a line of output that is much wider than the terminal\n".into(),
        });
        let summary = job("bg-1", "a-very-long-command", ActivityStatus::Running);
        let _ = activity_text(&state, &summary, (w, h));
        let child = child_state(None, None);
        let _ = activity_text(&child, &child_summary(ActivityStatus::Running), (w, h));
    }
}

#[test]
fn detail_page_relayouts_cleanly_across_resizes() {
    let state = child_state(None, None);
    for (w, h) in [(100u16, 40u16), (40, 12), (80, 24), (30, 8)] {
        let text = activity_text(&state, &child_summary(ActivityStatus::Running), (w, h));
        assert!(text.starts_with('←'), "w={w}: nav at the edge:\n{text}");
        assert!(
            text.contains("Sub-agent"),
            "w={w}: page identity survives resize:\n{text}"
        );
        assert!(
            text.contains("Esc 返回") && text.contains("x 停止"),
            "w={w}: footer stays fixed:\n{text}"
        );
        for line in text.lines() {
            assert!(
                line.chars().count() as u16 <= w,
                "w={w}: a row overran the terminal: {line:?}"
            );
        }
    }
}

#[test]
fn a_stopped_child_detail_says_how_it_was_stopped() {
    let state = child_state(Some(ChildStop::Budget), None);
    let text = activity_text(&state, &child_summary(ActivityStatus::Failed), screen());
    assert!(
        text.contains("预算耗尽"),
        "the detail must name the stop the runtime typed:\n{text}"
    );
}

#[test]
fn a_wall_clock_timeout_detail_reads_as_unfinished_timeout() {
    let state = child_state(Some(ChildStop::Budget), Some(ChildLimit::Duration));
    let text = activity_text(&state, &child_summary(ActivityStatus::Failed), screen());
    let meta = text
        .lines()
        .find(|l| l.contains("超时"))
        .unwrap_or_else(|| panic!("the detail must name the wall-clock bound:\n{text}"));
    assert!(
        meta.contains("未完成") && !meta.contains("失败"),
        "a stopped child did not fail; it did not finish: {meta:?}"
    );
    assert!(
        !meta.contains("预算耗尽"),
        "the duration bound must not read as a spent budget: {meta:?}"
    );
}

#[test]
fn a_token_budget_stop_keeps_the_budget_word() {
    let state = child_state(Some(ChildStop::Budget), Some(ChildLimit::ModelTokens));
    let text = activity_text(&state, &child_summary(ActivityStatus::Failed), screen());
    assert!(text.contains("预算耗尽"), "{text}");
    assert!(!text.contains("超时"), "{text}");
}

#[test]
fn a_retired_activity_says_so_inside_the_chrome() {
    let state = test_state();
    let t = state.t();
    let page = activity_screen(
        &state,
        &still(),
        80,
        rect(2, 2, 76, 20),
        None,
        None,
        &Vec::new(),
    );
    assert_eq!(joined(&page.body), t.activity_stale);
    assert_eq!(page.page.hint, t.activity_esc);
}

#[test]
fn the_job_list_names_its_sections_and_follows_the_selection() {
    let mut state = test_state();
    let t = state.t();
    let list = BackgroundJobList {
        running: vec![job("a", "make", ActivityStatus::Running)],
        finished: vec![job("b", "cargo test", ActivityStatus::Completed)],
    };
    state.background_list_selected = Some("b".into());
    let (lines, selected) = background_list_body(&state, &list, 60, &state.theme, &t);
    let text = joined(&lines);
    assert!(text.contains("make") && text.contains("cargo test"), "{text}");
    let at = selected.expect("the selected row");
    assert!(line_str(&lines[at]).contains("cargo test"), "{text}");
    assert!(line_str(&lines[at]).trim_start().starts_with("→ "), "{text}");

    let page = background_list_screen(&state, &still(), 64, rect(2, 2, 60, 2), &list);
    assert_eq!(page.body.len(), 2);
    assert!(joined(&page.body).contains("cargo test"), "{page:?}");
    assert_eq!(page.page.hint, t.background_hint_list_running);

    let idle = BackgroundJobList { running: Vec::new(), finished: Vec::new() };
    let page = background_list_screen(&state, &still(), 64, rect(2, 2, 60, 5), &idle);
    assert_eq!(page.page.hint, t.background_hint_list_idle);
    assert_eq!(joined(&page.body), t.background_list_empty);
}

#[test]
fn a_child_page_names_the_profile_and_the_access() {
    let t = Locale::Zh.text();
    let mut child = child_view();
    child.profile_id = Some("deep".into());
    let meta = child_metadata_line(&child, &t).expect("metadata");
    assert!(meta.contains("deep"), "{meta}");
}

#[test]
fn app_frame_spans_the_columns() {
    let area = rect(3, 1, 40, 10);
    let (head, body, foot) = app_frame(area);
    for part in [head, body, foot] {
        assert_eq!((part.x, part.width), (3, 40));
    }
    assert_eq!((head.height, body.height, foot.height), (1, 8, 1));
    assert_eq!(body.y, 2);
}

#[test]
fn help_first_page_shows_goal_command() {
    let state = test_state();
    let area = rect(0, 0, 80, 24);
    let text = joined(&scrolled_pane(&help_lines(&state.t(), &state.theme), area, 0));
    assert!(
        text.contains("/goal"),
        "help first page should advertise /goal:\n{text}"
    );
}

#[test]
fn busy_status_shows_real_activity_when_known() {
    let mut s = test_state();
    s.status = RuntimeStatus::Busy;
    s.activity = Some("运行 cargo test".into());
    let text = line_str(&status_line_content(&s, &None, &Vec::new(), 0, 80));
    assert!(
        text.contains("运行 cargo test"),
        "the real activity must be shown, not a whimsy word: {text:?}"
    );
}

#[test]
fn error_status_does_not_reference_missing_command() {
    let mut s = test_state();
    s.status = RuntimeStatus::Error;
    let text = line_str(&status_line_content(&s, &None, &Vec::new(), 0, 80));
    assert!(
        !text.contains("/status"),
        "the hint must not point at a command that is not there: {text:?}"
    );
}

// ---- child agents and calls in the conversation ----

fn child_block(id: &str, nickname: &str, role: SubAgentRole, status: ToolStatus) -> SubAgentBlock {
    SubAgentBlock {
        id: id.into(),
        nickname: nickname.into(),
        agent_name: None,
        role,
        status,
        task: String::new(),
        detail: "done".into(),
        progress: SubAgentProgress {
            active: false,
            input_tokens: 0,
            output_tokens: 0,
            cached_input_tokens: 0,
        },
        recent_step: None,
        started_elapsed_secs: 0,
        settled_elapsed_secs: None,
        expanded: false,
        contribution: Contribution::Pending,
        stop: None,
        limit: None,
        interrupted: false,
        unreported: false,
    }
}

fn nothing_made() -> Made {
    Made {
        lines: Vec::new(),
        stable: 0,
        plan_glyphs: PlanGlyphs { pending: "○", running: "◐", done: "●", failed: "✗" },
    }
}

fn item_text(item: &TranscriptItem, width: usize, locale: Locale) -> String {
    joined(&item_render(item, &Theme::no_color(), width, &locale.text(), &nothing_made()))
}

#[test]
fn sub_agent_block_without_role_has_no_empty_brackets() {
    let block = child_block("a1", "Newton", SubAgentRole::Other, ToolStatus::Succeeded);
    let text = item_text(&TranscriptItem::SubAgent(block), 60, Locale::Zh);
    assert!(
        !text.contains("[]"),
        "empty role must not render as []: {text:?}"
    );
    assert!(text.contains("Newton"));
}

#[test]
fn explorer_failure_is_named_and_explained_for_the_user() {
    let mut block = child_block("agent-1", "Euclid", SubAgentRole::Explorer, ToolStatus::Failed);
    block.detail =
        "Reached the 6-round limit before finishing.\n\nLatest note: inspecting providers".into();
    let text = item_text(&TranscriptItem::SubAgent(block), 80, Locale::Zh);
    assert!(text.contains("探索 Agent 1 · 未完成"), "{text}");
    assert!(text.contains("未在 6 轮内完成"), "{text}");
    assert!(text.contains("最后进展：inspecting providers"), "{text}");
    assert!(!text.contains("Euclid"), "{text}");
    assert!(!text.contains("[explorer]"), "{text}");
    assert!(!text.contains("Reached the"), "{text}");
}

#[test]
fn running_explorer_has_a_clear_execution_label() {
    let mut block = child_block("agent-1", "Euclid", SubAgentRole::Explorer, ToolStatus::Running);
    block.detail = "Explore model provider architecture".into();
    block.progress.active = true;
    let text = item_text(&TranscriptItem::SubAgent(block), 80, Locale::Zh);
    assert!(text.contains("探索 Agent 1 · 执行中"), "{text}");
    assert!(
        text.contains("Explore model provider architecture"),
        "{text}"
    );
    assert!(!text.contains("Euclid"), "{text}");
}

fn call_lines(call: &ToolCallBlock, expanded: bool, width: usize, locale: Locale) -> Vec<Line> {
    let mut lines = Vec::new();
    tool_lines(
        call,
        &Theme::no_color(),
        width,
        expanded,
        &locale.text(),
        Some("/home/u"),
        &mut lines,
    );
    lines
}

#[test]
fn english_locale_covers_recap_and_unsupported_delegation() {
    let recap = TranscriptItem::Recap(RecapBlock {
        summary: Some("Implemented".into()),
        next_step: "Run the app".into(),
    });
    let recap = item_text(&recap, 80, Locale::En);
    assert!(recap.contains("recap:"), "{recap}");

    let call = ToolCallBlock {
        id: "task-1".into(),
        name: "task".into(),
        arguments: r#"{"description":"Inspect provider architecture"}"#.into(),
        status: ToolStatus::Failed,
        stop: StopRequest::NotSent,
        preview: Some("tool error: unknown tool `task`; use `spawn_agent`".into()),
        duration_ms: None,
    };
    let task = joined(&call_lines(&call, false, 100, Locale::En));
    assert!(task.contains("Delegation (unsupported)"), "{task}");
    assert!(
        task.contains("task is unsupported; use spawn_agent"),
        "{task}"
    );
    assert!(
        !task.chars().any(|ch| ('\u{4e00}'..='\u{9fff}').contains(&ch)),
        "{task}"
    );
}

fn tool_item(name: &str, args: &str, ms: u64) -> ToolCallBlock {
    ToolCallBlock {
        id: "t".into(),
        name: name.into(),
        arguments: args.into(),
        status: ToolStatus::Succeeded,
        stop: StopRequest::NotSent,
        preview: Some("some output".into()),
        duration_ms: Some(ms),
    }
}

fn tool_render(call: &ToolCallBlock, expanded: bool) -> Vec<Line> {
    call_lines(call, expanded, 100, Locale::Zh)
}

#[test]
fn successful_tool_call_renders_as_one_compact_line() {
    let item = tool_item("read_file", r#"{"path":"src/lib.rs"}"#, 2);
    let lines = tool_render(&item, false);
    assert_eq!(lines.len(), 1, "one line per quiet success: {lines:?}");
    let head = line_str(&lines[0]);
    assert!(
        head.contains("读取") && head.contains("src/lib.rs"),
        "verb + target on the same line: {head}"
    );
    assert!(!head.contains("ms"), "sub-second timing is noise: {head}");
}

#[test]
fn slow_tool_call_shows_duration_in_seconds() {
    let item = tool_item("run_command", r#"{"program":"cargo","args":["test"]}"#, 13000);
    let head = line_str(&tool_render(&item, false)[0]);
    assert!(head.contains("13.0s"), "slow call shows seconds: {head}");
}

#[test]
fn an_open_group_is_not_final() {
    let group = |open: bool| {
        TranscriptItem::ToolGroup(ToolGroupBlock {
            calls: vec![tool_item("read_file", "{}", 1), tool_item("grep", "{}", 1)],
            open,
            expanded: false,
        })
    };
    assert!(!item_is_final(&group(true)));
    assert!(item_is_final(&group(false)));
}

#[test]
fn apply_patch_shows_inline_diff_lines() {
    let patch = "*** Begin Patch\n*** Update File: src/a.rs\n@@\n context\n-let old = 1;\n+let new = 2;\n*** End Patch";
    let item = tool_item("apply_patch", &json_text("patch", patch), 5);
    let text = joined(&tool_render(&item, false));
    assert!(
        text.contains("let old = 1;")
            && text.contains("let new = 2;")
            && text.contains('-')
            && text.contains('+'),
        "the edit's diff must be visible inline: {text}"
    );
    assert!(
        !text.contains("Begin Patch") && !text.contains("End Patch"),
        "patch envelope markers are noise: {text}"
    );
}

#[test]
fn apply_patch_with_raw_newline_json_still_shows_inline_diff() {
    let args = "{\"patch\":\"*** Begin Patch\n*** Update File: src/cli.ts\n@@\n-old\n+new\n*** End Patch\"}";
    let item = tool_item("apply_patch", args, 5);
    let text = joined(&tool_render(&item, false));
    assert!(text.contains("src/cli.ts"), "file heading missing: {text}");
    assert!(
        (text.contains("- old")
            || text.contains("-old")
            || text.lines().any(|l| l.contains('-') && l.contains("old")))
            && (text.contains("+ new")
                || text.contains("+new")
                || text.lines().any(|l| l.contains('+') && l.contains("new"))),
        "raw-newline patch diff missing: {text}"
    );
    assert!(
        !text.contains("{\"patch\""),
        "raw JSON wrapper should not leak into patch display: {text}"
    );
}

#[test]
fn failed_tool_output_is_available_in_expanded_details() {
    let mut item = tool_item("apply_patch", "{}", 1);
    item.status = ToolStatus::Failed;
    item.preview = Some(
        "failed to apply hunk: could not find expected lines:\n    let a = 1;\n    let b = 2;"
            .into(),
    );
    let text = joined(&tool_render(&item, true));
    assert!(
        text.contains("let a = 1;"),
        "the error detail must be visible after expanding the group: {text}"
    );
}

#[test]
fn read_file_success_hides_noisy_preview_until_expanded() {
    let mut item = tool_item("read_file", r#"{"path":"README.md"}"#, 1);
    item.preview = Some("     1\t# README\n     2\tlots of content".into());
    let folded = joined(&tool_render(&item, false));
    assert!(folded.contains("README.md"));
    assert!(!folded.contains("lots of content"));
    let expanded = joined(&tool_render(&item, true));
    assert!(expanded.contains("lots of content"));
}

#[test]
fn update_goal_success_hides_internal_preview() {
    let mut item = tool_item(
        "update_goal",
        r#"{"status":"complete","summary":"完成了对示例 CLI 项目的安装验证"}"#,
        1,
    );
    item.preview = Some("Goal resolved.".into());
    let lines = tool_render(&item, false);
    let text: String = lines.iter().map(line_str).collect();
    assert!(text.contains("目标收尾"));
    assert!(text.contains("完成：完成了对示例 CLI 项目的安装验证"));
    assert!(!text.contains("update_goal"));
    assert!(!text.contains("Goal resolved"));
    assert!(!text.contains('{'));
    assert_eq!(lines.len(), 1, "collapsed update_goal is one line: {lines:?}");
}

#[test]
fn update_goal_success_expands_full_summary_not_internal_preview() {
    let long = "已通过阅读 README.md, Cargo.toml, AGENTS.md 和目录结构, 确认这是一个 Rust 多 crate workspace 编程 Agent CLI，默认 Goal 模式需要 update_goal 显式结案。";
    let mut map = serde_json::Map::new();
    map.insert("status".into(), serde_json::Value::String("complete".into()));
    map.insert("summary".into(), serde_json::Value::String(long.into()));
    let args = serde_json::Value::Object(map).to_string();
    let mut item = tool_item("update_goal", &args, 1);
    item.preview = Some("Goal resolved.".into());

    let collapsed: String = tool_render(&item, false).iter().map(line_str).collect();
    assert!(collapsed.contains("目标收尾"), "{collapsed}");
    assert!(!collapsed.contains("Goal resolved"), "{collapsed}");

    let expanded = tool_render(&item, true);
    let text: String = expanded.iter().map(line_str).collect();
    assert!(
        text.contains("AGENTS.md")
            && text.contains("workspace")
            && text.contains("update_goal")
            && text.contains("显式结案"),
        "expanded body must show full summary: {text}"
    );
    assert!(
        !text.contains("Goal resolved"),
        "must not leak internal preview: {text}"
    );
    assert!(
        expanded.len() > 1,
        "expanded update_goal should add body lines: {expanded:?}"
    );
}

// ---- the composer ----

#[test]
fn composer_window_follows_cursor_above_the_fold() {
    let mut s = test_state();
    let text = (0..12).map(|i| format!("line{i}")).collect::<Vec<_>>().join("\n");
    s.composer.replace(text);
    s.composer.cursor = 0;
    assert_eq!(s.composer.cursor_row_col_display().0, 0);
    let (lines, (_, cy)) = composer_box_lines(&s, 40);
    let text = joined(&lines);
    assert!(
        text.contains("line0"),
        "the visible window must follow the cursor row: {text}"
    );
    assert_eq!(cy, 1, "cursor on first content row under top border");
    assert!(
        lines.len() <= COMPOSER_MAX_ROWS + 2,
        "composer overflowed max rows: {}",
        lines.len()
    );
    assert!(
        text.contains('╭') && text.contains('│') && text.contains('╰'),
        "bordered input expected: {text}"
    );
}

#[test]
fn long_single_line_soft_wraps_inside_box_width() {
    let mut s = test_state();
    s.composer.replace("1".repeat(80));
    let width = 40;
    let (lines, (cx, _cy)) = composer_box_lines(&s, width);
    for line in &lines {
        let w = line.width();
        assert!(
            w <= width,
            "composer row wider than box: width={w} max={width} line={line:?}"
        );
    }
    assert!(
        lines.len() >= 4,
        "expected soft-wrapped multi-row composer, got {} lines",
        lines.len()
    );
    assert!(
        (cx as usize) < width,
        "cursor col {cx} past box width {width}"
    );
}

#[test]
fn empty_composer_shows_a_visual_hint_without_mutating_the_buffer() {
    let s = test_state();
    let text = joined(&composer_box_lines(&s, 48).0);
    assert!(
        text.contains("输入消息") || text.contains("Type a message"),
        "empty composer hint missing: {text}"
    );
    assert!(s.composer.is_empty(), "hint must not enter the input buffer");
}

#[test]
fn composer_hint_hidden_once_conversation_has_turns() {
    let mut s = test_state();
    s.transcript.items.push(TranscriptItem::User("你好".into()));
    let text = joined(&composer_box_lines(&s, 48).0);
    assert!(
        !text.contains("输入消息") && !text.contains("Type a message"),
        "hint should not repeat after real turns: {text}"
    );
}

#[test]
fn composer_shows_slash_arg_ghost_without_mutating_buffer() {
    let mut s = test_state();
    s.composer.replace("/btw ".into());
    let text = joined(&composer_box_lines(&s, 48).0);
    assert!(
        text.contains("<问题>") || text.contains("<question>"),
        "ghost placeholder missing: {text}"
    );
    assert_eq!(
        s.composer.text, "/btw ",
        "ghost must not be written into the buffer"
    );
    s.composer.replace("/btw 你好".into());
    let text = joined(&composer_box_lines(&s, 48).0);
    assert!(
        !text.contains("<问题>") && !text.contains("<question>"),
        "ghost must clear once an argument is typed: {text}"
    );
}

fn chip_state() -> AppState {
    let mut info = boot();
    info.session_id = "sess-abcdef12".into();
    AppState::new(Theme::no_color(), info, true)
}

#[test]
fn trust_chip_is_model_work_permission_session() {
    let mut s = chip_state();
    s.model_label = "deepseek/v4".into();
    s.work_profile = "balanced".into();
    s.mode_label = "Assisted".into();
    s.collaboration = "chat".into();
    assert_eq!(runtime_status_chip(&s, usize::MAX), "v4 · balanced · auto · chat");
    s.work_profile = "delivery".into();
    s.mode_label = "RequestApproval".into();
    s.collaboration = "plan".into();
    assert_eq!(runtime_status_chip(&s, usize::MAX), "v4 · delivery · ask · plan");
}

#[test]
fn trust_chip_flags_ignored_in_repo_config() {
    let mut s = chip_state();
    assert!(
        !runtime_status_chip(&s, usize::MAX).contains('⚠'),
        "clean repo shows no warning"
    );
    s.untrusted_config = vec![".leveler/hooks.yaml".to_string()];
    let chip = runtime_status_chip(&s, usize::MAX);
    assert!(chip.contains('⚠'), "{chip}");
    assert!(
        chip.contains(&s.model_label) && chip.contains("assisted") || chip.contains('·'),
        "the model/permission chip must survive: {chip}"
    );
}

#[test]
fn user_turn_summaries_lists_only_user_messages() {
    let mut s = chip_state();
    s.transcript.items.push(TranscriptItem::User("first".into()));
    s.transcript.items.push(TranscriptItem::Note("system note".into()));
    s.transcript.items.push(TranscriptItem::User("second ask".into()));
    let turns = user_turn_summaries(&s);
    assert_eq!(turns.len(), 2);
    assert_eq!(turns[0].1, "first");
    assert_eq!(turns[1].1, "second ask");
}

#[test]
fn hints_go_away_once_the_user_types() {
    let mut s = test_state();
    assert_eq!(key_hint_line(&s, 80).len(), 1);
    s.composer.replace("x".into());
    assert!(key_hint_line(&s, 80).is_empty());
    s.status = RuntimeStatus::Busy;
    assert!(joined(&key_hint_line(&s, 80)).starts_with("Esc "));
}

#[test]
fn many_attachments_are_counted_and_few_are_named() {
    let mut s = test_state();
    s.pending_attachments = vec!["a.png".into(), "b.png".into()];
    assert_eq!(line_str(&attachments_line(&s)), "[1] a.png  [2] b.png");
    s.pending_attachments.push("c.png".into());
    assert!(line_str(&attachments_line(&s)).starts_with("3 个附件"));
}

// ---- the remote screen ----

fn sample_remote() -> RemoteState {
    RemoteState {
        invite: RemoteInvite {
            qr: vec!["█▀▀█".into(), "█  █".into(), "▀▀▀▀".into()],
            payload: "LV1|rt_test|payload".into(),
            host_fingerprint: "af0f 3032 701b de9e".into(),
            relay_url: "http://172.20.54.97:18443".into(),
        },
        pending: None,
        outcome: None,
    }
}

#[test]
fn remote_screen_shows_title_qr_meta_and_esc_footer() {
    let theme = Theme::dark();
    let t = Locale::Zh.text();
    let lines = remote_screen_lines(&sample_remote(), 72, &theme, &t, Style::plain());
    let text: String = lines.iter().map(line_str).collect();
    assert!(text.contains(t.screen_remote), "title: {text}");
    assert!(text.contains(t.remote_scan_heading), "heading: {text}");
    assert!(text.contains("http://172.20.54.97:18443"), "address: {text}");
    assert!(text.contains("af0f 3032 701b de9e"), "host fp: {text}");
    assert!(text.contains("LV1|rt_test|payload"), "paste payload: {text}");
    assert!(text.contains("Esc"), "Esc footer required: {text}");
    assert!(
        text.contains(t.remote_footer) || text.contains("返回对话"),
        "footer must tell the user Esc returns to chat: {text}"
    );
    assert!(text.contains('┌') && text.contains('└'), "QR frame: {text}");
}

#[test]
fn remote_screen_pending_prompts_yn() {
    let theme = Theme::dark();
    let t = Locale::Zh.text();
    let mut remote = sample_remote();
    remote.pending = Some(PairingRequest {
        device_name: "iPhone".into(),
        platform: "iOS".into(),
        fingerprint: "bb11 cc22".into(),
    });
    let lines = remote_screen_lines(&remote, 72, &theme, &t, Style::plain());
    let text: String = lines.iter().map(line_str).collect();
    assert!(text.contains("iPhone") && text.contains("iOS"), "{text}");
    assert!(text.contains("bb11 cc22"), "{text}");
    assert!(
        text.contains("y ") || text.contains("y接受") || text.contains(t.remote_yn),
        "{text}"
    );
    assert!(text.contains("Esc"), "{text}");
}

#[test]
fn remote_screen_waits_for_its_invite() {
    let mut state = test_state();
    let t = state.t();
    assert!(joined(&remote_lines(&state, 72, Style::plain())).contains(t.remote_preparing));
    state.remote = Some(sample_remote());
    assert!(joined(&remote_lines(&state, 72, Style::plain())).contains("LV1|rt_test|payload"));
}

#[test]
fn wrapped_text_joins_back_to_itself() {
    let text = "LV1|运行|payload|with-a-long-tail";
    let parts = wrap_display(text, 9);
    assert!(parts.len() > 2);
    assert_eq!(parts.concat(), text);
    assert_eq!(center_display("ab", 6), "  ab");
    assert_eq!(pad_to_width("你", 4), "你  ");
}

// ---- tools, diffs and sessions ----

fn calls_state() -> AppState {
    let mut state = test_state();
    let mut failed = tool_item("run_command", r#"{"program":"make"}"#, 40);
    failed.id = "f".into();
    failed.status = ToolStatus::Failed;
    state.transcript.items.push(TranscriptItem::ToolGroup(ToolGroupBlock {
        calls: vec![tool_item("read_file", r#"{"path":"src/lib.rs"}"#, 2), failed],
        open: false,
        expanded: false,
    }));
    state
}

#[test]
fn a_failed_filter_lists_only_failures() {
    let state = calls_state();
    let all = filtered_calls(&state.transcript, ToolFilter::All);
    assert_eq!(all.len(), 2);
    let failed = filtered_calls(&state.transcript, ToolFilter::Failed);
    assert_eq!(failed.len(), 1);
    assert_eq!(failed[0].id, "f");
    assert!(tools_list_title(ToolFilter::All).starts_with(" 工具 · "));
    assert_eq!(tools_focus(9, 2), 1);
    assert_eq!(tools_focus(0, 0), 0);
}

#[test]
fn the_tool_list_marks_the_selected_call() {
    let state = calls_state();
    let calls = filtered_calls(&state.transcript, ToolFilter::All);
    let rows = tools_list_lines(&calls, 1, 60, &state.theme, None);
    assert!(line_str(&rows[0]).starts_with("  "), "{rows:?}");
    assert!(line_str(&rows[1]).starts_with("› "), "{rows:?}");
    assert!(line_str(&rows[0]).contains("src/lib.rs"), "{rows:?}");
    let detail = joined(&tools_detail_lines(&calls, 1, 60, &state.theme));
    assert!(detail.contains("run_command"), "{detail}");
    assert!(detail.contains("需调整") && detail.contains("40ms"), "{detail}");
    let none: Vec<&ToolCallBlock> = Vec::new();
    assert_eq!(joined(&tools_list_lines(&none, 0, 60, &state.theme, None)), "无工具调用");
}

#[test]
fn a_diff_lists_its_files_and_shows_the_selected_patch() {
    let theme = Theme::no_color();
    let t = Locale::En.text();
    let files = vec![
        UiDiffFile { path: "a.rs".into(), added: 1, removed: 0, patch: Some("+one".into()) },
        UiDiffFile { path: "b.rs".into(), added: 2, removed: 3, patch: Some("-two".into()) },
    ];
    let (rows, focus) = diff_list_lines(&files, 1, 40, &theme, &t);
    let text = joined(&rows);
    assert!(text.contains("a.rs") && text.contains("b.rs"), "{text}");
    assert!(line_str(&rows[focus]).contains("b.rs"), "{text}");
    let patch = joined(&diff_detail_lines(&files, 1, 60, &theme, &t));
    assert!(patch.contains("-two") && !patch.contains("+one"), "{patch}");
}

#[test]
fn sessions_show_the_selected_one() {
    let mut state = test_state();
    let t = state.t();
    assert!(joined(&sessions_lines(&state).0).contains(t.sessions_empty));
    let session = |goal: &str| UiSessionSummary {
        goal: goal.into(),
        status: "active".into(),
        model: "m".into(),
    };
    state.sessions = vec![session("first goal"), session("second goal")];
    state.sessions_selected = 1;
    let (rows, focus) = sessions_lines(&state);
    assert!(line_str(&rows[focus]).contains("second goal"), "{rows:?}");
    assert!(line_str(&rows[focus]).starts_with("› "), "{rows:?}");
}

/// An applied diff is the change itself, so the disclosure has no say over it.
#[test]
fn a_long_inline_diff_is_complete_whether_folded_or_expanded() {
    let body: String = (0..40).map(|i| format!("+line {i}\n")).collect();
    let patch = format!("*** Begin Patch\n*** Update File: src/a.rs\n@@\n{body}*** End Patch");
    let item = tool_item("apply_patch", &json_text("patch", &patch), 5);
    for expanded in [false, true] {
        let text = joined(&tool_render(&item, expanded));
        for i in [0usize, 15, 30, 39] {
            assert!(
                text.contains(&format!("line {i}")),
                "expanded={expanded}: {text}"
            );
        }
        assert!(
            !text.contains("完整 Diff"),
            "a complete diff offers nothing to reveal: {text}"
        );
    }
}
