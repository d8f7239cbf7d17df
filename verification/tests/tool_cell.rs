use leveler_tui::i18n::Locale;
use leveler_tui::theme::Theme;
use leveler_tui::seconds::seconds_text;
use leveler_tui::tool_cell::{
    compact_home_in_text, compact_path_for_summary, compact_tool_heading, inline_diff_lines,
    noisy_success_tool, patch_touched_files, shell_token_len, strip_leading_cd_chain,
    tool_action_label, tool_action_label_for, tool_argument_lines, tool_lines,
    tool_summary as summary_at_home, tool_summary_for, tools_footer_hint,
};
use leveler_tui::transcript::{StopRequest, ToolCallBlock, ToolStatus};
use unicode_width::UnicodeWidthStr;

const HOME: Option<&str> = Some("/Users/example");

fn tool_summary(name: &str, arguments: &str) -> String {
    summary_at_home(name, arguments, HOME)
}

#[test]
fn compact_heading_read_edit_run() {
    let read = compact_tool_heading(
        ToolStatus::Succeeded,
        "read_file",
        r#"{"path":"src/lib.rs","start_line":1,"end_line":10}"#,
        Locale::En,
        HOME,
    );
    assert!(read.starts_with('✓'), "{read}");
    assert!(read.contains("Read"), "{read}");
    assert!(read.contains("src/lib.rs"), "{read}");

    let edit = compact_tool_heading(
        ToolStatus::Succeeded,
        "apply_patch",
        r#"{"patch":"*** Begin Patch\n*** Update File: crates/leveler-tui/src/theme.rs\n*** End Patch"}"#,
        Locale::En,
        HOME,
    );
    assert!(edit.contains("Edit"), "{edit}");
    assert!(
        edit.contains("theme.rs") || edit.contains("leveler-tui"),
        "{edit}"
    );

    let run = compact_tool_heading(
        ToolStatus::Running,
        "run_command",
        r#"{"program":"cargo","args":["test","-p","leveler-tui"]}"#,
        Locale::En,
        HOME,
    );
    assert!(run.starts_with('●'), "{run}");
    assert!(run.contains("Run"), "{run}");
    assert!(run.contains("cargo test"), "{run}");
}

#[test]
fn presentation_labels_match_taxonomy() {
    assert_eq!(tool_action_label("read_file"), "读取");
    assert_eq!(tool_action_label_for("run_command", Locale::En), "Run");
    assert_eq!(tool_action_label_for("run_command", Locale::Zh), "执行");
    assert_eq!(tool_action_label_for("apply_patch", Locale::Zh), "编辑");
}

#[test]
fn tools_footer_hint_fits_available_width() {
    for width in [8, 16, 24, 32, 48, 80] {
        let hint = tools_footer_hint(width);
        assert!(
            UnicodeWidthStr::width(hint.as_str()) <= width,
            "footer `{hint}` should fit in {width} columns"
        );
    }

    assert!(tools_footer_hint(32).contains("Esc 返回"));
}

fn failed_block(preview: &str) -> ToolCallBlock {
    ToolCallBlock {
        id: "c1".to_string(),
        name: "run_command".to_string(),
        arguments: "{}".to_string(),
        status: ToolStatus::Failed,
        stop: StopRequest::NotSent,
        preview: Some(preview.to_string()),
        duration_ms: None,
    }
}

#[test]
fn a_failed_command_collapses_by_default_showing_only_its_first_line() {
    // Default is collapsed for everything, failures included: show the first
    // line (usually the error) + a Ctrl+O hint, never the whole dump.
    let preview: String = (0..40)
        .map(|i| format!("usage line {i}"))
        .collect::<Vec<_>>()
        .join("\n");
    let mut out = Vec::new();
    tool_lines(
        &failed_block(&preview),
        &Theme::no_color(),
        80,
        false,
        &Locale::Zh.text(),
        HOME,
        &mut out,
    );
    let text: Vec<String> = out.iter().map(|l| l.to_text()).collect();
    let body = text.iter().filter(|l| l.contains("usage line")).count();
    assert_eq!(body, 1, "collapsed shows only the first line: {text:?}");
    assert!(
        text.iter()
            .any(|l| l.contains("+39 行") && l.contains("Ctrl+O")),
        "must hint how to expand: {text:?}"
    );
}

#[test]
fn user_ctrl_o_expand_shows_the_full_tail() {
    let preview: String = (0..40)
        .map(|i| format!("usage line {i}"))
        .collect::<Vec<_>>()
        .join("\n");
    let mut out = Vec::new();
    tool_lines(
        &failed_block(&preview),
        &Theme::no_color(),
        80,
        true,
        &Locale::Zh.text(),
        HOME,
        &mut out,
    );
    let body = out
        .iter()
        .filter(|l| l.to_text().contains("usage line"))
        .count();
    // Expanded is hard-capped so runaway logs cannot flood the footer.
    assert_eq!(body, 24, "user expand shows up to the footer cap: {body}");
    assert!(
        out.iter()
            .any(|l| l.to_text().contains("还有") && l.to_text().contains("16")),
        "must note remaining lines: {out:?}"
    );
}

#[test]
fn tool_argument_lines_pretty_prints_json_object() {
    let theme = Theme::no_color();
    let lines = tool_argument_lines(
        r#"{"end_line":1,"path":"package.json","start_line":1}"#,
        &theme,
        80,
    );
    let rendered: Vec<String> = lines.into_iter().map(|line| line.to_text()).collect();

    assert_eq!(rendered[0], "参数");
    assert!(rendered.iter().any(|line| line == "  path: package.json"));
    assert!(rendered.iter().any(|line| line == "  start_line: 1"));
    assert!(rendered.iter().any(|line| line == "  end_line: 1"));
}

#[test]
fn unsupported_task_call_is_actionable_instead_of_raw() {
    let block = ToolCallBlock {
        id: "task-1".to_string(),
        name: "task".into(),
        arguments: r#"{"description":"Explore provider architecture","prompt":"Read the core client files"}"#.into(),
        status: ToolStatus::Failed,
        stop: StopRequest::NotSent,
        preview: Some("tool error: unknown tool `task`".into()),
        duration_ms: None,
    };
    let mut out = Vec::new();
    tool_lines(
        &block,
        &Theme::no_color(),
        80,
        false,
        &Locale::Zh.text(),
        HOME,
        &mut out,
    );
    let text = out
        .iter()
        .map(|line| line.to_text())
        .collect::<Vec<_>>()
        .join("\n");

    assert!(
        text.contains("委派（不支持）") && text.contains("Explore provider architecture"),
        "{text}"
    );
    assert!(text.contains("不支持 task，请改用 spawn_agent"), "{text}");
    assert!(!text.contains("{\"description\""), "{text}");
    assert!(!text.contains("unknown tool"), "{text}");
}

#[test]
fn tool_summary_compacts_absolute_project_paths() {
    let read = tool_summary(
        "read_file",
        r#"{"path":"/Users/example/projects/sample-project/src/upstream/openaiCompatClient.ts","start_line":1,"end_line":20}"#,
    );
    assert_eq!(read, "src/upstream/openaiCompatClient.ts:1-20");

    let grep = tool_summary(
        "grep",
        r#"{"pattern":"retry","path":"/Users/example/projects/sample-project/test/upstream.retry.test.ts"}"#,
    );
    assert_eq!(grep, r#""retry" in test/upstream.retry.test.ts"#);

    let root_file = tool_summary(
        "read_file",
        r#"{"path":"/Users/example/projects/sample-project/package.json"}"#,
    );
    assert_eq!(root_file, "package.json");
}

#[test]
fn shell_command_shows_cmd_not_raw_json() {
    let s = tool_summary("shell_command", r#"{"cmd":"cargo test --workspace"}"#);
    assert_eq!(s, "cargo test --workspace");
    assert!(!s.contains('{'), "{s}");
    assert!(!s.contains("cmd"), "{s}");
}

#[test]
fn shell_command_strips_leading_cd_and_compacts_home() {
    let home = "/Users/example";
    let args =
        format!(r#"{{"cmd":"cd {home}/Develop/app/codeleveler && make run-admin-local"}}"#);
    let s = tool_summary("shell_command", &args);
    assert_eq!(s, "make run-admin-local");
    assert!(!s.contains(home), "must not leak absolute home path: {s}");
    assert!(!s.contains('{'), "{s}");
}

#[test]
fn run_command_unwraps_bash_c_and_strips_cd() {
    let home = "/Users/example";
    let args = format!(
        r#"{{"program":"bash","args":["-c","cd {home}/Develop/app/codeleveler && cargo test -q"]}}"#
    );
    let s = tool_summary("run_command", &args);
    assert_eq!(s, "cargo test -q");
}

#[test]
fn unknown_tool_never_dumps_raw_json_arguments() {
    let s = tool_summary(
        "custom_mcp_tool",
        r#"{"path":"/Users/example/projects/sample-project/src/lib.rs","verbose":true}"#,
    );
    assert!(!s.contains('{'), "raw JSON leaked: {s}");
    assert!(s.contains("lib.rs") || s.contains("src/"), "{s}");
}

#[test]
fn arguments_that_say_nothing_or_cannot_be_read_are_not_shown() {
    assert_eq!(tool_summary("custom_mcp_tool", r#"{"verbose":true}"#), "");
    assert_eq!(tool_summary("custom_mcp_tool", r#"  {"path": "#), "");
    assert_eq!(tool_summary("custom_mcp_tool", r#"["src/lib.rs""#), "");
}

#[test]
fn replace_summary_prefers_target_path_over_raw_json() {
    let summary = tool_summary(
        "replace",
        r#"{"path":"/Users/example/projects/sample-project/test/doctor.test.ts","old":"before","new":"after"}"#,
    );
    assert_eq!(summary, "test/doctor.test.ts");
}

#[test]
fn replace_summary_without_path_stays_human_readable() {
    let summary = tool_summary(
        "replace",
        r#"{"new":"    expect(provItem.message).toContain(\"key OK\")","old":"    expect(provItem.message).toContain(\"ok\")"}"#,
    );
    assert_eq!(summary, "文本替换");
}

#[test]
fn replace_summary_with_invalid_json_stays_human_readable() {
    let summary = tool_summary(
        "replace",
        "{\"old\":\"before\",\"new\":\"after with\nraw newline\"}",
    );
    assert_eq!(summary, "文本替换");
}

#[test]
fn apply_patch_summary_without_file_stays_human_readable() {
    let summary = tool_summary("apply_patch", "*** Begin Patch\nnot a patch\n*** End Patch");
    assert_eq!(summary, "补丁");
}

#[test]
fn apply_patch_summary_handles_indented_patch_headers() {
    let summary = tool_summary(
        "apply_patch",
        r#"{"patch":"*** Begin Patch\n  *** Update File: /Users/example/projects/sample-project/src/doctor.ts\n@@\n-old\n+new\n*** End Patch"}"#,
    );
    assert_eq!(summary, "src/doctor.ts");
}

#[test]
fn apply_patch_summary_handles_unified_diff_paths() {
    let summary = tool_summary(
        "apply_patch",
        r#"{"patch":"diff --git a/src/doctor.ts b/src/doctor.ts\n--- a/src/doctor.ts\n+++ b/src/doctor.ts\n@@\n-old\n+new"}"#,
    );
    assert_eq!(summary, "src/doctor.ts");
}

#[test]
fn apply_patch_summary_scans_json_string_values_for_patch_text() {
    let summary = tool_summary(
        "apply_patch",
        r#"{"input":"*** Begin Patch\n*** Update File: test/doctor.test.ts\n@@\n-old\n+new\n*** End Patch"}"#,
    );
    assert_eq!(summary, "test/doctor.test.ts");
}

#[test]
fn apply_patch_summary_scans_nested_json_string_values_for_patch_text() {
    let summary = tool_summary(
        "apply_patch",
        r#"{"input":{"patch":"*** Begin Patch\n*** Update File: src/cli.ts\n@@\n-old\n+new\n*** End Patch"}}"#,
    );
    assert_eq!(summary, "src/cli.ts");
}

#[test]
fn the_joining_word_follows_the_locale() {
    let args = r#"{"pattern":"TODO","path":"crates"}"#;
    let en = tool_summary_for("grep", args, &Locale::En.text(), HOME);
    assert_eq!(en, "\"TODO\" in crates");
    let zh = tool_summary_for("grep", args, &Locale::Zh.text(), HOME);
    assert_eq!(zh, "\"TODO\" 于 crates");
}

#[test]
fn long_paths_and_home_are_compacted() {
    assert_eq!(
        compact_path_for_summary("/Users/example/projects/sample-project/package.json"),
        "package.json"
    );
    assert_eq!(compact_path_for_summary("src/lib.rs"), "src/lib.rs");
    assert_eq!(compact_home_in_text("ls /Users/example/x", HOME), "ls ~/x");
    assert_eq!(compact_home_in_text("ls /Users/example/x", None), "ls /Users/example/x");
}

#[test]
fn a_leading_cd_chain_is_dropped() {
    assert_eq!(strip_leading_cd_chain("cd /a && cd 'b c' && make"), "make");
    assert_eq!(strip_leading_cd_chain("make cd"), "make cd");
    assert_eq!(shell_token_len("'a b' c"), 5);
    assert_eq!(shell_token_len("ab c"), 2);
}

#[test]
fn a_patch_names_every_file_it_touches_once() {
    let patch = "*** Begin Patch\n*** Update File: a.rs\n*** Add File: b.rs\n*** Update File: a.rs\n*** End Patch";
    let files = patch_touched_files(patch);
    assert!(files.contains(&"a.rs".to_string()) && files.contains(&"b.rs".to_string()));
    let mut out = Vec::new();
    inline_diff_lines(patch, &Theme::no_color(), 60, &mut out);
    let text: String = out.iter().map(|l| l.to_text()).collect();
    assert!(!text.contains("Begin Patch"), "{text}");
}

#[test]
fn reads_are_noise_once_they_succeed() {
    assert!(noisy_success_tool("read_file"));
    assert!(!noisy_success_tool("run_command"));
}

#[test]
fn seconds_are_rounded_as_binary_fractions() {
    for ms in (0u64..3000).chain([12_950, 13_050, 59_949, 1 << 40, (1 << 53) + 1, u64::MAX]) {
        assert_eq!(seconds_text(ms), format!("{:.1}", ms as f64 / 1000.0), "{ms}");
    }
    assert_eq!(seconds_text(350), "0.3");
}
