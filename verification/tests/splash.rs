use leveler_tui::i18n::Locale;
use leveler_tui::line::{Color, Line, Span, Style};
use leveler_tui::screen::slash_commands;
use leveler_tui::splash::{
    command_name_col, conversation_is_empty, splash_lines, BrandMark, BrandMarks,
};
use leveler_tui::state::{AppState, Boot};
use leveler_tui::theme::{Theme, ThemeId};
use leveler_tui::transcript::TranscriptItem;
use unicode_width::UnicodeWidthStr;

const TIP_COMMANDS: [&str; 3] = ["/feature-dev", "/model", "/help"];
const INNER_PAD_X: usize = 2;
const MASTER_WIDTH: usize = 13;

fn mark(rows: &[&str], width: usize, theme: &Theme) -> BrandMark {
    BrandMark {
        rows: rows
            .iter()
            .map(|r| Line::of(Span::text(r, Style::fg(theme.accent.primary))))
            .collect(),
        width,
    }
}

/// The level mark in three sizes: a notch, a pier and a runway.
fn marks(theme: &Theme) -> BrandMarks {
    BrandMarks {
        master: mark(
            &[
                "    ██████   ",
                "    ██████   ",
                "██      █████",
                "██      █████",
                "█████████████",
            ],
            MASTER_WIDTH,
            theme,
        ),
        compact: mark(&["  ████  ", "██  ████", "▀▀▀▀▀▀▀▀"], 8, theme),
        micro: mark(&["█ ██", "████"], 4, theme),
    }
}

fn disp_w(s: &str) -> usize {
    UnicodeWidthStr::width(s)
}

fn state(locale: Locale) -> AppState {
    AppState::new(
        Theme::no_color(),
        Boot {
            session_id: "s1".into(),
            user: "u".into(),
            version: "0.1.4".into(),
            show_welcome: true,
            draft_path: None,
            history_path: None,
            context_window: 0,
            locale,
            untrusted_config: Vec::new(),
            reasoning_effort: None,
        },
        true,
    )
}

fn line_plain(line: &Line) -> String {
    line.spans.iter().map(|sp| sp.content.as_str()).collect()
}

fn joined(lines: &[Line]) -> String {
    lines.iter().map(line_plain).collect::<Vec<_>>().join("\n")
}

fn lines_of(s: &AppState, width: usize, height: usize) -> Vec<Line> {
    splash_lines(s, width, height, &s.theme, &s.t(), &marks(&s.theme))
}

fn paint(s: &AppState, width: usize, height: usize) -> String {
    joined(&lines_of(s, width, height))
}

fn box_width(text: &str) -> usize {
    text.lines()
        .filter_map(|l| {
            let t = l.trim_end();
            (t.contains('╭') || t.contains('╰') || t.ends_with('│')).then(|| disp_w(t.trim()))
        })
        .max()
        .unwrap_or(0)
}

fn box_height(text: &str) -> usize {
    text.lines()
        .filter(|l| {
            let t = l.trim_end();
            t.contains('╭') || t.contains('╰') || t.ends_with('│')
        })
        .count()
}

#[test]
fn zh_tagline_not_english() {
    let text = paint(&state(Locale::Zh), 80, 24);
    assert!(text.contains("让模型真正可靠地完成任务"), "{text}");
    assert!(
        !text.contains("Make models reliably complete tasks"),
        "{text}"
    );
    assert!(!text.contains("AI Coding Agent"), "{text}");
}

#[test]
fn en_tagline_not_chinese() {
    let text = paint(&state(Locale::En), 80, 24);
    assert!(
        text.contains("Make models reliably complete tasks"),
        "{text}"
    );
    assert!(!text.contains("让模型真正可靠地完成任务"), "{text}");
    assert!(!text.contains("AI Coding Agent"), "{text}");
}

#[test]
fn zh_cta_and_more() {
    let text = paint(&state(Locale::Zh), 80, 24);
    assert!(text.contains("输入任务，直接开始"), "{text}");
    assert!(text.contains('›'), "cta caret missing: {text}");
    assert!(text.contains("输入 / 查看更多命令"), "{text}");
}

#[test]
fn en_cta_and_more() {
    let text = paint(&state(Locale::En), 80, 24);
    assert!(text.contains("Start by entering a task"), "{text}");
    assert!(text.contains('›'), "{text}");
    assert!(text.contains("Type / for more commands"), "{text}");
}

#[test]
fn both_locales_list_the_three_commands() {
    for locale in [Locale::Zh, Locale::En] {
        let text = paint(&state(locale), 80, 24);
        for cmd in TIP_COMMANDS {
            assert!(text.contains(cmd), "{locale:?} missing {cmd}: {text}");
        }
    }
}

#[test]
fn splash_does_not_list_advanced_commands() {
    for locale in [Locale::Zh, Locale::En] {
        let text = paint(&state(locale), 80, 24);
        for cmd in ["/plan", "/goal", "/skill", "/permission", "/work-mode"] {
            assert!(!text.contains(cmd), "{locale:?} leaked {cmd}: {text}");
        }
    }
}

#[test]
fn slash_registry_still_has_commands_removed_from_splash() {
    for locale in [Locale::Zh, Locale::En] {
        let listed = slash_commands(&locale.text());
        for cmd in ["/plan", "/goal", "/skill", "/permission", "/work-mode"] {
            assert!(
                listed.iter().any(|(n, _)| *n == cmd),
                "{locale:?} registry lost {cmd}"
            );
        }
    }
}

#[test]
fn zh_command_descriptions() {
    let text = paint(&state(Locale::Zh), 80, 24);
    assert!(text.contains("功能实现"), "{text}");
    assert!(text.contains("切换模型"), "{text}");
    assert!(text.contains("查看帮助"), "{text}");
}

#[test]
fn en_command_descriptions() {
    let text = paint(&state(Locale::En), 80, 24);
    assert!(text.contains("Implement a feature"), "{text}");
    assert!(text.contains("Switch model"), "{text}");
    assert!(text.contains("View help"), "{text}");
}

#[test]
fn empty_conversation_is_splash() {
    assert!(conversation_is_empty(&state(Locale::Zh)));
}

#[test]
fn first_user_message_hides_splash() {
    let mut s = state(Locale::Zh);
    s.transcript
        .items
        .push(TranscriptItem::User("hello".into()));
    assert!(!conversation_is_empty(&s));
}

#[test]
fn wide_card_is_a_hero_not_a_hint() {
    let text = paint(&state(Locale::Zh), 120, 36);
    let w = box_width(&text);
    let h = box_height(&text);
    assert!(
        (76..=86).contains(&w),
        "120-col card should be 76–86, got {w}:\n{text}"
    );
    assert!(
        (15..=18).contains(&h),
        "tall viewport card should be ~16 rows, got {h}:\n{text}"
    );
    assert!(
        text.contains("██      █████"),
        "master pier+runway missing:\n{text}"
    );
    assert!(!text.contains('◆'), "ghost core leaked:\n{text}");
    assert!(!text.contains('▿'), "ghost mouth leaked:\n{text}");
}

#[test]
fn medium_uses_compact_mark() {
    let text = paint(&state(Locale::Zh), 64, 20);
    assert!(
        text.contains("██  ████"),
        "compact pier+runway missing:\n{text}"
    );
    assert!(
        !text.contains("    ██████"),
        "master mark leaked into medium:\n{text}"
    );
    assert!(text.contains("CodeLeveler"), "{text}");
}

#[test]
fn narrow_uses_micro_or_hides_mark() {
    let wide = paint(&state(Locale::Zh), 80, 24);
    assert!(wide.contains("    ██████"), "master on wide:\n{wide}");
    let narrow = paint(&state(Locale::Zh), 48, 16);
    assert!(narrow.contains("CodeLeveler"), "{narrow}");
    assert!(narrow.contains("/feature-dev"), "{narrow}");
    assert!(
        !narrow.contains("    ██████"),
        "master leaked into narrow:\n{narrow}"
    );
    assert!(!narrow.contains('◆'), "{narrow}");
}

#[test]
fn very_narrow_keeps_wordmark_over_mark() {
    let s = state(Locale::Zh);
    let text = paint(&s, 40, 16);
    assert!(text.contains("CodeLeveler"), "{text}");
    assert!(text.contains("让模型真正可靠地完成任务"), "{text}");
    assert!(text.contains("/feature-dev"), "{text}");
    assert!(
        !text.contains("    ██████"),
        "master leaked into 40-col:\n{text}"
    );
}

#[test]
fn wordmark_is_codeleveler_not_screaming() {
    let text = paint(&state(Locale::Zh), 80, 24);
    assert!(text.contains("CodeLeveler"), "{text}");
    assert!(!text.contains("CODELEVELER"), "{text}");
    assert!(!text.contains("Code Leveler"), "{text}");
}

#[test]
fn width_matrix_does_not_overflow_or_overlap() {
    let name_col = command_name_col();
    for locale in [Locale::Zh, Locale::En] {
        let s = state(locale);
        for width in [120, 100, 80, 72, 64, 56, 48, 40] {
            let lines = lines_of(&s, width, 24);
            let text = joined(&lines);
            for cmd in TIP_COMMANDS {
                assert!(text.contains(cmd), "{locale:?} {width}: missing {cmd}");
            }
            for line in &lines {
                let plain = line_plain(line);
                let w = disp_w(plain.trim_end());
                assert!(w <= width, "{locale:?} w={width} overflow {w}: {plain:?}");
                if let Some(pos) = plain.find("/feature-dev") {
                    let after = &plain[pos + "/feature-dev".len()..];
                    let pad = after.chars().take_while(|c| *c == ' ').count();
                    let start = "/feature-dev".len() + pad;
                    assert!(
                        start >= name_col || after.trim_start().is_empty(),
                        "{locale:?} w={width} desc overlaps name: {plain:?}"
                    );
                }
            }
        }
    }
}

#[test]
fn height_matrix_does_not_panic() {
    for locale in [Locale::Zh, Locale::En] {
        let s = state(locale);
        for height in [36, 24, 20, 16, 12] {
            let text = paint(&s, 80, height);
            assert!(text.contains("CodeLeveler"), "{locale:?} h={height}");
            assert!(text.contains("/feature-dev"), "{locale:?} h={height}");
        }
    }
}

#[test]
fn themes_use_only_semantic_tokens() {
    for id in ThemeId::FIXED {
        let theme = Theme::named(id, true);
        let mut s = state(Locale::Zh);
        s.theme = theme;
        let lines = lines_of(&s, 80, 24);
        let allowed = [
            theme.accent.primary,
            theme.text.primary,
            theme.text.secondary,
            theme.text.muted,
            theme.border.subtle,
            theme.border.normal,
            theme.status.warning,
        ];
        for line in &lines {
            for span in &line.spans {
                if let Some(fg) = span.style.fg {
                    assert!(
                        allowed.contains(&fg) || fg == Color::Reset,
                        "{id:?} unexpected fg {fg:?} on {:?}",
                        span.content
                    );
                }
            }
        }
    }
}

#[test]
fn splash_warns_about_ignored_in_repo_config() {
    let mut s = state(Locale::Zh);
    let clean = paint(&s, 80, 24);
    assert!(!clean.contains('⚠'), "clean repo shows no warning: {clean}");

    s.untrusted_config = vec![".leveler/hooks.yaml".to_string()];
    let text = paint(&s, 80, 24);
    assert!(text.contains('⚠'), "{text}");
    assert!(text.contains("hooks.yaml"), "name the file: {text}");
    assert!(text.contains("leveler trust"), "name the fix: {text}");
}

#[test]
fn warning_rows_keep_the_box_aligned() {
    let mut s = state(Locale::Zh);
    s.untrusted_config = vec![
        ".leveler/hooks.yaml".to_string(),
        ".leveler/permissions.yaml".to_string(),
    ];
    assert_box_aligned(&lines_of(&s, 80, 24));
}

#[test]
fn box_rows_are_width_aligned() {
    let s = state(Locale::Zh);
    assert_box_aligned(&lines_of(&s, 80, 24));
    let s = state(Locale::En);
    assert_box_aligned(&lines_of(&s, 80, 24));
}

fn assert_box_aligned(lines: &[Line]) {
    let edges: Vec<usize> = lines
        .iter()
        .filter_map(|l| {
            let plain = line_plain(l);
            let trimmed = plain.trim_end();
            (trimmed.ends_with('│') || trimmed.ends_with('╮') || trimmed.ends_with('╯'))
                .then(|| disp_w(trimmed))
        })
        .collect();
    assert!(edges.len() >= 5, "{edges:?}");
    assert!(
        edges.iter().all(|w| *w == edges[0]),
        "right borders misaligned: {edges:?}"
    );
}

#[test]
fn narrow_terminal_keeps_copy_without_panic() {
    let s = state(Locale::Zh);
    let text = paint(&s, 40, 16);
    assert!(text.contains("CodeLeveler"), "{text}");
    assert!(text.contains("让模型真正可靠地完成任务"), "{text}");
    assert!(text.contains("/feature-dev"), "{text}");
}

fn col_of(line: &str, needle: &str) -> Option<usize> {
    let i = line.find(needle)?;
    Some(disp_w(&line[..i]))
}

fn first_pipe(line: &str) -> Option<usize> {
    col_of(line, "│")
}

fn last_pipe(line: &str) -> Option<usize> {
    let i = line.rfind('│')?;
    Some(disp_w(&line[..i]))
}

/// Horizontal geometry of the hero group inside the card.
fn hero_group_metrics(text: &str) -> Option<(usize, usize, usize, usize, usize)> {
    let runway = text.lines().find(|l| l.contains("██      █████"))?;
    let brand = text.lines().find(|l| l.contains("CodeLeveler"))?;
    let mark_left = col_of(runway, "██      █████")?;
    let content_x = col_of(brand, "CodeLeveler")?;
    let inner_left = first_pipe(brand)? + 1 + INNER_PAD_X;
    let inner_right = last_pipe(brand)?.saturating_sub(INNER_PAD_X);
    Some((mark_left, content_x, inner_left, inner_right, MASTER_WIDTH))
}

fn blank_inner(line: &str) -> bool {
    let Some(l) = first_pipe(line) else {
        return false;
    };
    let Some(r) = last_pipe(line) else {
        return false;
    };
    if r <= l + 1 {
        return true;
    }
    let inner_start = line.find('│').unwrap() + '│'.len_utf8();
    let inner_end = line.rfind('│').unwrap();
    line[inner_start..inner_end].chars().all(|c| c == ' ')
}

#[test]
fn hero_group_is_centered_in_the_card() {
    for locale in [Locale::Zh, Locale::En] {
        for (w, h) in [(120usize, 36usize), (100, 30), (80, 24)] {
            let text = paint(&state(locale), w, h);
            let (mark_left, content_x, inner_left, inner_right, mark_w) =
                hero_group_metrics(&text).unwrap_or_else(|| panic!("{locale:?} {w}x{h}:\n{text}"));
            let gap = content_x.saturating_sub(mark_left + mark_w);
            assert!(
                (4..=5).contains(&gap),
                "{locale:?} {w}x{h} gap {gap} (mark_left={mark_left} content_x={content_x}):\n{text}"
            );
            let content_w = 42; // wide content column
            let group_w = mark_w + gap + content_w;
            assert!(
                (58..=64).contains(&group_w),
                "{locale:?} {w}x{h} group_w {group_w}:\n{text}"
            );
            let left_slack = mark_left.saturating_sub(inner_left);
            let right_slack = inner_right.saturating_sub(mark_left + group_w);
            let drift = left_slack as i32 - right_slack as i32;
            assert!(
                drift.abs() <= 1,
                "{locale:?} {w}x{h} group not centered (left_slack={left_slack} right_slack={right_slack} drift={drift}):\n{text}"
            );
        }
    }
}

#[test]
fn main_content_shares_one_left_edge() {
    for locale in [Locale::Zh, Locale::En] {
        let mut s = state(locale);
        s.untrusted_config = vec![".leveler/hooks.yaml".to_string()];
        let text = paint(&s, 120, 36);
        let brand_x = col_of(
            text.lines().find(|l| l.contains("CodeLeveler")).unwrap(),
            "CodeLeveler",
        )
        .unwrap();
        let cta_x = col_of(text.lines().find(|l| l.contains('›')).unwrap(), "›").unwrap();
        let cmd_x = col_of(
            text.lines().find(|l| l.contains("/feature-dev")).unwrap(),
            "/feature-dev",
        )
        .unwrap();
        let more_x = text
            .lines()
            .find_map(|l| col_of(l, "输入 /").or_else(|| col_of(l, "Type /")))
            .unwrap();
        let warn_x = col_of(text.lines().find(|l| l.contains('⚠')).unwrap(), "⚠").unwrap();
        assert_eq!(brand_x, cta_x, "cta drifted:\n{text}");
        assert_eq!(brand_x, cmd_x, "commands drifted:\n{text}");
        assert_eq!(brand_x, more_x, "more hint drifted:\n{text}");
        assert_eq!(brand_x, warn_x, "warning drifted:\n{text}");
    }
}

#[test]
fn warning_is_its_own_section_and_does_not_leave_a_hole() {
    let mut s = state(Locale::Zh);
    let off = paint(&s, 120, 36);
    s.untrusted_config = vec![".leveler/hooks.yaml".to_string()];
    let on = paint(&s, 120, 36);

    assert!(!off.contains('⚠'), "{off}");
    assert!(on.contains('⚠'), "{on}");

    let more_idx = on
        .lines()
        .position(|l| l.contains("输入 /") || l.contains("Type /"))
        .unwrap();
    let warn_idx = on.lines().position(|l| l.contains('⚠')).unwrap();
    assert!(
        warn_idx >= more_idx + 2,
        "need a blank row between more and warning:\n{on}"
    );
    assert!(
        on.lines().nth(more_idx + 1).is_some_and(blank_inner),
        "row after more should be blank:\n{on}"
    );

    let off_body = off
        .lines()
        .filter(|l| !blank_inner(l) && l.contains('│'))
        .count();
    let on_body = on
        .lines()
        .filter(|l| !blank_inner(l) && l.contains('│'))
        .count();
    assert!(
        on_body > off_body,
        "warning should add real rows, not fill a reserved hole (off={off_body} on={on_body})\nOFF:\n{off}\nON:\n{on}"
    );

    // No warning-sized hole when hidden: last non-blank inner row is the more hint.
    let off_lines: Vec<&str> = off.lines().collect();
    let last_content = off_lines
        .iter()
        .rposition(|l| l.contains('│') && !blank_inner(l))
        .unwrap();
    assert!(
        off_lines[last_content].contains("输入 /") || off_lines[last_content].contains("Type /"),
        "hidden warning left a hole after more:\n{off}"
    );
}

#[test]
fn card_stays_hero_sized_when_group_is_centered() {
    for (w, h) in [(120usize, 36usize), (100, 30), (80, 24)] {
        let text = paint(&state(Locale::Zh), w, h);
        let bw = box_width(&text);
        let bh = box_height(&text);
        assert!(
            (76..=86).contains(&bw),
            "{w}x{h} card width {bw} shrank:\n{text}"
        );
        assert!(
            (15..=18).contains(&bh),
            "{w}x{h} card height {bh} is not a hero:\n{text}"
        );
    }
}

#[test]
fn more_commands_slash_uses_accent_token() {
    let theme = Theme::dark();
    let mut s = state(Locale::Zh);
    s.theme = theme;
    let lines = lines_of(&s, 80, 24);
    let mut saw_slash = false;
    for line in &lines {
        for span in &line.spans {
            if span.content.as_str() == "/" {
                saw_slash = true;
                assert_eq!(span.style.fg, Some(theme.accent.primary));
            }
        }
    }
    assert!(saw_slash, "more-commands slash missing");
}
