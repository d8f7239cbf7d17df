use leveler_tui::render::text::{
    elide_head, pad_display, sanitize_terminal_line, take_display_prefix, truncate_display, wrap,
};
use unicode_width::UnicodeWidthStr;

#[test]
fn a_cut_path_keeps_its_tail_and_says_it_was_cut() {
    let out = elide_head("/a/very/long/prefix/scratchpad/h-inv", 20);
    assert!(out.starts_with('…'), "{out:?}");
    assert!(out.ends_with("h-inv"), "{out:?}");
    assert!(UnicodeWidthStr::width(out.as_str()) <= 20, "{out:?}");
}

#[test]
fn a_path_that_fits_is_left_alone() {
    assert_eq!(elide_head("/repo", 20), "/repo");
}

#[test]
fn eliding_measures_by_width_not_char_count() {
    let out = elide_head("前缀很长啊啊啊/仓库", 10);
    assert!(UnicodeWidthStr::width(out.as_str()) <= 10, "{out:?}");
    assert!(out.ends_with("仓库"), "{out:?}");
}

#[test]
fn a_label_column_lines_up_across_scripts() {
    for label in ["状态", "运行时长", "退出码", "exit"] {
        assert_eq!(UnicodeWidthStr::width(pad_display(label, 12).as_str()), 12);
    }
}

#[test]
fn a_label_wider_than_its_column_is_left_alone() {
    assert_eq!(pad_display("运行时长", 4), "运行时长");
}

#[test]
fn wrapping_breaks_between_words_and_keeps_newlines() {
    assert_eq!(wrap("alpha beta gamma", 11), vec!["alpha beta", "gamma"]);
    assert_eq!(wrap("a\n\nb", 10), vec!["a", "", "b"]);
    assert_eq!(wrap("", 10), vec![""]);
}

#[test]
fn a_prefix_takes_what_fits() {
    let (head, rest) = take_display_prefix("你好 world", 5);
    assert_eq!(head, "你好 ");
    assert_eq!(rest, "world");
}

#[test]
fn cleaning_twice_changes_nothing_more() {
    let once = sanitize_terminal_line("a\tb\u{7}c");
    assert_eq!(once, "a       b c");
    assert_eq!(sanitize_terminal_line(&once), once);
    assert_eq!(truncate_display("abcdef", 4), "abc…");
}
