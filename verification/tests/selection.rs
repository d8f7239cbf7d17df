use leveler_tui::line::{Color, Line, Span, Style};
use leveler_tui::selection::{
    apply_selection_highlight, extract_selected_text, line_to_plain, slice_display_cols, TextPos,
    TextSelection,
};
use leveler_tui::theme::Theme;
use unicode_width::UnicodeWidthStr;

#[test]
fn extract_single_line_range() {
    let lines = vec!["hello world".into()];
    let mut sel = TextSelection::default();
    sel.begin(TextPos { row: 0, col: 6 });
    sel.extend(TextPos { row: 0, col: 11 });
    sel.finish();
    assert_eq!(extract_selected_text(&lines, &sel), "world");
}

#[test]
fn extract_multi_line() {
    let lines = vec!["aaa".into(), "bbb".into(), "ccc".into()];
    let mut sel = TextSelection::default();
    sel.begin(TextPos { row: 0, col: 1 });
    sel.extend(TextPos { row: 2, col: 2 });
    assert_eq!(extract_selected_text(&lines, &sel), "aa\nbbb\ncc");
}

#[test]
fn reversed_drag_normalizes() {
    let lines = vec!["abcdef".into()];
    let mut sel = TextSelection::default();
    sel.begin(TextPos { row: 0, col: 5 });
    sel.extend(TextPos { row: 0, col: 1 });
    assert_eq!(extract_selected_text(&lines, &sel), "bcde");
}

#[test]
fn highlight_preserves_unselected_styles_and_width() {
    let theme = Theme::no_color();
    let line = Line::from(vec![
        Span::text("hello ", Style::fg(Color::Yellow)),
        Span::text("world", Style::fg(Color::Cyan)),
    ]);
    let mut sel = TextSelection::default();
    // Select only "wor" inside the second span (cols 6..9).
    sel.begin(TextPos { row: 0, col: 6 });
    sel.extend(TextPos { row: 0, col: 9 });
    let out = apply_selection_highlight(line, 0, &sel, &theme);
    let plain: String = out.spans.iter().map(|s| s.content.as_str()).collect();
    assert_eq!(plain, "hello world");
    // First span (unselected) must keep yellow.
    assert_eq!(out.spans[0].style.fg, Some(Color::Yellow));
    assert_eq!(out.spans[0].content.as_str(), "hello ");
    // Selected mid keeps cyan fg (not forced muted).
    assert!(
        out.spans
            .iter()
            .any(|s| s.content.as_str() == "wor" && s.style.bg.is_some()),
        "selected mid must have bg: {out:?}"
    );
    // No bold on selection (was a source of terminal reflow).
    assert!(
        out.spans.iter().all(|s| !s.style.bold),
        "selection must not add BOLD: {out:?}"
    );
}

#[test]
fn highlight_no_duplicate_when_boundary_splits_wide_glyph() {
    // Drag end lands in the middle of the trailing full-width "？" (cols 26..28).
    // The glyph must not be emitted twice (once highlighted, once not).
    let theme = Theme::no_color();
    let text = "你好！有什么需要帮忙的吗？";
    let line = Line::of(Span::raw(text));
    let full_w = UnicodeWidthStr::width(text);
    let mut sel = TextSelection::default();
    sel.begin(TextPos { row: 0, col: 0 });
    // Odd column inside the last wide glyph.
    sel.extend(TextPos {
        row: 0,
        col: full_w - 1,
    });
    let out = apply_selection_highlight(line, 0, &sel, &theme);
    let plain: String = out.spans.iter().map(|s| s.content.as_str()).collect();
    assert_eq!(plain, text, "highlighted line must not duplicate the glyph");
    assert_eq!(UnicodeWidthStr::width(plain.as_str()), full_w);
}

#[test]
fn is_active_while_dragging_or_painted() {
    let mut sel = TextSelection::default();
    assert!(!sel.is_active());
    sel.begin(TextPos { row: 0, col: 0 });
    assert!(sel.is_active());
    sel.extend(TextPos { row: 0, col: 3 });
    sel.finish();
    assert!(sel.is_active());
    sel.clear();
    assert!(!sel.is_active());
}

#[test]
fn a_slice_takes_every_cluster_it_touches() {
    assert_eq!(slice_display_cols("a你b", 0, 2), "a你");
    assert_eq!(slice_display_cols("a你b", 2, 3), "你");
    assert_eq!(slice_display_cols("a你b", 3, 3), "");
    assert_eq!(slice_display_cols("👨‍👩‍👧x", 0, 1), "👨‍👩‍👧");
}

#[test]
fn what_is_highlighted_is_what_is_copied() {
    let text = "甲乙丙丁";
    let mut sel = TextSelection::default();
    sel.begin(TextPos { row: 0, col: 3 });
    sel.extend(TextPos { row: 0, col: 5 });
    let out = apply_selection_highlight(Line::of(Span::raw(text)), 0, &sel, &Theme::dark());
    let lit: String = out
        .spans
        .iter()
        .filter(|s| s.style.bg.is_some())
        .map(|s| s.content.as_str())
        .collect();
    assert_eq!(lit, extract_selected_text(&vec![text.to_string()], &sel));
    assert_eq!(lit, "乙丙");
    assert_eq!(line_to_plain(&out), text);
}

#[test]
fn a_click_selects_nothing() {
    let mut sel = TextSelection::default();
    sel.begin(TextPos { row: 4, col: 2 });
    sel.finish();
    assert!(sel.range().is_none());
    sel.extend(TextPos { row: 5, col: 0 });
    assert!(sel.range().is_none(), "nothing to extend");
}
