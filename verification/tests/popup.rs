use leveler_tui::geometry::Rect;
use leveler_tui::i18n::Locale;
use leveler_tui::line::{Color, Style};
use leveler_tui::render::popup::{
    slash_popup_cells, slash_popup_columns, slash_popup_content_width, slash_popup_geometry,
    slash_popup_match_rows, slash_popup_paint, slash_popup_row,
};
use leveler_tui::state::{AppState, Boot};
use leveler_tui::theme::Theme;
use ratatui::backend::TestBackend;
use ratatui::buffer::Buffer;
use ratatui::widgets::{Block, Borders, Clear, Paragraph};
use ratatui::Terminal;
use unicode_width::{UnicodeWidthChar, UnicodeWidthStr};

const SLASH_COMMAND_COL: usize = 14;
const SLASH_COL_GAP: usize = 1;

fn owned(names: &[&str]) -> Vec<String> {
    names.iter().map(|n| n.to_string()).collect()
}

#[test]
fn content_width_subtracts_border_and_padding() {
    assert_eq!(slash_popup_content_width(80), 76);
    assert_eq!(slash_popup_content_width(46), 42);
}

#[test]
fn descriptions_share_one_column() {
    let names = ["/model", "/permission", "/work-mode"];
    let content_w = 40;
    let (command_col, _) = slash_popup_columns(content_w, &owned(&names));
    assert_eq!(command_col, SLASH_COMMAND_COL);
    let start = command_col + SLASH_COL_GAP;
    for name in names {
        let row = slash_popup_row(name, "标签", content_w, &owned(&names));
        let prefix_w: usize = row
            .chars()
            .scan(0usize, |acc, ch| {
                if *acc >= start {
                    return None;
                }
                *acc += UnicodeWidthChar::width(ch).unwrap_or(0);
                Some(*acc)
            })
            .last()
            .unwrap_or(0);
        assert!(
            prefix_w >= start,
            "{name} description should start at col {start}: {row:?}"
        );
        let desc_start = row
            .chars()
            .scan(0usize, |acc, ch| {
                let at = *acc;
                *acc += UnicodeWidthChar::width(ch).unwrap_or(0);
                Some((at, ch))
            })
            .find(|(at, _)| *at == start)
            .map(|(_, ch)| ch);
        assert_eq!(desc_start, Some('标'), "{name} row={row:?}");
    }
}

#[test]
fn permission_command_is_never_truncated() {
    let names = ["/model", "/permission", "/goal"];
    let content_w = slash_popup_content_width(46);
    let row = slash_popup_row(
        "/permission",
        "权限审批流程以及更多说明文字",
        content_w,
        &owned(&names),
    );
    assert!(
        row.contains("/permission"),
        "command must stay intact: {row}"
    );
    assert!(!row.contains("/permissi…"), "{row}");
}

#[test]
fn long_description_is_truncated_with_ellipsis() {
    let names = ["/model"];
    let content_w = slash_popup_content_width(46);
    let row = slash_popup_row(
        "/model",
        "一个非常长的描述文本xxxxxxxxxxxxxxxxxxxxxxxxxxxxxxxx",
        content_w,
        &owned(&names),
    );
    assert!(row.contains("/model"), "{row}");
    assert!(row.contains('…'), "description must ellipsize: {row:?}");
    assert_eq!(UnicodeWidthStr::width(row.as_str()), content_w);
}

#[test]
fn chinese_truncate_is_display_width_safe() {
    let names = ["/model"];
    let row = slash_popup_row(
        "/model",
        "切换使用的 AI 模型以及 provider 配置管理",
        24,
        &owned(&names),
    );
    assert!(row.contains("/model"), "{row}");
    assert!(row.contains('…') || UnicodeWidthStr::width(row.as_str()) <= 24);
    assert_eq!(UnicodeWidthStr::width(row.as_str()), 24);
    assert!(row.is_char_boundary(row.len()));
}

#[test]
fn narrow_popup_does_not_panic() {
    let names = ["/permission"];
    for w in 0u16..=10 {
        let content_w = slash_popup_content_width(w);
        let row = slash_popup_row("/permission", "权限审批流程", content_w, &owned(&names));
        assert!(
            UnicodeWidthStr::width(row.as_str()) <= content_w,
            "w={w} overflow: {row:?}"
        );
    }
}

#[test]
fn cjk_labels_use_terminal_cell_width() {
    for (text, cells) in [("权限审批", 8), ("切换模型", 8), ("工作模式", 8)] {
        assert_eq!(
            UnicodeWidthStr::width(text),
            cells,
            "{text} must be {cells} cells, not bytes={} chars={}",
            text.len(),
            text.chars().count()
        );
        assert_ne!(
            UnicodeWidthStr::width(text),
            text.len(),
            "{text}: String::len is bytes, not cells"
        );
        let cells_of = slash_popup_cells(text, "", 40, &owned(&[text]));
        assert_eq!(cells_of.name_pad, SLASH_COMMAND_COL - cells);
    }
}

#[test]
fn descriptions_align_across_varied_command_lengths() {
    let names = ["/model", "/permission", "/work-mode", "/collab"];
    let content_w = 40;
    let (command_col, _) = slash_popup_columns(content_w, &owned(&names));
    let start = command_col + SLASH_COL_GAP;
    let mut desc_starts = Vec::new();
    for name in names {
        let row = slash_popup_row(name, "对齐", content_w, &owned(&names));
        let ch = row
            .chars()
            .scan(0usize, |acc, ch| {
                let at = *acc;
                *acc += UnicodeWidthChar::width(ch).unwrap_or(0);
                Some((at, ch))
            })
            .find(|(at, _)| *at == start)
            .map(|(_, ch)| ch);
        assert_eq!(ch, Some('对'), "{name} row={row:?}");
        desc_starts.push(start);
    }
    assert!(desc_starts.windows(2).all(|w| w[0] == w[1]));
}

#[test]
fn command_is_never_ellipsized() {
    let names = ["/permission"];
    for content_w in [0, 1, 2, 5, 10, 14, 42] {
        let cells = slash_popup_cells("/permission", "权限审批流程", content_w, &owned(&names));
        assert!(
            !cells.name.contains('…'),
            "command must not ellipsize at content_w={content_w}: {:?}",
            cells.name
        );
        if content_w >= UnicodeWidthStr::width("/permission") {
            assert_eq!(cells.name, "/permission");
        }
    }
}

#[test]
fn long_description_does_not_overflow_available_cells() {
    let names = ["/btw"];
    let content_w = 22;
    let row = slash_popup_row(
        "/btw",
        "一个非常长的描述文本xxxxxxxxxxxxxxxx",
        content_w,
        &owned(&names),
    );
    assert!(row.contains("/btw"), "{row}");
    assert!(row.contains('…'), "must ellipsize: {row:?}");
    assert_eq!(UnicodeWidthStr::width(row.as_str()), content_w);
    assert!(row.is_char_boundary(row.len()));
    assert!(
        !row.contains('\u{FFFD}'),
        "must not split a UTF-8 codepoint: {row:?}"
    );
}

#[test]
fn narrow_widths_do_not_panic_or_underflow() {
    let names = ["/permission", "/work-mode"];
    for w in [0u16, 1, 2, 5, 10] {
        let content_w = slash_popup_content_width(w);
        let (command_col, desc_col) = slash_popup_columns(content_w, &owned(&names));
        let _ = command_col.saturating_add(desc_col);
        let row = slash_popup_row("/permission", "权限审批", content_w, &owned(&names));
        let painted = UnicodeWidthStr::width(row.as_str());
        assert!(
            painted <= content_w,
            "w={w} content_w={content_w} painted={painted} row={row:?}"
        );
    }
}

fn popup_state() -> AppState {
    AppState::new(
        Theme::dark(),
        Boot {
            session_id: "sess-slash".into(),
            user: "u".into(),
            version: "0".into(),
            show_welcome: false,
            draft_path: None,
            history_path: None,
            context_window: 0,
            locale: Locale::Zh,
            untrusted_config: Vec::new(),
            reasoning_effort: None,
        },
        true,
    )
}

fn color(c: Color) -> ratatui::style::Color {
    match c {
        Color::Reset => ratatui::style::Color::Reset,
        Color::Yellow => ratatui::style::Color::Yellow,
        Color::Cyan => ratatui::style::Color::Cyan,
        Color::Rgb(r, g, b) => ratatui::style::Color::Rgb(r, g, b),
    }
}

fn style(s: Style) -> ratatui::style::Style {
    let mut out = ratatui::style::Style::default();
    if let Some(c) = s.fg {
        out = out.fg(color(c));
    }
    if let Some(c) = s.bg {
        out = out.bg(color(c));
    }
    if s.bold {
        out = out.add_modifier(ratatui::style::Modifier::BOLD);
    }
    out
}

fn area(r: Rect) -> ratatui::layout::Rect {
    ratatui::layout::Rect {
        x: r.x,
        y: r.y,
        width: r.width,
        height: r.height,
    }
}

fn paint_slash_over_cjk(selected: usize) -> (Buffer, Rect, Rect) {
    let mut state = popup_state();
    state.composer.replace("/".to_string());
    state.slash_selected = selected;
    let transcript = Rect {
        x: 0,
        y: 0,
        width: 80,
        height: 16,
    };
    let composer = Rect {
        x: 2,
        y: 18,
        width: 76,
        height: 4,
    };
    let mut terminal = Terminal::new(TestBackend::new(80, 24)).unwrap();
    terminal
        .draw(|frame| {
            let stain = "客户端报告询问到这里";
            let line = stain.repeat(8);
            let lines = vec![ratatui::text::Line::from(line); frame.area().height as usize];
            frame.render_widget(Paragraph::new(lines), frame.area());
            let paint = slash_popup_paint(&state, transcript, composer, frame.area().height)
                .expect("commands match");
            let popup = area(paint.place.popup);
            frame.render_widget(Clear, popup);
            frame.render_widget(Block::default().borders(Borders::ALL), popup);
            for cell in &paint.cells {
                frame.buffer_mut().set_stringn(
                    cell.x,
                    cell.y,
                    &cell.text,
                    cell.room as usize,
                    style(cell.style),
                );
            }
        })
        .unwrap();
    let matches = slash_popup_match_rows(&state);
    let rows = matches.len().min(8) as u16;
    let place = slash_popup_geometry(transcript, composer, rows);
    (
        terminal.backend().buffer().clone(),
        place.popup,
        place.content,
    )
}

fn row_text(buf: &Buffer, y: u16, x0: u16, x1: u16) -> String {
    let mut out = String::new();
    let mut x = x0;
    while x < x1 {
        let cell = buf.cell((x, y));
        let sym = cell.map(|c| c.symbol()).unwrap_or("");
        if !sym.is_empty() {
            out.push_str(sym);
        }
        x = x.saturating_add(1);
    }
    out
}

#[test]
fn render_does_not_write_past_content_right() {
    let (buf, popup, content) = paint_slash_over_cjk(0);
    let inner_right = popup.x + popup.width - 1;
    for y in content.y..content.y + content.height {
        let last = content.x + content.width;
        for x in last..popup.x + popup.width {
            if x >= inner_right {
                continue;
            }
            let sym = buf.cell((x, y)).map(|c| c.symbol()).unwrap_or("");
            assert!(
                sym.trim().is_empty() || x == inner_right.saturating_sub(1),
                "row {y} col {x} past content.right={} is {sym:?} (popup {:?})",
                last,
                popup
            );
        }
    }
}

#[test]
fn selection_keeps_command_and_stays_inside_content() {
    let theme = Theme::dark();
    let (buf, _popup, content) = paint_slash_over_cjk(3);
    let mut found = None;
    for y in content.y..content.y + content.height {
        let text = row_text(&buf, y, content.x, content.x + content.width);
        if text.contains("/btw") {
            found = Some((y, text));
            break;
        }
    }
    let (y, text) = found.expect("selected /btw row");
    assert!(
        text.contains("/btw") && !text.contains("/bt…"),
        "command must stay whole: {text:?}"
    );
    let mut saw_selection = false;
    for x in content.x..content.x + content.width {
        if buf
            .cell((x, y))
            .is_some_and(|c| c.bg == color(theme.surface.selection))
        {
            saw_selection = true;
        }
    }
    assert!(
        saw_selection,
        "selected row must paint selection background"
    );
    let last_glyph_x = (content.x..content.x + content.width)
        .rev()
        .find(|x| {
            buf.cell((*x, y))
                .is_some_and(|c| !c.symbol().trim().is_empty())
        })
        .unwrap_or(content.x);
    assert!(
        last_glyph_x < content.x + content.width,
        "last glyph {last_glyph_x} exceeds content.right"
    );
}

#[test]
fn popup_overwrites_cjk_underlay_inside_content() {
    let (buf, popup, content) = paint_slash_over_cjk(0);
    let mut saw_full_model = false;
    for y in content.y..content.y + content.height {
        let text = row_text(&buf, y, popup.x, popup.x + popup.width);
        assert!(
            !text.contains('客')
                && !text.contains('户')
                && !text.contains('端')
                && !text.contains('报')
                && !text.contains('询'),
            "conversation CJK bled into popup row {y}: {text:?}"
        );
        if text.contains("/model") {
            assert!(
                text.contains('切')
                    && text.contains('换')
                    && text.contains('模')
                    && text.contains('型'),
                "full description must render, not just the first CJK: {text:?}"
            );
            saw_full_model = true;
        }
    }
    assert!(saw_full_model, "expected /model row");
}

#[test]
fn rendered_descriptions_share_one_start_column() {
    let (buf, _popup, content) = paint_slash_over_cjk(0);
    let mut desc_x = None;
    for (name, first) in [("/model", '切'), ("/permission", '权'), ("/goal", '设')] {
        let mut found = None;
        for y in content.y..content.y + content.height {
            let text = row_text(&buf, y, content.x, content.x + content.width);
            if text.contains(name) {
                found = Some(y);
                break;
            }
        }
        let y = found.unwrap_or_else(|| panic!("missing {name}"));
        let text = row_text(&buf, y, content.x, content.x + content.width);
        assert!(
            text.contains(first),
            "{name} missing leading {first}: {text:?}"
        );
        let x = (content.x..content.x + content.width)
            .find(|x| {
                buf.cell((*x, y))
                    .is_some_and(|c| c.symbol().starts_with(first))
            })
            .unwrap_or_else(|| panic!("{name} missing {first}"));
        match desc_x {
            None => desc_x = Some(x),
            Some(prev) => assert_eq!(x, prev, "{name} description x={x} prev={prev}"),
        }
    }
}

#[test]
fn the_popup_scrolls_to_the_highlighted_row() {
    let mut state = popup_state();
    state.composer.replace("/".to_string());
    let rows = slash_popup_match_rows(&state);
    assert!(rows.len() > 8);
    state.slash_selected = rows.len() - 1;
    let r = Rect {
        x: 0,
        y: 0,
        width: 60,
        height: 20,
    };
    let paint = slash_popup_paint(
        &state,
        r,
        Rect {
            x: 0,
            y: 20,
            width: 60,
            height: 3,
        },
        24,
    )
    .unwrap();
    let texts: Vec<&str> = paint.cells.iter().map(|c| c.text.as_str()).collect();
    assert!(texts.contains(&rows[rows.len() - 1].0.as_str()), "{texts:?}");
    assert!(!texts.contains(&rows[0].0.as_str()), "{texts:?}");
    assert!(texts.contains(&">"));
}

#[test]
fn nothing_matches_no_popup() {
    let mut state = popup_state();
    state.composer.replace("plain words".to_string());
    let r = Rect {
        x: 0,
        y: 0,
        width: 60,
        height: 20,
    };
    assert!(slash_popup_paint(&state, r, r, 24).is_none());
}
