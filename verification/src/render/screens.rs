//! The bodies of the help, diff and sessions screens.

use vstd::prelude::*;

use crate::i18n::{text_of, UiText};
use crate::line::{bold_style, fg_style, no_style, spanv, styled_line, Color, Line, Span, Style};
use crate::model::{line_views, views, SpanV};
use crate::number::{at_least, max_of, min_of, minus, sat};
use crate::protocol::{UiDiffFile, UiSessionSummary};
use crate::render::remote::{screen_title, title_line};
use crate::render::rows::{indented, push_indented};
use crate::render::text::{sanitize_terminal_line, sanitized_from, truncate_display, truncated, wrap, wrapped};
use crate::screen::{
    category_label, category_text, group_views, groups_upto, slash_commands_grouped, static_pairs,
    SlashCategory,
};
use crate::state::AppState;
use crate::strings::{
    begins, cat2, cat3, contains, dec, decimal, has_text, lines, lowered, repeat_char, repeated,
    same, starts_with, text_lines, to_ascii_lowercase,
};
use crate::theme::Theme;
use crate::width::{str_width, unicode_str_width};

verus! {

broadcast use crate::model::group_views;

// ---------------------------------------------------------------- help

/// Two columns of indent and `s`, filled with spaces up to `n` characters.
pub open spec fn help_cell(s: Seq<char>, n: int) -> Seq<char> {
    "  "@ + s + repeated(' ', minus(n, s.len() as int) as nat)
}

/// A key or a command beside what it does.
pub open spec fn help_row(name: Seq<char>, desc: Seq<char>, n: int, theme: Theme) -> Seq<SpanV> {
    seq![
        spanv(help_cell(name, n), fg_style(theme.accent.primary)),
        spanv(desc, no_style()),
    ]
}

fn help_line(name: &str, desc: &str, n: usize, theme: &Theme) -> (r: Line)
    ensures
        r@ == help_row(name@, desc@, n as int, *theme),
{
    let len: usize = name.unicode_len();
    let pad = repeat_char(' ', n.saturating_sub(len));
    Line::of2(
        Span::new(cat3("  ", name, pad.as_str()), Style::fg(theme.accent.primary)),
        Span::raw(desc),
    )
}

/// The rows of a list of commands or keys.
pub open spec fn help_rows(items: Seq<(Seq<char>, Seq<char>)>, n: int, theme: Theme) -> Seq<
    Seq<SpanV>,
> {
    Seq::new(items.len(), |i: int| help_row(items[i].0, items[i].1, n, theme))
}

/// A group: a blank row, its label, its commands.
pub open spec fn help_group(
    cat: SlashCategory,
    items: Seq<(Seq<char>, Seq<char>)>,
    t: UiText,
    theme: Theme,
) -> Seq<Seq<SpanV>> {
    seq![
        Seq::empty(),
        styled_line("  "@ + category_text(cat, t), bold_style(theme.text.secondary)),
    ] + help_rows(items, 14, theme)
}

/// The first `n` groups.
pub open spec fn help_groups(
    groups: Seq<(SlashCategory, Seq<(Seq<char>, Seq<char>)>)>,
    n: int,
    t: UiText,
    theme: Theme,
) -> Seq<Seq<SpanV>>
    decreases n,
{
    if n <= 0 {
        Seq::empty()
    } else {
        help_groups(groups, n - 1, t, theme) + help_group(
            groups[n - 1].0,
            groups[n - 1].1,
            t,
            theme,
        )
    }
}

/// The complete list of keys.
pub open spec fn key_table(t: UiText) -> Seq<(Seq<char>, Seq<char>)> {
    seq![
        ("Enter"@, t.key_submit@),
        ("Ctrl+J / Alt+Enter"@, t.key_newline@),
        ("Ctrl+X Ctrl+E"@, t.key_editor@),
        ("Shift+Tab"@, t.key_permission@),
        ("Tab"@, t.key_tab_focus@),
        ("↑/↓ ("@ + t.help_scope_input@ + ")"@, t.key_history@),
        ("↑/↓ ("@ + t.help_scope_conversation@ + ")"@, t.key_scroll_messages@),
        ("PageUp/PageDown"@, t.key_scroll_page@),
        ("Ctrl+C"@, t.key_cancel_quit@),
        ("Ctrl+M"@, t.key_model@),
        ("Ctrl+V"@, t.key_paste_image@),
        ("Ctrl+O"@, t.key_expand@),
        ("Ctrl+?"@, t.help_title@),
        ("Ctrl+D/T/S"@, t.key_screens@),
        ("Ctrl+End / Ctrl+↓"@, t.key_jump@),
        ("End"@, t.key_end@),
        ("Esc"@, t.key_esc@),
    ]
}

/// The help screen.
pub open spec fn help_screen(t: UiText, theme: Theme) -> Seq<Seq<SpanV>> {
    let groups = groups_upto(t, 5);
    seq![
        title_line(t.help_title@, theme),
        Seq::empty(),
        styled_line(t.help_commands@, fg_style(theme.text.secondary)),
    ] + help_groups(groups, groups.len() as int, t, theme) + seq![
        Seq::empty(),
        styled_line(t.help_keys@, fg_style(theme.text.secondary)),
    ] + help_rows(key_table(t), 20, theme) + seq![
        Seq::empty(),
        styled_line(t.help_scroll@, fg_style(theme.text.secondary)),
    ]
}

fn push_help_rows(
    out: &mut Vec<Line>,
    items: &Vec<(&'static str, &'static str)>,
    n: usize,
    theme: &Theme,
)
    ensures
        line_views(final(out)@) == line_views(old(out)@) + help_rows(
            static_pairs(items@),
            n as int,
            *theme,
        ),
{
    let ghost base = line_views(out@);
    let ghost all = help_rows(static_pairs(items@), n as int, *theme);
    let mut i: usize = 0;
    assert(base + all.take(0) =~= base);
    while i < items.len()
        invariant
            i <= items@.len(),
            all == help_rows(static_pairs(items@), n as int, *theme),
            line_views(out@) == base + all.take(i as int),
        decreases items@.len() - i,
    {
        out.push(help_line(items[i].0, items[i].1, n, theme));
        i += 1;
        assert(all.take(i as int) =~= all.take(i - 1).push(all[i - 1]));
        assert(line_views(out@) =~= base + all.take(i as int));
    }
    assert(all.take(i as int) =~= all);
}

fn push_key_table(out: &mut Vec<Line>, t: &UiText, theme: &Theme)
    ensures
        line_views(final(out)@) == line_views(old(out)@) + help_rows(key_table(*t), 20, *theme),
{
    let ghost base = line_views(out@);
    let input = cat3("↑/↓ (", t.help_scope_input, ")");
    let conversation = cat3("↑/↓ (", t.help_scope_conversation, ")");
    out.push(help_line("Enter", t.key_submit, 20, theme));
    out.push(help_line("Ctrl+J / Alt+Enter", t.key_newline, 20, theme));
    out.push(help_line("Ctrl+X Ctrl+E", t.key_editor, 20, theme));
    out.push(help_line("Shift+Tab", t.key_permission, 20, theme));
    out.push(help_line("Tab", t.key_tab_focus, 20, theme));
    out.push(help_line(input.as_str(), t.key_history, 20, theme));
    out.push(help_line(conversation.as_str(), t.key_scroll_messages, 20, theme));
    out.push(help_line("PageUp/PageDown", t.key_scroll_page, 20, theme));
    out.push(help_line("Ctrl+C", t.key_cancel_quit, 20, theme));
    out.push(help_line("Ctrl+M", t.key_model, 20, theme));
    out.push(help_line("Ctrl+V", t.key_paste_image, 20, theme));
    out.push(help_line("Ctrl+O", t.key_expand, 20, theme));
    out.push(help_line("Ctrl+?", t.help_title, 20, theme));
    out.push(help_line("Ctrl+D/T/S", t.key_screens, 20, theme));
    out.push(help_line("Ctrl+End / Ctrl+↓", t.key_jump, 20, theme));
    out.push(help_line("End", t.key_end, 20, theme));
    out.push(help_line("Esc", t.key_esc, 20, theme));
    assert(line_views(out@) =~= base + help_rows(key_table(*t), 20, *theme));
}

fn push_help_groups(out: &mut Vec<Line>, t: &UiText, theme: &Theme)
    ensures
        line_views(final(out)@) == line_views(old(out)@) + help_groups(
            groups_upto(*t, 5),
            groups_upto(*t, 5).len() as int,
            *t,
            *theme,
        ),
{
    let ghost base = line_views(out@);
    let groups = slash_commands_grouped(t);
    let ghost gv = groups_upto(*t, 5);
    let mut i: usize = 0;
    assert(gv.len() == groups@.len());
    assert(base + Seq::<Seq<SpanV>>::empty() =~= base);
    while i < groups.len()
        invariant
            i <= groups@.len(),
            group_views(groups@) == gv,
            gv.len() == groups@.len(),
            line_views(out@) == base + help_groups(gv, i as int, *t, *theme),
        decreases groups@.len() - i,
    {
        let ghost before = line_views(out@);
        let cat = groups[i].0;
        assert(gv[i as int] == (groups@[i as int].0, static_pairs(groups@[i as int].1@)));
        out.push(Line::empty());
        let ghost lv = styled_line(
            "  "@ + category_text(cat, *t),
            bold_style(theme.text.secondary),
        );
        out.push(
            Line::of(
                Span::new(cat2("  ", category_label(cat, t)), Style::bold(theme.text.secondary)),
            ),
        );
        assert(line_views(out@) =~= before + seq![Seq::empty(), lv]);
        push_help_rows(out, &groups[i].1, 14, theme);
        i += 1;
        assert(line_views(out@) =~= base + help_groups(gv, i as int, *t, *theme));
    }
}

/// The commands by category, then every key. The hint row above the composer carries
/// only the few keys that matter in the moment; this is the complete list.
pub fn help_lines(t: &UiText, theme: &Theme) -> (r: Vec<Line>)
    ensures
        line_views(r@) == help_screen(*t, *theme),
{
    let secondary = Style::fg(theme.text.secondary);
    let mut out: Vec<Line> = Vec::new();
    out.push(screen_title(t.help_title, theme));
    out.push(Line::empty());
    out.push(Line::of(Span::text(t.help_commands, secondary)));
    assert(line_views(out@) =~= seq![
        title_line(t.help_title@, *theme),
        Seq::empty(),
        styled_line(t.help_commands@, fg_style(theme.text.secondary)),
    ]);
    push_help_groups(&mut out, t, theme);
    let ghost a = line_views(out@);
    out.push(Line::empty());
    out.push(Line::of(Span::text(t.help_keys, secondary)));
    assert(line_views(out@) =~= a + seq![
        Seq::empty(),
        styled_line(t.help_keys@, fg_style(theme.text.secondary)),
    ]);
    push_key_table(&mut out, t, theme);
    let ghost b = line_views(out@);
    out.push(Line::empty());
    out.push(Line::of(Span::text(t.help_scroll, secondary)));
    assert(line_views(out@) =~= b + seq![
        Seq::empty(),
        styled_line(t.help_scroll@, fg_style(theme.text.secondary)),
    ]);
    out
}

// ---------------------------------------------------------------- diff

/// The cursor column of a selectable row.
pub open spec fn cursor_text(selected: bool) -> Seq<char> {
    if selected {
        "› "@
    } else {
        "  "@
    }
}

/// A changed file: the cursor, as much of the path as the counts leave room for, and
/// the counts.
pub open spec fn diff_row(f: UiDiffFile, selected: bool, list_w: int, theme: Theme) -> Seq<SpanV> {
    let added = "  +"@ + decimal(f.added as nat);
    let removed = " -"@ + decimal(f.removed as nat);
    let taken = unicode_str_width(cursor_text(selected)) + unicode_str_width(added + removed);
    seq![
        spanv(cursor_text(selected), fg_style(theme.accent.primary)),
        spanv(truncated(f.path@, at_least(minus(list_w, taken), 1)), no_style()),
        spanv(added, fg_style(theme.status.success)),
        spanv(removed, fg_style(theme.status.error)),
    ]
}

/// The list of changed files.
pub open spec fn diff_list(files: Seq<UiDiffFile>, selected: int, list_w: int, theme: Theme, t: UiText) -> Seq<
    Seq<SpanV>,
> {
    if files.len() == 0 {
        seq![styled_line(t.diff_empty@, fg_style(theme.text.secondary))]
    } else {
        Seq::new(files.len(), |i: int| diff_row(files[i], i == selected, list_w, theme))
    }
}

/// The file whose patch is shown: the selected one, or the last.
pub open spec fn diff_focus(selected: int, len: int) -> int {
    if selected < minus(len, 1) {
        selected
    } else {
        minus(len, 1)
    }
}

fn diff_line(f: &UiDiffFile, selected: bool, list_w: usize, theme: &Theme) -> (r: Line)
    ensures
        r@ == diff_row(*f, selected, list_w as int, *theme),
{
    let cursor = if selected {
        "› "
    } else {
        "  "
    };
    // Budget path and counts, so that a long path never spills past the pane edge.
    let added = cat2("  +", dec(f.added).as_str());
    let removed = cat2(" -", dec(f.removed).as_str());
    let stats = cat2(added.as_str(), removed.as_str());
    let taken: usize = str_width(cursor).saturating_add(str_width(stats.as_str()));
    let path = truncate_display(f.path.as_str(), max_of(list_w.saturating_sub(taken), 1));
    let mut line = Line::of3(
        Span::text(cursor, Style::fg(theme.accent.primary)),
        Span::new(path, Style::plain()),
        Span::new(added, Style::fg(theme.status.success)),
    );
    line.push(Span::new(removed, Style::fg(theme.status.error)));
    assert(line@ =~= diff_row(*f, selected, list_w as int, *theme));
    line
}

/// The rows of the file pane, and the file in focus.
pub fn diff_list_lines(
    files: &Vec<UiDiffFile>,
    diff_selected: usize,
    list_w: usize,
    theme: &Theme,
    t: &UiText,
) -> (r: (Vec<Line>, usize))
    ensures
        r.1 == diff_focus(diff_selected as int, files@.len() as int),
        line_views(r.0@) == diff_list(files@, r.1 as int, list_w as int, *theme, *t),
{
    let selected: usize = min_of(diff_selected, files.len().saturating_sub(1));
    let mut out: Vec<Line> = Vec::new();
    if files.len() == 0 {
        out.push(Line::of(Span::text(t.diff_empty, Style::fg(theme.text.secondary))));
        assert(line_views(out@) =~= diff_list(
            files@,
            selected as int,
            list_w as int,
            *theme,
            *t,
        ));
        return (out, selected);
    }
    let ghost all = diff_list(files@, selected as int, list_w as int, *theme, *t);
    let mut i: usize = 0;
    assert(line_views(out@) =~= all.take(0));
    while i < files.len()
        invariant
            files@.len() > 0,
            i <= files@.len(),
            all == diff_list(files@, selected as int, list_w as int, *theme, *t),
            line_views(out@) == all.take(i as int),
        decreases files@.len() - i,
    {
        out.push(diff_line(&files[i], i == selected, list_w, theme));
        i += 1;
        assert(all.take(i as int) =~= all.take(i - 1).push(all[i - 1]));
    }
    assert(all.take(i as int) =~= all);
    (out, selected)
}

/// The color of a line of a patch.
pub open spec fn patch_color(clean: Seq<char>, theme: Theme) -> Color {
    if begins(clean, "+"@) && !begins(clean, "+++"@) {
        theme.diff.added
    } else if begins(clean, "-"@) && !begins(clean, "---"@) {
        theme.diff.removed
    } else {
        theme.text.secondary
    }
}

/// The first `n` lines of a patch, cleaned and wrapped.
pub open spec fn patch_rows(raw: Seq<Seq<char>>, n: int, wrap_w: usize, theme: Theme) -> Seq<
    Seq<SpanV>,
>
    decreases n,
{
    if n <= 0 {
        Seq::empty()
    } else {
        let clean = sanitized_from(raw[n - 1], 0, 0);
        patch_rows(raw, n - 1, wrap_w, theme) + indented(
            wrapped(clean, wrap_w),
            ""@,
            fg_style(patch_color(clean, theme)),
        )
    }
}

/// The patch of a file, or how to load it.
pub open spec fn patch_body(f: Option<UiDiffFile>, wrap_w: usize, theme: Theme, t: UiText) -> Seq<
    Seq<SpanV>,
> {
    match f {
        Some(f) => match f.patch {
            Some(p) => patch_rows(
                text_lines(p@),
                text_lines(p@).len() as int,
                wrap_w,
                theme,
            ),
            None => seq![styled_line(t.diff_reload_hint@, fg_style(theme.text.secondary))],
        },
        None => Seq::empty(),
    }
}

/// The detail pane.
pub open spec fn diff_detail(f: Option<UiDiffFile>, wrap_w: usize, theme: Theme, t: UiText) -> Seq<
    Seq<SpanV>,
> {
    patch_body(f, wrap_w, theme, t) + seq![
        Seq::empty(),
        styled_line(t.diff_footer_hint@, fg_style(theme.text.secondary)),
    ]
}

fn push_patch(out: &mut Vec<Line>, patch: &str, wrap_w: usize, theme: &Theme)
    ensures
        line_views(final(out)@) == line_views(old(out)@) + patch_rows(
            text_lines(patch@),
            text_lines(patch@).len() as int,
            wrap_w,
            *theme,
        ),
{
    let ghost base = line_views(out@);
    let raw = lines(patch);
    let ghost rv = text_lines(patch@);
    let mut i: usize = 0;
    assert(rv.len() == raw@.len());
    assert(base + Seq::<Seq<SpanV>>::empty() =~= base);
    while i < raw.len()
        invariant
            i <= raw@.len(),
            views(raw@) == rv,
            rv.len() == raw@.len(),
            line_views(out@) == base + patch_rows(rv, i as int, wrap_w, *theme),
        decreases raw@.len() - i,
    {
        assert(rv[i as int] == raw@[i as int]@);
        // Tabs and control characters shift the columns of a real terminal.
        let clean = sanitize_terminal_line(raw[i].as_str());
        let color = if starts_with(clean.as_str(), "+") && !starts_with(clean.as_str(), "+++") {
            theme.diff.added
        } else if starts_with(clean.as_str(), "-") && !starts_with(clean.as_str(), "---") {
            theme.diff.removed
        } else {
            theme.text.secondary
        };
        // A long line is wrapped, not clipped off the screen.
        let pieces = wrap(clean.as_str(), wrap_w);
        let ghost before = line_views(out@);
        push_indented(out, &pieces, "", Style::fg(color));
        i += 1;
        assert(line_views(out@) =~= base + patch_rows(rv, i as int, wrap_w, *theme));
    }
}

/// The rows of the patch pane, for the file at `selected`, where there is one.
pub fn diff_detail_lines(
    files: &Vec<UiDiffFile>,
    selected: usize,
    width: u16,
    theme: &Theme,
    t: &UiText,
) -> (r: Vec<Line>)
    ensures
        line_views(r@) == diff_detail(
            if selected < files@.len() {
                Some(files@[selected as int])
            } else {
                None
            },
            at_least(width as int, 1) as usize,
            *theme,
            *t,
        ),
{
    let wrap_w: usize = max_of(width as usize, 1);
    let secondary = Style::fg(theme.text.secondary);
    let mut out: Vec<Line> = Vec::new();
    let ghost shown = if selected < files@.len() {
        Some(files@[selected as int])
    } else {
        None
    };
    if selected < files.len() {
        match &files[selected].patch {
            Some(p) => push_patch(&mut out, p.as_str(), wrap_w, theme),
            None => out.push(Line::of(Span::text(t.diff_reload_hint, secondary))),
        }
    }
    assert(line_views(out@) =~= patch_body(shown, wrap_w, *theme, *t));
    let ghost base = line_views(out@);
    out.push(Line::empty());
    out.push(Line::of(Span::text(t.diff_footer_hint, secondary)));
    assert(line_views(out@) =~= diff_detail(shown, wrap_w, *theme, *t));
    out
}

// ---------------------------------------------------------------- sessions

/// The dot of a session's status.
pub open spec fn dot_of(status: Seq<char>, theme: Theme) -> (Seq<char>, Color) {
    let s = lowered(status);
    if has_text(s, "complet"@) || has_text(s, "verif"@) || s == "done"@ {
        ("●"@, theme.status.success)
    } else if has_text(s, "fail"@) || has_text(s, "error"@) {
        ("●"@, theme.status.error)
    } else if has_text(s, "interrupt"@) || has_text(s, "cancel"@) {
        ("●"@, theme.status.warning)
    } else if has_text(s, "run"@) || has_text(s, "active"@) || has_text(s, "busy"@) {
        ("●"@, theme.accent.primary)
    } else {
        ("○"@, theme.text.secondary)
    }
}

pub fn session_status_dot(status: &str, theme: &Theme) -> (r: (&'static str, Color))
    ensures
        (r.0@, r.1) == dot_of(status@, *theme),
{
    let low = to_ascii_lowercase(status);
    let s = low.as_str();
    if contains(s, "complet") || contains(s, "verif") || same(s, "done") {
        ("●", theme.status.success)
    } else if contains(s, "fail") || contains(s, "error") {
        ("●", theme.status.error)
    } else if contains(s, "interrupt") || contains(s, "cancel") {
        ("●", theme.status.warning)
    } else if contains(s, "run") || contains(s, "active") || contains(s, "busy") {
        ("●", theme.accent.primary)
    } else {
        ("○", theme.text.secondary)
    }
}

/// A session: cursor, status dot, goal, status and model.
pub open spec fn session_row(s: UiSessionSummary, selected: bool, theme: Theme) -> Seq<SpanV> {
    let (dot, color) = dot_of(s.status@, theme);
    seq![
        spanv(cursor_text(selected), fg_style(theme.accent.primary)),
        spanv(dot + " "@, fg_style(color)),
        spanv(truncated(s.goal@, 40) + "  "@, no_style()),
        spanv("["@ + s.status@ + "] "@, fg_style(theme.text.secondary)),
        spanv(s.model@, fg_style(theme.text.secondary)),
    ]
}

/// The sessions screen.
pub open spec fn sessions_screen(sessions: Seq<UiSessionSummary>, selected: int, theme: Theme, t: UiText) -> Seq<
    Seq<SpanV>,
> {
    seq![title_line(t.screen_sessions@, theme), Seq::empty()] + (if sessions.len() == 0 {
        seq![styled_line(t.sessions_empty@, fg_style(theme.text.secondary))]
    } else {
        Seq::new(sessions.len(), |i: int| session_row(sessions[i], i == selected, theme))
    }) + seq![
        Seq::empty(),
        styled_line(t.sessions_footer_hint@, fg_style(theme.text.secondary)),
    ]
}

fn session_line(s: &UiSessionSummary, selected: bool, theme: &Theme) -> (r: Line)
    ensures
        r@ == session_row(*s, selected, *theme),
{
    let cursor = if selected {
        "› "
    } else {
        "  "
    };
    let (dot, color) = session_status_dot(s.status.as_str(), theme);
    let goal = truncate_display(s.goal.as_str(), 40);
    let mut line = Line::of3(
        Span::text(cursor, Style::fg(theme.accent.primary)),
        Span::new(cat2(dot, " "), Style::fg(color)),
        Span::new(cat2(goal.as_str(), "  "), Style::plain()),
    );
    line.push2(
        Span::new(cat3("[", s.status.as_str(), "] "), Style::fg(theme.text.secondary)),
        Span::text(s.model.as_str(), Style::fg(theme.text.secondary)),
    );
    assert(line@ =~= session_row(*s, selected, *theme));
    line
}

/// The sessions screen and the row in focus: the selected session, behind the title
/// and the blank row.
pub fn sessions_lines(state: &AppState) -> (r: (Vec<Line>, usize))
    ensures
        line_views(r.0@) == sessions_screen(
            state.sessions@,
            state.sessions_selected as int,
            state.theme,
            text_of(state.locale),
        ),
        r.1 == sat(state.sessions_selected + 2),
{
    let t = state.t();
    let theme = &state.theme;
    let secondary = Style::fg(theme.text.secondary);
    let ghost want = sessions_screen(
        state.sessions@,
        state.sessions_selected as int,
        *theme,
        t,
    );
    let mut out: Vec<Line> = Vec::new();
    out.push(screen_title(t.screen_sessions, theme));
    out.push(Line::empty());
    if state.sessions.len() == 0 {
        out.push(Line::of(Span::text(t.sessions_empty, secondary)));
    }
    let ghost head = line_views(out@);
    let ghost all = Seq::new(
        state.sessions@.len(),
        |i: int| session_row(state.sessions@[i], i == state.sessions_selected, *theme),
    );
    let mut i: usize = 0;
    assert(head + all.take(0) =~= head);
    while i < state.sessions.len()
        invariant
            i <= state.sessions@.len(),
            *theme == state.theme,
            all == Seq::new(
                state.sessions@.len(),
                |i: int| session_row(state.sessions@[i], i == state.sessions_selected, *theme),
            ),
            line_views(out@) == head + all.take(i as int),
        decreases state.sessions@.len() - i,
    {
        out.push(session_line(&state.sessions[i], i == state.sessions_selected, theme));
        i += 1;
        assert(all.take(i as int) =~= all.take(i - 1).push(all[i - 1]));
        assert(line_views(out@) =~= head + all.take(i as int));
    }
    assert(all.take(i as int) =~= all);
    out.push(Line::empty());
    out.push(Line::of(Span::text(t.sessions_footer_hint, secondary)));
    assert(line_views(out@) =~= want);
    (out, state.sessions_selected.saturating_add(2))
}

} // verus!
