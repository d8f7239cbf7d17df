//! What the composer, its popup and the hints promise.

use vstd::prelude::*;

use crate::geometry::Rect;
use crate::i18n::text_of;
use crate::laws::{bare, ink, larger};
use crate::line::Style;
use crate::model::SpanV;
use crate::number::at_least;
use crate::protocol::RuntimeStatus;
use crate::render::composer_box::{
    box_lines, buffer_rows, chip_spans, chips_of, composer_rows, frame_style, line_rows, row_at,
    painted, row_end, row_room, wrap_of, RowV, WrapV,
};
use crate::render::footer::{
    attachment_spans, attachments, composer_focused, first_line, hint_text, turn_previews,
};
use crate::render::popup::{
    command_columns, content_of, inside, longest, offered_files, popup_at, popup_rows, row_cells,
    row_styles, shown_rows,
};
use crate::render::text::{display_prefix, truncated};
use crate::screen::{pairs, popup_for, Screen};
use crate::i18n::UiText;
use crate::splash::is_turn;
use crate::state::{AppState, WorkbenchFocus};
use crate::strings::{decimal, find_from, split_at_char, text_lines, trimmed};
use crate::theme::Theme;
use crate::transcript::TranscriptItem;
use crate::width::unicode_str_width;

verus! {

// ---------------------------------------------------------------- hints

/// While a turn runs the hints are how to interrupt and how to cancel it; at rest on an
/// empty composer they are the commands, the files, the permission and the shortcuts,
/// each behind its own key; else there are none.
pub proof fn hints_name_their_keys(state: AppState)
    ensures
        ({
            let t = text_of(state.locale);
            &&& state.status == RuntimeStatus::Busy ==> hint_text(state) == Some(
                "Esc "@ + t.hint_interrupt@ + " · Ctrl+C "@ + t.hint_cancel@,
            )
            &&& state.status != RuntimeStatus::Busy && state.composer.text@.len() == 0
                && state.turn_nav is None ==> hint_text(state) == Some(
                "/ "@ + t.hint_commands@ + " · @ "@ + t.hint_files@ + " · Shift+Tab "@
                    + t.hint_permission@ + " · Ctrl+? "@ + t.hint_shortcuts@,
            )
            &&& state.status != RuntimeStatus::Busy && (state.composer.text@.len() > 0
                || state.turn_nav is Some) ==> hint_text(state) is None
        }),
{
    let t = text_of(state.locale);
    assert("/ "@ + t.hint_commands@ + " · @ "@ + t.hint_files@ + " · Shift+Tab "@ + (
    t.hint_permission@ + " · Ctrl+? "@ + t.hint_shortcuts@) =~= "/ "@ + t.hint_commands@ + " · @ "@
        + t.hint_files@ + " · Shift+Tab "@ + t.hint_permission@ + " · Ctrl+? "@
        + t.hint_shortcuts@);
}

/// One or two attachments are named behind their number, counted from one; more are
/// counted.
pub proof fn attachments_are_numbered(state: AppState)
    ensures
        ({
            let a = state.pending_attachments@;
            let style = ink(state.theme.accent.secondary);
            &&& a.len() == 0 ==> attachments(state).len() == 0
            &&& a.len() == 1 ==> attachments(state) == seq![
                SpanV { content: "["@ + decimal(1) + "] "@ + a[0]@, style },
            ]
            &&& a.len() == 2 ==> attachments(state) == seq![
                SpanV { content: "["@ + decimal(1) + "] "@ + a[0]@, style },
                SpanV { content: "  "@, style: bare() },
                SpanV { content: "["@ + decimal(2) + "] "@ + a[1]@, style },
            ]
            &&& a.len() > 2 ==> attachments(state) == seq![
                SpanV {
                    content: decimal(a.len()) + " 个附件 · 空输入框按 Backspace 删除末项"@,
                    style,
                },
            ]
        }),
{
    reveal_with_fuel(attachment_spans, 3);
}

/// The first line is what stands before the first line break.
pub proof fn first_line_ends_at_the_break(a: Seq<char>, b: Seq<char>)
    requires
        !a.contains('\n'),
        a.len() > 0 ==> a.last() != '\r',
    ensures
        first_line(a + seq!['\n'] + b) == a,
        first_line(a) == a,
{
    let s = a + seq!['\n'] + b;
    break_is_found(s, a.len() as int, 0);
    assert(s.subrange(0, a.len() as int) =~= a);
    assert(a.len() > 0 ==> s[a.len() - 1] == a.last());
    assert(text_lines(s)[0] == a);
    if a.len() > 0 {
        no_break_is_found(a, 0);
        assert(a.subrange(0, a.len() as int) =~= a);
    }
}

proof fn break_is_found(s: Seq<char>, e: int, i: int)
    requires
        0 <= i <= e < s.len(),
        s[e] == '\n',
        forall|k: int| i <= k < e ==> s[k] != '\n',
    ensures
        find_from(s, '\n', i) == e,
    decreases e - i,
{
    if i < e {
        break_is_found(s, e, i + 1);
    }
}

proof fn no_break_is_found(s: Seq<char>, i: int)
    requires
        0 <= i <= s.len(),
        !s.contains('\n'),
    ensures
        find_from(s, '\n', i) == s.len(),
    decreases s.len() - i,
{
    if i < s.len() {
        assert(s[i] != '\n');
        no_break_is_found(s, i + 1);
    }
}

proof fn previews_ignore_what_follows(items: Seq<TranscriptItem>, item: TranscriptItem, n: int)
    requires
        n <= items.len(),
    ensures
        turn_previews(items.push(item), n) == turn_previews(items, n),
    decreases n,
{
    if n > 0 {
        previews_ignore_what_follows(items, item, n - 1);
        assert(items.push(item)[n - 1] == items[n - 1]);
    }
}

/// Every message of the user that says anything is a turn, told by its first line; what
/// others say is none.
pub proof fn user_messages_are_turns(items: Seq<TranscriptItem>, item: TranscriptItem)
    ensures
        ({
            let before = turn_previews(items, items.len() as int);
            let after = turn_previews(items.push(item), items.len() as int + 1);
            &&& (item matches TranscriptItem::User(text) ==> after == (if trimmed(
                first_line(text@),
            ).len() > 0 {
                before.push(trimmed(first_line(text@)))
            } else {
                before
            }))
            &&& !(item is User) ==> after == before
        }),
{
    previews_ignore_what_follows(items, item, items.len() as int);
    assert(items.push(item)[items.len() as int] == item);
}

// ---------------------------------------------------------------- the popup

proof fn longest_holds(names: Seq<Seq<char>>, n: int)
    requires
        0 <= n <= names.len(),
    ensures
        forall|i: int|
            0 <= i < n ==> unicode_str_width(#[trigger] names[i]) <= longest(names, n),
        longest(names, n) == 0 || exists|i: int|
            0 <= i < n && unicode_str_width(#[trigger] names[i]) == longest(names, n),
    decreases n,
{
    if n > 0 {
        longest_holds(names, n - 1);
        if longest(names, n) == unicode_str_width(names[n - 1]) {
            assert(unicode_str_width(names[n - 1]) == longest(names, n));
        } else {
            let i = choose|i: int|
                0 <= i < n - 1 && unicode_str_width(#[trigger] names[i]) == longest(names, n - 1);
            assert(longest(names, n - 1) > 0);
            assert(unicode_str_width(names[i]) == longest(names, n));
        }
    }
}

/// The column of names is as wide as the widest name, and fourteen columns at least.
pub proof fn names_have_room(names: Seq<Seq<char>>)
    ensures
        command_columns(names) >= 14,
        forall|i: int|
            0 <= i < names.len() ==> unicode_str_width(#[trigger] names[i]) <= command_columns(
                names,
            ),
        command_columns(names) == 14 || exists|i: int|
            0 <= i < names.len() && unicode_str_width(#[trigger] names[i]) == command_columns(
                names,
            ),
{
    longest_holds(names, names.len() as int);
}

/// A popup that has room stands right above the composer, at its left edge, two rows
/// higher than what it shows and forty-six columns wide at most.
pub proof fn popup_stands_on_the_composer(transcript: Rect, composer: Rect, rows: u16)
    requires
        transcript.y + rows + 2 <= composer.y,
        transcript.width >= 4,
    ensures
        ({
            let p = popup_at(transcript, composer, rows);
            &&& p.x == composer.x
            &&& p.y + p.height == composer.y
            &&& p.height == rows + 2
            &&& p.width == (if transcript.width < 46 {
                transcript.width
            } else {
                46
            })
        }),
{
}

/// Eight rows are shown at most: the first ones while the selection is among them, and
/// after that those that end with the selection.
pub proof fn popup_window_follows_the_selection(rows: Seq<(Seq<char>, Seq<char>)>, selected: int)
    requires
        0 <= selected < rows.len(),
    ensures
        selected < 8 && rows.len() >= 8 ==> shown_rows(rows, selected) == rows.take(8),
        rows.len() < 8 ==> shown_rows(rows, selected) == rows,
        selected >= 8 ==> shown_rows(rows, selected) == rows.subrange(selected - 7, selected + 1),
{
    if selected < 8 && rows.len() >= 8 {
        assert(shown_rows(rows, selected) =~= rows.take(8));
    } else if rows.len() < 8 {
        assert(shown_rows(rows, selected) =~= rows);
    }
}

/// Files are offered before commands, each behind an at sign.
pub proof fn files_come_before_commands(state: AppState, i: int)
    ensures
        ({
            let t = text_of(state.locale);
            let files = offered_files(state);
            &&& files.len() > 0 ==> popup_rows(state).len() == files.len()
            &&& 0 <= i < files.len() ==> popup_rows(state)[i] == ("@"@ + files[i], t.file_mention@)
            &&& files.len() == 0 && state.slash_popup_dismissed ==> popup_rows(state).len() == 0
            &&& files.len() == 0 && !state.slash_popup_dismissed ==> popup_rows(state)
                == popup_for(state.composer.text@, t, pairs(state.skill_catalog@), t)
        }),
{
}

/// The selected row alone is marked, stands on the selection's ground and has its name
/// in bold; the others stand on the raised ground with their names in the accent color.
pub proof fn selected_row_stands_out(
    name: Seq<char>,
    desc: Seq<char>,
    names: Seq<Seq<char>>,
    selected: bool,
    y: int,
    inner: Rect,
    content: Rect,
    theme: Theme,
    screen_h: int,
)
    requires
        inner.x < content.x,
        content.x + content.width <= u16::MAX,
        content.width > 0,
        0 <= y < screen_h,
    ensures
        ({
            let cells = row_cells(
                name,
                desc,
                names,
                selected,
                y,
                inner,
                content,
                theme,
                screen_h,
            );
            let ground = if selected {
                theme.surface.selection
            } else {
                theme.surface.elevated
            };
            let mark = if selected {
                ">"@
            } else {
                " "@
            };
            &&& cells.len() >= 3
            &&& cells[0].x == inner.x && cells[0].room == inner.width && cells[0].style == (Style {
                bg: Some(ground),
                ..bare()
            })
            &&& cells[1].x == inner.x && cells[1].text == mark.take(
                display_prefix(mark, content.x - inner.x),
            )
            &&& cells[2].x == content.x && cells[2].y == y && cells[2].text == name.take(
                display_prefix(name, content.width as int),
            )
            &&& selected ==> cells[2].style == (Style {
                fg: Some(theme.text.primary),
                bg: Some(theme.surface.selection),
                bold: true,
                dim: false,
            })
            &&& !selected ==> cells[2].style == (Style {
                fg: Some(theme.accent.primary),
                bg: Some(theme.surface.elevated),
                bold: false,
                dim: false,
            })
        }),
{
}

// ---------------------------------------------------------------- the composer

/// Images waiting are named in front of the text, numbered from one.
pub proof fn image_chips_are_numbered(n: nat)
    ensures
        chips_of(0).len() == 0,
        chips_of(n + 1) == chips_of(n) + "[图片 #"@ + decimal(n + 1) + "] "@,
{
    assert(chips_of(n) + ("[图片 #"@ + decimal(n + 1) + "] "@) =~= chips_of(n) + "[图片 #"@ + decimal(
        n + 1,
    ) + "] "@);
}

/// The composer's frame has the color of focus only while what is typed goes there.
pub proof fn frame_shows_the_focus(state: AppState)
    ensures
        ({
            let focused = state.overlay is None && state.active_screen == Screen::Conversation
                && state.workbench_focus == WorkbenchFocus::Input;
            &&& focused ==> frame_style(state) == ink(state.theme.border.focus)
            &&& !focused ==> frame_style(state) == ink(state.theme.border.normal)
        }),
{
}

proof fn one_line_is_not_split(s: Seq<char>)
    requires
        !s.contains('\n'),
    ensures
        split_at_char(s, '\n') == seq![s],
{
    no_break_is_found(s, 0);
    assert(s.subrange(0, s.len() as int) =~= s);
}

/// A text of one line that fits is one row behind the prompt, with the caret as many
/// columns in as the text before the cursor takes.
pub proof fn caret_stands_behind_the_text(state: AppState, width: int)
    requires
        state.composer.wf(),
        width >= 1,
        !state.composer.text@.contains('\n'),
    ensures
        ({
            let rows = composer_rows(state, width);
            let text = state.composer.text@;
            let before = unicode_str_width(state.composer.before());
            let fits = display_prefix(text, row_room(wrap_of(state, width), 0, 0)) == text.len();
            let measured = before <= unicode_str_width(text) && unicode_str_width(Seq::empty())
                == 0;
            &&& fits ==> rows.len() == 1 && rows[0].prompt == "› "@ && rows[0].text == text
                && rows[0].chips == chips_of(state.pending_attachments@.len())
            &&& fits && measured ==> rows[0].caret_col == Some(before as int)
        }),
{
    let text = state.composer.text@;
    let before = state.composer.before();
    one_line_is_not_split(text);
    assert(!before.contains('\n')) by {
        if before.contains('\n') {
            let k = choose|k: int| 0 <= k < before.len() && before[k] == '\n';
            assert(text[k] == '\n');
        }
    }
    one_line_is_not_split(before);
    let w = wrap_of(state, width);
    assert(text.skip(0) =~= text);
    assert(text.subrange(0, text.len() as int) =~= text);
    assert(text.take(0) =~= Seq::<char>::empty());
    reveal_with_fuel(buffer_rows, 2);
    let rows = buffer_rows(w, seq![text], 1);
    assert(unicode_str_width(text.take(0)) == unicode_str_width(Seq::<char>::empty()));
    assert(rows =~= line_rows(w, text, 0, 0));
    if display_prefix(text, row_room(w, 0, 0)) == text.len() {
        assert(row_end(w, text, 0, 0) == text.len());
        assert(line_rows(w, text, 0, 0) =~= seq![row_at(w, text, 0, 0)]);
    }
}

/// The box is drawn in round corners, as wide as asked and eight columns at least.
pub proof fn box_has_its_corners(state: AppState, width: int)
    requires
        width >= 0,
    ensures
        ({
            let lines = box_lines(state, width);
            let inner = (if width > 8 {
                width
            } else {
                8
            }) - 2;
            &&& lines.len() >= 2
            &&& lines[0].len() == 1
            &&& lines[0][0].content == "╭"@ + Seq::new(inner as nat, |i: int| '─') + "╮"@
            &&& lines[0][0].style == frame_style(state)
        }),
{
    let inner = at_least(width, 8) - 2;
    assert(crate::strings::repeated('─', inner as nat) =~= Seq::new(inner as nat, |i: int| '─'));
}

/// A row is its prompt in the accent color, the images in the second accent, the text on
/// the input's ground, and behind it the placeholder and the hint, quiet, where it has
/// them.
pub proof fn row_is_painted_in_order(row: RowV, width: int, theme: Theme, t: UiText)
    ensures
        ({
            let p = painted(row, width, theme, t);
            let chips: int = if row.chips.len() > 0 {
                1
            } else {
                0
            };
            let place: int = if row.placeholder {
                1
            } else {
                0
            };
            &&& p.spans[0].content == truncated(row.prompt, larger(width, 0))
            &&& p.spans[0].style == ink(theme.accent.primary)
            &&& chips == 1 ==> p.spans[1].style == ink(theme.accent.secondary)
            &&& p.spans[1 + chips].style == (Style {
                bg: Some(theme.surface.input),
                ..ink(theme.text.primary)
            })
            &&& p.spans.len() >= 2 + chips + place
            &&& place == 1 ==> p.spans[2 + chips].style == ink(theme.text.muted) && exists|n: int|
                p.spans[2 + chips].content == #[trigger] truncated(t.composer_placeholder@, n)
            &&& row.hint is None ==> p.spans.len() == 2 + chips + place
        }),
{
}

/// The placeholder is shown only in an empty composer of a conversation without turns,
/// and the hint only behind the text.
pub proof fn placeholder_gives_way_to_text(state: AppState, width: int)
    ensures
        state.composer.text@.len() > 0 ==> !wrap_of(state, width).placeholder,
        (exists|i: int|
            0 <= i < state.transcript.items@.len() && is_turn(
                #[trigger] state.transcript.items@[i],
            )) ==> !wrap_of(state, width).placeholder,
        state.composer.text@.len() == 0 && (forall|i: int|
            0 <= i < state.transcript.items@.len() ==> !is_turn(
                #[trigger] state.transcript.items@[i],
            )) ==> wrap_of(state, width).placeholder,
        state.composer.cursor < state.composer.text@.len() ==> wrap_of(state, width).hint is None,
{
}

/// The first row of the text alone has the prompt and the images; the rows after it are
/// led by as many spaces.
pub proof fn prompt_stands_on_the_first_row(w: WrapV, line: Seq<char>, li: int, start: int)
    ensures
        row_at(w, line, 0, 0).prompt == "› "@,
        row_at(w, line, 0, 0).chips == w.chips,
        li != 0 || start != 0 ==> row_at(w, line, li, start).prompt == "  "@ && row_at(
            w,
            line,
            li,
            start,
        ).chips == ""@ && !row_at(w, line, li, start).placeholder && row_at(
            w,
            line,
            li,
            start,
        ).hint is None,
{
}

proof fn lines_ignore_what_follows(w: WrapV, logical: Seq<Seq<char>>, line: Seq<char>, n: int)
    requires
        n <= logical.len(),
    ensures
        buffer_rows(w, logical.push(line), n) == buffer_rows(w, logical, n),
    decreases n,
{
    if n > 0 {
        lines_ignore_what_follows(w, logical, line, n - 1);
        assert(logical.push(line)[n - 1] == logical[n - 1]);
    }
}

/// Every line of the text adds its rows behind those before it.
pub proof fn every_line_has_its_rows(w: WrapV, logical: Seq<Seq<char>>, line: Seq<char>)
    ensures
        buffer_rows(w, logical.push(line), logical.len() as int + 1) == buffer_rows(
            w,
            logical,
            logical.len() as int,
        ) + line_rows(w, line, logical.len() as int, 0),
{
    lines_ignore_what_follows(w, logical, line, logical.len() as int);
    assert(logical.push(line)[logical.len() as int] == line);
}

/// The first part of the border's chip is brighter than the others, which stand behind
/// quiet dots.
pub proof fn border_chip_leads_with_the_model(parts: Seq<Seq<char>>, theme: Theme, n: int)
    requires
        0 < n <= parts.len(),
    ensures
        chip_spans(parts, theme, 0) == seq![
            SpanV { content: " "@, style: ink(theme.text.secondary) },
        ],
        chip_spans(parts, theme, 1) == seq![
            SpanV { content: " "@, style: ink(theme.text.secondary) },
            SpanV { content: parts[0], style: ink(theme.text.secondary) },
        ],
        n > 1 ==> chip_spans(parts, theme, n) == chip_spans(parts, theme, n - 1) + seq![
            SpanV { content: " · "@, style: ink(theme.text.muted) },
            SpanV { content: parts[n - 1], style: ink(theme.text.muted) },
        ],
{
    reveal_with_fuel(chip_spans, 2);
}

/// The description of a row is bright on the selected one and quieter on the others.
pub proof fn descriptions_are_quieter(theme: Theme)
    ensures
        row_styles(true, theme).1 == (Style {
            bg: Some(theme.surface.selection),
            ..ink(theme.text.primary)
        }),
        row_styles(false, theme).1 == (Style {
            bg: Some(theme.surface.elevated),
            ..ink(theme.text.secondary)
        }),
{
}

/// The caret is shown only while the composer of the conversation is what is typed into.
pub proof fn caret_needs_the_conversation(state: AppState)
    ensures
        composer_focused(state) <==> state.overlay is None && state.active_screen
            == Screen::Conversation,
{
}

/// The inside of a popup is the popup without the row and the column at each of its edges.
pub proof fn popup_has_a_frame(r: Rect)
    requires
        r.x < u16::MAX,
        r.y < u16::MAX,
    ensures
        inside(r).x == r.x + 1,
        inside(r).y == r.y + 1,
        r.width >= 2 ==> inside(r).width == r.width - 2,
        r.height >= 2 ==> inside(r).height == r.height - 2,
        r.width < 2 ==> inside(r).width == 0,
        r.height < 2 ==> inside(r).height == 0,
{
}

/// What a popup shows keeps a column free at each side of its inside.
pub proof fn popup_content_keeps_a_column_free(r: Rect)
    requires
        r.x < u16::MAX - 1,
        r.width >= 4,
    ensures
        content_of(r).x == r.x + 2,
        content_of(r).width == r.width - 4,
        content_of(r).y == inside(r).y,
        content_of(r).height == inside(r).height,
{
}

} // verus!
