//! The completion popup over the composer: which rows it shows, where, and what is
//! written into which cells.

use vstd::prelude::*;

use crate::geometry::{cell_sum, Rect};
use crate::i18n::text_of;
use crate::line::{fg_style, no_style, Style};
use crate::model::views;
use crate::number::{at_least, at_most, max_of, min_of, minus};
use crate::render::remote::{filled, pad_to_width};
use crate::render::text::{
    display_prefix, take_display_prefix, truncate_display, truncated,
};
use crate::screen::{
    file_source, first_fifty, mention_query, pairs, popup_for, ranked, visible_file_popup,
    visible_slash_popup,
};
use crate::state::AppState;
use crate::strings::{cat2, lowered, repeat_char, repeated};
use crate::theme::Theme;
use crate::width::{str_width, unicode_str_width};

verus! {

broadcast use crate::model::group_views;

/// The most rows that the popup shows.
const MAX: usize = 8;

/// Default command column. Grows to fit the longest visible name.
const SLASH_COMMAND_COL: usize = 14;

const SLASH_POPUP_MAX_WIDTH: u16 = 46;

// ---------------------------------------------------------------- columns

/// Columns after the popup border and inner padding.
pub fn slash_popup_content_width(popup_width: u16) -> (r: usize)
    ensures
        r == minus(popup_width as int, 4),
{
    popup_width.saturating_sub(4) as usize
}

/// The widest of the first `n` names.
pub open spec fn longest(names: Seq<Seq<char>>, n: int) -> int
    decreases n,
{
    if n <= 0 {
        0
    } else {
        at_least(longest(names, n - 1), unicode_str_width(names[n - 1]) as int)
    }
}

/// The columns of the commands: never fewer than the longest name has.
pub open spec fn command_columns(names: Seq<Seq<char>>) -> int {
    at_least(14, longest(names, names.len() as int))
}

/// The columns that the descriptions have left.
pub open spec fn description_columns(content_w: int, names: Seq<Seq<char>>) -> int {
    minus(minus(content_w, command_columns(names)), 1)
}

proof fn longest_covers(names: Seq<Seq<char>>, n: int, i: int)
    requires
        0 <= i < n <= names.len(),
    ensures
        unicode_str_width(names[i]) <= longest(names, n),
    decreases n,
{
    if i < n - 1 {
        longest_covers(names, n - 1, i);
    }
}

/// Every description of a popup starts at one column, however long its command is: the
/// command and its pad always take the command column. The command, the gap and the
/// description stay within the content.
pub proof fn descriptions_share_one_column(names: Seq<Seq<char>>, i: int, content_w: int)
    requires
        0 <= i < names.len(),
        0 <= content_w,
    ensures
        unicode_str_width(names[i]) + minus(
            command_columns(names),
            unicode_str_width(names[i]) as int,
        ) == command_columns(names),
        description_columns(content_w, names) > 0 ==> command_columns(names) + 1
            + description_columns(content_w, names) == content_w,
{
    longest_covers(names, names.len() as int, i);
}

/// Command column and remaining description columns for `content_w`.
///
/// Command width is measured in terminal cells, never bytes. The column is never
/// shrunk below the longest visible name.
pub fn slash_popup_columns(content_w: usize, names: &Vec<String>) -> (r: (usize, usize))
    ensures
        r.0 == command_columns(views(names@)),
        r.1 == description_columns(content_w as int, views(names@)),
{
    let mut widest: usize = 0;
    let mut i: usize = 0;
    while i < names.len()
        invariant
            i <= names@.len(),
            widest == longest(views(names@), i as int),
        decreases names@.len() - i,
    {
        widest = max_of(widest, str_width(names[i].as_str()));
        i += 1;
    }
    let command_col: usize = max_of(SLASH_COMMAND_COL, widest);
    let rest: usize = content_w.saturating_sub(command_col);
    (command_col, rest.saturating_sub(1))
}

/// The cells of a row: the whole name, the spaces behind it, and what fits of the
/// description.
#[derive(Debug)]
pub struct SlashPopupCells {
    pub name: String,
    pub name_pad: usize,
    pub desc: String,
    pub desc_col: usize,
}

/// What fits of a description.
pub open spec fn fitting_description(desc: Seq<char>, columns: int) -> Seq<char> {
    if columns == 0 {
        Seq::empty()
    } else {
        truncated(desc, columns)
    }
}

pub fn slash_popup_cells(name: &str, desc: &str, content_w: usize, names: &Vec<String>) -> (r: SlashPopupCells)
    ensures
        r.name@ == name@,
        r.name_pad == minus(command_columns(views(names@)), unicode_str_width(name@) as int),
        r.desc_col == description_columns(content_w as int, views(names@)),
        r.desc@ == fitting_description(desc@, r.desc_col as int),
{
    let (command_col, desc_col) = slash_popup_columns(content_w, names);
    // The command stays whole. Narrow popups clip when they are drawn.
    let name_pad: usize = command_col.saturating_sub(str_width(name));
    let shown = if desc_col == 0 {
        String::new()
    } else {
        truncate_display(desc, desc_col)
    };
    SlashPopupCells { name: name.to_owned(), name_pad, desc: shown, desc_col }
}

/// Display-width prefix with no ellipsis, to clip a row to the content.
pub fn clip_display(s: &str, max: usize) -> (r: String)
    ensures
        r@ == s@.take(display_prefix(s@, max as int)),
{
    take_display_prefix(s, max).0
}

/// A row as text: the command, its pad, a gap and the description, filled and clipped
/// to the content.
pub open spec fn popup_row(name: Seq<char>, desc: Seq<char>, content_w: int, names: Seq<Seq<char>>) -> Seq<char> {
    if content_w == 0 {
        Seq::empty()
    } else {
        let pad = minus(command_columns(names), unicode_str_width(name) as int);
        let cols = description_columns(content_w, names);
        let row = name + repeated(' ', pad as nat) + (if cols > 0 {
            " "@ + fitting_description(desc, cols)
        } else {
            Seq::empty()
        });
        let whole = filled(row, content_w);
        filled(whole.take(display_prefix(whole, content_w)), content_w)
    }
}

/// One slash-popup row as text.
pub fn slash_popup_row(name: &str, desc: &str, content_w: usize, names: &Vec<String>) -> (r: String)
    ensures
        r@ == popup_row(name@, desc@, content_w as int, views(names@)),
{
    if content_w == 0 {
        return String::new();
    }
    let cells = slash_popup_cells(name, desc, content_w, names);
    let mut row = cat2(cells.name.as_str(), repeat_char(' ', cells.name_pad).as_str());
    if cells.desc_col > 0 {
        row.append(cat2(" ", cells.desc.as_str()).as_str());
    }
    assert(row@ =~= name@ + repeated(' ', cells.name_pad as nat) + (if cells.desc_col > 0 {
        " "@ + fitting_description(desc@, cells.desc_col as int)
    } else {
        Seq::<char>::empty()
    }));
    let whole = pad_to_width(row.as_str(), content_w);
    pad_to_width(clip_display(whole.as_str(), content_w).as_str(), content_w)
}

// ---------------------------------------------------------------- place

/// The popup, the cells inside its border, and the cells of its rows' content.
#[derive(Clone, Copy, Debug, PartialEq, Eq, Structural)]
pub struct PopupPlace {
    pub popup: Rect,
    pub inner: Rect,
    pub content: Rect,
}

/// Where the popup stands: above the composer, at its left edge, within the
/// transcript's rows.
pub open spec fn popup_at(transcript: Rect, composer: Rect, rows: u16) -> Rect {
    let height = cell_sum(rows as int, 2);
    Rect {
        x: composer.x,
        y: at_least(minus(composer.y as int, height), transcript.y as int) as u16,
        width: at_least(at_most(46, transcript.width as int), 4) as u16,
        height: at_most(height, at_least(minus(composer.y as int, transcript.y as int), 1)) as u16,
    }
}

/// The cells inside a border.
pub open spec fn inside(r: Rect) -> Rect {
    Rect {
        x: cell_sum(r.x as int, 1) as u16,
        y: cell_sum(r.y as int, 1) as u16,
        width: minus(r.width as int, 2) as u16,
        height: minus(r.height as int, 2) as u16,
    }
}

/// The cells of the content: one column in from either side.
pub open spec fn content_of(popup: Rect) -> Rect {
    let inner = inside(popup);
    let pad = at_most(1, inner.width as int / 2);
    Rect {
        x: cell_sum(inner.x as int, pad) as u16,
        y: inner.y,
        width: at_most(minus(popup.width as int, 4), minus(inner.width as int, 2 * pad)) as u16,
        height: inner.height,
    }
}

pub fn slash_popup_geometry(transcript: Rect, composer: Rect, visible_rows: u16) -> (r: PopupPlace)
    ensures
        r.popup == popup_at(transcript, composer, visible_rows),
        r.inner == inside(r.popup),
        r.content == content_of(r.popup),
{
    let height: u16 = visible_rows.saturating_add(2);
    let bounded: u16 = if transcript.width < SLASH_POPUP_MAX_WIDTH {
        transcript.width
    } else {
        SLASH_POPUP_MAX_WIDTH
    };
    let width: u16 = if bounded < 4 {
        4
    } else {
        bounded
    };
    let above: u16 = composer.y.saturating_sub(height);
    let y: u16 = if above < transcript.y {
        transcript.y
    } else {
        above
    };
    let between: u16 = composer.y.saturating_sub(transcript.y);
    let most: u16 = if between < 1 {
        1
    } else {
        between
    };
    let popup = Rect {
        x: composer.x,
        y,
        width,
        height: if height < most {
            height
        } else {
            most
        },
    };
    let inner = Rect {
        x: popup.x.saturating_add(1),
        y: popup.y.saturating_add(1),
        width: popup.width.saturating_sub(2),
        height: popup.height.saturating_sub(2),
    };
    let pad: u16 = if inner.width / 2 < 1 {
        inner.width / 2
    } else {
        1
    };
    let wanted: u16 = popup.width.saturating_sub(4);
    let fits: u16 = inner.width.saturating_sub(pad * 2);
    let content = Rect {
        x: inner.x.saturating_add(pad),
        y: inner.y,
        width: if wanted < fits {
            wanted
        } else {
            fits
        },
        height: inner.height,
    };
    PopupPlace { popup, inner, content }
}

/// The popup covers no row of the composer where the transcript has a row above it,
/// and its content lies inside its border.
pub proof fn popup_stays_above_the_composer(transcript: Rect, composer: Rect, rows: u16)
    requires
        transcript.y < composer.y,
        composer.x + 46 <= u16::MAX,
    ensures
        ({
            let p = popup_at(transcript, composer, rows);
            &&& transcript.y <= p.y
            &&& p.y + p.height <= composer.y
            &&& inside(p).x <= content_of(p).x
            &&& content_of(p).x + content_of(p).width <= p.x + p.width - 1
        }),
{
}

// ---------------------------------------------------------------- rows

/// The first row that is shown, so that the highlighted one is among the eight.
pub open spec fn first_row(sel: int, len: int) -> int {
    at_most(minus(sel, 7), minus(len, 8))
}

/// The highlighted row is always shown.
pub proof fn highlighted_row_is_shown(sel: int, len: int)
    requires
        0 <= sel < len,
    ensures
        0 <= first_row(sel, len) <= sel < first_row(sel, len) + 8,
        first_row(sel, len) <= minus(len, 8),
{
}

/// The files of a mention as rows.
pub open spec fn file_rows(files: Seq<Seq<char>>, label: Seq<char>) -> Seq<(Seq<char>, Seq<char>)> {
    Seq::new(files.len(), |i: int| ("@"@ + files[i], label))
}

/// The files that the popup offers.
pub open spec fn offered_files(state: AppState) -> Seq<Seq<char>> {
    match mention_query(state.composer.before()) {
        Some(q) => if state.slash_popup_dismissed {
            Seq::empty()
        } else {
            first_fifty(ranked(file_source(state), lowered(q), file_source(state).len() as int))
        },
        None => Seq::empty(),
    }
}

/// The rows of the popup: files where a mention finds any, commands otherwise.
pub open spec fn popup_rows(state: AppState) -> Seq<(Seq<char>, Seq<char>)> {
    let t = text_of(state.locale);
    let files = offered_files(state);
    if files.len() > 0 {
        file_rows(files, t.file_mention@)
    } else if state.slash_popup_dismissed {
        Seq::empty()
    } else {
        popup_for(state.composer.text@, t, pairs(state.skill_catalog@), t)
    }
}

/// Shared match list for slash and file popups (name, description).
pub fn slash_popup_match_rows(state: &AppState) -> (r: Vec<(String, String)>)
    requires
        state.composer.wf(),
    ensures
        pairs(r@) == popup_rows(*state),
{
    let files = visible_file_popup(state);
    let ghost paths = offered_files(*state);
    assert(views(files@) == paths);
    assert(paths.len() == files@.len());
    if files.len() == 0 {
        return visible_slash_popup(state);
    }
    let t = state.t();
    let mut out: Vec<(String, String)> = Vec::new();
    let ghost all = file_rows(paths, t.file_mention@);
    let mut i: usize = 0;
    assert(pairs(out@) =~= all.take(0));
    while i < files.len()
        invariant
            views(files@) == paths,
            paths.len() == files@.len(),
            all == file_rows(paths, t.file_mention@),
            i <= files@.len(),
            pairs(out@) == all.take(i as int),
        decreases files@.len() - i,
    {
        assert(paths[i as int] == files@[i as int]@);
        let ghost before = pairs(out@);
        out.push((cat2("@", files[i].as_str()), t.file_mention.to_owned()));
        assert(pairs(out@) =~= before.push(all[i as int]));
        i += 1;
        assert(all.take(i as int) =~= all.take(i - 1).push(all[i - 1]));
    }
    assert(all.take(i as int) =~= all);
    out
}

// ---------------------------------------------------------------- writing cells

/// A text at a cell. At most `room` cells are written.
#[derive(Debug)]
pub struct CellText {
    pub x: u16,
    pub y: u16,
    pub text: String,
    pub room: u16,
    pub style: Style,
}

/// A text at a cell, as contracts speak of it.
pub ghost struct CellV {
    pub x: int,
    pub y: int,
    pub text: Seq<char>,
    pub room: int,
    pub style: Style,
}

impl View for CellText {
    type V = CellV;

    open spec fn view(&self) -> CellV {
        CellV {
            x: self.x as int,
            y: self.y as int,
            text: self.text@,
            room: self.room as int,
            style: self.style,
        }
    }
}

pub open spec fn cell_views(v: Seq<CellText>) -> Seq<CellV> {
    Seq::new(v.len(), |i: int| v[i]@)
}

/// What is written of `text` from `x` on, without crossing `right`: nothing past it or
/// below the screen.
pub open spec fn clipped_at(x: int, y: int, text: Seq<char>, right: int, screen_h: int, style: Style) -> Seq<CellV> {
    if x >= right || y >= screen_h {
        Seq::empty()
    } else {
        seq![
            CellV {
                x,
                y,
                text: text.take(display_prefix(text, right - x)),
                room: right - x,
                style,
            },
        ]
    }
}

/// The cell behind it. Columns are counted in sixteen bits.
pub open spec fn x_after(x: int, y: int, text: Seq<char>, right: int, screen_h: int) -> int {
    if x >= right || y >= screen_h {
        x
    } else {
        let written = unicode_str_width(text.take(display_prefix(text, right - x))) as int % 65536;
        at_most(cell_sum(x, written), right)
    }
}

/// Write `text` at `(x, y)` without crossing `right`. Wide characters that would
/// overflow the last cell are dropped, not split.
pub fn put_clipped(
    out: &mut Vec<CellText>,
    x: u16,
    y: u16,
    text: &str,
    right: u16,
    screen_h: u16,
    style: Style,
) -> (r: u16)
    ensures
        cell_views(final(out)@) == cell_views(old(out)@) + clipped_at(
            x as int,
            y as int,
            text@,
            right as int,
            screen_h as int,
            style,
        ),
        r == x_after(x as int, y as int, text@, right as int, screen_h as int),
        r <= x || r <= right,
{
    let ghost base = cell_views(out@);
    if x >= right || y >= screen_h {
        assert(base =~= base + Seq::<CellV>::empty());
        return x;
    }
    let room: u16 = right - x;
    let clipped = clip_display(text, room as usize);
    let written: u16 = (str_width(clipped.as_str()) % 65536) as u16;
    out.push(CellText { x, y, text: clipped, room, style });
    assert(cell_views(out@) =~= base + clipped_at(
        x as int,
        y as int,
        text@,
        right as int,
        screen_h as int,
        style,
    ));
    let next: u16 = x.saturating_add(written);
    if next < right {
        next
    } else {
        right
    }
}

/// The styles of a row's name, description and pads.
pub open spec fn row_styles(selected: bool, theme: Theme) -> (Style, Style, Style) {
    if selected {
        (
            Style {
                fg: Some(theme.text.primary),
                bg: Some(theme.surface.selection),
                bold: true,
                dim: false,
            },
            Style { bg: Some(theme.surface.selection), ..fg_style(theme.text.primary) },
            Style { bg: Some(theme.surface.selection), ..no_style() },
        )
    } else {
        (
            Style { bg: Some(theme.surface.elevated), ..fg_style(theme.accent.primary) },
            Style { bg: Some(theme.surface.elevated), ..fg_style(theme.text.secondary) },
            Style { bg: Some(theme.surface.elevated), ..no_style() },
        )
    }
}

/// The cells of one row: every inner cell is filled, then the marker, the name, its
/// pad and the description are written.
pub open spec fn row_cells(
    name: Seq<char>,
    desc: Seq<char>,
    names: Seq<Seq<char>>,
    selected: bool,
    y: int,
    inner: Rect,
    content: Rect,
    theme: Theme,
    screen_h: int,
) -> Seq<CellV> {
    let (name_style, desc_style, pad_style) = row_styles(selected, theme);
    let right = cell_sum(content.x as int, content.width as int);
    let pad = repeated(
        ' ',
        minus(command_columns(names), unicode_str_width(name) as int) as nat,
    );
    let cols = description_columns(content.width as int, names);
    let x0 = content.x as int;
    let x1 = x_after(x0, y, name, right, screen_h);
    let x2 = x_after(x1, y, pad, right, screen_h);
    let x3 = x_after(x2, y, " "@, right, screen_h);
    let head = seq![
        CellV {
            x: inner.x as int,
            y,
            text: repeated(' ', inner.width as nat),
            room: inner.width as int,
            style: pad_style,
        },
    ] + clipped_at(
        inner.x as int,
        y,
        if selected {
            ">"@
        } else {
            " "@
        },
        at_least(content.x as int, cell_sum(inner.x as int, 1)),
        screen_h,
        pad_style,
    ) + clipped_at(x0, y, name, right, screen_h, name_style) + clipped_at(
        x1,
        y,
        pad,
        right,
        screen_h,
        pad_style,
    );
    if cols > 0 {
        head + clipped_at(x2, y, " "@, right, screen_h, pad_style) + clipped_at(
            x3,
            y,
            fitting_description(desc, cols),
            right,
            screen_h,
            desc_style,
        )
    } else {
        head
    }
}

fn popup_row_cells(
    name: &str,
    desc: &str,
    names: &Vec<String>,
    selected: bool,
    y: u16,
    inner: Rect,
    content: Rect,
    theme: &Theme,
    screen_h: u16,
) -> (r: Vec<CellText>)
    ensures
        cell_views(r@) == row_cells(
            name@,
            desc@,
            views(names@),
            selected,
            y as int,
            inner,
            content,
            *theme,
            screen_h as int,
        ),
{
    let cells = slash_popup_cells(name, desc, content.width as usize, names);
    let (name_style, desc_style, pad_style) = if selected {
        (
            Style::bold(theme.text.primary).on(theme.surface.selection),
            Style::fg(theme.text.primary).on(theme.surface.selection),
            Style::plain().on(theme.surface.selection),
        )
    } else {
        (
            Style::fg(theme.accent.primary).on(theme.surface.elevated),
            Style::fg(theme.text.secondary).on(theme.surface.elevated),
            Style::plain().on(theme.surface.elevated),
        )
    };
    let right: u16 = content.x.saturating_add(content.width);
    let mut out: Vec<CellText> = Vec::new();
    // Own every inner cell (pads included) before writing glyphs.
    let blank = CellText {
        x: inner.x,
        y,
        text: repeat_char(' ', inner.width as usize),
        room: inner.width,
        style: pad_style,
    };
    let ghost bv = blank@;
    out.push(blank);
    assert(cell_views(out@) =~= seq![bv]);
    let marker = if selected {
        ">"
    } else {
        " "
    };
    let behind: u16 = inner.x.saturating_add(1);
    let edge: u16 = if content.x < behind {
        behind
    } else {
        content.x
    };
    let _m: u16 = put_clipped(&mut out, inner.x, y, marker, edge, screen_h, pad_style);
    let x1: u16 = put_clipped(
        &mut out,
        content.x,
        y,
        cells.name.as_str(),
        right,
        screen_h,
        name_style,
    );
    let pad = repeat_char(' ', cells.name_pad);
    let x2: u16 = put_clipped(&mut out, x1, y, pad.as_str(), right, screen_h, pad_style);
    if cells.desc_col > 0 {
        let x3: u16 = put_clipped(&mut out, x2, y, " ", right, screen_h, pad_style);
        let _e: u16 = put_clipped(
            &mut out,
            x3,
            y,
            cells.desc.as_str(),
            right,
            screen_h,
            desc_style,
        );
    }
    out
}

/// The popup as it is drawn: cleared, bordered, then written cell text by cell text.
#[derive(Debug)]
pub struct PopupPaint {
    pub place: PopupPlace,
    pub cells: Vec<CellText>,
}

/// The first components.
pub open spec fn firsts(rows: Seq<(Seq<char>, Seq<char>)>) -> Seq<Seq<char>> {
    Seq::new(rows.len(), |i: int| rows[i].0)
}

/// The cells of the first `n` rows of a window whose highlighted row is `sel`. A row
/// below the popup or below the screen is not written.
pub open spec fn window_cells(
    rows: Seq<(Seq<char>, Seq<char>)>,
    n: int,
    sel: int,
    place: PopupPlace,
    theme: Theme,
    screen_h: int,
) -> Seq<CellV>
    decreases n,
{
    if n <= 0 {
        Seq::empty()
    } else {
        let before = window_cells(rows, n - 1, sel, place, theme, screen_h);
        let y = cell_sum(place.content.y as int, n - 1);
        if y >= cell_sum(place.inner.y as int, place.inner.height as int) || y >= screen_h {
            before
        } else {
            before + row_cells(
                rows[n - 1].0,
                rows[n - 1].1,
                firsts(rows),
                n - 1 == sel,
                y,
                place.inner,
                place.content,
                theme,
                screen_h,
            )
        }
    }
}

/// The window of at most eight rows around the highlighted one.
pub open spec fn shown_rows(rows: Seq<(Seq<char>, Seq<char>)>, selected: int) -> Seq<(Seq<char>, Seq<char>)> {
    let sel = at_most(selected, rows.len() - 1);
    let start = first_row(sel, rows.len() as int);
    rows.subrange(start, at_most(start + 8, rows.len() as int))
}

/// What is written into the popup.
pub open spec fn painted(
    rows: Seq<(Seq<char>, Seq<char>)>,
    selected: int,
    place: PopupPlace,
    theme: Theme,
    screen_h: int,
) -> Seq<CellV> {
    let sel = at_most(selected, rows.len() - 1);
    let shown = shown_rows(rows, selected);
    if place.inner.width == 0 || place.inner.height == 0 || place.content.width == 0 {
        Seq::empty()
    } else {
        window_cells(
            shown,
            shown.len() as int,
            sel - first_row(sel, rows.len() as int),
            place,
            theme,
            screen_h,
        )
    }
}

/// The completion popup over the composer, if anything matches.
pub fn slash_popup_paint(state: &AppState, transcript: Rect, composer: Rect, screen_h: u16) -> (r: Option<PopupPaint>)
    requires
        state.composer.wf(),
    ensures
        r is None <==> popup_rows(*state).len() == 0,
        r matches Some(p) ==> {
            let rows = popup_rows(*state);
            let n = shown_rows(rows, state.slash_selected as int).len();
            &&& p.place.popup == popup_at(transcript, composer, n as u16)
            &&& p.place.inner == inside(p.place.popup)
            &&& p.place.content == content_of(p.place.popup)
            &&& cell_views(p.cells@) == painted(
                rows,
                state.slash_selected as int,
                p.place,
                state.theme,
                screen_h as int,
            )
        },
{
    let matches = slash_popup_match_rows(state);
    let ghost rows = popup_rows(*state);
    assert(rows.len() == matches@.len());
    if matches.len() == 0 {
        return None;
    }
    // Keep the highlighted row visible.
    let sel: usize = min_of(state.slash_selected, matches.len() - 1);
    let start: usize = min_of(
        sel.saturating_sub(MAX - 1),
        matches.len().saturating_sub(MAX),
    );
    let end: usize = if matches.len() - start < MAX {
        matches.len()
    } else {
        start + MAX
    };
    let ghost shown = shown_rows(rows, state.slash_selected as int);
    assert(shown == rows.subrange(start as int, end as int));
    let count: usize = end - start;
    let place = slash_popup_geometry(transcript, composer, count as u16);
    let mut cells: Vec<CellText> = Vec::new();
    assert(cell_views(cells@) =~= Seq::<CellV>::empty());
    if place.inner.width == 0 || place.inner.height == 0 || place.content.width == 0 {
        return Some(PopupPaint { place, cells });
    }
    let mut names: Vec<String> = Vec::new();
    let mut k: usize = 0;
    assert(views(names@) =~= firsts(shown).take(0));
    while k < count
        invariant
            pairs(matches@) == rows,
            rows.len() == matches@.len(),
            shown == rows.subrange(start as int, end as int),
            start + count == end,
            end <= matches@.len(),
            k <= count,
            views(names@) == firsts(shown).take(k as int),
        decreases count - k,
    {
        let ghost before = views(names@);
        assert(rows[start + k].0 == matches@[start + k].0@);
        names.push(matches[start + k].0.clone());
        assert(views(names@) =~= before.push(firsts(shown)[k as int]));
        k += 1;
        assert(firsts(shown).take(k as int) =~= firsts(shown).take(k - 1).push(
            firsts(shown)[k - 1],
        ));
    }
    assert(firsts(shown).take(k as int) =~= firsts(shown));
    let bottom: u16 = place.inner.y.saturating_add(place.inner.height);
    let mut row: usize = 0;
    while row < count
        invariant
            pairs(matches@) == rows,
            rows.len() == matches@.len(),
            shown == rows.subrange(start as int, end as int),
            start + count == end,
            end <= matches@.len(),
            count <= 8,
            row <= count,
            views(names@) == firsts(shown),
            bottom == cell_sum(place.inner.y as int, place.inner.height as int),
            cell_views(cells@) == window_cells(
                shown,
                row as int,
                sel - start,
                place,
                state.theme,
                screen_h as int,
            ),
        decreases count - row,
    {
        let y: u16 = place.content.y.saturating_add(row as u16);
        assert(rows[start + row].0 == matches@[start + row].0@);
        assert(rows[start + row].1 == matches@[start + row].1@);
        if y < bottom && y < screen_h {
            let mut more = popup_row_cells(
                matches[start + row].0.as_str(),
                matches[start + row].1.as_str(),
                &names,
                start + row == sel,
                y,
                place.inner,
                place.content,
                &state.theme,
                screen_h,
            );
            let ghost a = cell_views(cells@);
            let ghost b = cell_views(more@);
            cells.append(&mut more);
            assert(cell_views(cells@) =~= a + b);
        }
        row += 1;
    }
    assert(shown.len() == count);
    Some(PopupPaint { place, cells })
}

} // verus!
