//! Shared chrome for secondary surfaces.
//!
//! A secondary surface is a full-viewport page opened from the main workbench that
//! owns independent content and is explicitly dismissed. All of them speak the same
//! language:
//!
//! ```text
//! ← <identity>                            <parent / global status>
//! ──────────────────────────────────────────────────────────────────
//!
//!   <padded content>
//!
//! ──────────────────────────────────────────────────────────────────
//!   <interaction hints>
//! ```
//!
//! The navigation header owns the terminal edge: the back glyph sits at column 0, and
//! only the content and the hints are inset.

use vstd::prelude::*;

use crate::geometry::{
    asked, asked_upto, horizontal_inset, inset, length_along, lies_along, one_min, sizes_fit,
    sizes_kept, spans_across, split_area, stacked, start_along, tiles, Axis, PartSize, Rect,
};
use crate::i18n::text_of;
use crate::line::{bold_style, fg_style, spanv, styled_line, Line, Span, Style};
use crate::model::{line_views, plain, SpanV};
use crate::number::{at_most, minus};
use crate::protocol::RuntimeStatus;
use crate::render::text::{truncate_display, truncated};
use crate::render::turn_end::{marker_of, turn_end_marker};
use crate::state::AppState;
use crate::status_line::{
    elapsed, fmt_elapsed, phase_of, status_lines, status_phase, strip, ActivityRow, StatusPhase,
    WaitView,
};
use crate::strings::{cat2, repeat_char, repeated, trim_end, trimmed_end};
use crate::theme::Theme;
use crate::transcript::last_end;
use crate::width::{str_width, unicode_str_width};

verus! {

broadcast use crate::model::group_views;

/// Horizontal breathing room for content and footer hints.
pub const PADDING_X: u16 = 2;

/// The areas that a secondary surface draws into. `content` and `composer` are already
/// padded; header and footer are full width.
#[derive(Clone, Copy, Debug, PartialEq, Eq, Structural)]
pub struct SecondaryLayout {
    pub header: Rect,
    pub rule_top: Rect,
    pub content: Rect,
    pub composer: Rect,
    pub rule_bottom: Rect,
    pub footer: Rect,
}

/// The slots, from the six stacked parts.
pub open spec fn slots_of(parts: Seq<Rect>) -> SecondaryLayout {
    SecondaryLayout {
        header: parts[0],
        rule_top: parts[1],
        content: inset(parts[2], 2),
        composer: inset(parts[3], 2),
        rule_bottom: parts[4],
        footer: parts[5],
    }
}

/// The slots of a split area: header, rule, body, composer, rule, footer.
pub fn slots(parts: &Vec<Rect>) -> (r: SecondaryLayout)
    requires
        parts@.len() == 6,
    ensures
        r == slots_of(parts@),
{
    SecondaryLayout {
        header: parts[0],
        rule_top: parts[1],
        content: horizontal_inset(parts[2], PADDING_X),
        composer: horizontal_inset(parts[3], PADDING_X),
        rule_bottom: parts[4],
        footer: parts[5],
    }
}

/// The sizes that the slots ask for. The chrome's four rows are never given up for the
/// composer.
pub open spec fn slot_sizes(area: Rect, composer_rows: u16) -> Seq<PartSize> {
    seq![
        PartSize::Length(1),
        PartSize::Length(1),
        PartSize::Min(1),
        PartSize::Length(at_most(composer_rows as int, minus(area.height as int, 4)) as u16),
        PartSize::Length(1),
        PartSize::Length(1),
    ]
}

pub fn wanted_sizes(area: Rect, composer_rows: u16) -> (r: Vec<PartSize>)
    ensures
        r@ == slot_sizes(area, composer_rows),
{
    let left: u16 = area.height.saturating_sub(4);
    let rows: u16 = if composer_rows < left {
        composer_rows
    } else {
        left
    };
    let mut sizes: Vec<PartSize> = Vec::new();
    sizes.push(PartSize::Length(1));
    sizes.push(PartSize::Length(1));
    sizes.push(PartSize::Min(1));
    sizes.push(PartSize::Length(rows));
    sizes.push(PartSize::Length(1));
    sizes.push(PartSize::Length(1));
    assert(sizes@ =~= slot_sizes(area, composer_rows));
    sizes
}

/// The slots of an area that has room for them: the header on the first row, the footer
/// on the last, a rule inside of either, the composer's rows above the lower rule, and
/// the body in all rows between.
pub open spec fn roomy_slots(area: Rect, composer_rows: u16) -> SecondaryLayout {
    let row = |i: int, n: int| Rect { y: (area.y + i) as u16, height: n as u16, ..area };
    let body = area.height - 4 - composer_rows;
    SecondaryLayout {
        header: row(0, 1),
        rule_top: row(1, 1),
        content: inset(row(2, body), 2),
        composer: inset(row(2 + body, composer_rows as int), 2),
        rule_bottom: row(2 + body + composer_rows, 1),
        footer: row(area.height - 1, 1),
    }
}

/// The slots are the rows of the area, each where the one before it ends.
pub open spec fn rows_tile(s: SecondaryLayout, area: Rect) -> bool {
    &&& s.header.y == area.y
    &&& s.rule_top.y == s.header.y + s.header.height
    &&& s.content.y == s.rule_top.y + s.rule_top.height
    &&& s.composer.y == s.content.y + s.content.height
    &&& s.rule_bottom.y == s.composer.y + s.composer.height
    &&& s.footer.y == s.rule_bottom.y + s.rule_bottom.height
    &&& s.footer.y + s.footer.height == area.y + area.height
}

/// A strip has a row at most, the composer no more than it asks for, and the body has a
/// row where the area has one.
pub open spec fn rows_kept(s: SecondaryLayout, area: Rect, composer_rows: u16) -> bool {
    &&& s.header.height <= 1 && s.rule_top.height <= 1
    &&& s.rule_bottom.height <= 1 && s.footer.height <= 1
    &&& s.composer.height <= composer_rows
    &&& area.height >= 1 ==> s.content.height >= 1
}

/// Split `area` into the shared slots. Every slot keeps the area's columns, the body
/// and the composer inside the padding. The slots are the area's rows in order, whatever
/// its height: only the strips and the composer are cut, and the body has a row where the
/// area has one. In an area with room for all of them the slots
/// are its rows from the first to the last.
pub fn layout(area: Rect, composer_rows: u16) -> (r: SecondaryLayout)
    ensures
        exists|parts: Seq<Rect>|
            #![trigger slots_of(parts)]
            parts.len() == 6 && r == slots_of(parts) && (forall|i: int|
                0 <= i < 6 ==> spans_across(#[trigger] parts[i], area, Axis::Vertical)
                    && lies_along(parts[i], area, Axis::Vertical)),
        area.y + area.height <= u16::MAX ==> rows_tile(r, area) && rows_kept(
            r,
            area,
            composer_rows,
        ),
        composer_rows + 5 <= area.height && area.y + area.height <= u16::MAX ==> r == roomy_slots(
            area,
            composer_rows,
        ),
{
    let sizes = wanted_sizes(area, composer_rows);
    let parts = split_area(area, Axis::Vertical, &sizes);
    proof {
        let all = sizes@;
        let v = Axis::Vertical;
        assert(one_min(all, 2));
        if area.y + area.height <= u16::MAX {
            assert(tiles(parts@, area, v));
            assert(sizes_kept(parts@, area, v, all, 2));
            assert(forall|i: int|
                0 < i < 6 ==> start_along(#[trigger] parts@[i], v) == start_along(parts@[i - 1], v)
                    + length_along(parts@[i - 1], v));
            assert(parts@[1].y == parts@[0].y + parts@[0].height);
            assert(parts@[2].y == parts@[1].y + parts@[1].height);
            assert(parts@[3].y == parts@[2].y + parts@[2].height);
            assert(parts@[4].y == parts@[3].y + parts@[3].height);
            assert(parts@[5].y == parts@[4].y + parts@[4].height);
            assert(length_along(parts@[0], v) <= asked(all[0]));
            assert(length_along(parts@[1], v) <= asked(all[1]));
            assert(length_along(parts@[3], v) <= asked(all[3]));
            assert(length_along(parts@[4], v) <= asked(all[4]));
            assert(length_along(parts@[5], v) <= asked(all[5]));
        }
        if composer_rows + 5 <= area.height && area.y + area.height <= u16::MAX {
            reveal_with_fuel(asked_upto, 7);
            assert(sizes_fit(area, Axis::Vertical, all));
            let want = stacked(area, Axis::Vertical, all, 2);
            assert(parts@ == want);
            assert(slots_of(want) == roomy_slots(area, composer_rows));
        }
    }
    slots(&parts)
}

/// The slots of an area with room for them are all its rows, each once, from the first
/// to the last.
pub proof fn slots_tile_the_area(area: Rect, composer_rows: u16)
    requires
        composer_rows + 5 <= area.height,
        area.y + area.height <= u16::MAX,
    ensures
        ({
            let s = roomy_slots(area, composer_rows);
            &&& s.header.y == area.y && s.header.height == 1
            &&& s.rule_top.y == s.header.y + 1 && s.rule_top.height == 1
            &&& s.content.y == s.rule_top.y + 1 && s.content.height >= 1
            &&& s.composer.y == s.content.y + s.content.height && s.composer.height
                == composer_rows
            &&& s.rule_bottom.y == s.composer.y + s.composer.height && s.rule_bottom.height == 1
            &&& s.footer.y == s.rule_bottom.y + 1 && s.footer.height == 1
            &&& s.footer.y + 1 == area.y + area.height
        }),
{
}

// ---------------------------------------------------------------- the header

/// One surface's identity and interaction contract.
#[derive(Debug)]
pub struct SecondaryPage {
    /// Left identity. Already localized.
    pub title: String,
    /// Right-aligned parent status: the main run's own words.
    pub status: Line,
    /// Footer interaction hint. Only bindings that really exist.
    pub hint: String,
}

/// The columns of the parent status, as far as it is visible.
pub open spec fn status_width(status: Seq<SpanV>) -> int {
    unicode_str_width(trimmed_end(plain(status))) as int
}

/// The parent status is shown where it fits the row at all.
pub open spec fn status_fits(status: Seq<SpanV>, width: int) -> bool {
    0 < status_width(status) <= width
}

/// The columns left for the identity: with a gap before the status.
pub open spec fn identity_room(status: Seq<SpanV>, width: int) -> int {
    if status_fits(status, width) {
        minus(width, status_width(status) + 1)
    } else {
        width
    }
}

/// The header row: the identity with its area, and the area of the status.
#[derive(Debug)]
pub struct HeaderRow {
    pub identity: Option<(Span, Rect)>,
    pub status: Option<Rect>,
}

/// Place the identity at the left edge and the parent status at the right one.
///
/// The identity alone tells the user where they are, so the status yields where the
/// row cannot hold it.
pub fn header_row(header: Rect, page: &SecondaryPage, theme: &Theme) -> (r: HeaderRow)
    requires
        header.x + header.width <= u16::MAX,
    ensures
        ({
            let width = if header.height == 0 {
                0
            } else {
                header.width as int
            };
            let left = identity_room(page.status@, width);
            let right = status_width(page.status@);
            &&& r.identity is Some <==> left > 0
            &&& r.identity matches Some(id) ==> id.0@ == spanv(
                truncated("← "@ + page.title@, left),
                bold_style(theme.accent.secondary),
            ) && id.1 == (Rect { x: header.x, y: header.y, width: left as u16, height: 1 })
            &&& r.status is Some <==> status_fits(page.status@, width)
            &&& r.status matches Some(s) ==> s == (Rect {
                x: (header.x + width - right) as u16,
                y: header.y,
                width: right as u16,
                height: 1,
            })
        }),
{
    let width: u16 = if header.height == 0 {
        0
    } else {
        header.width
    };
    // A status line can carry trailing padding: only what is visible is measured.
    let text = page.status.to_text();
    let right: usize = str_width(trim_end(text.as_str()).as_str());
    let fits = right > 0 && right <= width as usize;
    let left: u16 = if fits {
        (width - right as u16).saturating_sub(1)
    } else {
        width
    };
    let identity = if left > 0 {
        let label = cat2("← ", page.title.as_str());
        let span = Span::new(
            truncate_display(label.as_str(), left as usize),
            Style::bold(theme.accent.secondary),
        );
        Some((span, Rect { x: header.x, y: header.y, width: left, height: 1 }))
    } else {
        None
    };
    let status = if fits {
        let w: u16 = right as u16;
        Some(Rect { x: header.x + (width - w), y: header.y, width: w, height: 1 })
    } else {
        None
    };
    HeaderRow { identity, status }
}

/// Identity and status never overlap: where both are shown there is a free column
/// between them.
pub proof fn header_halves_do_not_overlap(status: Seq<SpanV>, x: int, width: int)
    requires
        status_fits(status, width),
        identity_room(status, width) > 0,
    ensures
        x + identity_room(status, width) < x + width - status_width(status),
{
}

// ---------------------------------------------------------------- rules and footer

/// A full-width rule; nothing in an area without cells.
pub fn rule_line(area: Rect, theme: &Theme) -> (r: Option<Line>)
    ensures
        r is Some <==> area.width > 0 && area.height > 0,
        r matches Some(l) ==> l@ == styled_line(
            repeated('─', area.width as nat),
            fg_style(theme.border.normal),
        ),
{
    if area.width == 0 || area.height == 0 {
        return None;
    }
    Some(
        Line::of(
            Span::new(
                repeat_char('─', area.width as usize),
                Style::fg(theme.border.normal),
            ),
        ),
    )
}

/// The interaction hint and its area, inside the padding.
pub fn footer_hint_line(footer: Rect, page: &SecondaryPage, theme: &Theme) -> (r: Option<(Line, Rect)>)
    ensures
        r is Some <==> footer.height > 0 && inset(footer, 2).width > 0,
        r matches Some(p) ==> p.1 == inset(footer, 2) && p.0@ == styled_line(
            truncated(page.hint@, inset(footer, 2).width as int),
            fg_style(theme.text.muted),
        ),
{
    if footer.height == 0 {
        return None;
    }
    let inner = horizontal_inset(footer, PADDING_X);
    if inner.width == 0 {
        return None;
    }
    let hint = truncate_display(page.hint.as_str(), inner.width as usize);
    Some((Line::of(Span::new(hint, Style::fg(theme.text.muted))), inner))
}

// ---------------------------------------------------------------- the parent status

/// The main run's status, for a header.
pub open spec fn main_status(
    state: AppState,
    wait: Option<WaitView>,
    rows: Seq<ActivityRow>,
    now_ms: u64,
    width: int,
) -> Seq<SpanV> {
    let t = text_of(state.locale);
    if state.status == RuntimeStatus::Busy || phase_of(state) == StatusPhase::AwaitingUser {
        strip(state, wait, rows, now_ms, width)[0]
    } else if state.status == RuntimeStatus::Error {
        styled_line("✗ "@ + t.final_failed@, fg_style(state.theme.status.error))
    } else {
        match last_end(state.transcript.items@, state.transcript.items@.len() as int) {
            Some(b) => {
                let (label, color) = marker_of(b, state.theme, t);
                styled_line(
                    label + (if b.elapsed_secs > 0 {
                        " · "@ + elapsed(b.elapsed_secs as nat)
                    } else {
                        Seq::empty()
                    }),
                    bold_style(color),
                )
            },
            None => styled_line(t.btw_main_idle@, fg_style(state.theme.text.muted)),
        }
    }
}

/// The main run's live status, for a secondary surface's header.
///
/// Busy and awaiting-user come straight from the shared status strip. An idle surface
/// shows the last turn's own terminal marker, so that the verdict is the runtime's
/// word and never a guess.
pub fn main_status_spans(
    state: &AppState,
    wait: &Option<WaitView>,
    rows: &Vec<ActivityRow>,
    now_ms: u64,
    width: usize,
) -> (r: Line)
    ensures
        r@ == main_status(*state, *wait, rows@, now_ms, width as int),
{
    let t = state.t();
    if state.is_busy() || status_phase(state) == StatusPhase::AwaitingUser {
        let lines = status_lines(state, wait, rows, now_ms, width);
        assert(line_views(lines@)[0] == lines@[0]@);
        return lines[0].copy();
    }
    if state.status == RuntimeStatus::Error {
        return Line::of(
            Span::new(cat2("✗ ", t.final_failed), Style::fg(state.theme.status.error)),
        );
    }
    match state.transcript.last_turn_end() {
        Some(b) => {
            let (label, color) = turn_end_marker(b, &state.theme, &t);
            // The compact verdict only: the divider's rule is not header material.
            let text = if b.elapsed_secs > 0 {
                let suffix = cat2(" · ", fmt_elapsed(b.elapsed_secs).as_str());
                cat2(label.as_str(), suffix.as_str())
            } else {
                label
            };
            let line = Line::of(Span::new(text, Style::bold(color)));
            assert(line@ =~= main_status(*state, *wait, rows@, now_ms, width as int));
            line
        },
        None => Line::of(Span::text(t.btw_main_idle, Style::fg(state.theme.text.muted))),
    }
}

} // verus!
