//! What stands around the composer: key hints, the attachments strip, the clipped box
//! and its cursor, and the list of the user's turns.

use vstd::prelude::*;

use crate::geometry::Rect;
use crate::i18n::text_of;
use crate::line::{fg_style, no_style, spanv, styled_line, Line, Span, Style};
use crate::model::{line_views, SpanV};
use crate::number::{at_least, at_most, max_of};
use crate::protocol::RuntimeStatus;
use crate::render::composer_box::{box_lines, caret_x, caret_y, composer_box_lines};
use crate::render::text::{truncate_display, truncated};
use crate::screen::Screen;
use crate::state::AppState;
use crate::strings::{cat2, cat4, cat5, dec, decimal, lines, text_lines, trim, trimmed};
use crate::transcript::TranscriptItem;

verus! {

broadcast use crate::model::group_views;

// ---------------------------------------------------------------- hints

/// What the hint row says, where it earns its place.
pub open spec fn hint_text(state: AppState) -> Option<Seq<char>> {
    let t = text_of(state.locale);
    if state.status == RuntimeStatus::Busy {
        Some("Esc "@ + t.hint_interrupt@ + " · Ctrl+C "@ + t.hint_cancel@)
    } else if state.composer.text@.len() == 0 && state.turn_nav is None {
        Some(
            "/ "@ + t.hint_commands@ + " · @ "@ + t.hint_files@ + " · Shift+Tab "@ + (
            t.hint_permission@ + " · Ctrl+? "@ + t.hint_shortcuts@),
        )
    } else {
        None
    }
}

/// The key hints of the moment.
///
/// Two moments earn the row: a turn in flight (an interrupt that nobody can find is
/// not one) and an untouched composer (the openers). Once the user starts typing it
/// goes away.
pub fn key_hint_line(state: &AppState, width: usize) -> (r: Vec<Line>)
    ensures
        line_views(r@) == (match hint_text(*state) {
            Some(h) => seq![
                styled_line(
                    truncated(h, at_least(width as int, 1)),
                    fg_style(state.theme.text.muted),
                ),
            ],
            None => Seq::empty(),
        }),
{
    let t = state.t();
    let mut out: Vec<Line> = Vec::new();
    let hints = if state.is_busy() {
        cat4("Esc ", t.hint_interrupt, " · Ctrl+C ", t.hint_cancel)
    } else if state.composer.is_empty() && state.turn_nav.is_none() {
        let head = cat5("/ ", t.hint_commands, " · @ ", t.hint_files, " · Shift+Tab ");
        let tail = cat2(
            cat2(t.hint_permission, " · Ctrl+? ").as_str(),
            t.hint_shortcuts,
        );
        cat2(head.as_str(), tail.as_str())
    } else {
        return out;
    };
    assert(Some(hints@) == hint_text(*state));
    out.push(
        Line::of(
            Span::new(
                truncate_display(hints.as_str(), max_of(width, 1)),
                Style::fg(state.theme.text.muted),
            ),
        ),
    );
    assert(line_views(out@) =~= seq![
        styled_line(
            truncated(hints@, at_least(width as int, 1)),
            fg_style(state.theme.text.muted),
        ),
    ]);
    out
}

/// A hint stands above the composer exactly while a turn runs or the composer is
/// untouched.
pub proof fn typing_hides_the_hints(state: AppState)
    ensures
        hint_text(state) is Some <==> state.status == RuntimeStatus::Busy || (
        state.composer.text@.len() == 0 && state.turn_nav is None),
{
}

// ---------------------------------------------------------------- attachments

/// The first `n` attachments, numbered, with two spaces between.
pub open spec fn attachment_spans(atts: Seq<String>, n: int, style: Style) -> Seq<SpanV>
    decreases n,
{
    if n <= 0 {
        Seq::empty()
    } else {
        let before = attachment_spans(atts, n - 1, style);
        let own = spanv("["@ + decimal(n as nat) + "] "@ + atts[n - 1]@, style);
        if n > 1 {
            before + seq![spanv("  "@, no_style()), own]
        } else {
            before.push(own)
        }
    }
}

/// The attachments strip: compact when there are many.
pub open spec fn attachments(state: AppState) -> Seq<SpanV> {
    let atts = state.pending_attachments@;
    let style = fg_style(state.theme.accent.secondary);
    if atts.len() > 2 {
        styled_line(
            decimal(atts.len()) + " 个附件 · 空输入框按 Backspace 删除末项"@,
            style,
        )
    } else {
        attachment_spans(atts, atts.len() as int, style)
    }
}

pub fn attachments_line(state: &AppState) -> (r: Line)
    ensures
        r@ == attachments(*state),
{
    let atts = &state.pending_attachments;
    let style = Style::fg(state.theme.accent.secondary);
    let n: usize = atts.len();
    if n > 2 {
        return Line::of(
            Span::new(
                cat2(dec(n as u64).as_str(), " 个附件 · 空输入框按 Backspace 删除末项"),
                style,
            ),
        );
    }
    let mut line = Line::empty();
    let mut i: usize = 0;
    while i < n
        invariant
            i <= n,
            n == atts@.len(),
            style == fg_style(state.theme.accent.secondary),
            line@ == attachment_spans(atts@, i as int, style),
        decreases n - i,
    {
        let number = dec((i + 1) as u64);
        let own = Span::new(cat4("[", number.as_str(), "] ", atts[i].as_str()), style);
        if i > 0 {
            line.push2(Span::raw("  "), own);
        } else {
            line.push(own);
        }
        i += 1;
    }
    line
}

// ---------------------------------------------------------------- the box on screen

/// The composer takes the keys: no overlay is open and the conversation is shown.
pub open spec fn composer_focused(state: AppState) -> bool {
    state.overlay is None && state.active_screen == Screen::Conversation
}

/// The box clipped to the rows that are left, and the cell of the cursor where it is
/// focused and the cell is inside the area.
pub fn composer_view(state: &AppState, area: Rect) -> (r: (Vec<Line>, Option<(u16, u16)>))
    requires
        state.composer.wf(),
        area.x + area.width <= u16::MAX,
        area.y + area.height <= u16::MAX,
    ensures
        ({
            let all = box_lines(*state, area.width as int);
            let shown = at_most(area.height as int, all.len() as int);
            let cx = caret_x(*state, area.width as int);
            let cy = caret_y(*state, area.width as int);
            &&& line_views(r.0@) == all.take(shown)
            &&& r.1 == (if composer_focused(*state) && cx < area.width && cy < area.height {
                Some(((area.x + cx) as u16, (area.y + cy) as u16))
            } else {
                None
            })
        }),
{
    let (all, (cx, cy)) = composer_box_lines(state, area.width as usize);
    let ghost av = line_views(all@);
    let mut shown = all;
    if shown.len() > area.height as usize {
        shown.truncate(area.height as usize);
        assert(line_views(shown@) =~= av.take(area.height as int));
    } else {
        assert(av.take(av.len() as int) =~= av);
    }
    let focused = state.overlay.is_none() && state.active_screen == Screen::Conversation;
    let cursor = if focused && cx < area.width && cy < area.height {
        Some((area.x + cx, area.y + cy))
    } else {
        None
    };
    (shown, cursor)
}

// ---------------------------------------------------------------- turns

/// The first line of a text; the text itself where it has none.
pub open spec fn first_line(text: Seq<char>) -> Seq<char> {
    if text_lines(text).len() > 0 {
        text_lines(text)[0]
    } else {
        text
    }
}

pub fn first_line_of(text: &str) -> (r: String)
    ensures
        r@ == first_line(text@),
{
    let all = lines(text);
    assert(text_lines(text@).len() == all@.len());
    if all.len() > 0 {
        assert(text_lines(text@)[0] == all@[0]@);
        all[0].clone()
    } else {
        text.to_owned()
    }
}

/// The previews of the user's messages among the first `n` items, blank ones left out.
pub open spec fn turn_previews(items: Seq<TranscriptItem>, n: int) -> Seq<Seq<char>>
    decreases n,
{
    if n <= 0 {
        Seq::empty()
    } else {
        let before = turn_previews(items, n - 1);
        match items[n - 1] {
            TranscriptItem::User(text) => {
                let one = trimmed(first_line(text@));
                if one.len() == 0 {
                    before
                } else {
                    before.push(one)
                }
            },
            _ => before,
        }
    }
}

/// Ordinals, from one on, beside texts.
pub open spec fn numbered(v: Seq<(usize, String)>) -> Seq<(int, Seq<char>)> {
    Seq::new(v.len(), |i: int| (v[i].0 as int, v[i].1@))
}

/// `(ordinal, preview)` for every user message in the transcript.
pub fn user_turn_summaries(state: &AppState) -> (r: Vec<(usize, String)>)
    ensures
        ({
            let previews = turn_previews(
                state.transcript.items@,
                state.transcript.items@.len() as int,
            );
            numbered(r@) == Seq::new(previews.len(), |i: int| (i + 1, previews[i]))
        }),
{
    let items = &state.transcript.items;
    let mut out: Vec<(usize, String)> = Vec::new();
    let mut i: usize = 0;
    let ghost mut p = turn_previews(items@, 0);
    assert(numbered(out@) =~= Seq::new(p.len(), |k: int| (k + 1, p[k])));
    while i < items.len()
        invariant
            i <= items@.len(),
            out@.len() <= i,
            out@.len() == p.len(),
            p == turn_previews(items@, i as int),
            numbered(out@) == Seq::new(p.len(), |k: int| (k + 1, p[k])),
        decreases items@.len() - i,
    {
        match &items[i] {
            TranscriptItem::User(text) => {
                let one = trim(first_line_of(text.as_str()).as_str());
                if !one.as_str().is_empty() {
                    let ghost before = numbered(out@);
                    let ghost o = one@;
                    out.push((out.len() + 1, one));
                    assert(numbered(out@) =~= before.push((p.len() as int + 1, o)));
                    proof {
                        let q = p.push(o);
                        assert(numbered(out@) =~= Seq::new(q.len(), |k: int| (k + 1, q[k])));
                        p = q;
                    }
                }
            },
            _ => {},
        }
        i += 1;
    }
    out
}

} // verus!
