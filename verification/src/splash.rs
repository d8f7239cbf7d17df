//! Conversation empty-state: a terminal-native brand hero card.
//!
//! Shown only while the conversation has no real work; the first real message
//! hides it. The copy is the language's own; the marks are painted elsewhere.

use vstd::prelude::*;

use crate::i18n::UiText;
use crate::line::{
    bold_style, fg_style, no_style, spaces, spanv, styled_line, Line, Span, Style,
};
use crate::model::{line_views, views, SpanV};
use crate::number::{at_least, at_most, max_of, min_of, minus, sat};
use crate::render::text::{pad_display, padded, truncate_display, truncated};
use crate::screen::{label_of, slash_popup_label};
use crate::state::AppState;
use crate::strings::{cat2, cat3, chars_of, find_char, find_from, repeat_char, repeated, string_of};
use crate::theme::Theme;
use crate::transcript::TranscriptItem;
use crate::width::{line_columns, str_width, unicode_str_width};

verus! {

broadcast use crate::model::group_views;

/// The sizes of the level mark.
#[derive(Clone, Copy, Debug, PartialEq, Eq, Structural)]
pub enum BrandMarkSize {
    Master,
    Compact,
    Micro,
}

/// A painted level mark and the columns it takes.
#[derive(Debug)]
pub struct BrandMark {
    pub rows: Vec<Line>,
    pub width: usize,
}

/// The level mark in its sizes.
#[derive(Debug)]
pub struct BrandMarks {
    pub master: BrandMark,
    pub compact: BrandMark,
    pub micro: BrandMark,
}

impl BrandMarks {
    pub open spec fn at(self, size: BrandMarkSize) -> BrandMark {
        match size {
            BrandMarkSize::Master => self.master,
            BrandMarkSize::Compact => self.compact,
            BrandMarkSize::Micro => self.micro,
        }
    }

    fn get(&self, size: BrandMarkSize) -> (r: &BrandMark)
        ensures
            *r == self.at(size),
    {
        match size {
            BrandMarkSize::Master => &self.master,
            BrandMarkSize::Compact => &self.compact,
            BrandMarkSize::Micro => &self.micro,
        }
    }
}

const PREFERRED_BOX_W: usize = 80;

const PREFERRED_BOX_H: usize = 16;

const MAX_BOX_W: usize = 86;

const WIDE_CONTENT_W: usize = 42;

// ---------------------------------------------------------------- when it shows

/// Whether an item is real work of a conversation.
pub open spec fn is_turn(item: TranscriptItem) -> bool {
    match item {
        TranscriptItem::Plan(_) | TranscriptItem::Failure(_) => false,
        _ => true,
    }
}

/// A conversation without real work.
pub open spec fn is_blank(items: Seq<TranscriptItem>) -> bool {
    !(exists|i: int| 0 <= i < items.len() && is_turn(#[trigger] items[i]))
}

/// Real work hides the card for good: whatever joins the conversation after it, the card
/// does not come back. A message of the user is such work.
pub proof fn real_work_hides_the_card(items: Seq<TranscriptItem>, item: TranscriptItem, more: Seq<TranscriptItem>)
    requires
        is_turn(item),
    ensures
        !is_blank(items.push(item) + more),
        forall|text: String| #[trigger] is_turn(TranscriptItem::User(text)),
{
    let all = items.push(item) + more;
    assert(all[items.len() as int] == item);
}

/// Whether the conversation is still empty of real turns.
pub fn conversation_is_empty(state: &AppState) -> (r: bool)
    ensures
        r == is_blank(state.transcript.items@),
{
    let mut i: usize = 0;
    while i < state.transcript.items.len()
        invariant
            i <= state.transcript.items@.len(),
            forall|k: int| 0 <= k < i ==> !is_turn(#[trigger] state.transcript.items@[k]),
        decreases state.transcript.items@.len() - i,
    {
        match &state.transcript.items[i] {
            TranscriptItem::Plan(_) | TranscriptItem::Failure(_) => {},
            _ => {
                assert(is_turn(state.transcript.items@[i as int]));
                return false;
            },
        }
        i += 1;
    }
    true
}

// ---------------------------------------------------------------- layout

#[derive(Clone, Copy, Debug, PartialEq, Eq, Structural)]
pub enum Mode {
    Wide,
    Medium,
    Narrow,
    Stack,
}

/// How the card is laid out in a viewport.
pub open spec fn mode_of(width: int, height: int) -> Mode {
    if height < 10 || width < 40 {
        Mode::Stack
    } else if width >= 72 && height >= 14 {
        Mode::Wide
    } else if width >= 56 {
        Mode::Medium
    } else {
        Mode::Narrow
    }
}

pub fn layout_mode(width: usize, height: usize) -> (r: Mode)
    ensures
        r == mode_of(width as int, height as int),
{
    if height < 10 || width < 40 {
        Mode::Stack
    } else if width >= 72 && height >= 14 {
        Mode::Wide
    } else if width >= 56 {
        Mode::Medium
    } else {
        Mode::Narrow
    }
}

/// The columns left free beside the card.
pub open spec fn h_margin(mode: Mode) -> int {
    if mode is Wide {
        4
    } else {
        2
    }
}

/// The columns between the mark and the copy.
pub open spec fn mark_gap(mode: Mode) -> int {
    if mode is Wide {
        5
    } else {
        2
    }
}

/// The mark that a layout would show.
pub open spec fn mode_mark(mode: Mode) -> Option<BrandMarkSize> {
    match mode {
        Mode::Wide => Some(BrandMarkSize::Master),
        Mode::Medium => Some(BrandMarkSize::Compact),
        Mode::Narrow => Some(BrandMarkSize::Micro),
        Mode::Stack => None,
    }
}

/// The numbers of a card.
#[derive(Clone, Copy, Debug, PartialEq, Eq, Structural)]
pub struct HeroLayout {
    /// The mark that is shown.
    pub mark: Option<BrandMarkSize>,
    pub mark_w: usize,
    pub gap: usize,
    pub box_w: usize,
    pub content_w: usize,
    pub group_left: usize,
    pub box_left_pad: usize,
}

/// The columns of the mark and what stands between it and the copy.
pub open spec fn reserved(mark_w: int, gap: int) -> int {
    mark_w + if mark_w > 0 {
        gap
    } else {
        0
    }
}

/// The first width of the card: the preferred one where the viewport has it.
pub open spec fn first_box(width: int, mode: Mode) -> int {
    at_most(80, minus(width, h_margin(mode)))
}

/// The width of the card: more than the first where the copy needs it, within the
/// largest card and the viewport.
pub open spec fn final_box(width: int, mode: Mode, needed: int, mark_w: int) -> int {
    at_most(
        at_least(first_box(width, mode), at_most(mark_w + mark_gap(mode) + needed + 6, 86)),
        minus(width, h_margin(mode)),
    )
}

/// Whether the mark leaves the copy its room. The copy beats the graphic.
pub open spec fn mark_fits(width: int, mode: Mode, needed: int, mark_w: int) -> bool {
    mark_w + mark_gap(mode) + needed <= minus(first_box(width, mode), 6)
}

/// The columns of the copy.
pub open spec fn hero_content(mode: Mode, needed: int, budget: int, mark_w: int, gap: int) -> int {
    let fit = minus(budget, reserved(mark_w, gap));
    if mode is Wide {
        at_most(42, fit)
    } else {
        at_most(needed, fit)
    }
}

/// The layout of a card, for copy that needs `needed` columns.
pub open spec fn laid_out(l: HeroLayout, width: int, mode: Mode, needed: int, marks: BrandMarks) -> bool {
    &&& l.mark == (match mode_mark(mode) {
        Some(size) => if mark_fits(width, mode, needed, marks.at(size).width as int) {
            Some(size)
        } else {
            None
        },
        None => None,
    })
    &&& l.mark_w == (match l.mark {
        Some(size) => marks.at(size).width as int,
        None => 0,
    })
    &&& l.gap == mark_gap(mode)
    &&& l.box_w == final_box(width, mode, needed, l.mark_w as int)
    &&& l.content_w == hero_content(
        mode,
        needed,
        minus(l.box_w as int, 6),
        l.mark_w as int,
        l.gap as int,
    )
    &&& l.group_left == minus(
        minus(l.box_w as int, 6),
        reserved(l.mark_w as int, l.gap as int) + l.content_w,
    ) / 2
    &&& l.box_left_pad == minus(width, l.box_w as int) / 2
}

pub fn hero_content_width(mode: Mode, needed: usize, budget: usize, mark_w: usize, gap: usize) -> (r:
    usize)
    ensures
        r == hero_content(mode, needed as int, budget as int, mark_w as int, gap as int),
{
    let taken: usize = if mark_w > 0 {
        mark_w.saturating_add(gap)
    } else {
        0
    };
    let fit: usize = budget.saturating_sub(taken);
    match mode {
        Mode::Wide => min_of(WIDE_CONTENT_W, fit),
        _ => min_of(needed, fit),
    }
}

fn hero_layout(width: usize, mode: Mode, needed: usize, marks: &BrandMarks) -> (l: HeroLayout)
    ensures
        laid_out(l, width as int, mode, needed as int, *marks),
{
    let margin: usize = match mode {
        Mode::Wide => 4,
        _ => 2,
    };
    let gap: usize = match mode {
        Mode::Wide => 5,
        _ => 2,
    };
    let size = match mode {
        Mode::Wide => Some(BrandMarkSize::Master),
        Mode::Medium => Some(BrandMarkSize::Compact),
        Mode::Narrow => Some(BrandMarkSize::Micro),
        Mode::Stack => None,
    };
    let avail: usize = width.saturating_sub(margin);
    let first: usize = min_of(PREFERRED_BOX_W, avail);
    let budget: usize = first.saturating_sub(6);
    let mark = match size {
        Some(size) => {
            let w: usize = marks.get(size).width;
            let all: usize = w.saturating_add(gap).saturating_add(needed);
            if all <= budget {
                Some(size)
            } else {
                None
            }
        },
        None => None,
    };
    let mark_w: usize = match mark {
        Some(size) => marks.get(size).width,
        None => 0,
    };
    let inner: usize = mark_w.saturating_add(gap).saturating_add(needed).saturating_add(6);
    let box_w: usize = min_of(max_of(first, min_of(inner, MAX_BOX_W)), avail);
    let budget: usize = box_w.saturating_sub(6);
    let content_w: usize = hero_content_width(mode, needed, budget, mark_w, gap);
    let taken: usize = if mark_w > 0 {
        mark_w.saturating_add(gap)
    } else {
        0
    };
    let group_w: usize = taken.saturating_add(content_w);
    HeroLayout {
        mark,
        mark_w,
        gap,
        box_w,
        content_w,
        group_left: budget.saturating_sub(group_w) / 2,
        box_left_pad: width.saturating_sub(box_w) / 2,
    }
}

/// The card lies within the viewport, its parts fill it and no more, and the group
/// of mark and copy stands in its middle, a column off at most.
pub proof fn hero_card_fits(l: HeroLayout, width: int, height: int, needed: int, marks: BrandMarks)
    requires
        0 <= needed,
        0 <= width,
        !(mode_of(width, height) is Stack),
        laid_out(l, width, mode_of(width, height), needed, marks),
    ensures
        20 <= l.box_w <= 86,
        l.box_left_pad + l.box_w <= width,
        2 + l.group_left + reserved(l.mark_w as int, l.gap as int) + l.content_w + 2 <= l.box_w - 2,
        ({
            let slack = l.box_w - 6 - reserved(l.mark_w as int, l.gap as int) - l.content_w;
            0 <= slack - 2 * l.group_left <= 1
        }),
{
}

// ---------------------------------------------------------------- copy

/// The styles of the card.
#[derive(Clone, Copy, Debug, PartialEq, Eq, Structural)]
pub struct SplashStyle {
    pub brand: Style,
    pub version: Style,
    pub tagline: Style,
    pub caret: Style,
    pub cta: Style,
    pub muted: Style,
    pub cmd: Style,
    pub desc: Style,
    pub border: Style,
}

pub open spec fn splash_style(theme: Theme) -> SplashStyle {
    SplashStyle {
        brand: bold_style(theme.accent.primary),
        version: fg_style(theme.text.muted),
        tagline: fg_style(theme.text.secondary),
        caret: fg_style(theme.accent.primary),
        cta: bold_style(theme.text.primary),
        muted: fg_style(theme.text.muted),
        cmd: fg_style(theme.accent.primary),
        desc: fg_style(theme.text.secondary),
        border: fg_style(theme.border.subtle),
    }
}

impl SplashStyle {
    pub fn from_theme(theme: &Theme) -> (r: SplashStyle)
        ensures
            r == splash_style(*theme),
    {
        SplashStyle {
            brand: Style::bold(theme.accent.primary),
            version: Style::fg(theme.text.muted),
            tagline: Style::fg(theme.text.secondary),
            caret: Style::fg(theme.accent.primary),
            cta: Style::bold(theme.text.primary),
            muted: Style::fg(theme.text.muted),
            cmd: Style::fg(theme.accent.primary),
            desc: Style::fg(theme.text.secondary),
            border: Style::fg(theme.border.subtle),
        }
    }
}

/// The first-run commands. No catalog: `/` still lists the rest.
pub open spec fn tip(i: int) -> Seq<char> {
    if i == 0 {
        "/feature-dev"@
    } else if i == 1 {
        "/model"@
    } else {
        "/help"@
    }
}

fn tip_command(i: usize) -> (r: &'static str)
    ensures
        r@ == tip(i as int),
{
    if i == 0 {
        "/feature-dev"
    } else if i == 1 {
        "/model"
    } else {
        "/help"
    }
}

/// The column that the labels of the commands begin in.
pub open spec fn name_column() -> int {
    sat(
        at_least(
            at_least(unicode_str_width(tip(0)) as int, unicode_str_width(tip(1)) as int),
            unicode_str_width(tip(2)) as int,
        ) + 3,
    )
}

pub fn command_name_col() -> (r: usize)
    ensures
        r == name_column(),
{
    max_of(
        max_of(str_width(tip_command(0)), str_width(tip_command(1))),
        str_width(tip_command(2)),
    ).saturating_add(3)
}

/// What the card says of configuration that is present but not trusted.
pub open spec fn extras_of(untrusted: Seq<Seq<char>>, t: UiText) -> Seq<Seq<char>> {
    if untrusted.len() == 0 {
        Seq::empty()
    } else {
        seq!["⚠ "@ + t.untrusted_config_title@] + Seq::new(
            untrusted.len(),
            |i: int| "  "@ + untrusted[i],
        ) + seq![t.untrusted_config_hint@]
    }
}

pub fn untrusted_extras(state: &AppState, t: &UiText) -> (r: Vec<String>)
    ensures
        views(r@) == extras_of(views(state.untrusted_config@), *t),
{
    let mut out: Vec<String> = Vec::new();
    let ghost paths = views(state.untrusted_config@);
    let ghost indented = Seq::new(paths.len(), |i: int| "  "@ + paths[i]);
    if state.untrusted_config.len() == 0 {
        return out;
    }
    out.push(cat2("⚠ ", t.untrusted_config_title));
    let ghost head = views(out@);
    assert(head =~= seq!["⚠ "@ + t.untrusted_config_title@]);
    let mut i: usize = 0;
    assert(head + indented.take(0) =~= head);
    while i < state.untrusted_config.len()
        invariant
            paths == views(state.untrusted_config@),
            indented == Seq::new(paths.len(), |i: int| "  "@ + paths[i]),
            i <= paths.len(),
            views(out@) == head + indented.take(i as int),
        decreases paths.len() - i,
    {
        out.push(cat2("  ", state.untrusted_config[i].as_str()));
        i += 1;
        assert(indented.take(i as int) =~= indented.take(i - 1).push(indented[i - 1]));
        assert(views(out@) =~= head + indented.take(i as int));
    }
    assert(indented.take(i as int) =~= indented);
    out.push(t.untrusted_config_hint.to_owned());
    assert(views(out@) =~= extras_of(paths, *t));
    out
}

/// The largest of `base` and the widths of the first `n` texts.
pub open spec fn widest(texts: Seq<Seq<char>>, base: int, n: int) -> int
    decreases n,
{
    if n <= 0 {
        base
    } else {
        at_least(widest(texts, base, n - 1), unicode_str_width(texts[n - 1]) as int)
    }
}

/// The largest of `base` and the widths of the first `n` command rows.
pub open spec fn widest_tip(t: UiText, name_col: int, base: int, n: int) -> int
    decreases n,
{
    if n <= 0 {
        base
    } else {
        at_least(
            widest_tip(t, name_col, base, n - 1),
            sat(name_col + unicode_str_width(label_of(tip(n - 1), t))),
        )
    }
}

/// The columns that the copy needs.
pub open spec fn needed_width(
    t: UiText,
    brand_text: Seq<char>,
    name_col: int,
    extras: Seq<Seq<char>>,
) -> int {
    let base = at_least(
        at_least(
            at_least(
                unicode_str_width(brand_text) as int,
                unicode_str_width(t.splash_tagline@) as int,
            ),
            sat(unicode_str_width("› "@) + unicode_str_width(t.splash_start_task@)),
        ),
        unicode_str_width(t.splash_more_commands@) as int,
    );
    widest(extras, widest_tip(t, name_col, base, 3), extras.len() as int)
}

pub fn content_width(t: &UiText, brand_text: &str, name_col: usize, extras: &Vec<String>) -> (r: usize)
    ensures
        r == needed_width(*t, brand_text@, name_col as int, views(extras@)),
{
    let mut w: usize = str_width(brand_text);
    w = max_of(w, str_width(t.splash_tagline));
    w = max_of(w, str_width("› ").saturating_add(str_width(t.splash_start_task)));
    w = max_of(w, str_width(t.splash_more_commands));
    let ghost base = w as int;
    let mut i: usize = 0;
    while i < 3
        invariant
            i <= 3,
            w == widest_tip(*t, name_col as int, base, i as int),
        decreases 3 - i,
    {
        let label = slash_popup_label(tip_command(i), t);
        w = max_of(w, name_col.saturating_add(str_width(label)));
        i += 1;
    }
    let ghost base = w as int;
    let mut k: usize = 0;
    while k < extras.len()
        invariant
            k <= extras@.len(),
            w == widest(views(extras@), base, k as int),
        decreases extras@.len() - k,
    {
        w = max_of(w, str_width(extras[k].as_str()));
        k += 1;
    }
    w
}

/// The row that invites to a task.
pub open spec fn cta_row(t: UiText, width: int, sty: SplashStyle) -> Seq<SpanV> {
    seq![
        spanv("› "@, sty.caret),
        spanv(
            truncated(t.splash_start_task@, minus(width, unicode_str_width("› "@) as int)),
            sty.cta,
        ),
    ]
}

pub fn cta_spans(t: &UiText, right_w: usize, sty: &SplashStyle) -> (r: Line)
    ensures
        r@ == cta_row(*t, right_w as int, *sty),
{
    let caret_w: usize = str_width("› ");
    let text = truncate_display(t.splash_start_task, right_w.saturating_sub(caret_w));
    Line::of2(Span::text("› ", sty.caret), Span::new(text, sty.cta))
}

/// The row that points at the rest of the commands, its slash marked.
pub open spec fn more_row(text: Seq<char>, width: int, sty: SplashStyle) -> Seq<SpanV> {
    let clipped = truncated(text, width);
    let i = find_from(clipped, '/', 0);
    if i < clipped.len() {
        seq![
            spanv(clipped.take(i), sty.muted),
            spanv("/"@, sty.caret),
            spanv(clipped.skip(i + 1), sty.muted),
        ]
    } else {
        styled_line(clipped, sty.muted)
    }
}

pub fn more_spans(text: &str, right_w: usize, sty: &SplashStyle) -> (r: Line)
    ensures
        r@ == more_row(text@, right_w as int, *sty),
{
    let clipped = truncate_display(text, right_w);
    let v = chars_of(clipped.as_str());
    let n: usize = v.len();
    let i: usize = find_char(&v, '/', 0);
    if i < n {
        let a = string_of(&v, 0, i);
        let b = string_of(&v, i + 1, n);
        assert(a@ =~= clipped@.take(i as int));
        assert(b@ =~= clipped@.skip(i + 1));
        Line::of3(Span::new(a, sty.muted), Span::text("/", sty.caret), Span::new(b, sty.muted))
    } else {
        Line::of(Span::new(clipped, sty.muted))
    }
}

/// The row of a command: its name in a column of its own, then its label.
pub open spec fn tip_row(i: int, t: UiText, name_w: int, label_w: int, sty: SplashStyle) -> Seq<SpanV> {
    seq![
        spanv(padded(tip(i), name_w), sty.cmd),
        spanv(truncated(label_of(tip(i), t), label_w), sty.desc),
    ]
}

fn push_tips(out: &mut Vec<Line>, t: &UiText, name_w: usize, label_w: usize, sty: &SplashStyle)
    ensures
        line_views(final(out)@) == line_views(old(out)@) + tip_rows(
            *t,
            name_w as int,
            label_w as int,
            *sty,
        ),
{
    let ghost base = line_views(out@);
    let ghost all = tip_rows(*t, name_w as int, label_w as int, *sty);
    let mut i: usize = 0;
    assert(base + all.take(0) =~= base);
    while i < 3
        invariant
            i <= 3,
            all == tip_rows(*t, name_w as int, label_w as int, *sty),
            line_views(out@) == base + all.take(i as int),
        decreases 3 - i,
    {
        let name = tip_command(i);
        let label = truncate_display(slash_popup_label(name, t), label_w);
        out.push(
            Line::of2(Span::new(pad_display(name, name_w), sty.cmd), Span::new(label, sty.desc)),
        );
        i += 1;
        assert(all.take(i as int) =~= all.take(i - 1).push(all[i - 1]));
        assert(line_views(out@) =~= base + all.take(i as int));
    }
    assert(all.take(3) =~= all);
}

pub open spec fn tip_rows(t: UiText, name_w: int, label_w: int, sty: SplashStyle) -> Seq<Seq<SpanV>> {
    Seq::new(3, |i: int| tip_row(i, t, name_w, label_w, sty))
}

// ---------------------------------------------------------------- the plain stack

/// The copy without a card, for a viewport too small for one.
pub open spec fn stack_lines(
    brand_text: Seq<char>,
    t: UiText,
    name_col: int,
    width: int,
    sty: SplashStyle,
) -> Seq<Seq<SpanV>> {
    seq![
        styled_line(truncated(brand_text, width), sty.brand),
        styled_line(truncated(t.splash_tagline@, width), sty.tagline),
        cta_row(t, width, sty),
    ] + tip_rows(t, at_most(name_col, width), minus(width, name_col), sty) + seq![
        more_row(t.splash_more_commands@, width, sty),
    ]
}

pub fn fallback_stack(brand_text: &str, t: &UiText, name_col: usize, width: usize, sty: &SplashStyle) -> (r:
    Vec<Line>)
    ensures
        line_views(r@) == stack_lines(brand_text@, *t, name_col as int, width as int, *sty),
{
    let mut out: Vec<Line> = Vec::new();
    out.push(Line::of(Span::new(truncate_display(brand_text, width), sty.brand)));
    out.push(Line::of(Span::new(truncate_display(t.splash_tagline, width), sty.tagline)));
    out.push(cta_spans(t, width, sty));
    push_tips(&mut out, t, min_of(name_col, width), width.saturating_sub(name_col), sty);
    out.push(more_spans(t.splash_more_commands, width, sty));
    assert(line_views(out@) =~= stack_lines(
        brand_text@,
        *t,
        name_col as int,
        width as int,
        *sty,
    ));
    out
}

// ---------------------------------------------------------------- the card

/// One empty row, where it is wanted.
pub open spec fn gap_row(wanted: bool) -> Seq<Seq<SpanV>> {
    if wanted {
        seq![Seq::empty()]
    } else {
        Seq::empty()
    }
}

fn push_gap(out: &mut Vec<Line>, wanted: bool)
    ensures
        line_views(final(out)@) == line_views(old(out)@) + gap_row(wanted),
{
    if wanted {
        out.push(Line::empty());
    }
    assert(line_views(out@) =~= line_views(old(out)@) + gap_row(wanted));
}

/// The rows of the warning: a gap, its title, each file, and what to do.
pub open spec fn warning_rows(
    untrusted: Seq<Seq<char>>,
    t: UiText,
    width: int,
    warn: Style,
    sty: SplashStyle,
) -> Seq<Seq<SpanV>> {
    if untrusted.len() == 0 {
        Seq::empty()
    } else {
        seq![
            Seq::empty(),
            styled_line(truncated("⚠ "@ + t.untrusted_config_title@, width), warn),
        ] + Seq::new(
            untrusted.len(),
            |i: int| styled_line(truncated("  "@ + untrusted[i], width), sty.muted),
        ) + seq![styled_line(truncated(t.untrusted_config_hint@, width), sty.muted)]
    }
}

fn push_warning(out: &mut Vec<Line>, state: &AppState, t: &UiText, width: usize, warn: Style, sty: &SplashStyle)
    ensures
        line_views(final(out)@) == line_views(old(out)@) + warning_rows(
            views(state.untrusted_config@),
            *t,
            width as int,
            warn,
            *sty,
        ),
{
    let ghost paths = views(state.untrusted_config@);
    let ghost files = Seq::new(
        paths.len(),
        |i: int| styled_line(truncated("  "@ + paths[i], width as int), sty.muted),
    );
    if state.untrusted_config.len() == 0 {
        assert(line_views(out@) =~= line_views(old(out)@) + warning_rows(
            paths,
            *t,
            width as int,
            warn,
            *sty,
        ));
        return;
    }
    out.push(Line::empty());
    let title = cat2("⚠ ", t.untrusted_config_title);
    out.push(Line::of(Span::new(truncate_display(title.as_str(), width), warn)));
    let ghost head = line_views(out@);
    let mut i: usize = 0;
    assert(head + files.take(0) =~= head);
    while i < state.untrusted_config.len()
        invariant
            paths == views(state.untrusted_config@),
            files == Seq::new(
                paths.len(),
                |i: int| styled_line(truncated("  "@ + paths[i], width as int), sty.muted),
            ),
            i <= paths.len(),
            line_views(out@) == head + files.take(i as int),
        decreases paths.len() - i,
    {
        let row = cat2("  ", state.untrusted_config[i].as_str());
        out.push(Line::of(Span::new(truncate_display(row.as_str(), width), sty.muted)));
        i += 1;
        assert(files.take(i as int) =~= files.take(i - 1).push(files[i - 1]));
        assert(line_views(out@) =~= head + files.take(i as int));
    }
    assert(files.take(i as int) =~= files);
    out.push(Line::of(Span::new(truncate_display(t.untrusted_config_hint, width), sty.muted)));
    assert(line_views(out@) =~= line_views(old(out)@) + warning_rows(
        paths,
        *t,
        width as int,
        warn,
        *sty,
    ));
}

/// The copy of the card, row by row.
pub open spec fn copy_rows(
    version: Seq<char>,
    untrusted: Seq<Seq<char>>,
    t: UiText,
    theme: Theme,
    content_w: int,
    section_gap: bool,
) -> Seq<Seq<SpanV>> {
    let sty = splash_style(theme);
    seq![
        seq![spanv("CodeLeveler"@, sty.brand), spanv("  v"@ + version, sty.version)],
        styled_line(truncated(t.splash_tagline@, content_w), sty.tagline),
    ] + gap_row(section_gap) + seq![cta_row(t, content_w, sty)] + gap_row(section_gap) + tip_rows(
        t,
        name_column(),
        minus(content_w, name_column()),
        sty,
    ) + gap_row(section_gap) + seq![more_row(t.splash_more_commands@, content_w, sty)]
        + warning_rows(untrusted, t, content_w, fg_style(theme.status.warning), sty)
}

fn hero_copy(state: &AppState, t: &UiText, theme: &Theme, content_w: usize, section_gap: bool) -> (r:
    Vec<Line>)
    ensures
        line_views(r@) == copy_rows(
            state.boot.version@,
            views(state.untrusted_config@),
            *t,
            *theme,
            content_w as int,
            section_gap,
        ),
{
    let sty = SplashStyle::from_theme(theme);
    let name_col: usize = command_name_col();
    let mut right: Vec<Line> = Vec::new();
    right.push(
        Line::of2(
            Span::text("CodeLeveler", sty.brand),
            Span::new(cat2("  v", state.version()), sty.version),
        ),
    );
    right.push(Line::of(Span::new(truncate_display(t.splash_tagline, content_w), sty.tagline)));
    push_gap(&mut right, section_gap);
    right.push(cta_spans(t, content_w, &sty));
    push_gap(&mut right, section_gap);
    push_tips(&mut right, t, name_col, content_w.saturating_sub(name_col), &sty);
    push_gap(&mut right, section_gap);
    right.push(more_spans(t.splash_more_commands, content_w, &sty));
    let warn = Style::fg(theme.status.warning);
    push_warning(&mut right, state, t, content_w, warn, &sty);
    assert(line_views(right@) =~= copy_rows(
        state.boot.version@,
        views(state.untrusted_config@),
        *t,
        *theme,
        content_w as int,
        section_gap,
    ));
    right
}

/// A row of the card: the mark and the copy, each filled to its columns, between
/// the borders.
pub open spec fn card_row(mark: Seq<SpanV>, copy: Seq<SpanV>, l: HeroLayout, border: Style) -> Seq<SpanV> {
    spaces(l.box_left_pad as int) + seq![spanv("│"@, border), spanv("  "@, no_style())] + spaces(
        l.group_left as int,
    ) + mark + spaces(minus(l.mark_w as int, line_columns(mark) as int)) + spaces(
        if l.mark_w > 0 {
            l.gap as int
        } else {
            0
        },
    ) + copy + spaces(minus(l.content_w as int, line_columns(copy) as int)) + spaces(
        minus(
            minus(l.box_w as int, 2),
            2 + l.group_left + reserved(l.mark_w as int, l.gap as int) + l.content_w + 2,
        ),
    ) + seq![spanv("  "@, no_style()), spanv("│"@, border)]
}

pub fn hero_row(mark: Line, copy: Line, l: &HeroLayout, sty: &SplashStyle) -> (r: Line)
    ensures
        r@ == card_row(mark@, copy@, *l, sty.border),
{
    let mut line = Line::empty();
    line.push_spaces(l.box_left_pad);
    assert(line@ =~= spaces(l.box_left_pad as int));
    line.push2(Span::text("│", sty.border), Span::raw("  "));
    line.push_spaces(l.group_left);
    let mark_used: usize = mark.width();
    let mark_fill: usize = l.mark_w.saturating_sub(mark_used);
    assert(mark_fill == minus(l.mark_w as int, line_columns(mark@) as int));
    line.extend(mark);
    line.push_spaces(mark_fill);
    let gap: usize = if l.mark_w > 0 {
        l.gap
    } else {
        0
    };
    line.push_spaces(gap);
    let copy_used: usize = copy.width();
    let copy_fill: usize = l.content_w.saturating_sub(copy_used);
    assert(copy_fill == minus(l.content_w as int, line_columns(copy@) as int));
    line.extend(copy);
    line.push_spaces(copy_fill);
    let used: usize = l.mark_w.saturating_add(gap).saturating_add(l.group_left).saturating_add(
        l.content_w,
    ).saturating_add(4);
    let rest: usize = l.box_w.saturating_sub(2).saturating_sub(used);
    assert(rest == minus(
        minus(l.box_w as int, 2),
        2 + l.group_left + reserved(l.mark_w as int, l.gap as int) + l.content_w + 2,
    ));
    line.push_spaces(rest);
    line.push2(Span::raw("  "), Span::text("│", sty.border));
    line
}

/// A row of the card with nothing in it.
pub open spec fn empty_row(box_w: int, left_pad: int, border: Style) -> Seq<SpanV> {
    spaces(left_pad) + seq![
        spanv("│"@, border),
        spanv(repeated(' ', minus(box_w, 2) as nat), no_style()),
        spanv("│"@, border),
    ]
}

pub fn blank_row(box_w: usize, left_pad: usize, border: Style) -> (r: Line)
    ensures
        r@ == empty_row(box_w as int, left_pad as int, border),
{
    let mut line = Line::empty();
    line.push_spaces(left_pad);
    line.push(Span::text("│", border));
    line.push(Span::new(repeat_char(' ', box_w.saturating_sub(2)), Style::plain()));
    line.push(Span::text("│", border));
    assert(line@ =~= empty_row(box_w as int, left_pad as int, border));
    line
}

/// The top or the bottom of the card.
pub open spec fn edge_row(left: Seq<char>, right: Seq<char>, box_w: int, left_pad: int, border: Style) -> Seq<
    SpanV,
> {
    spaces(left_pad) + seq![spanv(left + repeated('─', minus(box_w, 2) as nat) + right, border)]
}

pub fn border_line(left: &str, right: &str, box_w: usize, left_pad: usize, border: Style) -> (r: Line)
    ensures
        r@ == edge_row(left@, right@, box_w as int, left_pad as int, border),
{
    let mut line = Line::empty();
    line.push_spaces(left_pad);
    let bar = repeat_char('─', box_w.saturating_sub(2));
    line.push(Span::new(cat3(left, bar.as_str(), right), border));
    assert(line@ =~= edge_row(left@, right@, box_w as int, left_pad as int, border));
    line
}

/// The rows of the mark that is shown.
pub open spec fn mark_rows(l: HeroLayout, marks: BrandMarks) -> Seq<Seq<SpanV>> {
    match l.mark {
        Some(size) => line_views(marks.at(size).rows@),
        None => Seq::empty(),
    }
}

/// Row `i`, or an empty one past the end.
pub open spec fn row_or_empty(rows: Seq<Seq<SpanV>>, i: int) -> Seq<SpanV> {
    if 0 <= i < rows.len() {
        rows[i]
    } else {
        Seq::empty()
    }
}

/// The rows between the edges that are not blank: as many as the copy or the mark
/// has.
pub open spec fn body_rows(
    copy: Seq<Seq<SpanV>>,
    mark: Seq<Seq<SpanV>>,
    l: HeroLayout,
    border: Style,
) -> Seq<Seq<SpanV>> {
    Seq::new(
        at_least(copy.len() as int, mark.len() as int) as nat,
        |i: int| card_row(row_or_empty(mark, i), row_or_empty(copy, i), l, border),
    )
}

/// The blank rows of a card with `n` other rows: they fill it to its preferred
/// height where the viewport has it.
pub open spec fn blank_rows(n: int, height: int) -> int {
    minus(at_most(16, at_least(height, n + 2)), n + 2)
}

/// Several rows alike.
pub open spec fn same_rows(row: Seq<SpanV>, n: int) -> Seq<Seq<SpanV>> {
    Seq::new(n as nat, |i: int| row)
}

/// The card.
pub open spec fn card_lines(
    copy: Seq<Seq<SpanV>>,
    mark: Seq<Seq<SpanV>>,
    l: HeroLayout,
    height: int,
    border: Style,
) -> Seq<Seq<SpanV>> {
    let body = body_rows(copy, mark, l, border);
    let blank = empty_row(l.box_w as int, l.box_left_pad as int, border);
    let extra = blank_rows(body.len() as int, height);
    seq![edge_row("╭"@, "╮"@, l.box_w as int, l.box_left_pad as int, border)] + same_rows(
        blank,
        extra / 2,
    ) + body + same_rows(blank, extra - extra / 2) + seq![
        edge_row("╰"@, "╯"@, l.box_w as int, l.box_left_pad as int, border),
    ]
}

fn push_blanks(out: &mut Vec<Line>, l: &HeroLayout, n: usize, border: Style)
    ensures
        line_views(final(out)@) == line_views(old(out)@) + same_rows(
            empty_row(l.box_w as int, l.box_left_pad as int, border),
            n as int,
        ),
{
    let ghost base = line_views(out@);
    let ghost blank = empty_row(l.box_w as int, l.box_left_pad as int, border);
    let mut i: usize = 0;
    assert(base + same_rows(blank, 0) =~= base);
    while i < n
        invariant
            i <= n,
            blank == empty_row(l.box_w as int, l.box_left_pad as int, border),
            line_views(out@) == base + same_rows(blank, i as int),
        decreases n - i,
    {
        out.push(blank_row(l.box_w, l.box_left_pad, border));
        i += 1;
        assert(line_views(out@) =~= base + same_rows(blank, i as int));
    }
}

fn copy_row(rows: &Vec<Line>, i: usize) -> (r: Line)
    ensures
        r@ == row_or_empty(line_views(rows@), i as int),
{
    if i < rows.len() {
        rows[i].copy()
    } else {
        Line::empty()
    }
}

fn hero_card(copy: &Vec<Line>, mark: &Vec<Line>, l: &HeroLayout, height: usize, sty: &SplashStyle) -> (r:
    Vec<Line>)
    ensures
        line_views(r@) == card_lines(
            line_views(copy@),
            line_views(mark@),
            *l,
            height as int,
            sty.border,
        ),
{
    let n: usize = max_of(copy.len(), mark.len());
    let ghost body = body_rows(line_views(copy@), line_views(mark@), *l, sty.border);
    let min_h: usize = n.saturating_add(2);
    let extra: usize = min_of(PREFERRED_BOX_H, max_of(height, min_h)).saturating_sub(min_h);
    let top: usize = extra / 2;
    assert(extra == blank_rows(n as int, height as int));
    let mut out: Vec<Line> = Vec::new();
    out.push(border_line("╭", "╮", l.box_w, l.box_left_pad, sty.border));
    push_blanks(&mut out, l, top, sty.border);
    let ghost base = line_views(out@);
    let mut i: usize = 0;
    assert(base + body.take(0) =~= base);
    while i < n
        invariant
            i <= n,
            n == body.len(),
            body == body_rows(line_views(copy@), line_views(mark@), *l, sty.border),
            line_views(out@) == base + body.take(i as int),
        decreases n - i,
    {
        out.push(hero_row(copy_row(mark, i), copy_row(copy, i), l, sty));
        i += 1;
        assert(body.take(i as int) =~= body.take(i - 1).push(body[i - 1]));
        assert(line_views(out@) =~= base + body.take(i as int));
    }
    assert(body.take(i as int) =~= body);
    push_blanks(&mut out, l, extra - top, sty.border);
    out.push(border_line("╰", "╯", l.box_w, l.box_left_pad, sty.border));
    assert(line_views(out@) =~= card_lines(
        line_views(copy@),
        line_views(mark@),
        *l,
        height as int,
        sty.border,
    ));
    out
}

/// What an empty conversation shows in a viewport: the card, or the plain copy
/// where the viewport is too small for one.
pub open spec fn shows_splash(
    lines: Seq<Seq<SpanV>>,
    state: AppState,
    width: int,
    height: int,
    theme: Theme,
    t: UiText,
    marks: BrandMarks,
) -> bool {
    let version = state.boot.version@;
    let untrusted = views(state.untrusted_config@);
    let brand = "CodeLeveler  v"@ + version;
    let mode = mode_of(width, height);
    let needed = needed_width(t, brand, name_column(), extras_of(untrusted, t));
    let sty = splash_style(theme);
    if mode is Stack {
        lines == stack_lines(brand, t, name_column(), width, sty)
    } else {
        exists|l: HeroLayout| #[trigger]
            laid_out(l, width, mode, needed, marks) && lines == card_lines(
                copy_rows(version, untrusted, t, theme, l.content_w as int, height >= 14),
                mark_rows(l, marks),
                l,
                height,
                sty.border,
            )
    }
}

/// Splash lines for the empty conversation viewport. A viewport is taken to be at
/// least sixteen columns wide and one row high.
pub fn splash_lines(
    state: &AppState,
    width: usize,
    height: usize,
    theme: &Theme,
    t: &UiText,
    marks: &BrandMarks,
) -> (r: Vec<Line>)
    ensures
        shows_splash(
            line_views(r@),
            *state,
            at_least(width as int, 16),
            at_least(height as int, 1),
            *theme,
            *t,
            *marks,
        ),
{
    let width: usize = max_of(width, 16);
    let height: usize = max_of(height, 1);
    let sty = SplashStyle::from_theme(theme);
    let brand_text = cat2("CodeLeveler  v", state.version());
    let name_col: usize = command_name_col();
    let extras = untrusted_extras(state, t);
    let needed: usize = content_width(t, brand_text.as_str(), name_col, &extras);
    let mode = layout_mode(width, height);
    if mode == Mode::Stack {
        return fallback_stack(brand_text.as_str(), t, name_col, width, &sty);
    }
    let l = hero_layout(width, mode, needed, marks);
    let copy = hero_copy(state, t, theme, l.content_w, height >= 14);
    let none: Vec<Line> = Vec::new();
    assert(line_views(none@) =~= Seq::<Seq<SpanV>>::empty());
    let mark = match l.mark {
        Some(size) => &marks.get(size).rows,
        None => &none,
    };
    assert(line_views(mark@) == mark_rows(l, *marks));
    let out = hero_card(&copy, mark, &l, height, &sty);
    assert(laid_out(l, width as int, mode, needed as int, *marks));
    out
}

/// The layout of a card is fixed by the viewport, the copy and the marks.
pub proof fn hero_layout_is_unique(
    a: HeroLayout,
    b: HeroLayout,
    width: int,
    mode: Mode,
    needed: int,
    marks: BrandMarks,
)
    requires
        laid_out(a, width, mode, needed, marks),
        laid_out(b, width, mode, needed, marks),
    ensures
        a == b,
{
}

} // verus!
