//! The `/remote` invite screen.

use vstd::prelude::*;

use crate::i18n::UiText;
use crate::line::{bold_style, fg_style, spanv, styled_line, Line, Span, Style};
use crate::model::{line_views, views, SpanV};
use crate::number::{at_least, at_most, max_of, min_of, minus, room, room_of};
use crate::render::rows::{indented, push_indented};
use crate::render::text::{truncate_display, truncated};
use crate::state::RemoteState;
use crate::strings::{
    cat2, cat3, chars_of, contains, has_text, lowered, repeat_char, repeated, replace_first,
    replaced_first, string_of, to_ascii_lowercase,
};
use crate::theme::Theme;
use crate::width::{char_columns, columns, concat, concat_adds, str_width, unicode_str_width};

verus! {

broadcast use crate::model::group_views;

/// A title row.
pub open spec fn title_line(title: Seq<char>, theme: Theme) -> Seq<SpanV> {
    styled_line(title, bold_style(theme.accent.primary))
}

pub fn screen_title(title: &str, theme: &Theme) -> (r: Line)
    ensures
        r@ == title_line(title@, *theme),
{
    Line::of(Span::text(title, Style::bold(theme.accent.primary)))
}

// ---------------------------------------------------------------- placing text

/// `s` behind half of the columns that it leaves free.
pub open spec fn centered(s: Seq<char>, width: int) -> Seq<char> {
    repeated(' ', (minus(width, unicode_str_width(s) as int) / 2) as nat) + s
}

pub fn center_display(s: &str, width: usize) -> (r: String)
    ensures
        r@ == centered(s@, width as int),
{
    let w: usize = str_width(s);
    let pad: usize = width.saturating_sub(w) / 2;
    cat2(repeat_char(' ', pad).as_str(), s)
}

/// `s` filled with spaces up to `width` columns.
pub open spec fn filled(s: Seq<char>, width: int) -> Seq<char> {
    s + repeated(' ', minus(width, unicode_str_width(s) as int) as nat)
}

pub fn pad_to_width(s: &str, width: usize) -> (r: String)
    ensures
        r@ == filled(s@, width as int),
{
    let pad = repeat_char(' ', width.saturating_sub(str_width(s)));
    cat2(s, pad.as_str())
}

/// The cells that a character counts for: at least one.
pub open spec fn cells(c: char) -> int {
    at_least(columns(c) as int, 1)
}

/// The chunks of `s`, of which the one begun at `start` reaches `i` and takes `w`
/// cells.
pub open spec fn chunks_from(s: Seq<char>, start: int, i: int, w: int, width: int) -> Seq<Seq<char>>
    decreases s.len() - i,
{
    if i >= s.len() {
        if start < i {
            seq![s.subrange(start, s.len() as int)]
        } else {
            Seq::empty()
        }
    } else if w + cells(s[i]) > width && start < i {
        seq![s.subrange(start, i)] + chunks_from(s, i, i + 1, cells(s[i]), width)
    } else {
        chunks_from(s, start, i + 1, w + cells(s[i]), width)
    }
}

/// `s` broken greedily by display columns.
pub open spec fn chunks(s: Seq<char>, width: int) -> Seq<Seq<char>> {
    if width == 0 || s.len() == 0 {
        seq![s]
    } else {
        chunks_from(s, 0, 0, 0, width)
    }
}

/// Greedy wrap on display columns (not bytes) for long paste payloads.
pub fn wrap_display(s: &str, width: usize) -> (r: Vec<String>)
    ensures
        views(r@) == chunks(s@, width as int),
{
    let mut out: Vec<String> = Vec::new();
    let v = chars_of(s);
    if width == 0 || v.len() == 0 {
        out.push(s.to_owned());
        assert(views(out@) =~= seq![s@]);
        return out;
    }
    let mut start: usize = 0;
    let mut w: usize = 0;
    let mut i: usize = 0;
    let ghost all = chunks_from(v@, 0, 0, 0, width as int);
    assert(views(out@) + all =~= all);
    while i < v.len()
        invariant
            start <= i <= v@.len(),
            start == i ==> w == 0,
            views(out@) + chunks_from(v@, start as int, i as int, w as int, width as int) == all,
        decreases v@.len() - i,
    {
        let cw: usize = max_of(char_columns(v[i]), 1);
        let ghost before = views(out@);
        let over = w > width || cw > width - w;
        if over && start < i {
            let chunk = string_of(&v, start, i);
            let ghost c = chunk@;
            out.push(chunk);
            assert(views(out@) =~= before.push(c));
            proof {
                let rest = chunks_from(v@, i as int, i + 1, cw as int, width as int);
                assert(before + (seq![c] + rest) =~= views(out@) + rest);
            }
            start = i;
            w = 0;
        }
        w += cw;
        i += 1;
    }
    if start < i {
        let ghost before = views(out@);
        let chunk = string_of(&v, start, i);
        let ghost c = chunk@;
        out.push(chunk);
        assert(views(out@) =~= before + seq![c]);
    }
    assert(views(out@) =~= all);
    out
}

/// The cells of a text.
pub open spec fn cells_sum(s: Seq<char>) -> int
    decreases s.len(),
{
    if s.len() == 0 {
        0
    } else {
        cells_sum(s.drop_last()) + cells(s.last())
    }
}

proof fn chunks_from_holds(s: Seq<char>, start: int, i: int, w: int, width: int)
    requires
        0 <= start <= i <= s.len(),
        0 < width,
        w == cells_sum(s.subrange(start, i)),
        w <= width || i - start <= 1,
    ensures
        concat(chunks_from(s, start, i, w, width)) == s.subrange(start, s.len() as int),
        forall|k: int|
            0 <= k < chunks_from(s, start, i, w, width).len() ==> {
                let c = #[trigger] chunks_from(s, start, i, w, width)[k];
                c.len() > 0 && (cells_sum(c) <= width || c.len() == 1)
            },
    decreases s.len() - i,
{
    let r = chunks_from(s, start, i, w, width);
    if i >= s.len() {
        if start < i {
            assert(r.drop_last() =~= Seq::<Seq<char>>::empty());
            reveal_with_fuel(concat, 2);
            assert(concat(r) =~= s.subrange(start, s.len() as int));
        } else {
            assert(s.subrange(start, s.len() as int) =~= Seq::<char>::empty());
        }
    } else if w + cells(s[i]) > width && start < i {
        assert(s.subrange(i, i + 1).drop_last() =~= Seq::<char>::empty());
        reveal_with_fuel(cells_sum, 2);
        chunks_from_holds(s, i, i + 1, cells(s[i]), width);
        let rest = chunks_from(s, i, i + 1, cells(s[i]), width);
        let one = seq![s.subrange(start, i)];
        assert(one.drop_last() =~= Seq::<Seq<char>>::empty());
        reveal_with_fuel(concat, 2);
        assert(concat(one) =~= s.subrange(start, i));
        concat_adds(one, rest);
        assert(s.subrange(start, i) + s.subrange(i, s.len() as int) =~= s.subrange(
            start,
            s.len() as int,
        ));
        assert forall|k: int| 0 <= k < r.len() implies {
            let c = #[trigger] r[k];
            c.len() > 0 && (cells_sum(c) <= width || c.len() == 1)
        } by {
            if k > 0 {
                assert(r[k] == rest[k - 1]);
            }
        }
    } else {
        assert(s.subrange(start, i + 1).drop_last() =~= s.subrange(start, i));
        chunks_from_holds(s, start, i + 1, w + cells(s[i]), width);
    }
}

/// Wrapping loses nothing: the chunks one after the other are the text. Each of them
/// fits in the width, but for a single character that is wider.
pub proof fn wrapping_keeps_the_text(s: Seq<char>, width: int)
    requires
        0 < width,
    ensures
        concat(chunks(s, width)) == s,
        forall|k: int|
            0 <= k < chunks(s, width).len() ==> cells_sum(#[trigger] chunks(s, width)[k]) <= width
                || chunks(s, width)[k].len() == 1,
{
    if s.len() == 0 {
        let r = chunks(s, width);
        assert(r.drop_last() =~= Seq::<Seq<char>>::empty());
        reveal_with_fuel(concat, 2);
        assert(concat(r) =~= s);
    } else {
        assert(s.subrange(0, 0) =~= Seq::<char>::empty());
        chunks_from_holds(s, 0, 0, 0, width);
        assert(s.subrange(0, s.len() as int) =~= s);
    }
}

/// A label column of ten, then the value.
pub open spec fn labeled(
    label: Seq<char>,
    value: Seq<char>,
    label_style: Style,
    value_style: Style,
    width: int,
) -> Seq<SpanV> {
    seq![
        spanv(filled(label, 10), label_style),
        spanv(" "@ + truncated(value, room(width, 11, 8)), value_style),
    ]
}

/// Fixed label column so address / fingerprints align.
pub fn labeled_row(
    label: &str,
    value: &str,
    label_style: Style,
    value_style: Style,
    width: usize,
) -> (r: Line)
    ensures
        r@ == labeled(label@, value@, label_style, value_style, width as int),
{
    let val = truncate_display(value, room_of(width, 11, 8));
    Line::of2(
        Span::new(pad_to_width(label, 10), label_style),
        Span::new(cat2(" ", val.as_str()), value_style),
    )
}

// ---------------------------------------------------------------- the screen

/// The screen while the invite is being made.
pub open spec fn preparing(t: UiText, theme: Theme) -> Seq<Seq<SpanV>> {
    seq![
        title_line(t.screen_remote@, theme),
        Seq::empty(),
        styled_line(t.remote_preparing@, fg_style(theme.text.secondary)),
        Seq::empty(),
        styled_line(t.remote_footer@, fg_style(theme.text.muted)),
    ]
}

pub fn remote_preparing_lines(t: &UiText, theme: &Theme) -> (r: Vec<Line>)
    ensures
        line_views(r@) == preparing(*t, *theme),
{
    let mut out: Vec<Line> = Vec::new();
    out.push(screen_title(t.screen_remote, theme));
    out.push(Line::empty());
    out.push(Line::of(Span::text(t.remote_preparing, Style::fg(theme.text.secondary))));
    out.push(Line::empty());
    out.push(Line::of(Span::text(t.remote_footer, Style::fg(theme.text.muted))));
    assert(line_views(out@) =~= preparing(*t, *theme));
    out
}

/// The widest of the first `n` texts.
pub open spec fn widest(rows: Seq<Seq<char>>, n: int) -> int
    decreases n,
{
    if n <= 0 {
        0
    } else {
        at_least(widest(rows, n - 1), unicode_str_width(rows[n - 1]) as int)
    }
}

/// The heading above the code.
pub open spec fn scan_heading(t: UiText, theme: Theme) -> Seq<Seq<SpanV>> {
    seq![
        title_line(t.screen_remote@, theme),
        Seq::empty(),
        styled_line(t.remote_scan_heading@, bold_style(theme.text.primary)),
        styled_line(t.remote_scan_sub@, fg_style(theme.text.secondary)),
        Seq::empty(),
    ]
}

/// An edge of the card.
pub open spec fn card_edge(left: Seq<char>, right: Seq<char>, inner: int, width: int, theme: Theme) -> Seq<
    SpanV,
> {
    let frame_w = at_most(inner + 4, room(width, 2, 1));
    styled_line(
        centered(left + repeated('─', minus(frame_w, 2) as nat) + right, width),
        fg_style(theme.text.muted),
    )
}

/// The rows of the code inside the card.
pub open spec fn card_rows(qr: Seq<Seq<char>>, inner: int, width: int, theme: Theme) -> Seq<
    Seq<SpanV>,
> {
    Seq::new(
        qr.len(),
        |i: int|
            styled_line(
                centered("│ "@ + filled(qr[i], inner) + " │"@, width),
                fg_style(theme.text.primary),
            ),
    )
}

/// A quiet frame around the code, so that it reads as a card.
pub open spec fn card(qr: Seq<Seq<char>>, width: int, theme: Theme) -> Seq<Seq<SpanV>> {
    let inner = widest(qr, qr.len() as int);
    seq![card_edge("┌"@, "┐"@, inner, width, theme)] + card_rows(qr, inner, width, theme) + seq![
        card_edge("└"@, "┘"@, inner, width, theme),
        Seq::empty(),
    ]
}

/// The address and the fingerprint of this machine.
pub open spec fn host_rows(remote: RemoteState, width: int, theme: Theme, t: UiText, link: Style) -> Seq<
    Seq<SpanV>,
> {
    seq![
        labeled(
            t.remote_label_address@,
            remote.invite.relay_url@,
            fg_style(theme.accent.primary),
            link,
            width,
        ),
        labeled(
            t.remote_label_host_fp@,
            remote.invite.host_fingerprint@,
            fg_style(theme.accent.primary),
            fg_style(theme.text.primary),
            width,
        ),
        Seq::empty(),
    ]
}

/// An outcome that says that the phone was turned away.
pub open spec fn rejected(outcome: Seq<char>) -> bool {
    has_text(outcome, "拒绝"@) || has_text(lowered(outcome), "reject"@)
}

/// What is asked, what came out of it, or that nobody has claimed the invite.
pub open spec fn decision(remote: RemoteState, width: int, theme: Theme, t: UiText) -> Seq<
    Seq<SpanV>,
> {
    match remote.pending {
        Some(p) => seq![
            styled_line(
                replaced_first(
                    replaced_first(t.remote_wants_connect@, "{}"@, p.device_name@),
                    "{}"@,
                    p.platform@,
                ),
                bold_style(theme.status.warning),
            ),
            labeled(
                t.remote_label_phone_fp@,
                p.fingerprint@,
                fg_style(theme.accent.primary),
                bold_style(theme.text.primary),
                width,
            ),
            styled_line(t.remote_compare_hint@, fg_style(theme.text.secondary)),
            Seq::empty(),
            styled_line(t.remote_yn@, bold_style(theme.accent.primary)),
        ],
        None => match remote.outcome {
            Some(o) => seq![
                styled_line(
                    o@,
                    bold_style(
                        if rejected(o@) {
                            theme.status.warning
                        } else {
                            theme.status.success
                        },
                    ),
                ),
            ],
            None => seq![
                styled_line(t.remote_waiting@, fg_style(theme.text.secondary)),
                Seq::empty(),
                styled_line(t.remote_paste_hint@, fg_style(theme.text.secondary)),
            ] + indented(
                chunks(remote.invite.payload@, room(width, 2, 8)),
                "  "@,
                fg_style(theme.text.muted),
            ),
        },
    }
}

/// The rule and the reminder below.
pub open spec fn remote_footer(width: int, theme: Theme, t: UiText) -> Seq<Seq<SpanV>> {
    seq![
        Seq::empty(),
        styled_line(
            repeated('─', at_most(at_least(width, 8), 48) as nat),
            fg_style(theme.text.muted),
        ),
        styled_line(t.remote_footer@, bold_style(theme.accent.primary)),
    ]
}

/// The whole screen.
pub open spec fn remote_screen(remote: RemoteState, width: int, theme: Theme, t: UiText, link: Style) -> Seq<
    Seq<SpanV>,
> {
    scan_heading(t, theme) + card(views(remote.invite.qr@), width, theme) + host_rows(
        remote,
        width,
        theme,
        t,
        link,
    ) + decision(remote, width, theme, t) + remote_footer(width, theme, t)
}

fn push_scan_heading(out: &mut Vec<Line>, t: &UiText, theme: &Theme)
    ensures
        line_views(final(out)@) == line_views(old(out)@) + scan_heading(*t, *theme),
{
    let ghost base = line_views(out@);
    out.push(screen_title(t.screen_remote, theme));
    out.push(Line::empty());
    out.push(Line::of(Span::text(t.remote_scan_heading, Style::bold(theme.text.primary))));
    out.push(Line::of(Span::text(t.remote_scan_sub, Style::fg(theme.text.secondary))));
    out.push(Line::empty());
    assert(line_views(out@) =~= base + scan_heading(*t, *theme));
}

fn edge(left: &str, right: &str, inner: usize, width: usize, theme: &Theme) -> (r: Line)
    ensures
        r@ == card_edge(left@, right@, inner as int, width as int, *theme),
{
    let frame_w: usize = min_of(inner.saturating_add(4), room_of(width, 2, 1));
    let bar = repeat_char('─', frame_w.saturating_sub(2));
    let row = cat3(left, bar.as_str(), right);
    Line::of(Span::new(center_display(row.as_str(), width), Style::fg(theme.text.muted)))
}

fn push_card(out: &mut Vec<Line>, qr: &Vec<String>, width: usize, theme: &Theme)
    ensures
        line_views(final(out)@) == line_views(old(out)@) + card(views(qr@), width as int, *theme),
{
    let ghost base = line_views(out@);
    let mut inner: usize = 0;
    let mut k: usize = 0;
    while k < qr.len()
        invariant
            k <= qr@.len(),
            inner == widest(views(qr@), k as int),
        decreases qr@.len() - k,
    {
        inner = max_of(inner, str_width(qr[k].as_str()));
        k += 1;
    }
    let top = edge("┌", "┐", inner, width, theme);
    let ghost topv = top@;
    out.push(top);
    let ghost all = card_rows(views(qr@), inner as int, width as int, *theme);
    let mut i: usize = 0;
    assert(line_views(out@) =~= base + seq![topv] + all.take(0));
    while i < qr.len()
        invariant
            i <= qr@.len(),
            all == card_rows(views(qr@), inner as int, width as int, *theme),
            line_views(out@) == base + seq![topv] + all.take(i as int),
        decreases qr@.len() - i,
    {
        let cell = pad_to_width(qr[i].as_str(), inner);
        let row = cat3("│ ", cell.as_str(), " │");
        out.push(
            Line::of(
                Span::new(center_display(row.as_str(), width), Style::fg(theme.text.primary)),
            ),
        );
        i += 1;
        assert(all.take(i as int) =~= all.take(i - 1).push(all[i - 1]));
        assert(line_views(out@) =~= base + seq![topv] + all.take(i as int));
    }
    assert(all.take(i as int) =~= all);
    out.push(edge("└", "┘", inner, width, theme));
    out.push(Line::empty());
    assert(line_views(out@) =~= base + card(views(qr@), width as int, *theme));
}

fn push_host_rows(
    out: &mut Vec<Line>,
    remote: &RemoteState,
    width: usize,
    theme: &Theme,
    t: &UiText,
    link: Style,
)
    ensures
        line_views(final(out)@) == line_views(old(out)@) + host_rows(
            *remote,
            width as int,
            *theme,
            *t,
            link,
        ),
{
    let ghost base = line_views(out@);
    let accent = Style::fg(theme.accent.primary);
    out.push(
        labeled_row(t.remote_label_address, remote.invite.relay_url.as_str(), accent, link, width),
    );
    out.push(
        labeled_row(
            t.remote_label_host_fp,
            remote.invite.host_fingerprint.as_str(),
            accent,
            Style::fg(theme.text.primary),
            width,
        ),
    );
    out.push(Line::empty());
    assert(line_views(out@) =~= base + host_rows(*remote, width as int, *theme, *t, link));
}

fn push_decision(out: &mut Vec<Line>, remote: &RemoteState, width: usize, theme: &Theme, t: &UiText)
    ensures
        line_views(final(out)@) == line_views(old(out)@) + decision(
            *remote,
            width as int,
            *theme,
            *t,
        ),
{
    let ghost base = line_views(out@);
    let muted = Style::fg(theme.text.secondary);
    match &remote.pending {
        Some(p) => {
            let named = replace_first(t.remote_wants_connect, "{}", p.device_name.as_str());
            let title = replace_first(named.as_str(), "{}", p.platform.as_str());
            out.push(Line::of(Span::new(title, Style::bold(theme.status.warning))));
            out.push(
                labeled_row(
                    t.remote_label_phone_fp,
                    p.fingerprint.as_str(),
                    Style::fg(theme.accent.primary),
                    Style::bold(theme.text.primary),
                    width,
                ),
            );
            out.push(Line::of(Span::text(t.remote_compare_hint, muted)));
            out.push(Line::empty());
            out.push(Line::of(Span::text(t.remote_yn, Style::bold(theme.accent.primary))));
        },
        None => match &remote.outcome {
            Some(o) => {
                let color = if contains(o.as_str(), "拒绝") || contains(
                    to_ascii_lowercase(o.as_str()).as_str(),
                    "reject",
                ) {
                    theme.status.warning
                } else {
                    theme.status.success
                };
                out.push(Line::of(Span::text(o.as_str(), Style::bold(color))));
            },
            None => {
                out.push(Line::of(Span::text(t.remote_waiting, muted)));
                out.push(Line::empty());
                out.push(Line::of(Span::text(t.remote_paste_hint, muted)));
                // The payload can be very long: it stays dim, so that it does not
                // compete with the code.
                let parts = wrap_display(remote.invite.payload.as_str(), room_of(width, 2, 8));
                push_indented(out, &parts, "  ", Style::fg(theme.text.muted));
            },
        },
    }
    assert(line_views(out@) =~= base + decision(*remote, width as int, *theme, *t));
}

/// The `/remote` screen: title and subtitle, a centered code, labeled address and
/// fingerprint, then either the waiting copy or the pending decision. The footer
/// always reminds that Esc returns without cancelling the invite. `link` is the style
/// of an address that can be opened.
pub fn remote_screen_lines(
    remote: &RemoteState,
    width: usize,
    theme: &Theme,
    t: &UiText,
    link: Style,
) -> (r: Vec<Line>)
    ensures
        line_views(r@) == remote_screen(*remote, width as int, *theme, *t, link),
{
    let mut out: Vec<Line> = Vec::new();
    assert(line_views(out@) + scan_heading(*t, *theme) =~= scan_heading(*t, *theme));
    push_scan_heading(&mut out, t, theme);
    push_card(&mut out, &remote.invite.qr, width, theme);
    push_host_rows(&mut out, remote, width, theme, t, link);
    push_decision(&mut out, remote, width, theme, t);
    let ghost base = line_views(out@);
    out.push(Line::empty());
    out.push(
        Line::of(
            Span::new(
                repeat_char('─', min_of(max_of(width, 8), 48)),
                Style::fg(theme.text.muted),
            ),
        ),
    );
    out.push(Line::of(Span::text(t.remote_footer, Style::bold(theme.accent.primary))));
    assert(line_views(out@) =~= base + remote_footer(width as int, *theme, *t));
    out
}

} // verus!
