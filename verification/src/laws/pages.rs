//! What the pages, lists and frames promise.

use vstd::prelude::*;

use crate::i18n::{text_of, UiText};
use crate::laws::{ink, larger, strong};
use crate::line::Style;
use crate::model::{views, SpanV};
use crate::render::composer_box::painted;
use crate::render::detail::{
    activity_hint, chrome_of, has_output, shown_shell, stop_offered, ActivityKind, ActivityStatus,
    BackgroundJobList,
};
use crate::render::pages::{activity_title, list_hint, shell_hint};
use crate::render::popup::{firsts, row_cells, window_cells, PopupPlace};
use crate::render::remote::{card, centered, filled, remote_screen, widest};
use crate::render::screens::{help_group, help_groups, help_row, help_screen, key_table};
use crate::render::tools_screen::{
    call_detail, call_row, call_rows, listed_calls, passing, tools_detail,
};
use crate::run::{faded, jumped, labelled, says_error, streamed, Received, StreamStep};
use crate::screen::{
    category_at, filter_label, groups_upto, in_catalog, listed_of, Screen, SlashCategory,
    ToolFilter,
};
use crate::splash::{card_lines, card_row, edge_row, HeroLayout};
use crate::state::{ActivityId, AppState, RemoteState};
use crate::status_line::{estimate, nearest_single, wide_count, SINGLE};
use crate::strings::{lowered, repeated, trimmed};
use crate::theme::{preview_rows, preview_text, theme_name, Theme};
use crate::tool_taxonomy::compact_line;
use crate::render::transcript_lines::is_final;
use crate::transcript::{ToolCallBlock, ToolStatus, TranscriptItem, UserShellBlock, UserShellStatus};
use crate::width::unicode_str_width;

verus! {

// ---------------------------------------------------------------- pages

/// A command's page hints at what can be done while the command runs, and else at the
/// way back.
pub proof fn shell_hint_follows_the_command(state: AppState, shell: UserShellBlock, i: usize)
    requires
        state.shell_screen_item == Some(i),
        i < state.transcript.items@.len(),
        state.transcript.items@[i as int] == TranscriptItem::UserShell(shell),
    ensures
        shown_shell(state) == Some(shell),
        shell.status == UserShellStatus::Running ==> shell_hint(state) == text_of(
            state.locale,
        ).shell_hint_running@,
        shell.status != UserShellStatus::Running ==> shell_hint(state) == text_of(
            state.locale,
        ).shell_hint_done@,
{
}

/// A page is titled by its kind, and the list of jobs hints at stopping one only while
/// one runs.
pub proof fn pages_are_titled_by_kind(list: BackgroundJobList, t: UiText)
    ensures
        activity_title(ActivityKind::BackgroundTask, t) == t.activity_title_background@,
        activity_title(ActivityKind::ChildAgent, t) == t.activity_title_child@,
        list.running@.len() > 0 ==> list_hint(list, t) == t.background_hint_list_running@,
        list.running@.len() == 0 ==> list_hint(list, t) == t.background_hint_list_idle@,
{
}

/// The hint of an activity names the way back, the stop where one is offered, whether the
/// output is followed where there is output, and the keys that scroll, in this order.
pub proof fn activity_hint_stands_in_order(
    state: AppState,
    id: ActivityId,
    status: ActivityStatus,
    t: UiText,
)
    ensures
        ({
            let follow = crate::render::detail::follow_chip(state, t);
            let stop = stop_offered(state, id, status);
            let out = has_output(state, id);
            &&& !stop && !out ==> activity_hint(state, id, status, t) == t.activity_esc@ + " · "@
                + t.activity_hint_scroll@
            &&& stop && !out ==> activity_hint(state, id, status, t) == t.activity_esc@ + " · "@
                + t.activity_stop@ + " · "@ + t.activity_hint_scroll@
            &&& !stop && out ==> activity_hint(state, id, status, t) == t.activity_esc@ + " · "@
                + follow + " · "@ + t.activity_hint_scroll@
            &&& stop && out ==> activity_hint(state, id, status, t) == t.activity_esc@ + " · "@
                + t.activity_stop@ + " · "@ + follow + " · "@ + t.activity_hint_scroll@
        }),
        id is Child ==> !has_output(state, id),
        (id matches ActivityId::Background(task) ==> (chrome_of(state, task@) matches Some(c) ==> (
        has_output(state, id) <==> trimmed(c.output@).len() > 0))),
{
    let follow = crate::render::detail::follow_chip(state, t);
    let h = activity_hint(state, id, status, t);
    let e = t.activity_esc@;
    let dot = " · "@;
    let s = t.activity_stop@;
    let w = t.activity_hint_scroll@;
    if stop_offered(state, id, status) && has_output(state, id) {
        assert(h =~= e + dot + s + dot + follow + dot + w);
    } else if stop_offered(state, id, status) {
        assert(h =~= e + dot + s + dot + w);
    } else if has_output(state, id) {
        assert(h =~= e + dot + follow + dot + w);
    } else {
        assert(h =~= e + dot + w);
    }
}

// ---------------------------------------------------------------- tools

proof fn calls_ignore_what_follows(
    items: Seq<TranscriptItem>,
    item: TranscriptItem,
    f: ToolFilter,
    n: int,
)
    requires
        n <= items.len(),
    ensures
        listed_calls(items.push(item), f, n) == listed_calls(items, f, n),
    decreases n,
{
    if n > 0 {
        calls_ignore_what_follows(items, item, f, n - 1);
        assert(items.push(item)[n - 1] == items[n - 1]);
    }
}

/// Every group of calls adds its calls that pass, in order; nothing else adds any.
pub proof fn groups_add_their_calls(
    items: Seq<TranscriptItem>,
    item: TranscriptItem,
    f: ToolFilter,
)
    ensures
        ({
            let n = items.len() as int;
            let before = listed_calls(items, f, n);
            let after = listed_calls(items.push(item), f, n + 1);
            &&& (item matches TranscriptItem::ToolGroup(g) ==> after == before + passing(
                g.calls@,
                f,
                g.calls@.len() as int,
            ))
            &&& !(item is ToolGroup) ==> after == before
        }),
{
    calls_ignore_what_follows(items, item, f, items.len() as int);
    assert(items.push(item)[items.len() as int] == item);
}

/// Every call that is listed has its row, the selected one alone marked; an empty list
/// says so.
pub proof fn calls_are_listed_in_order(
    calls: Seq<ToolCallBlock>,
    selected: int,
    list_w: int,
    theme: Theme,
    home: Option<Seq<char>>,
    i: int,
)
    ensures
        calls.len() == 0 ==> call_rows(calls, selected, list_w, theme, home) == seq![
            seq![SpanV { content: "无工具调用"@, style: ink(theme.text.muted) }],
        ],
        calls.len() > 0 ==> call_rows(calls, selected, list_w, theme, home).len() == calls.len(),
        0 <= i < calls.len() ==> call_rows(calls, selected, list_w, theme, home)[i] == call_row(
            calls[i],
            i == selected,
            list_w,
            theme,
            home,
        ),
{
}

/// The detail of the selected call stands above the hint; without one the hint is all.
pub proof fn call_stands_above_the_hint(block: ToolCallBlock, w: usize, theme: Theme)
    ensures
        tools_detail(None, w, theme).len() == 2,
        tools_detail(Some(block), w, theme).len() == call_detail(block, w, theme).len() + 2,
        tools_detail(Some(block), w, theme).take(call_detail(block, w, theme).len() as int)
            == call_detail(block, w, theme),
{
    let all = tools_detail(Some(block), w, theme);
    assert(all.take(call_detail(block, w, theme).len() as int) =~= call_detail(block, w, theme));
}

/// The filters have each their label.
pub proof fn filters_have_their_labels()
    ensures
        filter_label(ToolFilter::All) == "全部"@,
        filter_label(ToolFilter::Read) == "读取"@,
        filter_label(ToolFilter::Write) == "写入"@,
        filter_label(ToolFilter::Shell) == "Shell"@,
        filter_label(ToolFilter::Failed) == "需调整"@,
{
}

/// A call on one line is its sign, its action and, where it has one, its target.
pub proof fn compact_line_joins_its_parts(glyph: Seq<char>, label: Seq<char>, target: Seq<char>)
    ensures
        target.len() == 0 ==> compact_line(glyph, label, target) == glyph + " "@ + label,
        target.len() > 0 ==> compact_line(glyph, label, target) == glyph + " "@ + label + " "@
            + target,
{
}

// ---------------------------------------------------------------- the help

/// The groups of the help stand in this order: what steers the agent, what shows, the
/// session, the input and the system; a group without commands is left out.
pub proof fn help_groups_stand_in_order(t: UiText, i: int)
    requires
        0 <= i < 5,
    ensures
        category_at(0) == SlashCategory::Agent,
        category_at(1) == SlashCategory::View,
        category_at(2) == SlashCategory::Session,
        category_at(3) == SlashCategory::Input,
        category_at(4) == SlashCategory::System,
        listed_of(t, Some(category_at(i))).len() > 0 ==> groups_upto(t, i + 1) == groups_upto(
            t,
            i,
        ).push((category_at(i), listed_of(t, Some(category_at(i))))),
        listed_of(t, Some(category_at(i))).len() == 0 ==> groups_upto(t, i + 1) == groups_upto(
            t,
            i,
        ),
{
}

proof fn groups_ignore_what_follows(
    groups: Seq<(SlashCategory, Seq<(Seq<char>, Seq<char>)>)>,
    g: (SlashCategory, Seq<(Seq<char>, Seq<char>)>),
    n: int,
    t: UiText,
    theme: Theme,
)
    requires
        n <= groups.len(),
    ensures
        help_groups(groups.push(g), n, t, theme) == help_groups(groups, n, t, theme),
    decreases n,
{
    if n > 0 {
        groups_ignore_what_follows(groups, g, n - 1, t, theme);
        assert(groups.push(g)[n - 1] == groups[n - 1]);
    }
}

/// Every group of the help is shown behind those before it.
pub proof fn every_help_group_is_shown(
    groups: Seq<(SlashCategory, Seq<(Seq<char>, Seq<char>)>)>,
    g: (SlashCategory, Seq<(Seq<char>, Seq<char>)>),
    t: UiText,
    theme: Theme,
)
    ensures
        help_groups(groups.push(g), groups.len() as int + 1, t, theme) == help_groups(
            groups,
            groups.len() as int,
            t,
            theme,
        ) + help_group(g.0, g.1, t, theme),
{
    groups_ignore_what_follows(groups, g, groups.len() as int, t, theme);
    assert(groups.push(g)[groups.len() as int] == g);
}

/// The help begins with its title and ends with the keys, each with what it does, and the
/// hint how to scroll.
pub proof fn help_ends_with_the_keys(t: UiText, theme: Theme, i: int)
    ensures
        ({
            let rows = help_screen(t, theme);
            let keys = key_table(t);
            let n = rows.len() as int;
            &&& rows[0] == seq![
                SpanV { content: t.help_title@, style: strong(theme.accent.primary) },
            ]
            &&& rows[n - 1] == seq![
                SpanV { content: t.help_scroll@, style: ink(theme.text.secondary) },
            ]
            &&& rows[n - 3 - keys.len()] == seq![
                SpanV { content: t.help_keys@, style: ink(theme.text.secondary) },
            ]
            &&& 0 <= i < keys.len() ==> rows[n - 2 - keys.len() + i] == help_row(
                keys[i].0,
                keys[i].1,
                20,
                theme,
            )
        }),
        key_table(t).len() == 17,
        key_table(t)[0] == ("Enter"@, t.key_submit@),
        key_table(t)[1] == ("Ctrl+J / Alt+Enter"@, t.key_newline@),
        key_table(t)[3] == ("Shift+Tab"@, t.key_permission@),
        key_table(t)[8] == ("Ctrl+C"@, t.key_cancel_quit@),
        key_table(t)[11] == ("Ctrl+O"@, t.key_expand@),
        key_table(t)[16] == ("Esc"@, t.key_esc@),
{
}

/// A skill of the catalog is known by its name, ASCII case aside.
pub proof fn skills_are_known_by_name(catalog: Seq<(String, String)>, i: int, name: Seq<char>)
    requires
        0 <= i < catalog.len(),
        lowered(catalog[i].0@) == lowered(name),
    ensures
        in_catalog(catalog, name),
        in_catalog(catalog, catalog[i].0@),
{
}

/// A name that no skill of the catalog goes by is not known.
pub proof fn other_names_are_not_known(catalog: Seq<(String, String)>, name: Seq<char>)
    requires
        forall|i: int|
            0 <= i < catalog.len() ==> lowered((#[trigger] catalog[i]).0@) != lowered(name),
    ensures
        !in_catalog(catalog, name),
{
}

// ---------------------------------------------------------------- events

/// An event folds in, and is followed where it opened another session; a stream that
/// lags asks for everything again; one that closed disconnects with an error.
pub proof fn stream_is_followed(a: AppState, b: AppState, r: StreamStep, id: String)
    ensures
        streamed(a, Received::Event { opened: None }, b, r) ==> b == a && r == (StreamStep::Fold {
            follow: None,
        }),
        streamed(a, Received::Event { opened: Some(id) }, b, r) && id@ != a.session_id@ ==> r == (
        StreamStep::Fold { follow: Some(id) }),
        streamed(a, Received::Event { opened: Some(id) }, b, r) && id@ == a.session_id@ ==> r == (
        StreamStep::Fold { follow: None }),
        streamed(a, Received::Lagged, b, r) ==> r is Resync && b == a,
        streamed(a, Received::Closed, b, r) ==> r is Stop && !b.runtime_connected && says_error(
            b,
            "与运行时的事件流已断开"@,
        ),
{
}

/// A notice that goes disarms what it armed; a jump leads back to the conversation once;
/// the clock's label is the one handed in.
pub proof fn events_settle_the_state(s: AppState, clock: String)
    ensures
        faded(s, true).notification is None,
        !faded(s, true).quit_armed && !faded(s, true).cancel_armed && !faded(
            s,
            true,
        ).force_cancel_armed,
        faded(s, false) == s,
        s.jump_to_bottom ==> jumped(s).active_screen == Screen::Conversation && !jumped(
            s,
        ).jump_to_bottom,
        !s.jump_to_bottom ==> jumped(s) == s,
        labelled(s, clock).clock_label@ == clock@,
{
}

// ---------------------------------------------------------------- the popup's rows

/// Every row of the popup that has room is painted, one screen row below the one before
/// it, and the selected one alone as selected.
pub proof fn popup_rows_stand_below_one_another(
    rows: Seq<(Seq<char>, Seq<char>)>,
    n: int,
    sel: int,
    place: PopupPlace,
    theme: Theme,
    screen_h: int,
)
    requires
        0 < n <= rows.len(),
        place.content.y + n <= place.inner.y + place.inner.height <= u16::MAX,
        place.content.y + n <= screen_h,
    ensures
        window_cells(rows, n, sel, place, theme, screen_h) == window_cells(
            rows,
            n - 1,
            sel,
            place,
            theme,
            screen_h,
        ) + row_cells(
            rows[n - 1].0,
            rows[n - 1].1,
            firsts(rows),
            n - 1 == sel,
            place.content.y + n - 1,
            place.inner,
            place.content,
            theme,
            screen_h,
        ),
{
}

// ---------------------------------------------------------------- the phone

/// The code is drawn row by row inside a frame, and the address and the fingerprint of
/// this machine stand below it.
pub proof fn code_is_drawn_in_its_frame(
    remote: RemoteState,
    width: int,
    theme: Theme,
    t: UiText,
    link: Style,
    i: int,
)
    ensures
        ({
            let rows = remote_screen(remote, width, theme, t, link);
            let qr = views(remote.invite.qr@);
            let n = qr.len() as int;
            &&& rows.len() >= n + 11
            &&& rows[0] == seq![
                SpanV { content: t.screen_remote@, style: strong(theme.accent.primary) },
            ]
            &&& rows[2] == seq![
                SpanV { content: t.remote_scan_heading@, style: strong(theme.text.primary) },
            ]
            &&& 0 <= i < n ==> rows[6 + i] == seq![
                SpanV {
                    content: centered(
                        "│ "@ + filled(qr[i], widest(qr, n)) + " │"@,
                        width,
                    ),
                    style: ink(theme.text.primary),
                },
            ]
            &&& rows[n + 8] == crate::render::remote::labeled(
                t.remote_label_address@,
                remote.invite.relay_url@,
                ink(theme.accent.primary),
                link,
                width,
            )
            &&& rows[n + 9] == crate::render::remote::labeled(
                t.remote_label_host_fp@,
                remote.invite.host_fingerprint@,
                ink(theme.accent.primary),
                ink(theme.text.primary),
                width,
            )
            &&& rows.last() == seq![
                SpanV { content: t.remote_footer@, style: strong(theme.accent.primary) },
            ]
        }),
{
}

/// A text is centered by half of the room that is left in front of it.
pub proof fn centered_text_has_half_the_room(s: Seq<char>, width: int)
    ensures
        unicode_str_width(s) >= width ==> centered(s, width) == s,
        unicode_str_width(s) < width ==> centered(s, width) == Seq::new(
            ((width - unicode_str_width(s)) / 2) as nat,
            |i: int| ' ',
        ) + s,
        unicode_str_width(s) < width ==> filled(s, width) == s + Seq::new(
            (width - unicode_str_width(s)) as nat,
            |i: int| ' ',
        ),
        unicode_str_width(s) >= width ==> filled(s, width) == s,
{
    if unicode_str_width(s) >= width {
        assert(repeated(' ', 0) =~= Seq::<char>::empty());
        assert(centered(s, width) =~= s);
        assert(filled(s, width) =~= s);
    } else {
        let n = ((width - unicode_str_width(s)) / 2) as nat;
        let m = (width - unicode_str_width(s)) as nat;
        assert(repeated(' ', n) =~= Seq::new(n, |i: int| ' '));
        assert(repeated(' ', m) =~= Seq::new(m, |i: int| ' '));
    }
}

// ---------------------------------------------------------------- the opening card

/// The card is closed above and below, and what it shows stands in its middle: the blank
/// rows above are as many as below, or one fewer.
pub proof fn card_is_centered(
    copy: Seq<Seq<SpanV>>,
    mark: Seq<Seq<SpanV>>,
    l: HeroLayout,
    height: int,
    border: Style,
    i: int,
)
    requires
        0 <= height,
    ensures
        ({
            let rows = card_lines(copy, mark, l, height, border);
            let n = larger(copy.len() as int, mark.len() as int);
            let blank = rows.len() - n - 2;
            let above = blank / 2;
            &&& blank >= 0
            &&& rows[0] == edge_row("╭"@, "╮"@, l.box_w as int, l.box_left_pad as int, border)
            &&& rows.last() == edge_row(
                "╰"@,
                "╯"@,
                l.box_w as int,
                l.box_left_pad as int,
                border,
            )
            &&& 0 <= i < n ==> rows[1 + above + i] == card_row(
                if i < mark.len() {
                    mark[i]
                } else {
                    Seq::empty()
                },
                if i < copy.len() {
                    copy[i]
                } else {
                    Seq::empty()
                },
                l,
                border,
            )
            &&& n + 2 < height <= 16 ==> rows.len() == height
        }),
{
}

// ---------------------------------------------------------------- themes

/// The preview names the theme and then every sample, each in the color it samples.
pub proof fn preview_samples_the_theme(theme: Theme, color: bool, n: int)
    requires
        0 < n <= preview_rows(theme).len(),
    ensures
        preview_text(theme, color, 0) == "THEME PREVIEW  ("@ + theme_name(theme.id) + ")\n"@,
        preview_text(theme, color, n) == preview_text(theme, color, n - 1)
            + crate::theme::preview_row(
            preview_rows(theme)[n - 1].0,
            preview_rows(theme)[n - 1].1,
            color,
        ),
        preview_rows(theme).contains(("✓ Success"@, Some(theme.status.success))),
        preview_rows(theme).contains(("! Warning"@, Some(theme.status.warning))),
        preview_rows(theme).contains(("✕ Error"@, Some(theme.status.error))),
        preview_rows(theme).contains(("+ added line"@, Some(theme.diff.added))),
        preview_rows(theme).contains(("- removed line"@, Some(theme.diff.removed))),
{
    let rows = preview_rows(theme);
    assert(rows[7] == ("✓ Success"@, Some(theme.status.success)));
    assert(rows[8] == ("! Warning"@, Some(theme.status.warning)));
    assert(rows[9] == ("✕ Error"@, Some(theme.status.error)));
    assert(rows[18] == ("+ added line"@, Some(theme.diff.added)));
    assert(rows[19] == ("- removed line"@, Some(theme.diff.removed)));
}

// ---------------------------------------------------------------- estimates

proof fn none_is_wide(s: Seq<char>, n: int)
    requires
        0 <= n <= s.len(),
        forall|i: int| 0 <= i < s.len() ==> ((#[trigger] s[i]) as u32) < 0x2E80,
    ensures
        wide_count(s, n) == 0,
    decreases n,
{
    if n > 0 {
        none_is_wide(s, n - 1);
    }
}

proof fn doubled_is_exact(a: nat)
    requires
        nearest_single(a) == a,
    ensures
        nearest_single(2 * a) == 2 * a,
{
    let bound = SINGLE as nat;
    let n = 2 * a;
    if n < bound {
        whole_stays(n);
    } else {
        let e = crate::seconds::excess(a, bound);
        assert(n / 2 == a);
        assert(crate::seconds::excess(n, bound) == 2 * e);
        excess_is_positive(a, bound);
        halves_agree(a, e);
        let h = crate::seconds::half_even(a, e);
        assert(h * (2 * e) == 2 * (h * e)) by (nonlinear_arith);
    }
}

proof fn whole_stays(n: nat)
    requires
        n < SINGLE as nat,
    ensures
        nearest_single(n) == n,
{
    assert(crate::seconds::excess(n, SINGLE as nat) == 1);
    assert(n / 1 == n && n % 1 == 0);
}

proof fn excess_is_positive(n: nat, bound: nat)
    ensures
        crate::seconds::excess(n, bound) > 0,
    decreases n,
{
    if n >= bound && bound > 0 {
        excess_is_positive(n / 2, bound);
    }
}

proof fn halves_agree(a: nat, e: nat)
    requires
        e > 0,
    ensures
        crate::seconds::half_even(2 * a, 2 * e) == crate::seconds::half_even(a, e),
{
    let q = a / e;
    let r = a % e;
    vstd::arithmetic::div_mod::lemma_fundamental_div_mod(a as int, e as int);
    assert(2 * a == (2 * e) * q + 2 * r) by (nonlinear_arith)
        requires
            a == e * q + r,
    ;
    vstd::arithmetic::div_mod::lemma_fundamental_div_mod_converse(
        (2 * a) as int,
        (2 * e) as int,
        q as int,
        (2 * r) as int,
    );
}

spec fn doubled(a: nat, k: nat) -> nat
    decreases k,
{
    if k == 0 {
        a
    } else {
        2 * doubled(a, (k - 1) as nat)
    }
}

proof fn doubled_often_is_exact(a: nat, k: nat)
    requires
        a < SINGLE as nat,
    ensures
        nearest_single(doubled(a, k)) == doubled(a, k),
    decreases k,
{
    if k == 0 {
        whole_stays(a);
    } else {
        doubled_often_is_exact(a, (k - 1) as nat);
        doubled_is_exact(doubled(a, (k - 1) as nat));
    }
}

/// A text without wide characters is estimated at one token for four characters, a part
/// of four counting as whole.
pub proof fn four_narrow_characters_are_a_token(s: Seq<char>, n: nat)
    requires
        forall|i: int| 0 <= i < s.len() ==> ((#[trigger] s[i]) as u32) < 0x2E80,
        s.len() < SINGLE as nat,
        4 * n < s.len() + 4,
        s.len() <= 4 * n,
    ensures
        estimate(s) == n,
{
    let c = s.len();
    none_is_wide(s, c as int);
    whole_stays(c);
    whole_stays(0);
    reveal_with_fuel(doubled, 23);
    assert(doubled(c, 22) == c * 0x40_0000);
    doubled_often_is_exact(c, 22);
    assert(crate::status_line::over_one_point_six(0) == 0) by {
        assert(crate::seconds::excess(0, SINGLE as nat) == 1);
        assert(0nat / 13421773 == 0 && 0nat % 13421773 == 0);
    }
    assert(estimate(s) == (c * 0x40_0000 + 0xff_ffff) / 0x100_0000);
}

/// Every key of the help has its own wording.
pub proof fn keys_have_their_wording(t: UiText)
    ensures
        key_table(t)[2] == ("Ctrl+X Ctrl+E"@, t.key_editor@),
        key_table(t)[4] == ("Tab"@, t.key_tab_focus@),
        key_table(t)[5] == ("↑/↓ ("@ + t.help_scope_input@ + ")"@, t.key_history@),
        key_table(t)[6] == ("↑/↓ ("@ + t.help_scope_conversation@ + ")"@, t.key_scroll_messages@),
        key_table(t)[7] == ("PageUp/PageDown"@, t.key_scroll_page@),
        key_table(t)[9] == ("Ctrl+M"@, t.key_model@),
        key_table(t)[10] == ("Ctrl+V"@, t.key_paste_image@),
        key_table(t)[12] == ("Ctrl+?"@, t.help_title@),
        key_table(t)[13] == ("Ctrl+D/T/S"@, t.key_screens@),
        key_table(t)[14] == ("Ctrl+End / Ctrl+↓"@, t.key_jump@),
        key_table(t)[15] == ("End"@, t.key_end@),
{
}

/// What can still change is a message that is written, a group of calls that is open or
/// has one running, and a child that runs; all else is final.
pub proof fn only_open_items_change(item: TranscriptItem, k: int)
    ensures
        (item matches TranscriptItem::Assistant(b) ==> (is_final(item) <==> b.done)),
        (item matches TranscriptItem::SubAgent(b) ==> (is_final(item) <==> b.status
            != ToolStatus::Running)),
        (item matches TranscriptItem::ToolGroup(g) ==> {
            &&& g.open ==> !is_final(item)
            &&& 0 <= k < g.calls@.len() && g.calls@[k].status == ToolStatus::Running ==> !is_final(
                item,
            )
            &&& !g.open && (forall|i: int|
                0 <= i < g.calls@.len() ==> (#[trigger] g.calls@[i]).status
                    != ToolStatus::Running) ==> is_final(item)
        }),
        !(item is Assistant) && !(item is SubAgent) && !(item is ToolGroup) ==> is_final(item),
{
}

/// Every sample of the preview has its own color.
pub proof fn samples_have_their_colors(theme: Theme)
    ensures
        preview_rows(theme)[1] == ("Primary text"@, Some(theme.text.primary)),
        preview_rows(theme)[2] == ("Secondary text"@, Some(theme.text.secondary)),
        preview_rows(theme)[3] == ("Muted text"@, Some(theme.text.muted)),
        preview_rows(theme)[4] == ("Disabled text"@, Some(theme.text.disabled)),
        preview_rows(theme)[6] == ("● Running"@, Some(theme.status.running)),
        preview_rows(theme)[10] == ("● Info"@, Some(theme.status.info)),
        preview_rows(theme)[12] == ("⟳ Reading src/main.rs"@, Some(theme.text.secondary)),
        preview_rows(theme)[13] == ("✓ cargo test"@, Some(theme.status.success)),
        preview_rows(theme)[14] == ("✕ cargo clippy"@, Some(theme.status.error)),
        preview_rows(theme)[16] == ("> Ask CodeLeveler..."@, Some(theme.accent.primary)),
        preview_rows(theme)[20] == ("  context line"@, Some(theme.diff.context)),
        preview_rows(theme)[22] == ("subtle"@, Some(theme.border.subtle)),
        preview_rows(theme)[23] == ("normal"@, Some(theme.border.normal)),
        preview_rows(theme)[24] == ("strong"@, Some(theme.border.strong)),
        preview_rows(theme)[25] == ("focus"@, Some(theme.border.focus)),
        preview_rows(theme).len() == 26,
{
}

} // verus!
