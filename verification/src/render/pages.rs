//! The full-screen pages: who they are, what their footer offers, and the rows that
//! are visible.

use vstd::prelude::*;

use crate::geometry::{
    asked, asked_upto, length_along, lies_along, one_min, sizes_fit, sizes_kept, spans_across,
    split_area, stacked, start_along, tiles, Axis, PartSize, Rect,
};
use crate::i18n::{text_of, UiText};
use crate::line::{fg_style, styled_line, Line, Span, Style};
use crate::model::{line_views, SpanV};
use crate::number::{at_most, min_of};
use crate::render::detail::{
    activity_footer_hint, activity_hint, activity_page, activity_screen_lines,
    background_list_body, job_page, selected_line, shell_detail_lines, shell_page, shown_shell,
    ActivityKind, ActivitySummary, BackgroundJobList,
};
use crate::render::panes::{list_offset, selection_pane, tail_offset, tail_pane, window_of, windowed};
use crate::render::remote::{preparing, remote_preparing_lines, remote_screen, remote_screen_lines};
use crate::secondary::{main_status, main_status_spans, SecondaryPage};
use crate::state::{opt_text, AppState};
use crate::status_line::{ActivityRow, WaitView};
use crate::tool_cell::home_view;
use crate::transcript::UserShellStatus;

verus! {

broadcast use crate::model::group_views;

/// What a page shows beside its own body: the main run's live status.
#[derive(Debug)]
pub struct RunStatus {
    pub wait: Option<WaitView>,
    pub rows: Vec<ActivityRow>,
    pub now_ms: u64,
}

/// A page: its chrome and its visible rows.
#[derive(Debug)]
pub struct ScreenPage {
    pub page: SecondaryPage,
    pub body: Vec<Line>,
}

/// A page with this identity, the main run's status, this hint and these rows.
pub open spec fn page_is(
    r: ScreenPage,
    state: AppState,
    run: RunStatus,
    width: u16,
    title: Seq<char>,
    hint: Seq<char>,
    body: Seq<Seq<SpanV>>,
) -> bool {
    &&& r.page.title@ == title
    &&& r.page.status@ == main_status(state, run.wait, run.rows@, run.now_ms, width as int)
    &&& r.page.hint@ == hint
    &&& line_views(r.body@) == body
}

fn chrome(state: &AppState, run: &RunStatus, width: u16, title: &str, hint: &str) -> (r: SecondaryPage)
    ensures
        r.title@ == title@,
        r.status@ == main_status(*state, run.wait, run.rows@, run.now_ms, width as int),
        r.hint@ == hint@,
{
    SecondaryPage {
        title: title.to_owned(),
        status: main_status_spans(state, &run.wait, &run.rows, run.now_ms, width as usize),
        hint: hint.to_owned(),
    }
}

// ---------------------------------------------------------------- a command of the user

/// The keys that a command's page offers: a stop only while it runs.
pub open spec fn shell_hint(state: AppState) -> Seq<char> {
    let t = text_of(state.locale);
    match shown_shell(state) {
        Some(shell) => if shell.status == UserShellStatus::Running {
            t.shell_hint_running@
        } else {
            t.shell_hint_done@
        },
        None => t.shell_hint_done@,
    }
}

/// The rows of a command's page.
pub open spec fn shell_body(state: AppState, width: int) -> Seq<Seq<SpanV>> {
    let t = text_of(state.locale);
    match shown_shell(state) {
        Some(shell) => shell_page(shell, state.elapsed_secs, width, state.theme, t),
        None => seq![styled_line(t.shell_no_output@, fg_style(state.theme.text.muted))],
    }
}

/// Shell Details in the rows of `body`: the tail is visible, and the user's scroll
/// pages back from there.
pub fn shell_screen(state: &AppState, run: &RunStatus, width: u16, body: Rect) -> (r: ScreenPage)
    ensures
        page_is(
            r,
            *state,
            *run,
            width,
            text_of(state.locale).shell_details_title@,
            shell_hint(*state),
            ({
                let all = shell_body(*state, body.width as int);
                windowed(
                    all,
                    tail_offset(all.len() as int, body.height as int, state.screen_scroll as int),
                    body.height as int,
                )
            }),
        ),
{
    let t = state.t();
    let hint = match state.focused_user_shell() {
        Some(shell) => if shell.status == UserShellStatus::Running {
            t.shell_hint_running
        } else {
            t.shell_hint_done
        },
        None => t.shell_hint_done,
    };
    let lines = shell_detail_lines(state, body.width as usize, &state.theme, &t);
    assert(line_views(lines@).len() == lines@.len());
    ScreenPage {
        page: chrome(state, run, width, t.shell_details_title, hint),
        body: tail_pane(lines, body.height as usize, state.screen_scroll),
    }
}

// ---------------------------------------------------------------- an activity

/// The name of an activity's page.
pub open spec fn activity_title(kind: ActivityKind, t: UiText) -> Seq<char> {
    match kind {
        ActivityKind::BackgroundTask => t.activity_title_background@,
        ActivityKind::ChildAgent => t.activity_title_child@,
    }
}

/// The page of the open activity, as `summary` tells of it. Where nothing is open, or
/// nothing is left of it, the page says so inside the same chrome.
pub open spec fn activity_shown(
    r: ScreenPage,
    state: AppState,
    run: RunStatus,
    width: u16,
    body: Rect,
    summary: Option<ActivitySummary>,
    home: Option<Seq<char>>,
    steps: Seq<Seq<SpanV>>,
) -> bool {
    let t = text_of(state.locale);
    match (state.activity_open, summary) {
        (Some(id), Some(s)) => page_is(
            r,
            state,
            run,
            width,
            activity_title(s.kind, t),
            activity_hint(state, id, s.status, t),
            windowed(
                activity_page(state, id, s, body.width as int, state.theme, t, home, steps),
                at_most(
                    state.activity_view.scroll as int,
                    state.activity_view.max_scroll as int,
                ),
                body.height as int,
            ),
        ),
        _ => page_is(
            r,
            state,
            run,
            width,
            t.activity_title_background@,
            t.activity_esc@,
            seq![styled_line(t.activity_stale@, fg_style(state.theme.text.muted))],
        ),
    }
}

/// One background process or child agent in the rows of `body`.
pub fn activity_screen(
    state: &AppState,
    run: &RunStatus,
    width: u16,
    body: Rect,
    summary: Option<&ActivitySummary>,
    home: Option<&str>,
    steps: &Vec<Line>,
) -> (r: ScreenPage)
    ensures
        activity_shown(
            r,
            *state,
            *run,
            width,
            body,
            match summary {
                Some(s) => Some(*s),
                None => None,
            },
            home_view(home),
            line_views(steps@),
        ),
{
    let t = state.t();
    match (&state.activity_open, summary) {
        (Some(id), Some(s)) => {
            let title = match s.kind {
                ActivityKind::BackgroundTask => t.activity_title_background,
                ActivityKind::ChildAgent => t.activity_title_child,
            };
            let lines = activity_screen_lines(
                state,
                id,
                s,
                body.width as usize,
                &state.theme,
                &t,
                home,
                steps,
            );
            let hint = activity_footer_hint(state, id, s, &t);
            let offset: usize = min_of(state.activity_view.scroll, state.activity_view.max_scroll);
            ScreenPage {
                page: chrome(state, run, width, title, hint.as_str()),
                body: window_of(lines, offset, body.height as usize),
            }
        },
        _ => {
            let mut lines: Vec<Line> = Vec::new();
            lines.push(Line::of(Span::text(t.activity_stale, Style::fg(state.theme.text.muted))));
            assert(line_views(lines@) =~= seq![
                styled_line(t.activity_stale@, fg_style(state.theme.text.muted)),
            ]);
            ScreenPage {
                page: chrome(state, run, width, t.activity_title_background, t.activity_esc),
                body: lines,
            }
        },
    }
}

// ---------------------------------------------------------------- the background list

/// The keys that the list offers: a stop only while something runs.
pub open spec fn list_hint(list: BackgroundJobList, t: UiText) -> Seq<char> {
    if list.running@.len() == 0 {
        t.background_hint_list_idle@
    } else {
        t.background_hint_list_running@
    }
}

/// The background processes in the rows of `body`, scrolled to the selected one.
pub fn background_list_screen(
    state: &AppState,
    run: &RunStatus,
    width: u16,
    body: Rect,
    list: &BackgroundJobList,
) -> (r: ScreenPage)
    ensures
        page_is(
            r,
            *state,
            *run,
            width,
            text_of(state.locale).background_list_title@,
            list_hint(*list, text_of(state.locale)),
            ({
                let selected = opt_text(state.background_list_selected);
                let all = job_page(
                    *list,
                    selected,
                    body.width as int,
                    state.theme,
                    text_of(state.locale),
                );
                windowed(
                    all,
                    match selected_line(*list, selected) {
                        Some(i) => list_offset(all.len() as int, body.height as int, i),
                        None => 0,
                    },
                    body.height as int,
                )
            }),
        ),
{
    let t = state.t();
    let hint = if list.running.len() == 0 {
        t.background_hint_list_idle
    } else {
        t.background_hint_list_running
    };
    let (lines, selected) = background_list_body(
        state,
        list,
        body.width as usize,
        &state.theme,
        &t,
    );
    assert(line_views(lines@).len() == lines@.len());
    ScreenPage {
        page: chrome(state, run, width, t.background_list_title, hint),
        body: selection_pane(lines, body.height as usize, selected),
    }
}

// ---------------------------------------------------------------- the app frame

/// The `/remote` screen: the invite, or that it is being made.
pub fn remote_lines(state: &AppState, width: usize, link: Style) -> (r: Vec<Line>)
    ensures
        line_views(r@) == (match state.remote {
            Some(remote) => remote_screen(
                remote,
                width as int,
                state.theme,
                text_of(state.locale),
                link,
            ),
            None => preparing(text_of(state.locale), state.theme),
        }),
{
    let t = state.t();
    match &state.remote {
        Some(remote) => remote_screen_lines(remote, width, &state.theme, &t, link),
        None => remote_preparing_lines(&t, &state.theme),
    }
}

/// The app header row, the body and the status row of a view that has no chrome of
/// its own. All of them span the area's columns, and together they are its rows, from
/// the first to the last: a row at most for the header and for the status, and one at
/// least for the body where the area has any. An area of three rows or more has a row
/// for the header, a row for the status, and the rest for the body.
pub fn app_frame(area: Rect) -> (r: (Rect, Rect, Rect))
    ensures
        spans_across(r.0, area, Axis::Vertical),
        spans_across(r.1, area, Axis::Vertical),
        spans_across(r.2, area, Axis::Vertical),
        lies_along(r.0, area, Axis::Vertical),
        lies_along(r.1, area, Axis::Vertical),
        lies_along(r.2, area, Axis::Vertical),
        area.y + area.height <= u16::MAX ==> {
            &&& r.0.y == area.y
            &&& r.1.y == r.0.y + r.0.height
            &&& r.2.y == r.1.y + r.1.height
            &&& r.2.y + r.2.height == area.y + area.height
            &&& r.0.height <= 1 && r.2.height <= 1
            &&& area.height >= 1 ==> r.1.height >= 1
        },
        area.height >= 3 && area.y + area.height <= u16::MAX ==> {
            &&& r.0 == (Rect { height: 1, ..area })
            &&& r.1 == (Rect {
                y: (area.y + 1) as u16,
                height: (area.height - 2) as u16,
                ..area
            })
            &&& r.2 == (Rect { y: (area.y + area.height - 1) as u16, height: 1, ..area })
        },
{
    let mut sizes: Vec<PartSize> = Vec::new();
    sizes.push(PartSize::Length(1));
    sizes.push(PartSize::Min(1));
    sizes.push(PartSize::Length(1));
    let parts = split_area(area, Axis::Vertical, &sizes);
    proof {
        assert(one_min(sizes@, 1));
        if area.y + area.height <= u16::MAX {
            assert(tiles(parts@, area, Axis::Vertical));
            assert(sizes_kept(parts@, area, Axis::Vertical, sizes@, 1));
            assert(start_along(parts@[1], Axis::Vertical) == start_along(parts@[0], Axis::Vertical)
                + length_along(parts@[0], Axis::Vertical));
            assert(start_along(parts@[2], Axis::Vertical) == start_along(parts@[1], Axis::Vertical)
                + length_along(parts@[1], Axis::Vertical));
            assert(length_along(parts@[0], Axis::Vertical) <= asked(sizes@[0]));
            assert(length_along(parts@[2], Axis::Vertical) <= asked(sizes@[2]));
        }
        if area.height >= 3 && area.y + area.height <= u16::MAX {
            reveal_with_fuel(asked_upto, 4);
            assert(sizes_fit(area, Axis::Vertical, sizes@));
            assert(parts@ == stacked(area, Axis::Vertical, sizes@, 1));
        }
    }
    (parts[0], parts[1], parts[2])
}

} // verus!
