//! What the opening card, the themes, the skills and the secondary pages promise.

use vstd::prelude::*;

use crate::i18n::{text_of, UiText};
use crate::laws::{ink, larger, strong};
use crate::line::Color;
use crate::model::{views, SpanV};
use crate::project_files::{named_lines, skipped_dir};
use crate::protocol::RuntimeStatus;
use crate::render::text::{padded, truncated};
use crate::screen::label_of;
use crate::render::turn_end::marker_of;
use crate::secondary::main_status;
use crate::skills_view::{
    detail_rows, detail_text, entry_from, listed, loaded_rows, problem_rows, shadow_rows,
    shadow_text, SkillEntry, SkillFiles, SkillRegistry, SkillShadow,
};
use crate::splash::{
    copy_rows, extras_of, h_margin, hero_content, is_blank, is_turn, mark_gap, mode_mark, mode_of,
    needed_width, splash_style, tip, tip_row, widest, widest_tip, BrandMarkSize, Mode, SplashStyle,
};
use crate::state::AppState;
use crate::status_line::{elapsed, strip, ActivityRow, WaitView};
use crate::strings::{decimal, joined, lowered, trimmed};
use crate::theme::{
    after_last, colorfgbg_dark, dark_palette, hex, high_contrast_palette, light_palette,
    preview_row, resolved, surface_fill, theme_of_name, SurfaceFill, Theme, ThemeId,
};
use crate::transcript::{last_end, TranscriptItem, TurnEndBlock};
use crate::width::unicode_str_width;

verus! {

// ---------------------------------------------------------------- themes

/// A theme goes by its name, whatever its case and the space around it; high contrast
/// also by its initials. Any other name is none.
pub proof fn themes_go_by_their_names(raw: Seq<char>)
    ensures
        lowered(trimmed(raw)) == "auto"@ ==> theme_of_name(raw) == Some(ThemeId::Auto),
        lowered(trimmed(raw)) == "dark"@ ==> theme_of_name(raw) == Some(ThemeId::Dark),
        lowered(trimmed(raw)) == "light"@ ==> theme_of_name(raw) == Some(ThemeId::Light),
        lowered(trimmed(raw)) == "high-contrast"@ ==> theme_of_name(raw) == Some(
            ThemeId::HighContrast,
        ),
        lowered(trimmed(raw)) == "hc"@ ==> theme_of_name(raw) == Some(ThemeId::HighContrast),
{
    reveal_strlit("auto");
    reveal_strlit("dark");
    reveal_strlit("light");
    reveal_strlit("high-contrast");
    reveal_strlit("hc");
    assert("auto"@.len() == 4 && "auto"@[0] == 'a');
    assert("dark"@.len() == 4 && "dark"@[0] == 'd');
    assert("light"@.len() == 5);
    assert("high-contrast"@.len() == 13);
    assert("hc"@.len() == 2);
}

/// The automatic theme follows the terminal; the others are what they are on any. Without
/// color every color is the terminal's own.
pub proof fn auto_follows_the_terminal(id: ThemeId, dark_terminal: bool)
    ensures
        resolved(ThemeId::Auto, false, true).text == dark_palette().text,
        resolved(ThemeId::Auto, false, true).surface == dark_palette().surface,
        resolved(ThemeId::Auto, false, false).text == light_palette().text,
        resolved(ThemeId::Auto, false, false).surface == light_palette().surface,
        resolved(ThemeId::Dark, false, dark_terminal) == dark_palette(),
        resolved(ThemeId::Light, false, dark_terminal) == light_palette(),
        resolved(ThemeId::HighContrast, false, dark_terminal) == high_contrast_palette(),
        resolved(id, true, dark_terminal).status.error == Color::Reset,
        resolved(id, true, dark_terminal).status.success == Color::Reset,
        resolved(id, true, dark_terminal).diff.added == Color::Reset,
{
}

/// In every colored theme what went well, what warns and what failed differ in color, and
/// so do what a diff adds and removes.
pub proof fn colors_tell_outcomes_apart(id: ThemeId, dark_terminal: bool)
    ensures
        ({
            let t = resolved(id, false, dark_terminal);
            &&& t.status.success != t.status.error
            &&& t.status.success != t.status.warning
            &&& t.status.warning != t.status.error
            &&& t.diff.added != t.diff.removed
            &&& t.text.primary != t.text.muted
        }),
{
}

/// The terminal is dark where its background's number is below eight, which is what
/// stands behind the last semicolon.
pub proof fn background_number_tells_dark(head: Seq<char>, n: nat)
    requires
        n <= 255,
    ensures
        colorfgbg_dark(head + seq![';'] + decimal(n)) == Some(n < 8),
{
    let d = decimal(n);
    let raw = head + seq![';'] + d;
    crate::laws::decimal_reads_back(n);
    behind_the_last(head + seq![';'], d, ';');
    digits_are_no_space(d);
    assert(trimmed(d) == d);
    assert(d[0] != '+');
}

proof fn behind_the_last(head: Seq<char>, d: Seq<char>, c: char)
    requires
        head.len() > 0,
        head.last() == c,
        forall|i: int| 0 <= i < d.len() ==> #[trigger] d[i] != c,
    ensures
        after_last(head + d, c) == d,
    decreases d.len(),
{
    let s = head + d;
    if d.len() == 0 {
        assert(s =~= head);
    } else {
        assert(s.last() == d.last());
        assert(s.drop_last() =~= head + d.drop_last());
        behind_the_last(head, d.drop_last(), c);
        assert(after_last(s, c) =~= d);
    }
}

proof fn digits_are_no_space(d: Seq<char>)
    requires
        d.len() > 0,
        crate::strings::all_digits(d),
    ensures
        trimmed(d) == d,
        forall|i: int| 0 <= i < d.len() ==> #[trigger] d[i] != ';',
        d[0] != '+',
{
    assert forall|i: int| 0 <= i < d.len() implies !crate::strings::whitespace(d[i])
        && #[trigger] d[i] != ';' by {
        assert(crate::strings::is_digit(d[i]));
    }
    assert(crate::strings::is_digit(d[0]));
    assert(trimmed(d) =~= d);
}

/// A surface is painted in its color with the theme's text on it; a theme without color
/// clears it, and a surface without size is left alone.
pub proof fn surfaces_are_painted(theme: Theme, width: u16, height: u16, bg: Color)
    ensures
        width == 0 || height == 0 ==> surface_fill(theme, width, height, bg)
            == SurfaceFill::Nothing,
        width > 0 && height > 0 && theme.monochrome ==> surface_fill(theme, width, height, bg)
            == SurfaceFill::Clear,
        width > 0 && height > 0 && !theme.monochrome ==> surface_fill(theme, width, height, bg) == (
        SurfaceFill::Color { bg, fg: theme.text.primary }),
{
}

/// A sample of a color shows its label in that color, red before green before blue.
pub proof fn preview_shows_the_color(label: Seq<char>, r: u8, g: u8, b: u8)
    ensures
        preview_row(label, Some(Color::Rgb(r, g, b)), true) == "\x1b[38;2;"@ + decimal(r as nat)
            + ";"@ + decimal(g as nat) + ";"@ + decimal(b as nat) + "m"@ + label + "\x1b[0m\n"@,
        preview_row(label, Some(Color::Rgb(r, g, b)), false) == label + "\n"@,
        preview_row(label, None, true) == label + "\n"@ + "──────────────────\n"@,
{
}

// ---------------------------------------------------------------- the opening card

/// The card grows with the room: text alone below forty columns or ten rows, the small
/// mark from there, the middle one from fifty-six columns, and the large one from
/// seventy-two columns and fourteen rows.
pub proof fn card_grows_with_the_room(width: int, height: int)
    ensures
        height < 10 || width < 40 ==> mode_mark(mode_of(width, height)) is None,
        height >= 10 && 40 <= width < 56 ==> mode_mark(mode_of(width, height)) == Some(
            BrandMarkSize::Micro,
        ),
        height >= 10 && 56 <= width < 72 ==> mode_mark(mode_of(width, height)) == Some(
            BrandMarkSize::Compact,
        ),
        10 <= height < 14 && width >= 72 ==> mode_mark(mode_of(width, height)) == Some(
            BrandMarkSize::Compact,
        ),
        height >= 14 && width >= 72 ==> mode_mark(mode_of(width, height)) == Some(
            BrandMarkSize::Master,
        ),
{
}

/// A conversation that holds only plans and failures is still blank.
pub proof fn plans_and_failures_are_no_turn(items: Seq<TranscriptItem>)
    ensures
        (forall|i: int|
            0 <= i < items.len() ==> #[trigger] items[i] is Plan || items[i] is Failure)
            <==> is_blank(items),
{
    if is_blank(items) {
        assert forall|i: int| 0 <= i < items.len() implies #[trigger] items[i] is Plan
            || items[i] is Failure by {
            assert(!is_turn(items[i]));
        }
    } else {
        let i = choose|i: int| 0 <= i < items.len() && is_turn(#[trigger] items[i]);
        assert(!(items[i] is Plan || items[i] is Failure));
    }
}

/// The card names the program and its version first, and warns of every config file that
/// is not trusted last, in the color of warnings.
pub proof fn card_copy_stands_in_order(
    version: Seq<char>,
    untrusted: Seq<Seq<char>>,
    t: UiText,
    theme: Theme,
    content_w: int,
    section_gap: bool,
    i: int,
)
    ensures
        ({
            let rows = copy_rows(version, untrusted, t, theme, content_w, section_gap);
            let n = untrusted.len() as int;
            &&& rows[0] == seq![
                SpanV { content: "CodeLeveler"@, style: strong(theme.accent.primary) },
                SpanV { content: "  v"@ + version, style: ink(theme.text.muted) },
            ]
            &&& rows.len() == 7 + (if section_gap {
                3int
            } else {
                0
            }) + (if n > 0 {
                n + 3
            } else {
                0
            })
            &&& n > 0 ==> rows[rows.len() - n - 2] == seq![
                SpanV {
                    content: truncated("⚠ "@ + t.untrusted_config_title@, content_w),
                    style: ink(theme.status.warning),
                },
            ]
            &&& 0 <= i < n ==> rows[rows.len() - n - 1 + i] == seq![
                SpanV {
                    content: truncated("  "@ + untrusted[i], content_w),
                    style: ink(theme.text.muted),
                },
            ]
        }),
{
}

/// Every config file that is not trusted is told between the warning and its hint.
pub proof fn untrusted_files_are_told(untrusted: Seq<Seq<char>>, t: UiText, i: int)
    ensures
        untrusted.len() == 0 ==> extras_of(untrusted, t).len() == 0,
        untrusted.len() > 0 ==> extras_of(untrusted, t).len() == untrusted.len() + 2
            && extras_of(untrusted, t)[0] == "⚠ "@ + t.untrusted_config_title@ && extras_of(
            untrusted,
            t,
        ).last() == t.untrusted_config_hint@,
        0 <= i < untrusted.len() ==> extras_of(untrusted, t)[1 + i] == "  "@ + untrusted[i],
{
}

// ---------------------------------------------------------------- skills

/// A skill is listed by its name, its description, its scope and its source, then why it
/// does not load, then every skill that it hides.
pub proof fn skill_is_listed_with_its_source(e: SkillEntry)
    ensures
        e.shadowed@.len() == 0 ==> listed(e) == "  $"@ + e.name@ + " — "@ + (match e.description {
            Some(d) => d@,
            None => "—"@,
        }) + " ["@ + e.scope@ + " · "@ + e.source@ + "]"@ + (match e.invalid {
            Some(reason) => " · INVALID: "@ + reason@,
            None => Seq::empty(),
        }),
{
    if e.shadowed@.len() == 0 {
        let d = match e.description {
            Some(d) => d@,
            None => "—"@,
        };
        let s = match e.invalid {
            Some(reason) => " · INVALID: "@ + reason@,
            None => Seq::empty(),
        };
        assert(listed(e) =~= "  $"@ + e.name@ + " — "@ + d + " ["@ + e.scope@ + " · "@ + e.source@
            + "]"@ + s);
    }
}

proof fn shadows_ignore_what_follows(shadows: Seq<SkillShadow>, s: SkillShadow, n: int)
    requires
        n <= shadows.len(),
    ensures
        shadow_text(shadows.push(s), n) == shadow_text(shadows, n),
    decreases n,
{
    if n > 0 {
        shadows_ignore_what_follows(shadows, s, n - 1);
        assert(shadows.push(s)[n - 1] == shadows[n - 1]);
    }
}

/// Every skill that is hidden is told by its scope and source.
pub proof fn hidden_skills_are_told(shadows: Seq<SkillShadow>, s: SkillShadow)
    ensures
        shadow_text(shadows.push(s), shadows.len() as int + 1) == shadow_text(
            shadows,
            shadows.len() as int,
        ) + (" · shadows "@ + s.scope@ + " "@ + s.source@),
{
    shadows_ignore_what_follows(shadows, s, shadows.len() as int);
    assert(shadows.push(s)[shadows.len() as int] == s);
}

/// What does not load is counted and told, each place with its error.
pub proof fn problems_are_counted_and_told(registry: SkillRegistry, t: UiText, i: int)
    ensures
        ({
            let rows = problem_rows(registry.problems@, t);
            let n = registry.problems@.len();
            &&& n == 0 ==> rows.len() == 0
            &&& n > 0 ==> rows.len() == n + 1 && rows[0] == t.skills_not_loaded@ + " ("@ + decimal(
                n,
            ) + ")"@
            &&& 0 <= i < n ==> rows[1 + i] == "  "@ + registry.problems@[i].location@ + ": "@
                + registry.problems@[i].error@
        }),
{
}

/// A skill's page names its scripts, its references and its other files, in this order
/// and only where it has some; one that did not load says why.
pub proof fn skill_files_stand_in_order(f: SkillFiles, e: String)
    ensures
        ({
            let rows = loaded_rows(Ok(f));
            let s: int = if f.scripts@.len() > 0 {
                1
            } else {
                0
            };
            let r: int = if f.references@.len() > 0 {
                1
            } else {
                0
            };
            let o: int = if f.other_files@.len() > 0 {
                1
            } else {
                0
            };
            &&& rows.len() == s + r + o
            &&& s == 1 ==> rows[0] == "  scripts: "@ + joined(views(f.scripts@), ", "@)
            &&& r == 1 ==> rows[s] == "  references: "@ + joined(views(f.references@), ", "@)
            &&& o == 1 ==> rows[s + r] == "  files: "@ + joined(views(f.other_files@), ", "@)
        }),
        loaded_rows(Err(e)) == seq!["  "@ + e@],
{
}

proof fn skill_is_found(entries: Seq<SkillEntry>, name: Seq<char>, from: int, k: int)
    requires
        0 <= from <= k < entries.len(),
        entries[k].name@ == name,
        forall|m: int| from <= m < k ==> (#[trigger] entries[m]).name@ != name,
    ensures
        entry_from(entries, name, from) == Some(k),
    decreases k - from,
{
    if from < k {
        skill_is_found(entries, name, from + 1, k);
    }
}

/// A skill is found by its name, with the space around what was typed set aside.
pub proof fn skills_are_found_by_name(
    registry: SkillRegistry,
    typed: Seq<char>,
    k: int,
    loaded: Result<SkillFiles, String>,
    t: UiText,
)
    requires
        0 <= k < registry.entries@.len(),
        trimmed(typed) == registry.entries@[k].name@,
        forall|m: int|
            0 <= m < k ==> (#[trigger] registry.entries@[m]).name@ != registry.entries@[k].name@,
    ensures
        detail_text(registry, typed, loaded, t) == joined(
            detail_rows(registry.entries@[k], loaded, t),
            "\n"@,
        ),
{
    skill_is_found(registry.entries@, registry.entries@[k].name@, 0, k);
}

// ---------------------------------------------------------------- files and pages

proof fn names_ignore_what_follows(rows: Seq<Seq<char>>, row: Seq<char>, n: int, limit: int)
    requires
        n <= rows.len(),
    ensures
        named_lines(rows.push(row), n, limit) == named_lines(rows, n, limit),
    decreases n,
{
    if n > 0 {
        names_ignore_what_follows(rows, row, n - 1, limit);
        assert(rows.push(row)[n - 1] == rows[n - 1]);
    }
}

/// Every line that names a file is taken until the limit is reached, an empty one never.
pub proof fn listing_takes_every_name(rows: Seq<Seq<char>>, row: Seq<char>, limit: int)
    ensures
        ({
            let n = rows.len() as int;
            let before = named_lines(rows, n, limit);
            let after = named_lines(rows.push(row), n + 1, limit);
            &&& row.len() > 0 && before.len() < limit ==> after == before.push(row)
            &&& row.len() == 0 || before.len() >= limit ==> after == before
        }),
{
    names_ignore_what_follows(rows, row, rows.len() as int, limit);
    assert(rows.push(row)[rows.len() as int] == row);
}

/// The folders that are never entered are exactly these four.
pub proof fn skipped_folders(name: Seq<char>)
    ensures
        skipped_dir(".git"@),
        skipped_dir("target"@),
        skipped_dir("node_modules"@),
        skipped_dir(".venv"@),
        skipped_dir(name) ==> name == ".git"@ || name == "target"@ || name == "node_modules"@
            || name == ".venv"@,
{
}

/// Beside another page the conversation is told by its live line while it works, as
/// failed behind a cross, else by how its last turn ended and how long it took, and as
/// idle where there was none.
pub proof fn main_page_is_told_beside(
    state: AppState,
    wait: Option<WaitView>,
    rows: Seq<ActivityRow>,
    now_ms: u64,
    width: int,
    b: TurnEndBlock,
)
    requires
        state.overlay is None,
    ensures
        ({
            let t = text_of(state.locale);
            let n = state.transcript.items@.len() as int;
            let line = main_status(state, wait, rows, now_ms, width);
            let end = last_end(state.transcript.items@, n);
            let rests = state.status != RuntimeStatus::Busy && state.status
                != RuntimeStatus::Error;
            &&& state.status == RuntimeStatus::Busy ==> line == strip(
                state,
                wait,
                rows,
                now_ms,
                width,
            )[0]
            &&& state.status == RuntimeStatus::Error ==> line == seq![
                SpanV { content: "✗ "@ + t.final_failed@, style: ink(state.theme.status.error) },
            ]
            &&& rests && end is None ==> line == seq![
                SpanV { content: t.btw_main_idle@, style: ink(state.theme.text.muted) },
            ]
            &&& rests && end == Some(b) && b.elapsed_secs > 0 ==> line == seq![
                SpanV {
                    content: marker_of(b, state.theme, t).0 + (" · "@ + elapsed(
                        b.elapsed_secs as nat,
                    )),
                    style: strong(marker_of(b, state.theme, t).1),
                },
            ]
        }),
{
}

/// A skill's page names it with its scope and source, then its description, then where
/// it lies, then its files, and last what it hides.
pub proof fn skill_page_stands_in_order(e: SkillEntry, loaded: Result<SkillFiles, String>, t: UiText)
    ensures
        ({
            let rows = detail_rows(e, loaded, t);
            let d: int = if e.description is Some {
                1
            } else {
                0
            };
            let files = loaded_rows(loaded).len();
            &&& rows.len() == 2 + d + files + e.shadowed@.len()
            &&& e.invalid is None ==> rows[0] == "Skill $"@ + e.name@ + " ["@ + e.scope@ + " · "@
                + e.source@ + "]"@
            &&& d == 1 ==> rows[1] == "  "@ + e.description->0@
            &&& (e.location matches Some(l) ==> rows[1 + d] == "  "@ + t.agents_location@ + ": "@
                + l@)
            &&& e.location is None ==> rows[1 + d] == "  "@ + t.agents_location@ + ": (built-in)"@
        }),
{
    if e.invalid is None {
        assert(detail_rows(e, loaded, t)[0] =~= "Skill $"@ + e.name@ + " ["@ + e.scope@ + " · "@
            + e.source@ + "]"@);
    }
}

/// What a skill hides is told with its scope and source, and with its error where it does
/// not load.
pub proof fn hidden_skills_have_their_rows(shadows: Seq<SkillShadow>, t: UiText, i: int)
    requires
        0 <= i < shadows.len(),
    ensures
        shadow_rows(shadows, t).len() == shadows.len(),
        shadows[i].error is None ==> shadow_rows(shadows, t)[i] == "  "@ + t.agents_shadows@
            + ": "@ + shadows[i].scope@ + " "@ + shadows[i].source@,
        (shadows[i].error matches Some(e) ==> shadow_rows(shadows, t)[i] == "  "@
            + t.agents_shadows@ + ": "@ + shadows[i].scope@ + " "@ + shadows[i].source@ + " ("@ + e@
            + ")"@),
{
    let s = shadows[i];
    let lead = "  "@ + t.agents_shadows@ + ": "@ + s.scope@ + " "@ + s.source@;
    if s.error is None {
        assert(shadow_rows(shadows, t)[i] =~= lead);
    } else {
        assert(shadow_rows(shadows, t)[i] =~= lead + " ("@ + s.error->0@ + ")"@);
    }
}

/// The card leaves two columns at its sides, four where the room is widest.
pub proof fn card_keeps_its_margin(width: int, height: int)
    ensures
        height >= 14 && width >= 72 ==> h_margin(mode_of(width, height)) == 4 && mark_gap(
            mode_of(width, height),
        ) == 5,
        width < 72 || height < 14 ==> h_margin(mode_of(width, height)) == 2 && mark_gap(
            mode_of(width, height),
        ) == 2,
{
}

/// The commands that the card tells of are these three, each beside its wording.
pub proof fn card_tells_three_commands(t: UiText, name_w: int, label_w: int, sty: SplashStyle, i: int)
    requires
        0 <= i < 3,
    ensures
        tip(0) == "/feature-dev"@,
        tip(1) == "/model"@,
        tip(2) == "/help"@,
        tip_row(i, t, name_w, label_w, sty).len() == 2,
        tip_row(i, t, name_w, label_w, sty)[0].content == padded(tip(i), name_w),
        tip_row(i, t, name_w, label_w, sty)[1].content == truncated(label_of(tip(i), t), label_w),
{
}

/// What the card shows has room in the width that it asks for.
pub proof fn card_asks_for_its_widest_line(
    t: UiText,
    brand: Seq<char>,
    name_col: int,
    extras: Seq<Seq<char>>,
)
    ensures
        ({
            let w = needed_width(t, brand, name_col, extras);
            &&& unicode_str_width(brand) <= w
            &&& unicode_str_width(t.splash_tagline@) <= w
            &&& unicode_str_width(t.splash_more_commands@) <= w
            &&& forall|i: int|
                0 <= i < extras.len() ==> unicode_str_width(#[trigger] extras[i]) <= w
            &&& name_col + unicode_str_width(label_of(tip(0), t)) <= usize::MAX ==> name_col
                + unicode_str_width(label_of(tip(0), t)) <= w
            &&& name_col + unicode_str_width(label_of(tip(1), t)) <= usize::MAX ==> name_col
                + unicode_str_width(label_of(tip(1), t)) <= w
            &&& name_col + unicode_str_width(label_of(tip(2), t)) <= usize::MAX ==> name_col
                + unicode_str_width(label_of(tip(2), t)) <= w
        }),
{
    reveal_with_fuel(widest_tip, 4);
    let lines = needed_width(t, brand, name_col, Seq::empty());
    widest_holds(extras, lines, extras.len() as int);
    assert(needed_width(t, brand, name_col, extras) == widest(extras, lines, extras.len() as int));
}

proof fn widest_holds(texts: Seq<Seq<char>>, base: int, n: int)
    requires
        0 <= n <= texts.len(),
    ensures
        widest(texts, base, n) >= base,
        forall|i: int|
            0 <= i < n ==> unicode_str_width(#[trigger] texts[i]) <= widest(texts, base, n),
    decreases n,
{
    if n > 0 {
        widest_holds(texts, base, n - 1);
    }
}

/// The text of the widest card is forty-two columns wide where they fit, that of the
/// others as wide as it needs.
pub proof fn card_text_has_its_width(mode: Mode, needed: int, budget: int, mark_w: int, gap: int)
    requires
        0 < mark_w,
        0 <= gap,
        0 <= needed,
    ensures
        ({
            let left = budget - mark_w - gap;
            &&& mode is Wide && left >= 42 ==> hero_content(mode, needed, budget, mark_w, gap) == 42
            &&& !(mode is Wide) && left >= needed ==> hero_content(
                mode,
                needed,
                budget,
                mark_w,
                gap,
            ) == needed
            &&& 0 <= left < 42 && mode is Wide ==> hero_content(mode, needed, budget, mark_w, gap)
                == left
            &&& hero_content(mode, needed, budget, 0, gap) <= larger(budget, 0)
        }),
{
}

/// A color written as one number is its red, its green and its blue, a byte each.
pub proof fn colors_are_read_by_bytes(r: u8, g: u8, b: u8)
    ensures
        hex((r as u32 * 65536 + g as u32 * 256 + b as u32) as u32) == Color::Rgb(r, g, b),
{
    let n = (r as u32 * 65536 + g as u32 * 256 + b as u32) as u32;
    assert(n == r * 65536 + g * 256 + b);
    assert(n / 65536 == r && n / 256 % 256 == g && n % 256 == b);
    assert(n / 65536 % 256 == r);
}

/// The card is drawn in the theme: its name and commands in the accent color, its frame
/// in the quietest border.
pub proof fn card_is_drawn_in_the_theme(theme: Theme)
    ensures
        splash_style(theme).brand == strong(theme.accent.primary),
        splash_style(theme).version == ink(theme.text.muted),
        splash_style(theme).tagline == ink(theme.text.secondary),
        splash_style(theme).caret == ink(theme.accent.primary),
        splash_style(theme).cta == strong(theme.text.primary),
        splash_style(theme).muted == ink(theme.text.muted),
        splash_style(theme).cmd == ink(theme.accent.primary),
        splash_style(theme).desc == ink(theme.text.secondary),
        splash_style(theme).border == ink(theme.border.subtle),
{
}

} // verus!
