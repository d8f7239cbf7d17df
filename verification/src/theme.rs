//! Semantic color tokens. Components consume roles (`theme.text.primary`),
//! never raw colors, so a palette swap cannot silently lose contrast.
//!
//! Named themes paint an opaque canvas. Body text is a real token, not
//! `Color::Reset`, so readability does not depend on the terminal profile.

use vstd::prelude::*;

use crate::line::Color;
use crate::strings::{
    ascii_lower, cat2, cat3, chars_of, dec, decimal, drop_white, lowered, parse_byte, parsed_number,
    same, skip_white, string_of, to_ascii_lowercase, trim, trimmed, whitespace,
};

verus! {

/// Stable theme identifiers selectable via `/theme` and stored in config.
#[derive(Clone, Copy, Debug, PartialEq, Eq, Hash, Structural)]
pub enum ThemeId {
    /// Detect terminal polarity, then load Dark or Light. Never Reset.
    Auto,
    /// Opaque dark palette.
    Dark,
    /// Opaque light palette.
    Light,
    /// Opaque high-contrast dark palette.
    HighContrast,
}

/// The name of a theme in the config and in slash commands.
pub open spec fn theme_name(id: ThemeId) -> Seq<char> {
    match id {
        ThemeId::Auto => "auto"@,
        ThemeId::Dark => "dark"@,
        ThemeId::Light => "light"@,
        ThemeId::HighContrast => "high-contrast"@,
    }
}

/// The theme that a name stands for, whatever its case and the space around it.
pub open spec fn theme_of_name(raw: Seq<char>) -> Option<ThemeId> {
    let key = lowered(trimmed(raw));
    if key == "auto"@ {
        Some(ThemeId::Auto)
    } else if key == "dark"@ {
        Some(ThemeId::Dark)
    } else if key == "light"@ {
        Some(ThemeId::Light)
    } else if key == "high-contrast"@ || key == "hc"@ {
        Some(ThemeId::HighContrast)
    } else {
        None
    }
}

/// The theme that follows `id` in the picker.
pub open spec fn theme_after(id: ThemeId) -> ThemeId {
    match id {
        ThemeId::Auto => ThemeId::Dark,
        ThemeId::Dark => ThemeId::Light,
        ThemeId::Light => ThemeId::HighContrast,
        ThemeId::HighContrast => ThemeId::Auto,
    }
}

impl ThemeId {
    /// The theme a user who never chose one gets.
    ///
    /// Auto picks Dark or Light from the environment and still paints an
    /// opaque surface. It does not inherit the terminal's colors.
    pub const DEFAULT: ThemeId = ThemeId::Auto;

    /// All named themes, in cycle / picker order (default first).
    pub const ALL: [ThemeId; 4] = [
        ThemeId::Auto,
        ThemeId::Dark,
        ThemeId::Light,
        ThemeId::HighContrast,
    ];

    /// Palettes that always have a fixed polarity.
    pub const FIXED: [ThemeId; 3] = [ThemeId::Dark, ThemeId::Light, ThemeId::HighContrast];

    /// Wire / config / slash value.
    pub fn as_str(self) -> (r: &'static str)
        ensures
            r@ == theme_name(self),
    {
        match self {
            ThemeId::Auto => "auto",
            ThemeId::Dark => "dark",
            ThemeId::Light => "light",
            ThemeId::HighContrast => "high-contrast",
        }
    }

    /// Parse a stored or CLI wire value (case-insensitive).
    pub fn parse(raw: &str) -> (r: Option<ThemeId>)
        ensures
            r == theme_of_name(raw@),
    {
        let key = to_ascii_lowercase(trim(raw).as_str());
        if same(key.as_str(), "auto") {
            Some(ThemeId::Auto)
        } else if same(key.as_str(), "dark") {
            Some(ThemeId::Dark)
        } else if same(key.as_str(), "light") {
            Some(ThemeId::Light)
        } else if same(key.as_str(), "high-contrast") || same(key.as_str(), "hc") {
            Some(ThemeId::HighContrast)
        } else {
            None
        }
    }

    /// Next theme in the cycle (for bare `/theme` confirm-after-down).
    pub fn cycle_next(self) -> (r: ThemeId)
        ensures
            r == theme_after(self),
    {
        match self {
            ThemeId::Auto => ThemeId::Dark,
            ThemeId::Dark => ThemeId::Light,
            ThemeId::Light => ThemeId::HighContrast,
            ThemeId::HighContrast => ThemeId::Auto,
        }
    }
}

/// Application surfaces. Every reading area sits on one of these, never on
/// the terminal's default background.
#[derive(Clone, Copy, Debug, PartialEq, Eq, Structural)]
pub struct SurfaceColors {
    pub canvas: Color,
    pub panel: Color,
    pub elevated: Color,
    pub input: Color,
    pub selection: Color,
}

/// Text roles. Hierarchy is a different color, not a dim modifier.
#[derive(Clone, Copy, Debug, PartialEq, Eq, Structural)]
pub struct TextColors {
    pub primary: Color,
    pub secondary: Color,
    pub muted: Color,
    pub disabled: Color,
    pub inverse: Color,
}

/// Chrome outlines.
#[derive(Clone, Copy, Debug, PartialEq, Eq, Structural)]
pub struct BorderColors {
    pub subtle: Color,
    pub normal: Color,
    pub strong: Color,
    pub focus: Color,
}

/// Brand / interactive emphasis.
#[derive(Clone, Copy, Debug, PartialEq, Eq, Structural)]
pub struct AccentColors {
    pub primary: Color,
    pub secondary: Color,
    pub subtle: Color,
}

/// Status semantics (icons and short labels, not whole blocks).
#[derive(Clone, Copy, Debug, PartialEq, Eq, Structural)]
pub struct StatusColors {
    pub success: Color,
    pub warning: Color,
    pub error: Color,
    pub info: Color,
    pub running: Color,
}

/// Diff / edit highlighting. Markers (`+`/`-`) carry meaning alongside color.
#[derive(Clone, Copy, Debug, PartialEq, Eq, Structural)]
pub struct DiffColors {
    pub added: Color,
    pub removed: Color,
    pub modified: Color,
    pub context: Color,
    pub added_bg: Color,
    pub removed_bg: Color,
}

/// A semantic theme. Components reference tokens, never literals.
#[derive(Clone, Copy, Debug, PartialEq, Eq, Structural)]
pub struct Theme {
    /// Which named id this is (Auto stays Auto even after polarity is resolved).
    pub id: ThemeId,
    /// True when every role is terminal-default (`NO_COLOR`).
    pub monochrome: bool,
    pub surface: SurfaceColors,
    pub text: TextColors,
    pub border: BorderColors,
    pub accent: AccentColors,
    pub status: StatusColors,
    pub diff: DiffColors,
}

/// The color written as `0xRRGGBB`.
pub open spec fn hex(n: u32) -> Color {
    Color::Rgb((n / 65536 % 256) as u8, (n / 256 % 256) as u8, (n % 256) as u8)
}

fn rgb(n: u32) -> (r: Color)
    ensures
        r == hex(n),
{
    Color::Rgb((n / 65536 % 256) as u8, (n / 256 % 256) as u8, (n % 256) as u8)
}

/// The opaque dark palette.
pub open spec fn dark_palette() -> Theme {
    Theme {
        id: ThemeId::Dark,
        monochrome: false,
        surface: SurfaceColors {
            canvas: hex(0x111315),
            panel: hex(0x171A1E),
            elevated: hex(0x1D2126),
            input: hex(0x15181C),
            selection: hex(0x253345),
        },
        text: TextColors {
            primary: hex(0xE7E9EC),
            secondary: hex(0xB5BAC1),
            muted: hex(0x858C95),
            disabled: hex(0x636A73),
            inverse: hex(0x111315),
        },
        border: BorderColors {
            subtle: hex(0x292E35),
            normal: hex(0x5C6672),
            strong: hex(0x8A94A0),
            focus: hex(0x4EA1FF),
        },
        accent: AccentColors {
            primary: hex(0x4EA1FF),
            secondary: hex(0x78B7FF),
            subtle: hex(0x1A3050),
        },
        status: StatusColors {
            success: hex(0x56C271),
            warning: hex(0xE5B454),
            error: hex(0xE56B6F),
            info: hex(0x65A9F3),
            running: hex(0x4EA1FF),
        },
        diff: DiffColors {
            added: hex(0x56C271),
            removed: hex(0xE56B6F),
            modified: hex(0xE5B454),
            context: hex(0xB5BAC1),
            added_bg: hex(0x14301C),
            removed_bg: hex(0x3A181A),
        },
    }
}

/// The opaque light palette.
pub open spec fn light_palette() -> Theme {
    Theme {
        id: ThemeId::Light,
        monochrome: false,
        surface: SurfaceColors {
            canvas: hex(0xF7F8FA),
            panel: hex(0xFFFFFF),
            elevated: hex(0xF0F2F5),
            input: hex(0xFFFFFF),
            selection: hex(0xDCEBFF),
        },
        text: TextColors {
            primary: hex(0x20242A),
            secondary: hex(0x4D5560),
            muted: hex(0x5C6570),
            disabled: hex(0x7A828C),
            inverse: hex(0xFFFFFF),
        },
        border: BorderColors {
            subtle: hex(0xE2E5E9),
            normal: hex(0x7A828C),
            strong: hex(0x5A626C),
            focus: hex(0x0969DA),
        },
        accent: AccentColors {
            primary: hex(0x0969DA),
            secondary: hex(0x3B82D0),
            subtle: hex(0xDCEBFF),
        },
        status: StatusColors {
            success: hex(0x1A7F37),
            warning: hex(0x9A6700),
            error: hex(0xCF222E),
            info: hex(0x0969DA),
            running: hex(0x0969DA),
        },
        diff: DiffColors {
            added: hex(0x1A7F37),
            removed: hex(0xCF222E),
            modified: hex(0x9A6700),
            context: hex(0x4D5560),
            added_bg: hex(0xE6F4EA),
            removed_bg: hex(0xFCE8E8),
        },
    }
}

/// The opaque high-contrast dark palette.
pub open spec fn high_contrast_palette() -> Theme {
    Theme {
        id: ThemeId::HighContrast,
        monochrome: false,
        surface: SurfaceColors {
            canvas: hex(0x000000),
            panel: hex(0x000000),
            elevated: hex(0x0A0A0A),
            input: hex(0x000000),
            selection: hex(0x003366),
        },
        text: TextColors {
            primary: hex(0xFFFFFF),
            secondary: hex(0xE8E8E8),
            muted: hex(0xC8C8C8),
            disabled: hex(0xA0A0A0),
            inverse: hex(0x000000),
        },
        border: BorderColors {
            subtle: hex(0x555555),
            normal: hex(0xAAAAAA),
            strong: hex(0xDDDDDD),
            focus: hex(0xFFFF00),
        },
        accent: AccentColors {
            primary: hex(0x66B3FF),
            secondary: hex(0x99CCFF),
            subtle: hex(0x003366),
        },
        status: StatusColors {
            success: hex(0x3DDA6B),
            warning: hex(0xFFD24A),
            error: hex(0xFF6B6B),
            info: hex(0x66B3FF),
            running: hex(0x66B3FF),
        },
        diff: DiffColors {
            added: hex(0x3DDA6B),
            removed: hex(0xFF6B6B),
            modified: hex(0xFFD24A),
            context: hex(0xC8C8C8),
            added_bg: hex(0x002200),
            removed_bg: hex(0x330000),
        },
    }
}

/// Every role is the terminal's own color.
pub open spec fn no_color_palette() -> Theme {
    Theme {
        id: ThemeId::Auto,
        monochrome: true,
        surface: SurfaceColors { canvas: Color::Reset, panel: Color::Reset, elevated: Color::Reset, input: Color::Reset, selection: Color::Reset },
        text: TextColors {
            primary: Color::Reset,
            secondary: Color::Reset,
            muted: Color::Reset,
            disabled: Color::Reset,
            inverse: Color::Reset,
        },
        border: BorderColors {
            subtle: Color::Reset,
            normal: Color::Reset,
            strong: Color::Reset,
            focus: Color::Reset,
        },
        accent: AccentColors {
            primary: Color::Reset,
            secondary: Color::Reset,
            subtle: Color::Reset,
        },
        status: StatusColors {
            success: Color::Reset,
            warning: Color::Reset,
            error: Color::Reset,
            info: Color::Reset,
            running: Color::Reset,
        },
        diff: DiffColors {
            added: Color::Reset,
            removed: Color::Reset,
            modified: Color::Reset,
            context: Color::Reset,
            added_bg: Color::Reset,
            removed_bg: Color::Reset,
        },
    }
}

/// The palette of a theme on a terminal of the given polarity.
pub open spec fn palette(id: ThemeId, dark_terminal: bool) -> Theme {
    match id {
        ThemeId::Auto => Theme {
            id: ThemeId::Auto,
            ..(if dark_terminal {
                dark_palette()
            } else {
                light_palette()
            })
        },
        ThemeId::Dark => dark_palette(),
        ThemeId::Light => light_palette(),
        ThemeId::HighContrast => high_contrast_palette(),
    }
}

/// The theme that is shown: without color whatever was chosen, else its palette.
pub open spec fn resolved(id: ThemeId, no_color: bool, dark_terminal: bool) -> Theme {
    if no_color {
        Theme { id, ..no_color_palette() }
    } else {
        palette(id, dark_terminal)
    }
}

impl Theme {
    /// The opaque dark palette.
    pub fn dark() -> (r: Theme)
        ensures
            r == dark_palette(),
    {
        Theme {
            id: ThemeId::Dark,
            monochrome: false,
            surface: SurfaceColors {
                canvas: rgb(0x111315),
                panel: rgb(0x171A1E),
                elevated: rgb(0x1D2126),
                input: rgb(0x15181C),
                selection: rgb(0x253345),
            },
            text: TextColors {
                primary: rgb(0xE7E9EC),
                secondary: rgb(0xB5BAC1),
                muted: rgb(0x858C95),
                disabled: rgb(0x636A73),
                inverse: rgb(0x111315),
            },
            border: BorderColors {
                subtle: rgb(0x292E35),
                normal: rgb(0x5C6672),
                strong: rgb(0x8A94A0),
                focus: rgb(0x4EA1FF),
            },
            accent: AccentColors {
                primary: rgb(0x4EA1FF),
                secondary: rgb(0x78B7FF),
                subtle: rgb(0x1A3050),
            },
            status: StatusColors {
                success: rgb(0x56C271),
                warning: rgb(0xE5B454),
                error: rgb(0xE56B6F),
                info: rgb(0x65A9F3),
                running: rgb(0x4EA1FF),
            },
            diff: DiffColors {
                added: rgb(0x56C271),
                removed: rgb(0xE56B6F),
                modified: rgb(0xE5B454),
                context: rgb(0xB5BAC1),
                added_bg: rgb(0x14301C),
                removed_bg: rgb(0x3A181A),
            },
        }
    }

    /// The opaque light palette.
    pub fn light() -> (r: Theme)
        ensures
            r == light_palette(),
    {
        Theme {
            id: ThemeId::Light,
            monochrome: false,
            surface: SurfaceColors {
                canvas: rgb(0xF7F8FA),
                panel: rgb(0xFFFFFF),
                elevated: rgb(0xF0F2F5),
                input: rgb(0xFFFFFF),
                selection: rgb(0xDCEBFF),
            },
            text: TextColors {
                primary: rgb(0x20242A),
                secondary: rgb(0x4D5560),
                muted: rgb(0x5C6570),
                disabled: rgb(0x7A828C),
                inverse: rgb(0xFFFFFF),
            },
            border: BorderColors {
                subtle: rgb(0xE2E5E9),
                normal: rgb(0x7A828C),
                strong: rgb(0x5A626C),
                focus: rgb(0x0969DA),
            },
            accent: AccentColors {
                primary: rgb(0x0969DA),
                secondary: rgb(0x3B82D0),
                subtle: rgb(0xDCEBFF),
            },
            status: StatusColors {
                success: rgb(0x1A7F37),
                warning: rgb(0x9A6700),
                error: rgb(0xCF222E),
                info: rgb(0x0969DA),
                running: rgb(0x0969DA),
            },
            diff: DiffColors {
                added: rgb(0x1A7F37),
                removed: rgb(0xCF222E),
                modified: rgb(0x9A6700),
                context: rgb(0x4D5560),
                added_bg: rgb(0xE6F4EA),
                removed_bg: rgb(0xFCE8E8),
            },
        }
    }

    /// The opaque high-contrast dark palette.
    pub fn high_contrast() -> (r: Theme)
        ensures
            r == high_contrast_palette(),
    {
        Theme {
            id: ThemeId::HighContrast,
            monochrome: false,
            surface: SurfaceColors {
                canvas: rgb(0x000000),
                panel: rgb(0x000000),
                elevated: rgb(0x0A0A0A),
                input: rgb(0x000000),
                selection: rgb(0x003366),
            },
            text: TextColors {
                primary: rgb(0xFFFFFF),
                secondary: rgb(0xE8E8E8),
                muted: rgb(0xC8C8C8),
                disabled: rgb(0xA0A0A0),
                inverse: rgb(0x000000),
            },
            border: BorderColors {
                subtle: rgb(0x555555),
                normal: rgb(0xAAAAAA),
                strong: rgb(0xDDDDDD),
                focus: rgb(0xFFFF00),
            },
            accent: AccentColors {
                primary: rgb(0x66B3FF),
                secondary: rgb(0x99CCFF),
                subtle: rgb(0x003366),
            },
            status: StatusColors {
                success: rgb(0x3DDA6B),
                warning: rgb(0xFFD24A),
                error: rgb(0xFF6B6B),
                info: rgb(0x66B3FF),
                running: rgb(0x66B3FF),
            },
            diff: DiffColors {
                added: rgb(0x3DDA6B),
                removed: rgb(0xFF6B6B),
                modified: rgb(0xFFD24A),
                context: rgb(0xC8C8C8),
                added_bg: rgb(0x002200),
                removed_bg: rgb(0x330000),
            },
        }
    }

    /// Every role is the terminal's own color.
    pub fn no_color() -> (r: Theme)
        ensures
            r == no_color_palette(),
    {
        Theme {
            id: ThemeId::Auto,
            monochrome: true,
            surface: SurfaceColors { canvas: Color::Reset, panel: Color::Reset, elevated: Color::Reset, input: Color::Reset, selection: Color::Reset },
            text: TextColors {
                primary: Color::Reset,
                secondary: Color::Reset,
                muted: Color::Reset,
                disabled: Color::Reset,
                inverse: Color::Reset,
            },
            border: BorderColors {
                subtle: Color::Reset,
                normal: Color::Reset,
                strong: Color::Reset,
                focus: Color::Reset,
            },
            accent: AccentColors {
                primary: Color::Reset,
                secondary: Color::Reset,
                subtle: Color::Reset,
            },
            status: StatusColors {
                success: Color::Reset,
                warning: Color::Reset,
                error: Color::Reset,
                info: Color::Reset,
                running: Color::Reset,
            },
            diff: DiffColors {
                added: Color::Reset,
                removed: Color::Reset,
                modified: Color::Reset,
                context: Color::Reset,
                added_bg: Color::Reset,
                removed_bg: Color::Reset,
            },
        }
    }

    /// Palette for a named id (never monochrome). Auto resolves to the polarity of
    /// the terminal but keeps `id == Auto`.
    pub fn named(id: ThemeId, dark_terminal: bool) -> (r: Theme)
        ensures
            r == palette(id, dark_terminal),
    {
        match id {
            ThemeId::Auto => {
                let mut t = if dark_terminal {
                    Theme::dark()
                } else {
                    Theme::light()
                };
                t.id = ThemeId::Auto;
                t
            },
            ThemeId::Dark => Theme::dark(),
            ThemeId::Light => Theme::light(),
            ThemeId::HighContrast => Theme::high_contrast(),
        }
    }

    /// Monochrome palette that remembers the user's preferred named id.
    pub fn monochrome_with_id(id: ThemeId) -> (r: Theme)
        ensures
            r == (Theme { id, ..no_color_palette() }),
    {
        let mut t = Theme::no_color();
        t.id = id;
        t
    }

    /// Resolve a theme id, honouring `NO_COLOR` (monochrome wins over any id).
    pub fn resolve(id: ThemeId, no_color: bool, dark_terminal: bool) -> (r: Theme)
        ensures
            r == resolved(id, no_color, dark_terminal),
    {
        if no_color {
            Theme::monochrome_with_id(id)
        } else {
            Theme::named(id, dark_terminal)
        }
    }

    /// Resolve from a config/slash string. Unknown values fall back to Auto.
    pub fn resolve_str(raw: &str, no_color: bool, dark_terminal: bool) -> (r: Theme)
        ensures
            r == resolved(
                match theme_of_name(raw@) {
                    Some(id) => id,
                    None => ThemeId::Auto,
                },
                no_color,
                dark_terminal,
            ),
    {
        let id = match ThemeId::parse(raw) {
            Some(id) => id,
            None => ThemeId::DEFAULT,
        };
        Theme::resolve(id, no_color, dark_terminal)
    }

    /// Whether this palette is monochrome (no meaningful color).
    pub fn is_monochrome(&self) -> (r: bool)
        ensures
            r == self.monochrome,
    {
        self.monochrome
    }

    /// The fill that hides the terminal behind an area of `width` by `height`
    /// cells: nothing for an empty area, blank cells without color, else the
    /// surface `bg` with body text on it.
    pub fn paint_surface(&self, width: u16, height: u16, bg: Color) -> (r: SurfaceFill)
        ensures
            r == surface_fill(*self, width, height, bg),
    {
        if width == 0 || height == 0 {
            SurfaceFill::Nothing
        } else if self.monochrome {
            SurfaceFill::Clear
        } else {
            SurfaceFill::Color { bg, fg: self.text.primary }
        }
    }

    /// The fill of the canvas, so the terminal background cannot show through.
    pub fn paint_canvas(&self, width: u16, height: u16) -> (r: SurfaceFill)
        ensures
            r == surface_fill(*self, width, height, self.surface.canvas),
    {
        self.paint_surface(width, height, self.surface.canvas)
    }
}

/// How an area is filled before anything is drawn on it.
#[derive(Clone, Copy, Debug, PartialEq, Eq, Structural)]
pub enum SurfaceFill {
    Nothing,
    Clear,
    Color { bg: Color, fg: Color },
}

pub open spec fn surface_fill(theme: Theme, width: u16, height: u16, bg: Color) -> SurfaceFill {
    if width == 0 || height == 0 {
        SurfaceFill::Nothing
    } else if theme.monochrome {
        SurfaceFill::Clear
    } else {
        SurfaceFill::Color { bg, fg: theme.text.primary }
    }
}

/// What follows the last `c` of `s`; all of `s` when it holds none.
pub open spec fn after_last(s: Seq<char>, c: char) -> Seq<char>
    decreases s.len(),
{
    if s.len() == 0 || s.last() == c {
        Seq::empty()
    } else {
        after_last(s.drop_last(), c).push(s.last())
    }
}

/// Whether `COLORFGBG` names a dark background: its last field, a number up to
/// 255, below eight.
pub open spec fn colorfgbg_dark(raw: Seq<char>) -> Option<bool> {
    match parsed_number(trimmed(after_last(raw, ';'))) {
        Some(n) => if n <= 255 {
            Some(n < 8)
        } else {
            None
        },
        None => None,
    }
}

/// Parse `COLORFGBG` (`fg;bg`, 0–15). `None` if the value is unusable.
pub fn is_dark_colorfgbg(raw: &str) -> (r: Option<bool>)
    ensures
        r == colorfgbg_dark(raw@),
{
    let v = chars_of(raw);
    let mut i: usize = v.len();
    assert(v@.subrange(i as int, v@.len() as int) =~= Seq::<char>::empty());
    assert(v@.take(i as int) =~= v@);
    assert(after_last(v@, ';') =~= after_last(v@.take(i as int), ';') + v@.subrange(
        i as int,
        v@.len() as int,
    ));
    while i > 0 && v[i - 1] != ';'
        invariant
            v@ == raw@,
            i <= v@.len(),
            after_last(v@, ';') == after_last(v@.take(i as int), ';') + v@.subrange(
                i as int,
                v@.len() as int,
            ),
        decreases i,
    {
        proof {
            let t = v@.take(i as int);
            assert(t.drop_last() =~= v@.take(i - 1));
            assert(after_last(t.drop_last(), ';').push(t.last()) + v@.subrange(
                i as int,
                v@.len() as int,
            ) =~= after_last(v@.take(i - 1), ';') + v@.subrange(i - 1, v@.len() as int));
        }
        i -= 1;
    }
    assert(after_last(v@.take(i as int), ';') =~= Seq::<char>::empty());
    let bg = string_of(&v, i, v.len());
    assert(bg@ =~= after_last(raw@, ';'));
    match parse_byte(trim(bg.as_str()).as_str()) {
        Some(n) => Some(n < 8),
        None => None,
    }
}

/// Whether the terminal is dark, from the value of `COLORFGBG` where it is set.
/// Unrecognised environments default to dark.
pub fn detect_dark_terminal(colorfgbg: Option<&str>) -> (r: bool)
    ensures
        r == match colorfgbg {
            Some(raw) => match colorfgbg_dark(raw@) {
                Some(dark) => dark,
                None => true,
            },
            None => true,
        },
{
    match colorfgbg {
        Some(raw) => match is_dark_colorfgbg(raw) {
            Some(dark) => dark,
            None => true,
        },
        None => true,
    }
}

/// The rows of the preview: a heading has no color.
pub open spec fn preview_rows(theme: Theme) -> Seq<(Seq<char>, Option<Color>)> {
    seq![
        ("Typography"@, None),
        ("Primary text"@, Some(theme.text.primary)),
        ("Secondary text"@, Some(theme.text.secondary)),
        ("Muted text"@, Some(theme.text.muted)),
        ("Disabled text"@, Some(theme.text.disabled)),
        ("Status"@, None),
        ("● Running"@, Some(theme.status.running)),
        ("✓ Success"@, Some(theme.status.success)),
        ("! Warning"@, Some(theme.status.warning)),
        ("✕ Error"@, Some(theme.status.error)),
        ("● Info"@, Some(theme.status.info)),
        ("Tools"@, None),
        ("⟳ Reading src/main.rs"@, Some(theme.text.secondary)),
        ("✓ cargo test"@, Some(theme.status.success)),
        ("✕ cargo clippy"@, Some(theme.status.error)),
        ("Input"@, None),
        ("> Ask CodeLeveler..."@, Some(theme.accent.primary)),
        ("Diff"@, None),
        ("+ added line"@, Some(theme.diff.added)),
        ("- removed line"@, Some(theme.diff.removed)),
        ("  context line"@, Some(theme.diff.context)),
        ("Borders"@, None),
        ("subtle"@, Some(theme.border.subtle)),
        ("normal"@, Some(theme.border.normal)),
        ("strong"@, Some(theme.border.strong)),
        ("focus"@, Some(theme.border.focus)),
    ]
}

/// One row of the preview.
pub open spec fn preview_row(label: Seq<char>, fg: Option<Color>, color: bool) -> Seq<char> {
    match fg {
        None => label + "\n"@ + "──────────────────\n"@,
        Some(Color::Rgb(r, g, b)) if color => "\x1b[38;2;"@ + decimal(r as nat) + ";"@ + decimal(
            g as nat,
        ) + ";"@ + decimal(b as nat) + "m"@ + label + "\x1b[0m\n"@,
        _ => label + "\n"@,
    }
}

/// The first `n` rows of the preview under its title.
pub open spec fn preview_text(theme: Theme, color: bool, n: int) -> Seq<char>
    decreases n,
{
    if n <= 0 {
        "THEME PREVIEW  ("@ + theme_name(theme.id) + ")\n"@
    } else {
        let row = preview_rows(theme)[n - 1];
        preview_text(theme, color, n - 1) + preview_row(row.0, row.1, color)
    }
}

fn preview_row_text(label: &str, fg: Option<Color>, color: bool) -> (r: String)
    ensures
        r@ == preview_row(label@, fg, color),
{
    match fg {
        None => cat3(label, "\n", "──────────────────\n"),
        Some(Color::Rgb(r, g, b)) if color => {
            let mut out = cat2("\x1b[38;2;", dec(r as u64).as_str());
            out.append(";");
            out.append(dec(g as u64).as_str());
            out.append(";");
            out.append(dec(b as u64).as_str());
            out.append("m");
            out.append(label);
            out.append("\x1b[0m\n");
            out
        },
        _ => cat2(label, "\n"),
    }
}

/// Plain-text theme preview: the title, then every role in its color.
pub fn preview_theme(theme: &Theme, color: bool) -> (r: String)
    ensures
        r@ == preview_text(*theme, color, preview_rows(*theme).len() as int),
{
    let mut rows: Vec<(&'static str, Option<Color>)> = Vec::new();
    rows.push(("Typography", None));
    rows.push(("Primary text", Some(theme.text.primary)));
    rows.push(("Secondary text", Some(theme.text.secondary)));
    rows.push(("Muted text", Some(theme.text.muted)));
    rows.push(("Disabled text", Some(theme.text.disabled)));
    rows.push(("Status", None));
    rows.push(("● Running", Some(theme.status.running)));
    rows.push(("✓ Success", Some(theme.status.success)));
    rows.push(("! Warning", Some(theme.status.warning)));
    rows.push(("✕ Error", Some(theme.status.error)));
    rows.push(("● Info", Some(theme.status.info)));
    rows.push(("Tools", None));
    rows.push(("⟳ Reading src/main.rs", Some(theme.text.secondary)));
    rows.push(("✓ cargo test", Some(theme.status.success)));
    rows.push(("✕ cargo clippy", Some(theme.status.error)));
    rows.push(("Input", None));
    rows.push(("> Ask CodeLeveler...", Some(theme.accent.primary)));
    rows.push(("Diff", None));
    rows.push(("+ added line", Some(theme.diff.added)));
    rows.push(("- removed line", Some(theme.diff.removed)));
    rows.push(("  context line", Some(theme.diff.context)));
    rows.push(("Borders", None));
    rows.push(("subtle", Some(theme.border.subtle)));
    rows.push(("normal", Some(theme.border.normal)));
    rows.push(("strong", Some(theme.border.strong)));
    rows.push(("focus", Some(theme.border.focus)));
    let mut out = cat3("THEME PREVIEW  (", theme.id.as_str(), ")\n");
    let mut i: usize = 0;
    assert(rows@.len() == preview_rows(*theme).len());
    assert forall|k: int| 0 <= k < rows@.len() implies (#[trigger] rows@[k]).0@ == preview_rows(
        *theme,
    )[k].0 && rows@[k].1 == preview_rows(*theme)[k].1 by {}
    while i < rows.len()
        invariant
            i <= rows@.len(),
            rows@.len() == preview_rows(*theme).len(),
            forall|k: int|
                0 <= k < rows@.len() ==> (#[trigger] rows@[k]).0@ == preview_rows(*theme)[k].0
                    && rows@[k].1 == preview_rows(*theme)[k].1,
            out@ == preview_text(*theme, color, i as int),
        decreases rows@.len() - i,
    {
        let (label, fg) = rows[i];
        out.append(preview_row_text(label, fg, color).as_str());
        i += 1;
    }
    out
}

// ---------------------------------------------------------------- laws

/// A text in lower case with no white space at either end is its own key.
proof fn key_of_itself(s: Seq<char>)
    requires
        s.len() > 0,
        !whitespace(s[0]),
        !whitespace(s.last()),
        forall|i: int| 0 <= i < s.len() ==> ascii_lower(#[trigger] s[i]) == s[i],
    ensures
        lowered(trimmed(s)) == s,
{
    assert(skip_white(s, 0) == 0);
    assert(drop_white(s, s.len() as int) == s.len());
    assert(trimmed(s) =~= s);
    assert(lowered(s) =~= s);
}

/// A stored theme name reads back as the theme it was written for.
pub proof fn theme_name_round_trip(id: ThemeId)
    ensures
        theme_of_name(theme_name(id)) == Some(id),
{
    reveal_strlit("auto");
    reveal_strlit("dark");
    reveal_strlit("light");
    reveal_strlit("high-contrast");
    reveal_strlit("hc");
    key_of_itself(theme_name(id));
    assert("auto"@.len() == 4);
    assert("dark"@.len() == 4 && "dark"@[0] == 'd' && "auto"@[0] == 'a');
    assert("light"@.len() == 5);
    assert("high-contrast"@.len() == 13);
}

/// Stepping through the picker visits every theme and comes back after four steps.
pub proof fn theme_cycle_is_complete(a: ThemeId, b: ThemeId)
    ensures
        theme_after(theme_after(theme_after(theme_after(a)))) == a,
        b == a || b == theme_after(a) || b == theme_after(theme_after(a)) || b == theme_after(
            theme_after(theme_after(a)),
        ),
        theme_after(a) == theme_after(b) ==> a == b,
{
}

/// Without color no role has a color of its own, whatever theme was chosen, and
/// the choice is remembered.
pub proof fn no_color_wins(id: ThemeId, dark_terminal: bool)
    ensures
        resolved(id, true, dark_terminal).monochrome,
        resolved(id, true, dark_terminal).id == id,
        resolved(id, true, dark_terminal).text.primary == Color::Reset,
        resolved(id, true, dark_terminal).accent.primary == Color::Reset,
        resolved(id, true, dark_terminal).surface.canvas == Color::Reset,
{
}

/// A named theme keeps its id, is not monochrome, and owns its canvas and body
/// text.
pub proof fn named_themes_own_their_surface(id: ThemeId, dark_terminal: bool)
    ensures
        palette(id, dark_terminal).id == id,
        !palette(id, dark_terminal).monochrome,
        palette(id, dark_terminal).surface.canvas != Color::Reset,
        palette(id, dark_terminal).text.primary != Color::Reset,
        palette(id, dark_terminal).text.muted != Color::Reset,
        palette(id, dark_terminal).accent.primary != Color::Reset,
{
}

} // verus!
