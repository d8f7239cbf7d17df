use leveler_tui::line::Color;
use leveler_tui::theme::{is_dark_colorfgbg, preview_theme, Theme, ThemeId};

fn linear(channel: u8) -> f64 {
    let c = f64::from(channel) / 255.0;
    if c <= 0.04045 {
        c / 12.92
    } else {
        ((c + 0.055) / 1.055).powf(2.4)
    }
}

fn luminance(color: Color) -> Option<f64> {
    match color {
        Color::Rgb(r, g, b) => {
            Some(0.2126 * linear(r) + 0.7152 * linear(g) + 0.0722 * linear(b))
        }
        _ => None,
    }
}

fn contrast_ratio(a: Color, b: Color) -> Option<f64> {
    let la = luminance(a)?;
    let lb = luminance(b)?;
    let (hi, lo) = if la > lb { (la, lb) } else { (lb, la) };
    Some((hi + 0.05) / (lo + 0.05))
}

fn assert_min(fg: Color, bg: Color, min: f64, label: &str) {
    let ratio = contrast_ratio(fg, bg).unwrap_or(0.0);
    assert!(
        ratio + 1e-6 >= min,
        "{label}: contrast {ratio:.2} < {min:.1} (fg={fg:?} bg={bg:?})"
    );
}

/// Only pairs that are actually painted.
fn assert_used_contrast_pairs(theme: &Theme) {
    let s = &theme.surface;
    let t = &theme.text;
    assert_min(t.primary, s.canvas, 7.0, "primary/canvas");
    assert_min(t.primary, s.input, 7.0, "primary/input");
    assert_min(t.primary, s.elevated, 7.0, "primary/elevated");
    assert_min(t.primary, s.selection, 4.5, "primary/selection");
    assert_min(t.secondary, s.canvas, 4.5, "secondary/canvas");
    assert_min(t.muted, s.canvas, 4.5, "muted/canvas");
    assert_min(t.muted, s.input, 4.5, "muted/input");
    assert_min(theme.status.success, s.canvas, 4.5, "success/canvas");
    assert_min(theme.status.warning, s.canvas, 4.5, "warning/canvas");
    assert_min(theme.status.error, s.canvas, 4.5, "error/canvas");
    assert_min(theme.status.info, s.canvas, 4.5, "info/canvas");
    assert_min(theme.status.running, s.canvas, 4.5, "running/canvas");
    assert_min(theme.diff.added, s.canvas, 4.5, "diff.added/canvas");
    assert_min(theme.diff.removed, s.canvas, 4.5, "diff.removed/canvas");
    assert_min(theme.border.normal, s.canvas, 3.0, "border.normal/canvas");
    assert_min(theme.border.focus, s.input, 3.0, "border.focus/input");
}

#[test]
fn named_themes_are_not_monochrome_and_own_their_surface() {
    for id in ThemeId::FIXED {
        let t = Theme::named(id, true);
        let name = id.as_str();
        assert!(!t.is_monochrome(), "{name}");
        assert_ne!(t.surface.canvas, Color::Reset, "{name} canvas");
        assert_ne!(t.text.primary, Color::Reset, "{name} primary");
        assert_ne!(t.text.muted, Color::Reset, "{name} muted");
        assert_ne!(t.accent.primary, Color::Reset, "{name} accent");
        assert_eq!(t.id, id);
    }
}

#[test]
fn dark_contrast_gate() {
    assert_used_contrast_pairs(&Theme::dark());
}

#[test]
fn light_contrast_gate() {
    assert_used_contrast_pairs(&Theme::light());
}

#[test]
fn high_contrast_gate() {
    assert_used_contrast_pairs(&Theme::high_contrast());
}

#[test]
fn no_color_override_wins() {
    for id in ThemeId::ALL {
        let t = Theme::resolve(id, true, true);
        let name = id.as_str();
        assert!(t.is_monochrome(), "{name}");
        assert_eq!(t.accent.primary, Color::Reset);
        assert_eq!(t.text.primary, Color::Reset);
        assert_eq!(t.surface.canvas, Color::Reset);
        assert_eq!(t.id, id, "preference id retained under NO_COLOR");
    }
}

#[test]
fn parse_only_the_current_ids() {
    assert_eq!(ThemeId::parse("AUTO"), Some(ThemeId::Auto));
    assert_eq!(ThemeId::parse("dark"), Some(ThemeId::Dark));
    assert_eq!(ThemeId::parse("light"), Some(ThemeId::Light));
    assert_eq!(ThemeId::parse("high-contrast"), Some(ThemeId::HighContrast));
    assert_eq!(ThemeId::parse("hc"), Some(ThemeId::HighContrast));
    assert_eq!(ThemeId::parse("nope"), None);
    // Retired names are not themes anymore.
    assert_eq!(ThemeId::parse("ion"), None);
    assert_eq!(ThemeId::parse("night"), None);
    assert_eq!(ThemeId::parse("day"), None);
    assert_eq!(ThemeId::Auto.cycle_next(), ThemeId::Dark);
    assert_eq!(ThemeId::Dark.cycle_next(), ThemeId::Light);
    assert_eq!(ThemeId::Light.cycle_next(), ThemeId::HighContrast);
    assert_eq!(ThemeId::HighContrast.cycle_next(), ThemeId::Auto);
}

#[test]
fn resolve_str_unknown_falls_back_to_the_default() {
    let t = Theme::resolve_str("unknown-theme", false, true);
    assert_eq!(t.id, ThemeId::DEFAULT);
    assert!(!t.is_monochrome());
}

#[test]
fn every_fallback_resolves_to_one_explicit_default() {
    assert_eq!(ThemeId::DEFAULT, ThemeId::Auto);
    assert_eq!(Theme::no_color().id, ThemeId::DEFAULT);
    assert_eq!(
        Theme::resolve_str("unknown-theme", false, true).id,
        ThemeId::DEFAULT
    );
    assert_eq!(ThemeId::ALL[0], ThemeId::DEFAULT);
}

#[test]
fn body_text_is_an_owned_token_not_terminal_reset() {
    for id in ThemeId::FIXED {
        let t = Theme::named(id, true);
        assert_ne!(t.text.primary, Color::Reset, "{} body text", id.as_str());
    }
}

#[test]
fn colorfgbg_detection() {
    assert_eq!(is_dark_colorfgbg("15;0"), Some(true));
    assert_eq!(is_dark_colorfgbg("0;15"), Some(false));
    assert_eq!(is_dark_colorfgbg("not-a-number"), None);
}

#[test]
fn preview_lists_required_roles() {
    let text = preview_theme(&Theme::dark(), false);
    for needle in [
        "THEME PREVIEW",
        "Primary text",
        "Secondary text",
        "Muted text",
        "Disabled text",
        "● Running",
        "✓ Success",
        "! Warning",
        "✕ Error",
        "Reading src/main.rs",
        "Ask CodeLeveler",
        "+ added line",
        "- removed line",
        "focus",
    ] {
        assert!(text.contains(needle), "missing {needle:?} in {text}");
    }
}

#[test]
fn auto_follows_the_terminal() {
    let dark = Theme::named(ThemeId::Auto, true);
    let light = Theme::named(ThemeId::Auto, false);
    assert_eq!(dark.surface, Theme::dark().surface);
    assert_eq!(light.surface, Theme::light().surface);
    assert_eq!(dark.id, ThemeId::Auto);
}

#[test]
fn a_colored_preview_paints_each_role() {
    let t = Theme::dark();
    let Color::Rgb(r, g, b) = t.status.success else {
        panic!("an owned color");
    };
    let text = preview_theme(&t, true);
    assert!(text.contains(&format!("\x1b[38;2;{r};{g};{b}m✓ Success\x1b[0m\n")));
    assert!(text.starts_with("THEME PREVIEW  (dark)\n"));
}
