use leveler_tui::theme::ThemeId;
use leveler_tui::theme_config::{parse_theme_id_from_toml, try_themed_config};

#[test]
fn round_trip_theme_id_in_toml() {
    let text = "default_model = \"deepseek/x\"\n\n[providers.p]\nbase_url = \"http://x\"\n";
    let text = try_themed_config(text, ThemeId::Dark)
        .expect("a table")
        .expect("valid");
    assert_eq!(parse_theme_id_from_toml(&text), Some(ThemeId::Dark));
    assert!(
        text.contains("default_model"),
        "must preserve other keys: {text}"
    );
    assert!(text.contains("[ui]"), "{text}");
    assert!(text.contains("theme"), "{text}");
    // Save another one over it.
    let text = try_themed_config(&text, ThemeId::Light)
        .expect("a table")
        .expect("valid");
    assert_eq!(parse_theme_id_from_toml(&text), Some(ThemeId::Light));
    assert_eq!(text.matches("theme").count(), 1, "{text}");
}

#[test]
fn parse_theme_from_inline_toml() {
    assert_eq!(
        parse_theme_id_from_toml("[ui]\ntheme = \"high-contrast\"\n"),
        Some(ThemeId::HighContrast)
    );
    assert_eq!(parse_theme_id_from_toml("lang = \"zh\"\n"), None);
}

#[test]
fn retired_and_broken_configs_name_no_theme() {
    assert_eq!(parse_theme_id_from_toml("[ui]\ntheme = \"ion\"\n"), None);
    assert_eq!(parse_theme_id_from_toml("[ui]\ntheme = 3\n"), None);
    assert_eq!(parse_theme_id_from_toml("[ui"), None);
    assert_eq!(
        parse_theme_id_from_toml("ui = { theme = \"dark\" }"),
        Some(ThemeId::Dark)
    );
}

#[test]
fn a_blank_config_is_started() {
    let text = try_themed_config("  \n", ThemeId::Auto).unwrap().unwrap();
    assert_eq!(text, "[ui]\ntheme = \"auto\"\n");
}

#[test]
fn a_config_that_cannot_take_a_theme_is_left_alone() {
    assert!(try_themed_config("ui = 3\n", ThemeId::Dark).is_none());
    let err = try_themed_config("[ui", ThemeId::Dark).unwrap().unwrap_err();
    assert!(err.starts_with("config is not valid TOML: "), "{err}");
    assert!(err.len() > "config is not valid TOML: ".len());
}

#[test]
fn comments_and_dotted_keys_survive() {
    let text = try_themed_config("# mine\nui.lang = \"zh\" # keep\n[a]\nb = 1\n", ThemeId::Dark)
        .unwrap()
        .unwrap();
    assert!(text.contains("# mine") && text.contains("# keep"), "{text}");
    assert!(text.contains("ui.lang = \"zh\""), "{text}");
    assert_eq!(parse_theme_id_from_toml(&text), Some(ThemeId::Dark));
}

/// Every line of the old text but the theme's own is still there.
fn keeps_the_other_lines(old: &str) {
    let new = try_themed_config(old, ThemeId::Light)
        .expect("a table")
        .expect("valid");
    assert_eq!(parse_theme_id_from_toml(&new), Some(ThemeId::Light), "{new}");
    for line in old.lines().filter(|l| !l.contains("theme")) {
        assert!(new.lines().any(|l| l == line), "{line:?} is gone:\n{new}");
    }
    let again = try_themed_config(&new, ThemeId::Dark).unwrap().unwrap();
    assert_eq!(parse_theme_id_from_toml(&again), Some(ThemeId::Dark), "{again}");
    assert_eq!(again.replace("\"dark\"", "\"light\""), new);
}

#[test]
fn unrelated_values_tables_and_comments_survive() {
    keeps_the_other_lines(
        "# the file\nretries = 3 # tries\non = true\nwhen = 2024-01-02\nlist = [\n  1, # one\n  2,\n]\n\n\
         # the interface\n[ui] # head\nwide = 0x1F\n# the colors\ntheme = \"dark\"\n\n\
         [a.b.c]\nx = 1.50 # deep\n\n[[step]]\nname = 'one'\n# second\n[[step]]\nname = 'two'\n[step.more]\nk = 1\n# end\n",
    );
    keeps_the_other_lines("# only a comment\n");
    keeps_the_other_lines("# lead\n[ui.sub]\nx = 1 # behind\n[z]\ny = 2\n[ui.last]\nw = 3\n");
    keeps_the_other_lines("# lead\nui.size = 2 # behind\n\n[z]\ny = 2\n");
    keeps_the_other_lines("[[ui.list]]\nx = 1\n# end\n");
}

#[test]
fn the_comment_behind_an_old_theme_goes_with_it() {
    let old = "[ui]\n# in front\ntheme = \"dark\" # behind\nwide = 1\n";
    let new = try_themed_config(old, ThemeId::Light).unwrap().unwrap();
    assert_eq!(new, "[ui]\n# in front\ntheme = \"light\"\nwide = 1\n");
}

#[test]
fn a_table_in_place_of_a_theme_is_replaced() {
    let new = try_themed_config("[z]\ny = 2\n[ui.theme.old]\nx = 1\n", ThemeId::Light)
        .unwrap()
        .unwrap();
    assert_eq!(parse_theme_id_from_toml(&new), Some(ThemeId::Light), "{new}");
    assert!(new.contains("[z]\ny = 2\n") && !new.contains("x = 1"), "{new}");
}
