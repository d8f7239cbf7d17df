use leveler_tui::suggestion::{normalize, MAX_GRAPHEMES};
use unicode_segmentation::UnicodeSegmentation;

#[test]
fn normalize_folds_newlines_and_trims() {
    assert_eq!(
        normalize("  查看 demo-order-01\n的里程碑进度 ").as_deref(),
        Some("查看 demo-order-01 的里程碑进度")
    );
}

#[test]
fn normalize_rejects_blank() {
    assert_eq!(normalize(""), None);
    assert_eq!(normalize("   \n\t "), None);
}

#[test]
fn normalize_cuts_on_grapheme_boundaries() {
    let long = "提".repeat(MAX_GRAPHEMES + 40);
    let out = normalize(&long).expect("non-empty");
    assert_eq!(
        out.graphemes(true).count(),
        MAX_GRAPHEMES + 1,
        "plus ellipsis"
    );
    assert!(out.ends_with('…'));

    // A ZWJ emoji cluster survives as one unit.
    let family = "👨‍👩‍👧";
    let out = normalize(&family.repeat(MAX_GRAPHEMES + 5)).expect("non-empty");
    assert!(out.starts_with(family));
}

#[test]
fn a_suggestion_stays_as_it_is() {
    let long = "提 ".repeat(MAX_GRAPHEMES);
    let prepend = format!("{}\u{600}{}", "a".repeat(MAX_GRAPHEMES - 1), "b".repeat(9));
    for text in [" a \u{3000} b\tc ", long.as_str(), prepend.as_str(), &"🇩🇪".repeat(130)] {
        let out = normalize(text).expect("non-empty");
        assert_eq!(normalize(&out).as_deref(), Some(out.as_str()));
        assert!(!out.starts_with(' ') && !out.contains("  "), "{out}");
        assert!(out.graphemes(true).count() <= MAX_GRAPHEMES + 1);
    }
}
