use leveler_tui::i18n::Locale;
use leveler_tui::skills_view::{
    detail_note, listing_note, SkillEntry, SkillFiles, SkillProblem, SkillRegistry, SkillShadow,
};

fn entry(name: &str, scope: &str, source: &str) -> SkillEntry {
    SkillEntry {
        name: name.into(),
        description: None,
        scope: scope.into(),
        source: source.into(),
        invalid: None,
        location: None,
        shadowed: Vec::new(),
    }
}

fn fixture() -> SkillRegistry {
    SkillRegistry {
        entries: vec![
            SkillEntry {
                invalid: Some("bad front matter".into()),
                location: Some("/repo/.leveler/skills/broken".into()),
                ..entry("broken", "project", "CodeLeveler")
            },
            SkillEntry {
                description: Some("Ship safely.".into()),
                location: Some("/repo/.leveler/skills/deploy".into()),
                shadowed: vec![SkillShadow {
                    scope: "user".into(),
                    source: "CodeLeveler".into(),
                    error: Some("unreadable".into()),
                }],
                ..entry("deploy", "project", "CodeLeveler")
            },
            entry("feature-dev", "builtin", "Built-in"),
        ],
        problems: vec![SkillProblem {
            location: "/repo/x".into(),
            error: "no SKILL.md".into(),
        }],
    }
}

fn no_files() -> Result<SkillFiles, String> {
    Ok(SkillFiles {
        scripts: Vec::new(),
        references: Vec::new(),
        other_files: Vec::new(),
    })
}

#[test]
fn listing_names_scope_source_status_and_shadowing() {
    let registry = fixture();
    let note = listing_note(&registry, &Locale::En.text());
    assert!(note.contains("$deploy"), "{note}");
    assert!(note.contains("project · CodeLeveler"), "{note}");
    assert!(note.contains("shadows user"), "{note}");
    assert!(note.contains("INVALID"), "{note}");
    assert!(
        note.contains("builtin") || note.contains("Built-in"),
        "{note}"
    );
    let rows: Vec<&str> = note.lines().collect();
    assert_eq!(
        rows[2],
        "  $deploy — Ship safely. [project · CodeLeveler] · shadows user CodeLeveler"
    );
    assert_eq!(rows[3], "  $feature-dev — — [builtin · Built-in]");
    assert_eq!(rows[5], "  /repo/x: no SKILL.md");
}

#[test]
fn a_detail_names_the_origin_and_an_unknown_name_says_so() {
    let registry = fixture();
    let t = Locale::En.text();
    let detail = detail_note(&registry, "deploy", &no_files(), &t);
    assert!(detail.contains("Skill $deploy"), "{detail}");
    assert!(detail.contains("project · CodeLeveler"), "{detail}");
    let missing = detail_note(&registry, "nope", &no_files(), &t);
    assert!(missing.contains("no such skill"), "{missing}");
}

#[test]
fn a_detail_lists_what_the_loader_found() {
    let registry = fixture();
    let t = Locale::En.text();
    let loaded = Ok(SkillFiles {
        scripts: vec!["a.sh".into(), "b.sh".into()],
        references: Vec::new(),
        other_files: vec!["c.txt".into()],
    });
    let detail = detail_note(&registry, " deploy ", &loaded, &t);
    assert!(detail.contains("\n  scripts: a.sh, b.sh\n"), "{detail}");
    assert!(!detail.contains("references"), "{detail}");
    assert!(detail.contains("\n  files: c.txt\n"), "{detail}");
    assert!(detail.ends_with("user CodeLeveler (unreadable)"), "{detail}");
    let broken = detail_note(&registry, "broken", &Err("bad front matter".into()), &t);
    assert!(broken.contains(" · INVALID: bad front matter\n"), "{broken}");
    assert!(broken.ends_with("\n  bad front matter"), "{broken}");
    let builtin = detail_note(&registry, "feature-dev", &no_files(), &t);
    assert!(builtin.contains(": (built-in)"), "{builtin}");
}
