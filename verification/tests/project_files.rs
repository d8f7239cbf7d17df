use leveler_tui::project_files::{
    listed_files, shown_path, sort_texts, walk_is_full, walk_step, WalkStep,
};

#[test]
fn a_listing_is_sorted_and_each_path_stands_once() {
    assert_eq!(
        listed_files("src/b.rs\n\nREADME.md\nsrc/a.rs\r\nsrc/b.rs\n"),
        vec!["README.md", "src/a.rs", "src/b.rs"]
    );
    assert!(listed_files("").is_empty());
}

#[test]
fn a_listing_takes_the_first_twenty_thousand() {
    let mut text = String::new();
    for i in 0..20_005 {
        text.push_str(&format!("f{i:06}\n"));
    }
    let files = listed_files(&text);
    assert_eq!(files.len(), 20_000);
    assert_eq!(files[19_999], "f019999");
}

#[test]
fn sorting_is_that_of_the_standard_library() {
    let mut want: Vec<String> = ["b", "a/é", "a/z", "", "中", "a", "b", "Z"]
        .iter()
        .map(|s| s.to_string())
        .collect();
    let got = sort_texts(want.clone());
    want.sort();
    assert_eq!(got, want);
}

#[test]
fn the_walk_leaves_foreign_trees_out() {
    for name in [".git", "target", "node_modules", ".venv"] {
        assert_eq!(walk_step(true, false, name), WalkStep::Skip);
        assert_eq!(walk_step(false, true, name), WalkStep::Take);
    }
    assert_eq!(walk_step(true, false, "src"), WalkStep::Enter);
    assert_eq!(walk_step(false, false, "socket"), WalkStep::Skip);
    assert!(!walk_is_full(19_999));
    assert!(walk_is_full(20_000));
    assert_eq!(shown_path("a\\b\\c.rs"), "a/b/c.rs");
}
