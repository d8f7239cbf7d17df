use leveler_tui::i18n::{Locale, UiText};
use leveler_tui::screen::{
    file_mention_query, include_in_slash_popup, is_known_slash_token, skill_mention_message,
    skill_slash_matches, slash_arg_ghost, slash_commands, slash_defs, slash_description,
    slash_matches, slash_popup, slash_popup_label, slash_primary, visible_file_popup, BusyPolicy,
    SlashCategory, SlashDef, SlashVisibility, ToolFilter,
};
use leveler_tui::state::{AppState, Boot};
use leveler_tui::theme::Theme;

fn t() -> UiText {
    Locale::Zh.text()
}

fn state(id: &str, locale: Locale) -> AppState {
    AppState::new(
        Theme::no_color(),
        Boot {
            session_id: id.into(),
            user: "u".into(),
            version: "0".into(),
            show_welcome: false,
            draft_path: None,
            history_path: None,
            context_window: 0,
            locale,
            untrusted_config: Vec::new(),
            reasoning_effort: None,
        },
        true,
    )
}

#[test]
fn skill_is_in_slash_commands() {
    let names: Vec<_> = slash_commands(&t()).into_iter().map(|(n, _)| n).collect();
    assert!(names.contains(&"/skill"), "{names:?}");
}

#[test]
fn skill_mention_message_matches_dollar_form() {
    assert_eq!(skill_mention_message("demo", ""), "$demo");
    assert_eq!(
        skill_mention_message("$demo", "please ship"),
        "$demo please ship"
    );
    assert_eq!(skill_mention_message(" deploy ", "  x  "), "$deploy x");
}

#[test]
fn ghost_for_btw_and_goal_and_path_commands() {
    let zh = &t();
    assert_eq!(slash_arg_ghost("/btw", zh), Some(" <问题>"));
    assert_eq!(slash_arg_ghost("/btw ", zh), Some("<问题>"));
    assert_eq!(
        slash_arg_ghost("/goal", zh),
        Some(" <任务目标> | status | clear")
    );
    assert_eq!(slash_arg_ghost("/image ", zh), Some("<文件路径>"));
    assert_eq!(slash_arg_ghost("/attach", zh), Some(" <文件路径>"));
    assert_eq!(
        slash_arg_ghost("/work-mode", zh),
        None,
        "option commands use a picker, not a CLI ghost"
    );
    assert_eq!(slash_arg_ghost("/collab ", zh), None);
}

#[test]
fn no_ghost_once_argument_started_or_unknown() {
    let zh = &t();
    assert_eq!(slash_arg_ghost("/btw 你好", zh), None);
    assert_eq!(slash_arg_ghost("/bt", zh), None);
    assert_eq!(slash_arg_ghost("/collab chat", zh), None);
    assert_eq!(slash_arg_ghost("hello", zh), None);
    assert_eq!(slash_arg_ghost("", zh), None);
}

#[test]
fn popup_labels_are_brief_help_stays_long() {
    let t = &t();
    assert_eq!(slash_popup_label("/model", t), "切换模型");
    assert_eq!(slash_popup_label("/goal", t), "设置目标");
    assert_eq!(slash_popup_label("/permission", t), "权限审批");
    let help: Vec<_> = slash_commands(t);
    let goal_help = help
        .iter()
        .find(|(n, _)| *n == "/goal")
        .map(|(_, d)| *d)
        .unwrap();
    assert!(
        goal_help.contains("status") || goal_help.contains("任务"),
        "help copy must stay detailed: {goal_help}"
    );
    let matches = slash_matches("/", t);
    let model = matches.iter().find(|(n, _)| n == "/model").unwrap();
    assert_eq!(model.1, "切换模型");
}

#[test]
fn empty_slash_lists_only_quick_commands() {
    let rows = slash_matches("/", &t());
    let names: Vec<_> = rows.iter().map(|(n, _)| n.as_str()).collect();
    assert!(
        names.len() <= 13,
        "empty / must stay a short capability list: {names:?}"
    );
    for must in [
        "/model",
        "/permission",
        "/goal",
        "/btw",
        "/work-mode",
        "/collab",
        "/plan",
        "/diff",
        "/skill",
        "/compact",
        "/clear",
        "/help",
    ] {
        assert!(names.contains(&must), "missing quick {must}: {names:?}");
    }
    for hidden in [
        "/tools",
        "/sessions",
        "/memory",
        "/restore",
        "/fork",
        "/export",
        "/attach",
        "/paste",
        "/editor",
        "/theme",
        "/web",
        "/remote",
        "/remote-loc",
        "/doctor",
        "/quit",
    ] {
        assert!(!names.contains(&hidden), "searchable leaked on /: {hidden}");
    }
    assert!(
        rows.iter()
            .all(|(_, d)| !d.contains('|') && !d.contains("economy")),
        "popup must not list CLI args: {rows:?}"
    );
}

#[test]
fn prefix_search_surfaces_hidden_searchable_commands() {
    let rows = slash_matches("/ses", &t());
    assert!(
        rows.iter().any(|(n, _)| n == "/sessions"),
        "/ses must find /sessions: {rows:?}"
    );
    let theme = slash_matches("/the", &t());
    assert!(
        theme.iter().any(|(n, _)| n == "/theme"),
        "/the must find /theme: {theme:?}"
    );
}

#[test]
fn internal_visibility_never_appears_in_popup() {
    let hidden = SlashDef {
        name: "/debug",
        aliases: Vec::new(),
        category: SlashCategory::System,
        listed: false,
        visibility: SlashVisibility::Internal,
        busy: BusyPolicy::Always,
    };
    assert!(!include_in_slash_popup(&hidden, "/"));
    assert!(!include_in_slash_popup(&hidden, "/deb"));
    assert!(!include_in_slash_popup(&hidden, "/debug"));
}

#[test]
fn product_skill_is_quick_other_skills_are_searchable() {
    let mut s = state("vis", Locale::Zh);
    s.skill_catalog = vec![
        ("feature-dev".into(), "分阶段实现".into()),
        ("repo-lint".into(), "本仓库检查".into()),
    ];
    let bare = slash_popup("/", &t(), &s);
    assert!(
        bare.iter()
            .any(|(n, d)| n == "/feature-dev" && d == "功能实现"),
        "feature-dev is a quick capability: {bare:?}"
    );
    assert!(
        !bare.iter().any(|(n, _)| n == "/repo-lint"),
        "project skills stay off the empty / list: {bare:?}"
    );
    let search = slash_popup("/repo", &t(), &s);
    assert!(
        search.iter().any(|(n, _)| n == "/repo-lint"),
        "/repo must find the project skill: {search:?}"
    );
}

#[test]
fn every_listed_slash_has_zh_and_en_popup_and_help() {
    let zh = Locale::Zh.text();
    let en = Locale::En.text();
    for d in slash_defs().iter().filter(|d| d.listed) {
        let zh_brief = slash_popup_label(d.name, &zh);
        let en_brief = slash_popup_label(d.name, &en);
        let zh_help = slash_description(d.name, &zh);
        let en_help = slash_description(d.name, &en);
        assert!(
            !zh_brief.is_empty() && !en_brief.is_empty(),
            "{} missing popup copy zh={zh_brief:?} en={en_brief:?}",
            d.name
        );
        assert!(
            !zh_help.is_empty() && !en_help.is_empty(),
            "{} missing help copy zh={zh_help:?} en={en_help:?}",
            d.name
        );
        assert!(
            !zh_brief.contains("分阶段")
                && !en_brief.to_ascii_lowercase().contains("step-by-step"),
            "{} popup still has workflow internals: zh={zh_brief:?} en={en_brief:?}",
            d.name
        );
    }
}

#[test]
fn feature_dev_popup_is_a_capability_label_not_a_workflow() {
    let mut zh = state("s-zh", Locale::Zh);
    zh.skill_catalog.push((
        "feature-dev".into(),
        "分阶段实现一个新功能：先摸清现状和需求".into(),
    ));
    zh.skill_catalog
        .push(("repo-lint".into(), "本仓库的检查脚本".into()));

    let rows = skill_slash_matches(&zh, "/");
    let feature = rows
        .iter()
        .find(|(n, _)| n == "/feature-dev")
        .map(|(_, d)| d.as_str())
        .expect("feature-dev row");
    assert_eq!(feature, "功能实现");
    assert!(!feature.contains("分阶段"));
    assert!(
        rows.iter().all(|(n, _)| n != "/repo-lint"),
        "project skills stay off a bare /: {rows:?}"
    );
    let custom = skill_slash_matches(&zh, "/repo")
        .into_iter()
        .find(|(n, _)| n == "/repo-lint")
        .map(|(_, d)| d)
        .expect("project skill keeps its own copy when searched");
    assert_eq!(custom, "本仓库的检查脚本");

    let mut en = state("s-en", Locale::En);
    en.skill_catalog.push((
        "feature-dev".into(),
        "分阶段实现一个新功能：先摸清现状和需求".into(),
    ));
    let en_label = skill_slash_matches(&en, "/")
        .into_iter()
        .find(|(n, _)| n == "/feature-dev")
        .map(|(_, d)| d)
        .expect("en feature-dev row");
    assert_eq!(en_label, "Implement a feature");
}

#[test]
fn popup_briefs_match_command_capability() {
    let zh = Locale::Zh.text();
    let en = Locale::En.text();
    let pairs = [
        ("/model", "切换模型", "Switch model"),
        ("/permission", "权限审批", "permission approval"),
        ("/goal", "设置目标", "set goal"),
        ("/btw", "临时提问", "quick question"),
        ("/work-mode", "执行策略", "work strategy"),
        ("/collab", "协作模式", "collaboration mode"),
        ("/plan", "生成计划", "generate plan"),
        ("/feature-dev", "功能实现", "Implement a feature"),
        ("/diff", "查看改动", "view changes"),
    ];
    for (name, zh_want, en_want) in pairs {
        assert_eq!(slash_popup_label(name, &zh), zh_want, "{name} zh");
        assert_eq!(slash_popup_label(name, &en), en_want, "{name} en");
    }
}

#[test]
fn permission_is_primary_mode_is_alias() {
    assert_eq!(slash_primary("/mode"), Some("/permission"));
    assert_eq!(slash_primary("permission"), Some("/permission"));
    assert!(is_known_slash_token("mode"));
    assert!(is_known_slash_token("permission"));
    let names: Vec<_> = slash_commands(&t()).into_iter().map(|(n, _)| n).collect();
    assert!(names.contains(&"/permission"));
    assert!(
        !names.contains(&"/mode"),
        "alias must not double-list: {names:?}"
    );
    assert!(
        !names.contains(&"/image"),
        "image is attach alias: {names:?}"
    );
}

#[test]
fn a_mention_offers_the_best_file_first() {
    let mut s = state("files", Locale::Zh);
    s.composer.replace("see @src/li".to_string());
    assert_eq!(file_mention_query(&s).as_deref(), Some("src/li"));
    s.composer.replace("mail@host".to_string());
    assert_eq!(file_mention_query(&s), None);
    s.file_candidates = vec!["docs/lib.md".into(), "src/lib.rs".into()];
    s.composer.replace("@lib".to_string());
    let files = visible_file_popup(&s);
    assert_eq!(files.len(), 2, "{files:?}");
    s.slash_popup_dismissed = true;
    assert!(visible_file_popup(&s).is_empty());
}

#[test]
fn the_filters_cycle() {
    let mut f = ToolFilter::All;
    let mut labels = Vec::new();
    for _ in 0..5 {
        labels.push(f.label());
        f = f.next();
    }
    assert_eq!(f, ToolFilter::All);
    assert_eq!(labels, vec!["全部", "读取", "写入", "Shell", "需调整"]);
}

#[test]
fn a_skill_never_hides_a_command() {
    let mut s = state("skills", Locale::Zh);
    s.skill_catalog.push(("model".into(), "my own skill".into()));
    s.skill_catalog.push(("mode".into(), "another".into()));
    s.skill_catalog.push(("modest".into(), "a third".into()));
    let rows = skill_slash_matches(&s, "/mod");
    assert_eq!(rows, vec![("/modest".to_string(), "a third".to_string())]);
    let popup = slash_popup("/mod", &t(), &s);
    assert_eq!(popup.iter().filter(|(n, _)| n == "/model").count(), 1, "{popup:?}");
}

#[test]
fn an_alias_gets_the_hint_of_its_name() {
    let zh = &t();
    for rest in ["", " ", "  ", " x"] {
        let alias = format!("/image{rest}");
        let name = format!("/attach{rest}");
        assert_eq!(slash_primary("/image"), Some("/attach"));
        assert_eq!(slash_arg_ghost(&alias, zh), slash_arg_ghost(&name, zh));
    }
    assert_eq!(slash_arg_ghost("btw", zh), None);
}

#[test]
fn files_that_tie_keep_their_order() {
    let mut s = state("ties", Locale::Zh);
    s.file_candidates = vec!["b/lib.rs".into(), "a/lib.rs".into(), "lib.c".into(), "c/lib.rs".into()];
    s.composer.replace("@lib".to_string());
    assert_eq!(
        visible_file_popup(&s),
        vec!["lib.c", "b/lib.rs", "a/lib.rs", "c/lib.rs"]
    );
}
