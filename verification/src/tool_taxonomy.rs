//! What a tool is called on screen.

use vstd::prelude::*;

use crate::i18n::Locale;
use crate::strings::{cat3, cat5, same};

verus! {

pub open spec fn word(locale: Locale, zh: Seq<char>, en: Seq<char>) -> Seq<char> {
    match locale {
        Locale::Zh => zh,
        Locale::En => en,
    }
}

fn pick(locale: Locale, zh: &str, en: &str) -> (r: String)
    ensures
        r@ == word(locale, zh@, en@),
{
    match locale {
        Locale::Zh => zh.to_owned(),
        Locale::En => en.to_owned(),
    }
}

/// The label of a tool; a tool without one goes by its own name.
pub open spec fn label_of(name: Seq<char>, locale: Locale) -> Seq<char> {
    if name == "read_file"@ || name == "read_symbol"@ {
        word(locale, "读取"@, "Read"@)
    } else if name == "run_command"@ || name == "shell_command"@ {
        word(locale, "执行"@, "Run"@)
    } else if name == "apply_patch"@ || name == "replace"@ {
        word(locale, "编辑"@, "Edit"@)
    } else if name == "grep"@ || name == "repository_search"@ || name == "find_symbol"@ || name
        == "find_references"@ {
        word(locale, "搜索"@, "Search"@)
    } else if name == "list_files"@ {
        word(locale, "列出"@, "List"@)
    } else if name == "update_plan"@ {
        word(locale, "更新计划"@, "Update plan"@)
    } else if name == "update_goal"@ {
        word(locale, "目标收尾"@, "Close goal"@)
    } else if name == "request_user_input"@ || name == "ask_user"@ {
        word(locale, "询问"@, "Ask"@)
    } else if name == "spawn_agent"@ {
        word(locale, "子 Agent"@, "Sub-agent"@)
    } else {
        name
    }
}

/// Localized presentation label for a tool name.
pub fn presentation_label(name: &str, locale: Locale) -> (r: String)
    ensures
        r@ == label_of(name@, locale),
{
    if same(name, "read_file") || same(name, "read_symbol") {
        pick(locale, "读取", "Read")
    } else if same(name, "run_command") || same(name, "shell_command") {
        pick(locale, "执行", "Run")
    } else if same(name, "apply_patch") || same(name, "replace") {
        pick(locale, "编辑", "Edit")
    } else if same(name, "grep") || same(name, "repository_search") || same(name, "find_symbol")
        || same(name, "find_references") {
        pick(locale, "搜索", "Search")
    } else if same(name, "list_files") {
        pick(locale, "列出", "List")
    } else if same(name, "update_plan") {
        pick(locale, "更新计划", "Update plan")
    } else if same(name, "update_goal") {
        pick(locale, "目标收尾", "Close goal")
    } else if same(name, "request_user_input") || same(name, "ask_user") {
        pick(locale, "询问", "Ask")
    } else if same(name, "spawn_agent") {
        pick(locale, "子 Agent", "Sub-agent")
    } else {
        name.to_owned()
    }
}

/// Glyph, label and, where there is one, the summary, on one line.
pub open spec fn compact_line(glyph: Seq<char>, label: Seq<char>, summary: Seq<char>) -> Seq<char> {
    if summary.len() == 0 {
        glyph + " "@ + label
    } else {
        glyph + " "@ + label + " "@ + summary
    }
}

pub fn compact_tool_line(glyph: &str, name: &str, locale: Locale, summary: &str) -> (r: String)
    ensures
        r@ == compact_line(glyph@, label_of(name@, locale), summary@),
{
    let label = presentation_label(name, locale);
    if summary.is_empty() {
        cat3(glyph, " ", label.as_str())
    } else {
        cat5(glyph, " ", label.as_str(), " ", summary)
    }
}

} // verus!
