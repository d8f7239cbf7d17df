//! Tool-call transcript cells and the Tools screen.

use vstd::prelude::*;

use crate::i18n::{Locale, UiText};
use crate::json::{
    json_field, json_field_or_empty, json_get, json_parsed, json_text, json_unsigned, parse_json,
    Json, JsonV,
};
use crate::line::{bold_style, fg_style, no_style, raw_line, spanv, styled_line, Line, Span, Style};
use crate::number::{room, room_of};
use crate::model::{line_views, views, SpanV};
use crate::render::text::{truncate_display, truncated, wrap, wrapped};
use crate::seconds::{seconds, seconds_text};
use crate::strings::{
    begins, cat2, cat3, cat5, chars_of, contains, dec, decimal, find_char, find_from, find_text,
    find_text_from, has_char, has_text, holds, join, joined, lines, replace, replaced, same,
    skip_white, split, split_at_char, starts_with, string_of, strip_prefix, text_lines, trim,
    trim_start, trimmed, trimmed_start, whitespace, is_whitespace,
};
use crate::theme::Theme;
use crate::tool_taxonomy::{compact_line, compact_tool_line, label_of, presentation_label};
use crate::transcript::{ToolCallBlock, ToolStatus};
use crate::width::{str_width, unicode_str_width};

verus! {

broadcast use crate::model::group_views;

// ---------------------------------------------------------------- glyphs

pub open spec fn glyph_of(status: ToolStatus) -> Seq<char> {
    match status {
        ToolStatus::Running => "●"@,
        ToolStatus::Succeeded => "✓"@,
        ToolStatus::Failed => "!"@,
        ToolStatus::Cancelled | ToolStatus::Unknown => "?"@,
    }
}

pub fn tool_glyph(status: ToolStatus) -> (r: &'static str)
    ensures
        r@ == glyph_of(status),
{
    match status {
        ToolStatus::Running => "●",
        ToolStatus::Succeeded => "✓",
        ToolStatus::Failed => "!",
        ToolStatus::Cancelled | ToolStatus::Unknown => "?",
    }
}

pub open spec fn status_style(theme: Theme, status: ToolStatus) -> Style {
    match status {
        ToolStatus::Running => fg_style(theme.accent.primary),
        ToolStatus::Succeeded => fg_style(theme.status.success),
        _ => fg_style(theme.status.warning),
    }
}

pub fn tool_style(theme: &Theme, status: ToolStatus) -> (r: Style)
    ensures
        r == status_style(*theme, status),
{
    match status {
        ToolStatus::Running => Style::fg(theme.accent.primary),
        ToolStatus::Succeeded => Style::fg(theme.status.success),
        _ => Style::fg(theme.status.warning),
    }
}

/// The longest form of the hint that fits.
pub open spec fn footer_hint(width: int) -> Seq<char> {
    let full = "Tab 过滤 · ↑↓ 选择 · PgUp/PgDn 滚动 · Esc 返回"@;
    let compact = "Tab 过滤 · ↑↓ 选择 · Esc 返回"@;
    if unicode_str_width(full) <= width {
        full
    } else if unicode_str_width(compact) <= width {
        compact
    } else {
        truncated(compact, width)
    }
}

pub fn tools_footer_hint(width: usize) -> (r: String)
    ensures
        r@ == footer_hint(width as int),
{
    let full = "Tab 过滤 · ↑↓ 选择 · PgUp/PgDn 滚动 · Esc 返回";
    let compact = "Tab 过滤 · ↑↓ 选择 · Esc 返回";
    if str_width(full) <= width {
        full.to_owned()
    } else if str_width(compact) <= width {
        compact.to_owned()
    } else {
        truncate_display(compact, width)
    }
}

// ---------------------------------------------------------------- arguments

/// A value on one line: a string as it is, a container in compact JSON.
pub open spec fn arg_text(v: JsonV) -> Seq<char> {
    match v {
        JsonV::Text(s) => s,
        JsonV::Number { text, unsigned } => text,
        JsonV::Bool(b) => if b {
            "true"@
        } else {
            "false"@
        },
        JsonV::Null => "null"@,
        JsonV::Array { items, text } => text,
        JsonV::Object { entries, text } => text,
    }
}

pub fn format_arg_value(value: &Json) -> (r: String)
    ensures
        r@ == arg_text(value@),
{
    match value {
        Json::Text(s) => s.clone(),
        Json::Number { text, unsigned } => text.clone(),
        Json::Bool(b) => if *b {
            "true".to_owned()
        } else {
            "false".to_owned()
        },
        Json::Null => "null".to_owned(),
        Json::Array { items, text } => text.clone(),
        Json::Object { entries, text } => text.clone(),
    }
}

/// Rows under one another, the first after `first`, the others after `rest`.
pub open spec fn led_rows(rows: Seq<Seq<char>>, first: Seq<char>, rest: Seq<char>) -> Seq<
    Seq<SpanV>,
> {
    Seq::new(
        rows.len(),
        |i: int|
            raw_line(
                (if i == 0 {
                    first
                } else {
                    rest
                }) + rows[i],
            ),
    )
}

fn push_led_rows(out: &mut Vec<Line>, rows: &Vec<String>, first: &str, rest: &str)
    ensures
        line_views(final(out)@) == line_views(old(out)@) + led_rows(
            views(rows@),
            first@,
            rest@,
        ),
{
    let ghost all = led_rows(views(rows@), first@, rest@);
    let ghost base = line_views(out@);
    let mut i: usize = 0;
    assert(base + all.take(0) =~= base);
    while i < rows.len()
        invariant
            i <= rows@.len(),
            all == led_rows(views(rows@), first@, rest@),
            line_views(out@) == base + all.take(i as int),
        decreases rows@.len() - i,
    {
        let lead = if i == 0 {
            first
        } else {
            rest
        };
        let text = cat2(lead, rows[i].as_str());
        out.push(Line::of(Span::new(text, Style::plain())));
        i += 1;
        assert(all.take(i as int) =~= all.take(i - 1).push(all[i - 1]));
        assert(line_views(out@) =~= base + all.take(i as int));
    }
    assert(all.take(i as int) =~= all);
}

/// The rows of the first `n` entries of an object.
pub open spec fn entry_lines(entries: Seq<(Seq<char>, JsonV)>, inner: usize, n: int) -> Seq<
    Seq<SpanV>,
>
    decreases n,
{
    if n <= 0 {
        Seq::empty()
    } else {
        let (key, value) = entries[n - 1];
        entry_lines(entries, inner, n - 1) + led_rows(
            wrapped(key + ": "@ + arg_text(value), inner),
            "  "@,
            "    "@,
        )
    }
}

/// The arguments of a call under their heading: an object entry by entry, any
/// other value on one line, and text that is no JSON wrapped as it is.
pub open spec fn argument_lines(arguments: Seq<char>, theme: Theme, width: int) -> Seq<Seq<SpanV>> {
    let head = seq![styled_line("参数"@, fg_style(theme.text.muted))];
    let inner = room(width, 2, 1) as usize;
    head + match json_parsed(arguments) {
        None => led_rows(wrapped(arguments, inner), "  "@, "  "@),
        Some(JsonV::Object { entries, text }) => if entries.len() == 0 {
            seq![raw_line("  {}"@)]
        } else {
            entry_lines(entries, inner, entries.len() as int)
        },
        Some(value) => seq![raw_line("  "@ + truncated(arg_text(value), inner as int))],
    }
}

pub fn tool_argument_lines(arguments: &str, theme: &Theme, width: usize) -> (r: Vec<Line>)
    ensures
        line_views(r@) == argument_lines(arguments@, *theme, width as int),
{
    let mut out: Vec<Line> = Vec::new();
    out.push(Line::of(Span::text("参数", Style::fg(theme.text.muted))));
    let ghost head = seq![styled_line("参数"@, fg_style(theme.text.muted))];
    assert(line_views(out@) =~= head);
    let inner: usize = room_of(width, 2, 1);
    match parse_json(arguments) {
        None => {
            let rows = wrap(arguments, inner);
            push_led_rows(&mut out, &rows, "  ", "  ");
        },
        Some(value) => match &value {
            Json::Object { entries, text } => {
                let ghost all = value@->Object_entries;
                if entries.len() == 0 {
                    out.push(Line::of(Span::raw("  {}")));
                    assert(line_views(out@) =~= head + seq![raw_line("  {}"@)]);
                } else {
                    let mut i: usize = 0;
                    assert(line_views(out@) =~= head + entry_lines(all, inner, 0));
                    while i < entries.len()
                        invariant
                            i <= entries@.len(),
                            value == (Json::Object { entries: *entries, text: *text }),
                            all == value@->Object_entries,
                            line_views(out@) == head + entry_lines(all, inner, i as int),
                        decreases entries@.len() - i,
                    {
                        let (key, v) = &entries[i];
                        assert(all[i as int] == (key@, v@));
                        let row = cat3(key.as_str(), ": ", format_arg_value(v).as_str());
                        let rows = wrap(row.as_str(), inner);
                        let ghost before = line_views(out@);
                        push_led_rows(&mut out, &rows, "  ", "    ");
                        i += 1;
                        assert(line_views(out@) =~= head + entry_lines(all, inner, i as int));
                    }
                    assert(all.len() == entries@.len());
                }
            },
            _ => {
                let text = truncate_display(format_arg_value(&value).as_str(), inner);
                out.push(Line::of(Span::new(cat2("  ", text.as_str()), Style::plain())));
                assert(line_views(out@) =~= head + seq![
                    raw_line("  "@ + truncated(arg_text(value@), inner as int)),
                ]);
            },
        },
    }
    out
}

// ---------------------------------------------------------------- paths

/// The pieces among the first `n` that are not empty.
pub open spec fn non_empty(pieces: Seq<Seq<char>>, n: int) -> Seq<Seq<char>>
    decreases n,
{
    if n <= 0 {
        Seq::empty()
    } else if pieces[n - 1].len() == 0 {
        non_empty(pieces, n - 1)
    } else {
        non_empty(pieces, n - 1).push(pieces[n - 1])
    }
}

/// The names in a path, one for every part between slashes that is not empty.
pub open spec fn path_parts(path: Seq<char>) -> Seq<Seq<char>> {
    let pieces = split_at_char(path, '/');
    non_empty(pieces, pieces.len() as int)
}

pub fn parts_of(path: &str) -> (r: Vec<String>)
    ensures
        views(r@) == path_parts(path@),
{
    let pieces = split(path, '/');
    let mut out: Vec<String> = Vec::new();
    let mut i: usize = 0;
    while i < pieces.len()
        invariant
            i <= pieces@.len(),
            views(out@) == non_empty(views(pieces@), i as int),
        decreases pieces@.len() - i,
    {
        assert(views(pieces@)[i as int] == pieces@[i as int]@);
        if !pieces[i].as_str().is_empty() {
            out.push(pieces[i].clone());
        }
        i += 1;
    }
    out
}

/// A directory name that a project is laid out under.
pub open spec fn project_marker(name: Seq<char>) -> bool {
    name == "src"@ || name == "test"@ || name == "tests"@ || name == "crates"@ || name
        == "packages"@ || name == "web"@ || name == "docweb"@ || name == "docbackend"@
}

fn is_project_marker(name: &str) -> (r: bool)
    ensures
        r == project_marker(name@),
{
    same(name, "src") || same(name, "test") || same(name, "tests") || same(name, "crates") || same(
        name,
        "packages",
    ) || same(name, "web") || same(name, "docweb") || same(name, "docbackend")
}

/// The first part at or after `i` that is a project marker, or the number of parts.
pub open spec fn marker_from(parts: Seq<Seq<char>>, i: int) -> int
    decreases parts.len() - i,
{
    if i >= parts.len() {
        parts.len() as int
    } else if project_marker(parts[i]) {
        i
    } else {
        marker_from(parts, i + 1)
    }
}

/// A path as a summary shows it: an absolute one from its project directory on,
/// else a file by its name and a directory by its last two names.
pub open spec fn compacted(path: Seq<char>) -> Seq<char> {
    let parts = path_parts(path);
    let m = marker_from(parts, 0);
    if path.len() == 0 || path[0] != '/' || parts.len() == 0 {
        path
    } else if m < parts.len() {
        joined(parts.skip(m), "/"@)
    } else if parts.last().contains('.') || parts.len() == 1 {
        parts.last()
    } else {
        joined(parts.skip(parts.len() - 2), "/"@)
    }
}

fn join_from(parts: &Vec<String>, from: usize, sep: &str) -> (r: String)
    requires
        from <= parts@.len(),
    ensures
        r@ == joined(views(parts@).skip(from as int), sep@),
{
    let mut rest: Vec<String> = Vec::new();
    let mut i: usize = from;
    while i < parts.len()
        invariant
            from <= i <= parts@.len(),
            views(rest@) =~= views(parts@).subrange(from as int, i as int),
        decreases parts@.len() - i,
    {
        rest.push(parts[i].clone());
        i += 1;
    }
    assert(views(rest@) =~= views(parts@).skip(from as int));
    join(&rest, sep)
}

pub fn compact_path_for_summary(path: &str) -> (r: String)
    ensures
        r@ == compacted(path@),
{
    let v = chars_of(path);
    if v.len() == 0 || v[0] != '/' {
        return path.to_owned();
    }
    let parts = parts_of(path);
    if parts.len() == 0 {
        return path.to_owned();
    }
    let ghost all = views(parts@);
    let mut i: usize = 0;
    while i < parts.len()
        invariant
            v@ == path@,
            v@.len() > 0,
            v@[0] == '/',
            all == views(parts@),
            all == path_parts(path@),
            i <= parts@.len(),
            marker_from(all, 0) == marker_from(all, i as int),
        decreases parts@.len() - i,
    {
        assert(all[i as int] == parts@[i as int]@);
        if is_project_marker(parts[i].as_str()) {
            return join_from(&parts, i, "/");
        }
        i += 1;
    }
    let n: usize = parts.len();
    let last = &parts[n - 1];
    assert(all.last() == last@);
    if has_char(last.as_str(), '.') || n == 1 {
        last.clone()
    } else {
        join_from(&parts, n - 2, "/")
    }
}

// ---------------------------------------------------------------- patches

/// The path that a patch line names, when it is a file header.
pub open spec fn patch_path(raw: Seq<char>) -> Option<Seq<char>> {
    let line = trimmed_start(raw);
    if begins(line, "*** Update File: "@) {
        Some(line.skip("*** Update File: "@.len() as int))
    } else if begins(line, "*** Add File: "@) {
        Some(line.skip("*** Add File: "@.len() as int))
    } else if begins(line, "*** Delete File: "@) {
        Some(line.skip("*** Delete File: "@.len() as int))
    } else if begins(line, "+++ b/"@) {
        Some(line.skip("+++ b/"@.len() as int))
    } else if begins(line, "--- a/"@) {
        Some(line.skip("--- a/"@.len() as int))
    } else {
        None
    }
}

fn patch_path_of(raw: &str) -> (r: Option<String>)
    ensures
        match r {
            Some(p) => patch_path(raw@) == Some(p@),
            None => patch_path(raw@) is None,
        },
{
    let line = trim_start(raw);
    let line = line.as_str();
    if let Some(p) = strip_prefix(line, "*** Update File: ") {
        return Some(p);
    }
    if let Some(p) = strip_prefix(line, "*** Add File: ") {
        return Some(p);
    }
    if let Some(p) = strip_prefix(line, "*** Delete File: ") {
        return Some(p);
    }
    if let Some(p) = strip_prefix(line, "+++ b/") {
        return Some(p);
    }
    strip_prefix(line, "--- a/")
}

/// The files that the first `n` lines of a patch name, each once, in the order of
/// their first header.
pub open spec fn touched(rows: Seq<Seq<char>>, n: int) -> Seq<Seq<char>>
    decreases n,
{
    if n <= 0 {
        Seq::empty()
    } else {
        let seen = touched(rows, n - 1);
        match patch_path(rows[n - 1]) {
            Some(path) => if path == "/dev/null"@ || seen.contains(compacted(path)) {
                seen
            } else {
                seen.push(compacted(path))
            },
            None => seen,
        }
    }
}

pub open spec fn touched_files(patch: Seq<char>) -> Seq<Seq<char>> {
    touched(text_lines(patch), text_lines(patch).len() as int)
}

pub fn patch_touched_files(patch: &str) -> (r: Vec<String>)
    ensures
        views(r@) == touched_files(patch@),
{
    let rows = lines(patch);
    let mut files: Vec<String> = Vec::new();
    let mut i: usize = 0;
    while i < rows.len()
        invariant
            i <= rows@.len(),
            views(files@) == touched(views(rows@), i as int),
        decreases rows@.len() - i,
    {
        assert(views(rows@)[i as int] == rows@[i as int]@);
        if let Some(path) = patch_path_of(rows[i].as_str()) {
            if !same(path.as_str(), "/dev/null") {
                let short = compact_path_for_summary(path.as_str());
                if !holds(&files, short.as_str()) {
                    files.push(short);
                }
            }
        }
        i += 1;
    }
    files
}

/// The files of a patch on one line.
pub open spec fn patch_summary(patch: Seq<char>) -> Seq<char> {
    if touched_files(patch).len() == 0 {
        "补丁"@
    } else {
        joined(touched_files(patch), ", "@)
    }
}

pub fn patch_summary_from_text(patch: &str) -> (r: String)
    ensures
        r@ == patch_summary(patch@),
{
    let files = patch_touched_files(patch);
    if files.len() == 0 {
        "补丁".to_owned()
    } else {
        join(&files, ", ")
    }
}

/// Whether a text holds a patch.
pub open spec fn patch_like(s: Seq<char>) -> bool {
    has_text(s, "*** Begin Patch"@) || has_text(s, "\n+++ b/"@)
}

/// The first text in a value that holds a patch.
pub open spec fn patch_value(v: JsonV) -> Option<Seq<char>>
    decreases v, 0int,
{
    match v {
        JsonV::Text(s) => if patch_like(s) {
            Some(s)
        } else {
            None
        },
        JsonV::Array { items, text } => patch_in_items(items, 0),
        JsonV::Object { entries, text } => patch_in_entries(entries, 0),
        _ => None,
    }
}

pub open spec fn patch_in_items(items: Seq<JsonV>, i: int) -> Option<Seq<char>>
    decreases items, items.len() - i,
{
    if i < 0 || i >= items.len() {
        None
    } else {
        match patch_value(items[i]) {
            Some(s) => Some(s),
            None => patch_in_items(items, i + 1),
        }
    }
}

pub open spec fn patch_in_entries(entries: Seq<(Seq<char>, JsonV)>, i: int) -> Option<Seq<char>>
    decreases entries, entries.len() - i,
{
    if i < 0 || i >= entries.len() {
        None
    } else {
        let entry = entries[i];
        match patch_value(entry.1) {
            Some(s) => Some(s),
            None => patch_in_entries(entries, i + 1),
        }
    }
}

pub fn find_patch_text_value(value: &Json) -> (r: Option<&str>)
    ensures
        match r {
            Some(s) => patch_value(value@) == Some(s@),
            None => patch_value(value@) is None,
        },
    decreases value,
{
    match value {
        Json::Text(s) => if contains(s.as_str(), "*** Begin Patch") || contains(
            s.as_str(),
            "\n+++ b/",
        ) {
            Some(s.as_str())
        } else {
            None
        },
        Json::Array { items, text } => {
            let ghost all = value@->Array_items;
            let mut i: usize = 0;
            while i < items.len()
                invariant
                    i <= items@.len(),
                    *value == (Json::Array { items: *items, text: *text }),
                    all == value@->Array_items,
                    all.len() == items@.len(),
                    patch_in_items(all, 0) == patch_in_items(all, i as int),
                decreases items@.len() - i,
            {
                assert(all[i as int] == items@[i as int]@);
                assert(decreases_to!(*value => items@[i as int]));
                if let Some(s) = find_patch_text_value(&items[i]) {
                    return Some(s);
                }
                i += 1;
            }
            None
        },
        Json::Object { entries, text } => {
            let ghost all = value@->Object_entries;
            let mut i: usize = 0;
            while i < entries.len()
                invariant
                    i <= entries@.len(),
                    *value == (Json::Object { entries: *entries, text: *text }),
                    all == value@->Object_entries,
                    all.len() == entries@.len(),
                    patch_in_entries(all, 0) == patch_in_entries(all, i as int),
                decreases entries@.len() - i,
            {
                let entry = &entries[i];
                assert(all[i as int] == (entry.0@, entry.1@));
                assert(decreases_to!(*value => entries@[i as int].1));
                if let Some(s) = find_patch_text_value(&entry.1) {
                    return Some(s);
                }
                i += 1;
            }
            None
        },
        _ => None,
    }
}

/// The patch between its markers in a text, as far as it reaches.
pub open spec fn raw_patch(s: Seq<char>) -> Seq<char> {
    let start = find_text_from(s, "*** Begin Patch"@, 0);
    if start < 0 {
        s
    } else {
        let tail = s.skip(start);
        let end = find_text_from(tail, "*** End Patch"@, 0);
        if end < 0 {
            tail
        } else {
            tail.take(end + "*** End Patch"@.len())
        }
    }
}

/// The patch that the arguments of a call carry: under `patch`, anywhere in the
/// value, or in text that is no JSON.
pub open spec fn patch_of_arguments(arguments: Seq<char>) -> Seq<char> {
    match json_parsed(arguments) {
        Some(v) => match json_field(v, "patch"@) {
            Some(p) => p,
            None => match patch_value(v) {
                Some(p) => p,
                None => raw_patch(arguments),
            },
        },
        None => raw_patch(arguments),
    }
}

fn raw_patch_of(arguments: &str) -> (r: String)
    ensures
        r@ == raw_patch(arguments@),
{
    let v = chars_of(arguments);
    let begin = chars_of("*** Begin Patch");
    match find_text(&v, &begin, 0) {
        None => arguments.to_owned(),
        Some(start) => {
            let text = string_of(&v, start, v.len());
            assert(text@ =~= arguments@.skip(start as int));
            let tail = chars_of(text.as_str());
            let n: usize = tail.len();
            let stop = chars_of("*** End Patch");
            match find_text(&tail, &stop, 0) {
                None => text,
                Some(end) => {
                    assert(end + stop@.len() <= n);
                    let r = string_of(&tail, 0, end + stop.len());
                    assert(r@ =~= text@.take(end + stop@.len()));
                    r
                },
            }
        },
    }
}

pub fn patch_text_from_arguments(arguments: &str) -> (r: String)
    ensures
        r@ == patch_of_arguments(arguments@),
{
    if let Some(value) = parse_json(arguments) {
        if let Some(patch) = value.field("patch") {
            return patch.to_owned();
        }
        if let Some(patch) = find_patch_text_value(&value) {
            return patch.to_owned();
        }
    }
    raw_patch_of(arguments)
}

// ---------------------------------------------------------------- commands

/// `text` with the home directory written as a tilde.
pub open spec fn home_compacted(text: Seq<char>, home: Option<Seq<char>>) -> Seq<char> {
    match home {
        Some(h) => replaced(text, h, "~"@),
        None => text,
    }
}

pub open spec fn home_view(home: Option<&str>) -> Option<Seq<char>> {
    match home {
        Some(h) => Some(h@),
        None => None,
    }
}

pub fn compact_home_in_text(text: &str, home: Option<&str>) -> (r: String)
    ensures
        r@ == home_compacted(text@, home_view(home)),
{
    match home {
        Some(h) => replace(text, h, "~"),
        None => text.to_owned(),
    }
}

pub open spec fn json_like(s: Seq<char>) -> bool {
    let t = trimmed_start(s);
    begins(t, "{"@) || begins(t, "["@)
}

pub fn looks_like_json_object(s: &str) -> (r: bool)
    ensures
        r == json_like(s@),
{
    let t = trim_start(s);
    starts_with(t.as_str(), "{") || starts_with(t.as_str(), "[")
}

/// The names in a path that name something: neither empty nor the directory
/// itself.
pub open spec fn named_parts(parts: Seq<Seq<char>>, n: int) -> Seq<Seq<char>>
    decreases n,
{
    if n <= 0 {
        Seq::empty()
    } else if parts[n - 1] == "."@ {
        named_parts(parts, n - 1)
    } else {
        named_parts(parts, n - 1).push(parts[n - 1])
    }
}

/// The file that a path ends in; the whole text when it ends in none.
pub open spec fn base_name(path: Seq<char>) -> Seq<char> {
    let parts = path_parts(path);
    let named = named_parts(parts, parts.len() as int);
    if named.len() == 0 || named.last() == ".."@ {
        path
    } else {
        named.last()
    }
}

fn base_name_of(path: &str) -> (r: String)
    ensures
        r@ == base_name(path@),
{
    let parts = parts_of(path);
    let mut named: Vec<String> = Vec::new();
    let mut i: usize = 0;
    while i < parts.len()
        invariant
            i <= parts@.len(),
            views(named@) == named_parts(views(parts@), i as int),
        decreases parts@.len() - i,
    {
        assert(views(parts@)[i as int] == parts@[i as int]@);
        if !same(parts[i].as_str(), ".") {
            named.push(parts[i].clone());
        }
        i += 1;
    }
    let n: usize = named.len();
    if n == 0 {
        return path.to_owned();
    }
    assert(views(named@).last() == named@[n - 1]@);
    if same(named[n - 1].as_str(), "..") {
        path.to_owned()
    } else {
        named[n - 1].clone()
    }
}

pub open spec fn shell_program(program: Seq<char>) -> bool {
    let base = base_name(program);
    base == "bash"@ || base == "sh"@ || base == "zsh"@ || base == "dash"@ || base == "cmd"@ || base
        == "cmd.exe"@
}

pub fn is_shell_program(program: &str) -> (r: bool)
    ensures
        r == shell_program(program@),
{
    let base = base_name_of(program);
    let base = base.as_str();
    same(base, "bash") || same(base, "sh") || same(base, "zsh") || same(base, "dash") || same(
        base,
        "cmd",
    ) || same(base, "cmd.exe")
}

/// Whether an argument says that the next one is a script.
pub open spec fn script_flag(arg: Seq<char>) -> bool {
    arg == "-c"@ || arg == "/C"@ || arg == "/c"@
}

/// What follows the first script flag at or after `i`.
pub open spec fn script_from(args: Seq<Seq<char>>, i: int) -> Option<Seq<char>>
    decreases args.len() - i,
{
    if i < 0 || i >= args.len() {
        None
    } else if script_flag(args[i]) {
        if i + 1 < args.len() {
            Some(args[i + 1])
        } else {
            None
        }
    } else {
        script_from(args, i + 1)
    }
}

pub fn shell_c_script(args: &Vec<String>) -> (r: Option<&str>)
    ensures
        match r {
            Some(s) => script_from(views(args@), 0) == Some(s@),
            None => script_from(views(args@), 0) is None,
        },
{
    let ghost all = views(args@);
    let mut i: usize = 0;
    while i < args.len()
        invariant
            all == views(args@),
            i <= args@.len(),
            script_from(all, 0) == script_from(all, i as int),
        decreases args@.len() - i,
    {
        let a = args[i].as_str();
        assert(all[i as int] == a@);
        if same(a, "-c") || same(a, "/C") || same(a, "/c") {
            if i + 1 < args.len() {
                assert(all[i + 1] == args@[i + 1]@);
                return Some(args[i + 1].as_str());
            }
            return None;
        }
        i += 1;
    }
    None
}

/// Where a double quoted token that is open at `i` ends.
pub open spec fn quote_end(s: Seq<char>, i: int) -> int
    decreases s.len() - i,
{
    if i >= s.len() {
        s.len() as int
    } else if s[i] == '\\' && i + 1 < s.len() {
        quote_end(s, i + 2)
    } else if s[i] == '"' {
        i + 1
    } else {
        quote_end(s, i + 1)
    }
}

/// Whether a character ends a bare token.
pub open spec fn token_break(c: char) -> bool {
    whitespace(c) || c == ';' || c == '&' || c == '|'
}

pub open spec fn bare_end(s: Seq<char>, i: int) -> int
    decreases s.len() - i,
{
    if i >= s.len() {
        s.len() as int
    } else if token_break(s[i]) {
        i
    } else {
        bare_end(s, i + 1)
    }
}

/// How many characters the shell token at the front of `s` takes, with its quotes.
pub open spec fn token_len(s: Seq<char>) -> int {
    if s.len() == 0 {
        0
    } else if s[0] == '\'' {
        let j = find_from(s, '\'', 1);
        if j < s.len() {
            j + 1
        } else {
            s.len() as int
        }
    } else if s[0] == '"' {
        quote_end(s, 1)
    } else {
        bare_end(s, 0)
    }
}

/// Length of the next shell token (quoted or unquoted), in characters.
pub fn shell_token_len(s: &str) -> (r: usize)
    ensures
        r == token_len(s@),
        r <= s@.len(),
{
    let v = chars_of(s);
    let n: usize = v.len();
    if n == 0 {
        return 0;
    }
    if v[0] == '\'' {
        let j: usize = find_char(&v, '\'', 1);
        return if j < n {
            j + 1
        } else {
            n
        };
    }
    if v[0] == '"' {
        let mut i: usize = 1;
        while i < n
            invariant
                v@ == s@,
                n == v@.len(),
                1 <= i <= n,
                s@[0] == '"',
                quote_end(s@, 1) == quote_end(s@, i as int),
            decreases n - i,
        {
            if v[i] == '\\' && i + 1 < n {
                i += 2;
            } else if v[i] == '"' {
                return i + 1;
            } else {
                i += 1;
            }
        }
        return n;
    }
    let mut i: usize = 0;
    while i < n
        invariant
            v@ == s@,
            n == v@.len(),
            i <= n,
            bare_end(s@, 0) == bare_end(s@, i as int),
            s@.len() > 0,
            s@[0] != '"' && s@[0] != '\'',
        decreases n - i,
    {
        let c: char = v[i];
        if is_whitespace(c) || c == ';' || c == '&' || c == '|' {
            return i;
        }
        i += 1;
    }
    n
}

pub proof fn skip_white_bounds(s: Seq<char>, i: int)
    requires
        0 <= i <= s.len(),
    ensures
        i <= skip_white(s, i) <= s.len(),
    decreases s.len() - i,
{
    if i < s.len() && whitespace(s[i]) {
        skip_white_bounds(s, i + 1);
    }
}

proof fn quote_end_bounds(s: Seq<char>, i: int)
    requires
        0 <= i <= s.len(),
    ensures
        0 <= quote_end(s, i) <= s.len(),
    decreases s.len() - i,
{
    if i < s.len() {
        if s[i] == '\\' && i + 1 < s.len() {
            quote_end_bounds(s, i + 2);
        } else if s[i] != '"' {
            quote_end_bounds(s, i + 1);
        }
    }
}

proof fn bare_end_bounds(s: Seq<char>, i: int)
    requires
        0 <= i <= s.len(),
    ensures
        0 <= bare_end(s, i) <= s.len(),
    decreases s.len() - i,
{
    if i < s.len() && !token_break(s[i]) {
        bare_end_bounds(s, i + 1);
    }
}

/// A token lies within its text.
pub proof fn token_len_bounds(s: Seq<char>)
    ensures
        0 <= token_len(s) <= s.len(),
{
    if s.len() > 0 {
        crate::strings::find_from_bounds(s, '\'', 1);
        quote_end_bounds(s, 1);
        bare_end_bounds(s, 0);
    }
}

/// What follows `cd ` at the front of `s`, its directory and `&&` or `;`.
pub open spec fn after_cd(s: Seq<char>) -> Option<Seq<char>> {
    let rest = if begins(s, "cd "@) {
        Some(s.skip("cd "@.len() as int))
    } else if begins(s, "cd\t"@) {
        Some(s.skip("cd\t"@.len() as int))
    } else {
        None
    };
    match rest {
        None => None,
        Some(r) => {
            let arg = trimmed_start(r);
            let n = token_len(arg);
            let tail = trimmed_start(arg.skip(n));
            if n == 0 {
                None
            } else if begins(tail, "&&"@) {
                Some(tail.skip("&&"@.len() as int))
            } else if begins(tail, ";"@) {
                Some(tail.skip(";"@.len() as int))
            } else {
                None
            }
        },
    }
}

pub proof fn after_cd_shrinks(s: Seq<char>)
    ensures
        after_cd(s) matches Some(r) ==> r.len() < s.len(),
{
    reveal_strlit("cd ");
    reveal_strlit("cd\t");
    reveal_strlit("&&");
    reveal_strlit(";");
    if after_cd(s) is Some {
        let r = if begins(s, "cd "@) {
            s.skip("cd "@.len() as int)
        } else {
            s.skip("cd\t"@.len() as int)
        };
        skip_white_bounds(r, 0);
        let arg = trimmed_start(r);
        token_len_bounds(arg);
        skip_white_bounds(arg.skip(token_len(arg)), 0);
    }
}

/// A command line without the changes of directory that it starts with.
pub open spec fn cd_stripped(s: Seq<char>) -> Seq<char>
    decreases s.len(),
{
    let t = trimmed_start(s);
    proof {
        skip_white_bounds(s, 0);
        after_cd_shrinks(t);
    }
    match after_cd(t) {
        Some(rest) => cd_stripped(rest),
        None => t,
    }
}

fn after_cd_of(s: &str) -> (r: Option<String>)
    ensures
        match r {
            Some(x) => after_cd(s@) == Some(x@),
            None => after_cd(s@) is None,
        },
{
    let rest = match strip_prefix(s, "cd ") {
        Some(r) => r,
        None => match strip_prefix(s, "cd\t") {
            Some(r) => r,
            None => {
                return None;
            },
        },
    };
    let arg = trim_start(rest.as_str());
    let n: usize = shell_token_len(arg.as_str());
    if n == 0 {
        return None;
    }
    let v = chars_of(arg.as_str());
    let after = string_of(&v, n, v.len());
    assert(after@ =~= arg@.skip(n as int));
    let tail = trim_start(after.as_str());
    if let Some(r) = strip_prefix(tail.as_str(), "&&") {
        return Some(r);
    }
    strip_prefix(tail.as_str(), ";")
}

pub fn strip_leading_cd_chain(cmd: &str) -> (r: String)
    ensures
        r@ == cd_stripped(cmd@),
{
    let mut t = trim_start(cmd);
    proof {
        trimmed_start_twice(cmd@);
    }
    loop
        invariant
            t@ == trimmed_start(t@),
            cd_stripped(cmd@) == match after_cd(t@) {
                Some(rest) => cd_stripped(rest),
                None => t@,
            },
        decreases t@.len(),
    {
        match after_cd_of(t.as_str()) {
            None => {
                return t;
            },
            Some(rest) => {
                proof {
                    after_cd_shrinks(t@);
                    skip_white_bounds(rest@, 0);
                    trimmed_start_twice(rest@);
                }
                t = trim_start(rest.as_str());
            },
        }
    }
}

proof fn trimmed_start_twice(s: Seq<char>)
    ensures
        trimmed_start(trimmed_start(s)) == trimmed_start(s),
{
    let a = skip_white(s, 0);
    skip_white_bounds(s, 0);
    first_is_dark(s, 0);
    let t = trimmed_start(s);
    if t.len() > 0 {
        assert(t[0] == s[a]);
        assert(skip_white(t, 0) == 0);
    }
    assert(trimmed_start(t) =~= t);
}

proof fn first_is_dark(s: Seq<char>, i: int)
    requires
        0 <= i <= s.len(),
    ensures
        skip_white(s, i) < s.len() ==> !whitespace(s[skip_white(s, i)]),
    decreases s.len() - i,
{
    if i < s.len() && whitespace(s[i]) {
        first_is_dark(s, i + 1);
    }
}

/// The readable core of a command line.
pub open spec fn command_summary(cmd: Seq<char>, home: Option<Seq<char>>) -> Seq<char> {
    home_compacted(cd_stripped(trimmed(cmd)), home)
}

/// Strip leading `cd <path> &&` noise, compact home paths, keep the readable core.
pub fn command_line_summary(cmd: &str, home: Option<&str>) -> (r: String)
    ensures
        r@ == command_summary(cmd@, home_view(home)),
{
    let core = strip_leading_cd_chain(trim(cmd).as_str());
    compact_home_in_text(core.as_str(), home)
}

/// The arguments without a first one that repeats the program.
pub open spec fn without_program(program: Seq<char>, args: Seq<Seq<char>>) -> Seq<Seq<char>> {
    if args.len() > 0 && (args[0] == program || args[0] == base_name(program)) {
        args.skip(1)
    } else {
        args
    }
}

pub fn drop_duplicate_program_arg(program: &str, args: &mut Vec<String>)
    ensures
        views(final(args)@) == without_program(program@, views(old(args)@)),
{
    if args.len() == 0 {
        return;
    }
    let name = base_name_of(program);
    let first = &args[0];
    assert(views(old(args)@)[0] == first@);
    let twice: bool = same(first.as_str(), program) || same(first.as_str(), name.as_str());
    if twice {
        args.remove(0);
        assert(views(args@) =~= views(old(args)@).skip(1));
    }
}

/// The strings among the first `n` items.
pub open spec fn string_items(items: Seq<JsonV>, n: int) -> Seq<Seq<char>>
    decreases n,
{
    if n <= 0 {
        Seq::empty()
    } else {
        match json_text(items[n - 1]) {
            Some(s) => string_items(items, n - 1).push(s),
            None => string_items(items, n - 1),
        }
    }
}

/// The strings of the array under `args`.
pub open spec fn argument_list(v: JsonV) -> Seq<Seq<char>> {
    match json_get(v, "args"@) {
        Some(JsonV::Array { items, text }) => string_items(items, items.len() as int),
        _ => Seq::empty(),
    }
}

fn argument_list_of(v: &Json) -> (r: Vec<String>)
    ensures
        views(r@) == argument_list(v@),
{
    let mut out: Vec<String> = Vec::new();
    match v.get("args") {
        Some(value) => match value {
            Json::Array { items, text } => {
                let ghost all = value@->Array_items;
                let mut i: usize = 0;
                while i < items.len()
                    invariant
                        i <= items@.len(),
                        *value == (Json::Array { items: *items, text: *text }),
                        all == value@->Array_items,
                        all.len() == items@.len(),
                        views(out@) == string_items(all, i as int),
                    decreases items@.len() - i,
                {
                    assert(all[i as int] == items@[i as int]@);
                    if let Some(s) = items[i].as_text() {
                        out.push(s.to_owned());
                    }
                    i += 1;
                }
                out
            },
            _ => out,
        },
        None => out,
    }
}

/// The command string of a call: under `cmd`, else under `command`.
pub open spec fn command_field(v: JsonV) -> Seq<char> {
    let found = match json_get(v, "cmd"@) {
        Some(x) => Some(x),
        None => json_get(v, "command"@),
    };
    match found {
        Some(x) => match json_text(x) {
            Some(s) => trimmed(s),
            None => Seq::empty(),
        },
        None => Seq::empty(),
    }
}

/// A command on one line: the command string, or the program and its arguments;
/// a script that a shell is given stands for itself.
pub open spec fn execute_summary(name: Seq<char>, v: JsonV, home: Option<Seq<char>>) -> Seq<char> {
    let cmd = command_field(v);
    let program = trimmed(json_field_or_empty(v, "program"@));
    let args = without_program(program, argument_list(v));
    if (name == "shell_command"@ || json_get(v, "cmd"@) is Some) && cmd.len() > 0 {
        command_summary(cmd, home)
    } else if shell_program(program) && script_from(args, 0) is Some {
        command_summary(script_from(args, 0)->0, home)
    } else if program.len() == 0 && args.len() == 0 {
        Seq::empty()
    } else {
        command_summary(trimmed(program + " "@ + joined(args, " "@)), home)
    }
}

/// Human-readable command line for shell / run tools (no JSON, no `cd` noise).
pub fn execute_command_summary(name: &str, v: &Json, home: Option<&str>) -> (r: String)
    ensures
        r@ == execute_summary(name@, v@, home_view(home)),
{
    let has_cmd: bool = v.get("cmd").is_some();
    if same(name, "shell_command") || has_cmd {
        let found = match v.get("cmd") {
            Some(x) => Some(x),
            None => v.get("command"),
        };
        let cmd = match found {
            Some(x) => match x.as_text() {
                Some(s) => trim(s),
                None => String::new(),
            },
            None => String::new(),
        };
        assert(cmd@ =~= command_field(v@));
        if !cmd.as_str().is_empty() {
            return command_line_summary(cmd.as_str(), home);
        }
    }
    let program = trim(v.field_or_empty("program").as_str());
    let mut args = argument_list_of(v);
    drop_duplicate_program_arg(program.as_str(), &mut args);
    if is_shell_program(program.as_str()) {
        if let Some(script) = shell_c_script(&args) {
            return command_line_summary(script, home);
        }
    }
    if program.as_str().is_empty() && args.len() == 0 {
        return String::new();
    }
    let line = cat3(program.as_str(), " ", join(&args, " ").as_str());
    command_line_summary(trim(line.as_str()).as_str(), home)
}

// ---------------------------------------------------------------- summaries

/// The strings of a list of literals.
pub open spec fn literals(v: Seq<&'static str>) -> Seq<Seq<char>> {
    Seq::new(v.len(), |i: int| v[i]@)
}

/// The keys under which a call names a file.
pub open spec fn path_keys() -> Seq<Seq<char>> {
    seq![
        "path"@,
        "file"@,
        "file_path"@,
        "filepath"@,
        "target_file"@,
    ]
}

/// The keys under which a call says something a person can read.
pub open spec fn human_keys() -> Seq<Seq<char>> {
    seq![
        "path"@,
        "file"@,
        "file_path"@,
        "filepath"@,
        "target_file"@,
        "query"@,
        "pattern"@,
        "symbol"@,
        "description"@,
        "prompt"@,
        "cmd"@,
        "command"@,
        "name"@,
    ]
}

fn path_key_list() -> (keys: Vec<&'static str>)
    ensures
        literals(keys@) == path_keys(),
{
    let mut keys: Vec<&'static str> = Vec::new();
    keys.push("path");
    keys.push("file");
    keys.push("file_path");
    keys.push("filepath");
    keys.push("target_file");
    assert(literals(keys@) =~= path_keys());
    keys
}

fn human_key_list() -> (keys: Vec<&'static str>)
    ensures
        literals(keys@) == human_keys(),
{
    let mut keys: Vec<&'static str> = Vec::new();
    keys.push("path");
    keys.push("file");
    keys.push("file_path");
    keys.push("filepath");
    keys.push("target_file");
    keys.push("query");
    keys.push("pattern");
    keys.push("symbol");
    keys.push("description");
    keys.push("prompt");
    keys.push("cmd");
    keys.push("command");
    keys.push("name");
    assert(literals(keys@) =~= human_keys());
    keys
}

/// The path under the first of the keys from `i` on that holds a string.
pub open spec fn first_path(v: JsonV, keys: Seq<Seq<char>>, i: int) -> Seq<char>
    decreases keys.len() - i,
{
    if i < 0 || i >= keys.len() {
        Seq::empty()
    } else {
        match json_field(v, keys[i]) {
            Some(s) => compacted(s),
            None => first_path(v, keys, i + 1),
        }
    }
}

pub fn first_path_value(value: &Json, keys: &Vec<&'static str>) -> (r: String)
    ensures
        r@ == first_path(value@, literals(keys@), 0),
{
    let ghost all = literals(keys@);
    let mut i: usize = 0;
    while i < keys.len()
        invariant
            all == literals(keys@),
            i <= keys@.len(),
            first_path(value@, all, 0) == first_path(value@, all, i as int),
        decreases keys@.len() - i,
    {
        assert(all[i as int] == keys@[i as int]@);
        if let Some(s) = value.field(keys[i]) {
            return compact_path_for_summary(s);
        }
        i += 1;
    }
    String::new()
}

/// Whether what stands under a key is a path.
pub open spec fn path_key(key: Seq<char>) -> bool {
    has_text(key, "path"@) || key == "file"@ || key == "filepath"@
}

/// The first field from `i` on that is not empty, a path or a text.
pub open spec fn first_human(v: JsonV, keys: Seq<Seq<char>>, home: Option<Seq<char>>, i: int) -> Seq<
    char,
>
    decreases keys.len() - i,
{
    if i < 0 || i >= keys.len() {
        Seq::empty()
    } else if json_field_or_empty(v, keys[i]).len() > 0 {
        let s = json_field_or_empty(v, keys[i]);
        if path_key(keys[i]) {
            compacted(s)
        } else {
            home_compacted(s, home)
        }
    } else {
        first_human(v, keys, home, i + 1)
    }
}

pub fn first_human_field(v: &Json, keys: &Vec<&'static str>, home: Option<&str>) -> (r: String)
    ensures
        r@ == first_human(v@, literals(keys@), home_view(home), 0),
{
    let ghost all = literals(keys@);
    let ghost h = home_view(home);
    let mut i: usize = 0;
    while i < keys.len()
        invariant
            all == literals(keys@),
            h == home_view(home),
            i <= keys@.len(),
            first_human(v@, all, h, 0) == first_human(v@, all, h, i as int),
        decreases keys@.len() - i,
    {
        let key = keys[i];
        assert(all[i as int] == key@);
        let s = v.field_or_empty(key);
        if !s.as_str().is_empty() {
            return if contains(key, "path") || same(key, "file") || same(key, "filepath") {
                compact_path_for_summary(s.as_str())
            } else {
                compact_home_in_text(s.as_str(), home)
            };
        }
        i += 1;
    }
    String::new()
}

/// How a goal was closed, in words, without inline markup.
pub open spec fn goal_summary(v: JsonV) -> Seq<char> {
    let summary = replaced(replaced(json_field_or_empty(v, "summary"@), "**"@, ""@), "`"@, ""@);
    let prefix = if json_field_or_empty(v, "status"@) == "blocked"@ {
        "受阻"@
    } else {
        "完成"@
    };
    if summary.len() == 0 {
        prefix
    } else {
        prefix + "："@ + summary
    }
}

/// Full `update_goal` closeout line (no width truncate) for expand / body.
pub fn update_goal_summary_text(v: &Json) -> (r: String)
    ensures
        r@ == goal_summary(v@),
{
    let first = replace(v.field_or_empty("summary").as_str(), "**", "");
    let summary = replace(first.as_str(), "`", "");
    let prefix = if same(v.field_or_empty("status").as_str(), "blocked") {
        "受阻"
    } else {
        "完成"
    };
    if summary.as_str().is_empty() {
        prefix.to_owned()
    } else {
        cat3(prefix, "：", summary.as_str())
    }
}

pub open spec fn goal_summary_of(arguments: Seq<char>) -> Seq<char> {
    match json_parsed(arguments) {
        Some(v) => goal_summary(v),
        None => Seq::empty(),
    }
}

pub fn update_goal_summary_from_arguments(arguments: &str) -> (r: String)
    ensures
        r@ == goal_summary_of(arguments@),
{
    match parse_json(arguments) {
        Some(v) => update_goal_summary_text(&v),
        None => String::new(),
    }
}

/// What a call with readable arguments is about, at its full length. `within` is
/// the word between what is searched for and where.
pub open spec fn value_summary(
    name: Seq<char>,
    arguments: Seq<char>,
    v: JsonV,
    within: Seq<char>,
    home: Option<Seq<char>>,
) -> Seq<char> {
    let path = compacted(json_field_or_empty(v, "path"@));
    if name == "run_command"@ || name == "shell_command"@ {
        execute_summary(name, v, home)
    } else if name == "read_file"@ {
        match (json_unsigned(v, "start_line"@), json_unsigned(v, "end_line"@)) {
            (Some(a), Some(b)) => path + ":"@ + decimal(a as nat) + "-"@ + decimal(b as nat),
            _ => path,
        }
    } else if name == "grep"@ {
        let quoted = "\""@ + json_field_or_empty(v, "pattern"@) + "\""@;
        if path.len() == 0 {
            quoted
        } else {
            quoted + " "@ + within + " "@ + path
        }
    } else if name == "list_files"@ {
        if path.len() == 0 {
            "."@
        } else {
            path
        }
    } else if name == "apply_patch"@ {
        patch_summary(patch_of_arguments(arguments))
    } else if name == "replace"@ {
        let target = first_path(v, path_keys(), 0);
        if target.len() == 0 {
            "文本替换"@
        } else {
            target
        }
    } else if name == "find_symbol"@ || name == "read_symbol"@ || name == "find_references"@ {
        json_field_or_empty(v, "symbol"@)
    } else if name == "repository_search"@ {
        json_field_or_empty(v, "query"@)
    } else if name == "update_plan"@ {
        json_field_or_empty(v, "explanation"@)
    } else if name == "update_goal"@ {
        goal_summary(v)
    } else if name == "task"@ {
        let description = json_field_or_empty(v, "description"@);
        if description.len() == 0 {
            json_field_or_empty(v, "prompt"@)
        } else {
            description
        }
    } else {
        first_human(v, human_keys(), home, 0)
    }
}

/// What a call whose arguments are no JSON is about.
pub open spec fn text_summary(name: Seq<char>, arguments: Seq<char>, home: Option<Seq<char>>) -> Seq<
    char,
> {
    if name == "apply_patch"@ {
        truncated(patch_summary(patch_of_arguments(arguments)), 64)
    } else if name == "replace"@ {
        "文本替换"@
    } else if json_like(arguments) {
        Seq::empty()
    } else {
        truncated(command_summary(arguments, home), 56)
    }
}

/// What a call is about, on one line. Raw JSON is never shown.
pub open spec fn summary_of(
    name: Seq<char>,
    arguments: Seq<char>,
    within: Seq<char>,
    home: Option<Seq<char>>,
) -> Seq<char> {
    match json_parsed(arguments) {
        Some(v) => truncated(value_summary(name, arguments, v, within, home), 64),
        None => text_summary(name, arguments, home),
    }
}

/// Whether the call of `name` is told from the first field that says something,
/// for want of a rule of its own.
pub open spec fn told_by_a_field(name: Seq<char>) -> bool {
    !(name == "run_command"@ || name == "shell_command"@ || name == "read_file"@ || name == "grep"@
        || name == "list_files"@ || name == "apply_patch"@ || name == "replace"@ || name
        == "find_symbol"@ || name == "read_symbol"@ || name == "find_references"@ || name
        == "repository_search"@ || name == "update_plan"@ || name == "update_goal"@ || name
        == "task"@)
}

/// Whether `t` is what the text under the key `keys[i]` of `v` is shown as.
pub open spec fn told_by(
    t: Seq<char>,
    v: JsonV,
    keys: Seq<Seq<char>>,
    home: Option<Seq<char>>,
    i: int,
) -> bool {
    let s = json_field_or_empty(v, keys[i]);
    &&& 0 <= i < keys.len()
    &&& s.len() > 0
    &&& t == if path_key(keys[i]) {
        compacted(s)
    } else {
        home_compacted(s, home)
    }
}

proof fn first_human_is_a_field(
    v: JsonV,
    keys: Seq<Seq<char>>,
    home: Option<Seq<char>>,
    i: int,
)
    requires
        0 <= i,
    ensures
        first_human(v, keys, home, i) == Seq::<char>::empty() || exists|j: int| #[trigger]
            told_by(first_human(v, keys, home, i), v, keys, home, j),
    decreases keys.len() - i,
{
    if i < keys.len() {
        if json_field_or_empty(v, keys[i]).len() > 0 {
            assert(told_by(first_human(v, keys, home, i), v, keys, home, i));
        } else {
            first_human_is_a_field(v, keys, home, i + 1);
        }
    }
}

/// An unknown tool never shows its raw arguments: what stands there is the cut text
/// of one of its fields, or of nothing where no field says anything; arguments that
/// look like JSON and cannot be read are not shown at all.
pub proof fn raw_arguments_are_not_shown(
    name: Seq<char>,
    arguments: Seq<char>,
    within: Seq<char>,
    home: Option<Seq<char>>,
)
    requires
        told_by_a_field(name),
    ensures
        json_parsed(arguments) is None && json_like(arguments) ==> summary_of(
            name,
            arguments,
            within,
            home,
        ).len() == 0,
        json_parsed(arguments) matches Some(v) ==> exists|t: Seq<char>|
            {
                &&& summary_of(name, arguments, within, home) == #[trigger] truncated(t, 64)
                &&& t == Seq::<char>::empty() || exists|j: int| #[trigger]
                    told_by(t, v, human_keys(), home, j)
            },
{
    if let Some(v) = json_parsed(arguments) {
        let t = first_human(v, human_keys(), home, 0);
        first_human_is_a_field(v, human_keys(), home, 0);
        assert(summary_of(name, arguments, within, home) == truncated(t, 64));
    }
}

/// What a call with readable arguments is about, before it is cut.
pub fn value_summary_text(
    name: &str,
    arguments: &str,
    v: &Json,
    within: &str,
    home: Option<&str>,
) -> (r: String)
    ensures
        r@ == value_summary(name@, arguments@, v@, within@, home_view(home)),
{
    if same(name, "run_command") || same(name, "shell_command") {
        return execute_command_summary(name, v, home);
    }
    if same(name, "read_file") {
        let path = compact_path_for_summary(v.field_or_empty("path").as_str());
        return match (v.unsigned_field("start_line"), v.unsigned_field("end_line")) {
            (Some(a), Some(b)) => cat5(
                path.as_str(),
                ":",
                dec(a).as_str(),
                "-",
                dec(b).as_str(),
            ),
            _ => path,
        };
    }
    if same(name, "grep") {
        let path = compact_path_for_summary(v.field_or_empty("path").as_str());
        let quoted = cat3("\"", v.field_or_empty("pattern").as_str(), "\"");
        return if path.as_str().is_empty() {
            quoted
        } else {
            cat5(quoted.as_str(), " ", within, " ", path.as_str())
        };
    }
    if same(name, "list_files") {
        let path = compact_path_for_summary(v.field_or_empty("path").as_str());
        return if path.as_str().is_empty() {
            ".".to_owned()
        } else {
            path
        };
    }
    if same(name, "apply_patch") {
        return patch_summary_from_text(patch_text_from_arguments(arguments).as_str());
    }
    if same(name, "replace") {
        let target = first_path_value(v, &path_key_list());
        return if target.as_str().is_empty() {
            "文本替换".to_owned()
        } else {
            target
        };
    }
    if same(name, "find_symbol") || same(name, "read_symbol") || same(name, "find_references") {
        return v.field_or_empty("symbol");
    }
    if same(name, "repository_search") {
        return v.field_or_empty("query");
    }
    if same(name, "update_plan") {
        return v.field_or_empty("explanation");
    }
    if same(name, "update_goal") {
        return update_goal_summary_text(v);
    }
    if same(name, "task") {
        let description = v.field_or_empty("description");
        return if description.as_str().is_empty() {
            v.field_or_empty("prompt")
        } else {
            description
        };
    }
    first_human_field(v, &human_key_list(), home)
}

fn summarize(name: &str, arguments: &str, within: &str, home: Option<&str>) -> (r: String)
    ensures
        r@ == summary_of(name@, arguments@, within@, home_view(home)),
{
    match parse_json(arguments) {
        Some(v) => truncate_display(
            value_summary_text(name, arguments, &v, within, home).as_str(),
            64,
        ),
        None => {
            if same(name, "apply_patch") {
                return truncate_display(
                    patch_summary_from_text(patch_text_from_arguments(arguments).as_str()).as_str(),
                    64,
                );
            }
            if same(name, "replace") {
                return "文本替换".to_owned();
            }
            if looks_like_json_object(arguments) {
                return String::new();
            }
            truncate_display(command_line_summary(arguments, home).as_str(), 56)
        },
    }
}

/// What a call is about. `home` is the user's home directory, where it is known.
pub fn tool_summary(name: &str, arguments: &str, home: Option<&str>) -> (r: String)
    ensures
        r@ == summary_of(name@, arguments@, "in"@, home_view(home)),
{
    summarize(name, arguments, "in", home)
}

/// What a call is about, in the language of `t`.
pub fn tool_summary_for(name: &str, arguments: &str, t: &UiText, home: Option<&str>) -> (r: String)
    ensures
        r@ == summary_of(name@, arguments@, t.tool_in@, home_view(home)),
{
    summarize(name, arguments, t.tool_in, home)
}

/// Public for workbench activity stream rendering.
pub fn tool_summary_pub(name: &str, arguments: &str, home: Option<&str>) -> (r: String)
    ensures
        r@ == summary_of(name@, arguments@, "in"@, home_view(home)),
{
    tool_summary(name, arguments, home)
}

/// Localized presentation label for a tool name.
pub fn tool_action_label_for(name: &str, locale: Locale) -> (r: String)
    ensures
        r@ == label_of(name@, locale),
{
    presentation_label(name, locale)
}

/// Presentation label for a tool, in Chinese.
pub fn tool_action_label(name: &str) -> (r: String)
    ensures
        r@ == label_of(name@, Locale::Zh),
{
    tool_action_label_for(name, Locale::Zh)
}

/// Compact one-line tool heading text (glyph + presentation + summary).
pub fn compact_tool_heading(
    status: ToolStatus,
    name: &str,
    arguments: &str,
    locale: Locale,
    home: Option<&str>,
) -> (r: String)
    ensures
        r@ == compact_line(
            glyph_of(status),
            label_of(name@, locale),
            summary_of(name@, arguments@, "in"@, home_view(home)),
        ),
{
    let summary = tool_summary(name, arguments, home);
    compact_tool_line(tool_glyph(status), name, locale, summary.as_str())
}

/// A tool whose output is noise once it has succeeded.
pub open spec fn noisy(name: Seq<char>) -> bool {
    name == "read_file"@ || name == "list_files"@ || name == "grep"@ || name == "repository_search"@
        || name == "find_symbol"@ || name == "read_symbol"@ || name == "find_references"@ || name
        == "git_status"@ || name == "git_diff"@ || name == "update_plan"@ || name == "update_goal"@
}

pub fn noisy_success_tool(name: &str) -> (r: bool)
    ensures
        r == noisy(name@),
{
    same(name, "read_file") || same(name, "list_files") || same(name, "grep") || same(
        name,
        "repository_search",
    ) || same(name, "find_symbol") || same(name, "read_symbol") || same(name, "find_references")
        || same(name, "git_status") || same(name, "git_diff") || same(name, "update_plan") || same(
        name,
        "update_goal",
    )
}

// ---------------------------------------------------------------- cells

/// The lead of row `i` under a heading.
pub open spec fn row_lead(i: int) -> Seq<char> {
    if i == 0 {
        "  ⎿ "@
    } else {
        "    "@
    }
}

fn row_lead_text(i: usize) -> (r: &'static str)
    ensures
        r@ == row_lead(i as int),
{
    if i == 0 {
        "  ⎿ "
    } else {
        "    "
    }
}

/// Whether a patch line is shown: the envelope markers are not.
pub open spec fn diff_row(raw: Seq<char>) -> bool {
    !begins(raw, "*** Begin Patch"@) && !begins(raw, "*** End Patch"@) && raw != "@@"@
}

/// The shown rows among the first `n` lines.
pub open spec fn diff_rows(rows: Seq<Seq<char>>, n: int) -> Seq<Seq<char>>
    decreases n,
{
    if n <= 0 {
        Seq::empty()
    } else if diff_row(rows[n - 1]) {
        diff_rows(rows, n - 1).push(rows[n - 1])
    } else {
        diff_rows(rows, n - 1)
    }
}

/// One row of a diff: a file header by its path alone, the rest by its marker.
pub open spec fn diff_line(raw: Seq<char>, i: int, theme: Theme, inner: int) -> Seq<SpanV> {
    let lead = spanv(row_lead(i), fg_style(theme.border.normal));
    let header = "*** Update File: "@;
    if begins(raw, header) {
        seq![
            lead,
            spanv(truncated(raw.skip(header.len() as int), inner), bold_style(theme.text.primary)),
        ]
    } else {
        let style = if begins(raw, "*** "@) {
            bold_style(theme.text.primary)
        } else if begins(raw, "+"@) {
            fg_style(theme.diff.added)
        } else if begins(raw, "-"@) {
            fg_style(theme.diff.removed)
        } else {
            fg_style(theme.text.muted)
        };
        seq![lead, spanv(truncated(raw, inner), style)]
    }
}

/// The diff of a call, whole: what was changed is never behind a disclosure.
pub open spec fn diff_lines(arguments: Seq<char>, theme: Theme, width: int) -> Seq<Seq<SpanV>> {
    let all = text_lines(patch_of_arguments(arguments));
    let rows = diff_rows(all, all.len() as int);
    Seq::new(rows.len(), |i: int| diff_line(rows[i], i, theme, room(width, 4, 8)))
}

proof fn shown_row_is_listed(rows: Seq<Seq<char>>, n: int, i: int) -> (j: int)
    requires
        0 <= i < n <= rows.len(),
        diff_row(rows[i]),
    ensures
        0 <= j < diff_rows(rows, n).len(),
        diff_rows(rows, n)[j] == rows[i],
    decreases n,
{
    if i == n - 1 {
        diff_rows(rows, n).len() - 1
    } else {
        shown_row_is_listed(rows, n - 1, i)
    }
}

/// A diff hides nothing: every line of the patch but its envelope has a row of its own,
/// however long the patch is.
pub proof fn diff_is_whole(arguments: Seq<char>, theme: Theme, width: int, i: int)
    requires
        0 <= i < text_lines(patch_of_arguments(arguments)).len(),
        diff_row(text_lines(patch_of_arguments(arguments))[i]),
    ensures
        exists|j: int|
            0 <= j < diff_lines(arguments, theme, width).len() && #[trigger] diff_lines(
                arguments,
                theme,
                width,
            )[j] == diff_line(
                text_lines(patch_of_arguments(arguments))[i],
                j,
                theme,
                room(width, 4, 8),
            ),
{
    let all = text_lines(patch_of_arguments(arguments));
    let j = shown_row_is_listed(all, all.len() as int, i);
    assert(diff_lines(arguments, theme, width)[j] == diff_line(all[i], j, theme, room(width, 4, 8)));
}

fn diff_line_of(raw: &str, i: usize, theme: &Theme, inner: usize) -> (r: Line)
    ensures
        r@ == diff_line(raw@, i as int, *theme, inner as int),
{
    let lead = Span::text(row_lead_text(i), Style::fg(theme.border.normal));
    let mut line = Line::of(lead);
    match strip_prefix(raw, "*** Update File: ") {
        Some(file) => {
            line.push(
                Span::new(truncate_display(file.as_str(), inner), Style::bold(theme.text.primary)),
            );
        },
        None => {
            let style = if starts_with(raw, "*** ") {
                Style::bold(theme.text.primary)
            } else if starts_with(raw, "+") {
                Style::fg(theme.diff.added)
            } else if starts_with(raw, "-") {
                Style::fg(theme.diff.removed)
            } else {
                Style::fg(theme.text.muted)
            };
            line.push(Span::new(truncate_display(raw, inner), style));
        },
    }
    assert(line@ =~= diff_line(raw@, i as int, *theme, inner as int));
    line
}

pub fn inline_diff_lines(arguments: &str, theme: &Theme, width: usize, out: &mut Vec<Line>)
    ensures
        line_views(final(out)@) == line_views(old(out)@) + diff_lines(
            arguments@,
            *theme,
            width as int,
        ),
{
    let patch = patch_text_from_arguments(arguments);
    let all = lines(patch.as_str());
    let mut rows: Vec<String> = Vec::new();
    let mut i: usize = 0;
    while i < all.len()
        invariant
            i <= all@.len(),
            views(rows@) == diff_rows(views(all@), i as int),
        decreases all@.len() - i,
    {
        let raw = all[i].as_str();
        assert(views(all@)[i as int] == raw@);
        if !starts_with(raw, "*** Begin Patch") && !starts_with(raw, "*** End Patch") && !same(
            raw,
            "@@",
        ) {
            rows.push(raw.to_owned());
        }
        i += 1;
    }
    let inner: usize = room_of(width, 4, 8);
    let ghost want = diff_lines(arguments@, *theme, width as int);
    let ghost base = line_views(out@);
    let mut k: usize = 0;
    assert(base + want.take(0) =~= base);
    while k < rows.len()
        invariant
            k <= rows@.len(),
            inner == room(width as int, 4, 8),
            want == diff_lines(arguments@, *theme, width as int),
            want.len() == rows@.len(),
            forall|j: int|
                0 <= j < rows@.len() ==> #[trigger] want[j] == diff_line(
                    rows@[j]@,
                    j,
                    *theme,
                    inner as int,
                ),
            line_views(out@) == base + want.take(k as int),
        decreases rows@.len() - k,
    {
        out.push(diff_line_of(rows[k].as_str(), k, theme, inner));
        k += 1;
        assert(want.take(k as int) =~= want.take(k - 1).push(want[k - 1]));
        assert(line_views(out@) =~= base + want.take(k as int));
    }
    assert(want.take(k as int) =~= want);
}

/// The label of a call: the delegation that is not supported says so.
pub open spec fn action_of(name: Seq<char>, t: UiText) -> Seq<char> {
    if name == "task"@ {
        t.unsupported_task_action@
    } else {
        label_of(name, t.locale)
    }
}

/// What the head line of a call ends in: that it runs, or how long it took.
pub open spec fn head_tail(block: ToolCallBlock, theme: Theme) -> Seq<SpanV> {
    if block.status is Running {
        seq![spanv(" …"@, fg_style(theme.text.muted))]
    } else {
        match block.duration_ms {
            Some(ms) => if ms >= 1000 {
                seq![
                    spanv(" · "@ + seconds(ms as nat) + "s"@, fg_style(theme.text.muted)),
                ]
            } else {
                Seq::empty()
            },
            None => Seq::empty(),
        }
    }
}

/// Glyph, label, target and state of a call, on one line.
pub open spec fn head_line(
    block: ToolCallBlock,
    theme: Theme,
    width: int,
    t: UiText,
    home: Option<Seq<char>>,
) -> Seq<SpanV> {
    let action = action_of(block.name@, t);
    let target = summary_of(block.name@, block.arguments@, "in"@, home);
    let head = seq![
        spanv(glyph_of(block.status) + " "@, status_style(theme, block.status)),
        spanv(action, bold_style(theme.accent.secondary)),
    ];
    let shown = if target.len() > 0 && target != "{}"@ {
        seq![
            spanv("  "@, no_style()),
            spanv(
                truncated(target, room(width, unicode_str_width(action) + 11, 8)),
                fg_style(theme.text.primary),
            ),
        ]
    } else {
        Seq::empty()
    };
    head + shown + head_tail(block, theme)
}

fn head_line_of(
    block: &ToolCallBlock,
    theme: &Theme,
    width: usize,
    t: &UiText,
    home: Option<&str>,
) -> (r: Line)
    ensures
        r@ == head_line(*block, *theme, width as int, *t, home_view(home)),
{
    let name = block.name.as_str();
    let action = if same(name, "task") {
        t.unsupported_task_action.to_owned()
    } else {
        tool_action_label_for(name, t.locale)
    };
    let used: usize = str_width(action.as_str()).saturating_add(11);
    let mut head = Line::of(
        Span::new(cat2(tool_glyph(block.status), " "), tool_style(theme, block.status)),
    );
    head.push(Span::new(action, Style::bold(theme.accent.secondary)));
    let target = tool_summary(name, block.arguments.as_str(), home);
    if !target.as_str().is_empty() && !same(target.as_str(), "{}") {
        head.push(Span::raw("  "));
        head.push(
            Span::new(
                truncate_display(target.as_str(), room_of(width, used, 8)),
                Style::fg(theme.text.primary),
            ),
        );
    }
    if block.status == ToolStatus::Running {
        head.push(Span::text(" …", Style::fg(theme.text.muted)));
    } else if let Some(ms) = block.duration_ms {
        if ms >= 1000 {
            head.push(
                Span::new(
                    cat3(" · ", seconds_text(ms).as_str(), "s"),
                    Style::fg(theme.text.muted),
                ),
            );
        }
    }
    assert(head@ =~= head_line(*block, *theme, width as int, *t, home_view(home)));
    head
}

/// What a call left to read, before the hint for a delegation replaces it: the
/// closing words of a goal, else its output where that is not blank.
pub open spec fn left_to_read(block: ToolCallBlock) -> Option<Seq<char>> {
    let goal = goal_summary_of(block.arguments@);
    if block.name@ == "update_goal"@ && goal.len() > 0 {
        Some(goal)
    } else {
        match block.preview {
            Some(p) => if trimmed(p@).len() > 0 {
                Some(p@)
            } else {
                None
            },
            None => None,
        }
    }
}

/// The text under the head line.
pub open spec fn preview_of(block: ToolCallBlock, t: UiText) -> Option<Seq<char>> {
    match left_to_read(block) {
        Some(p) => if block.name@ == "task"@ && (has_text(p, "unknown tool"@) || has_text(
            p,
            "spawn_agent"@,
        )) {
            Some(t.unsupported_task_hint@)
        } else {
            Some(p)
        },
        None => None,
    }
}

fn preview_text(block: &ToolCallBlock, t: &UiText) -> (r: Option<String>)
    ensures
        match r {
            Some(p) => preview_of(*block, *t) == Some(p@),
            None => preview_of(*block, *t) is None,
        },
{
    let goal = if same(block.name.as_str(), "update_goal") {
        update_goal_summary_from_arguments(block.arguments.as_str())
    } else {
        String::new()
    };
    let raw = if !goal.as_str().is_empty() {
        goal
    } else {
        match &block.preview {
            Some(p) => {
                if trim(p.as_str()).as_str().is_empty() {
                    return None;
                }
                p.clone()
            },
            None => {
                return None;
            },
        }
    };
    if same(block.name.as_str(), "task") && (contains(raw.as_str(), "unknown tool") || contains(
        raw.as_str(),
        "spawn_agent",
    )) {
        Some(t.unsupported_task_hint.to_owned())
    } else {
        Some(raw)
    }
}

/// How many rows of output an opened call shows.
pub const MAX_EXPANDED_PREVIEW: usize = 24;

/// Output opened by the user, as far as it is shown, and what is left.
pub open spec fn opened_preview(rows: Seq<Seq<char>>, theme: Theme) -> Seq<Seq<SpanV>> {
    let shown: int = if rows.len() < MAX_EXPANDED_PREVIEW {
        rows.len() as int
    } else {
        MAX_EXPANDED_PREVIEW as int
    };
    let body = Seq::new(
        shown as nat,
        |i: int|
            seq![
                spanv(row_lead(i), fg_style(theme.border.normal)),
                spanv(rows[i], fg_style(theme.text.muted)),
            ],
    );
    if rows.len() > shown {
        body.push(
            styled_line(
                "    … 还有 "@ + decimal((rows.len() - shown) as nat) + " 行 · Ctrl+O"@,
                fg_style(theme.text.muted),
            ),
        )
    } else {
        body
    }
}

/// The first row of the output, and how many more there are.
pub open spec fn folded_preview(rows: Seq<Seq<char>>, theme: Theme, inner: int) -> Seq<SpanV> {
    let first = if rows.len() > 0 {
        rows[0]
    } else {
        Seq::empty()
    };
    let hint = if rows.len() > 1 {
        "  (+"@ + decimal((rows.len() - 1) as nat) + " 行 · Ctrl+O)"@
    } else {
        Seq::empty()
    };
    seq![
        spanv("  ⎿ "@, fg_style(theme.border.normal)),
        spanv(truncated(first, room(inner, 18, 12)), fg_style(theme.text.muted)),
        spanv(hint, fg_style(theme.border.normal)),
    ]
}

/// The lines under the head line of a call.
pub open spec fn body_lines(
    block: ToolCallBlock,
    theme: Theme,
    width: int,
    expanded: bool,
    t: UiText,
) -> Seq<Seq<SpanV>> {
    if block.name@ == "apply_patch"@ && !(block.status is Failed) {
        diff_lines(block.arguments@, theme, width)
    } else {
        match preview_of(block, t) {
            None => Seq::empty(),
            Some(preview) => {
                let inner = room(width, 4, 1);
                let rows = wrapped(preview, inner as usize);
                if expanded {
                    opened_preview(rows, theme)
                } else if block.status is Succeeded && noisy(block.name@) {
                    Seq::empty()
                } else {
                    seq![folded_preview(rows, theme, inner)]
                }
            },
        }
    }
}

/// A call in the conversation.
pub open spec fn cell_lines(
    block: ToolCallBlock,
    theme: Theme,
    width: int,
    expanded: bool,
    t: UiText,
    home: Option<Seq<char>>,
) -> Seq<Seq<SpanV>> {
    seq![head_line(block, theme, width, t, home)] + body_lines(block, theme, width, expanded, t)
}

fn push_opened_preview(out: &mut Vec<Line>, rows: &Vec<String>, theme: &Theme)
    ensures
        line_views(final(out)@) == line_views(old(out)@) + opened_preview(views(rows@), *theme),
{
    let ghost base = line_views(out@);
    let ghost want = opened_preview(views(rows@), *theme);
    let shown: usize = if rows.len() < MAX_EXPANDED_PREVIEW {
        rows.len()
    } else {
        MAX_EXPANDED_PREVIEW
    };
    let mut i: usize = 0;
    assert(base + want.take(0) =~= base);
    while i < shown
        invariant
            i <= shown <= rows@.len(),
            shown == (if rows@.len() < MAX_EXPANDED_PREVIEW {
                rows@.len() as int
            } else {
                MAX_EXPANDED_PREVIEW as int
            }),
            want == opened_preview(views(rows@), *theme),
            line_views(out@) == base + want.take(i as int),
        decreases shown - i,
    {
        let mut line = Line::of(Span::text(row_lead_text(i), Style::fg(theme.border.normal)));
        line.push(Span::text(rows[i].as_str(), Style::fg(theme.text.muted)));
        assert(line@ =~= want[i as int]);
        out.push(line);
        i += 1;
        assert(want.take(i as int) =~= want.take(i - 1).push(want[i - 1]));
        assert(line_views(out@) =~= base + want.take(i as int));
    }
    if rows.len() > shown {
        let left: u64 = (rows.len() - shown) as u64;
        out.push(
            Line::of(
                Span::new(
                    cat3("    … 还有 ", dec(left).as_str(), " 行 · Ctrl+O"),
                    Style::fg(theme.text.muted),
                ),
            ),
        );
        assert(want.take(shown as int).push(want[shown as int]) =~= want);
        assert(line_views(out@) =~= base + want);
    } else {
        assert(want.take(i as int) =~= want);
    }
}

fn folded_preview_line(rows: &Vec<String>, theme: &Theme, inner: usize) -> (r: Line)
    ensures
        r@ == folded_preview(views(rows@), *theme, inner as int),
{
    let first = if rows.len() > 0 {
        rows[0].clone()
    } else {
        String::new()
    };
    let hint = if rows.len() > 1 {
        cat3("  (+", dec((rows.len() - 1) as u64).as_str(), " 行 · Ctrl+O)")
    } else {
        String::new()
    };
    let mut line = Line::of(Span::text("  ⎿ ", Style::fg(theme.border.normal)));
    line.push(
        Span::new(
            truncate_display(first.as_str(), room_of(inner, 18, 12)),
            Style::fg(theme.text.muted),
        ),
    );
    line.push(Span::new(hint, Style::fg(theme.border.normal)));
    assert(line@ =~= folded_preview(views(rows@), *theme, inner as int));
    line
}

/// A call in the conversation: the head line, then its diff or its output.
pub fn tool_lines(
    block: &ToolCallBlock,
    theme: &Theme,
    width: usize,
    tools_expanded: bool,
    t: &UiText,
    home: Option<&str>,
    out: &mut Vec<Line>,
)
    ensures
        line_views(final(out)@) == line_views(old(out)@) + cell_lines(
            *block,
            *theme,
            width as int,
            tools_expanded,
            *t,
            home_view(home),
        ),
{
    let ghost base = line_views(out@);
    let head = head_line_of(block, theme, width, t, home);
    let ghost top = seq![head@];
    out.push(head);
    assert(line_views(out@) =~= base + top);
    if same(block.name.as_str(), "apply_patch") && block.status != ToolStatus::Failed {
        inline_diff_lines(block.arguments.as_str(), theme, width, out);
        assert(line_views(out@) =~= base + (top + diff_lines(
            block.arguments@,
            *theme,
            width as int,
        )));
        return;
    }
    match preview_text(block, t) {
        None => {
            assert(base + top =~= base + (top + Seq::<Seq<SpanV>>::empty()));
        },
        Some(preview) => {
            if !tools_expanded && block.status == ToolStatus::Succeeded && noisy_success_tool(
                block.name.as_str(),
            ) {
                assert(base + top =~= base + (top + Seq::<Seq<SpanV>>::empty()));
                return;
            }
            let inner: usize = room_of(width, 4, 1);
            let rows = wrap(preview.as_str(), inner);
            if tools_expanded {
                push_opened_preview(out, &rows, theme);
                assert(line_views(out@) =~= base + (top + opened_preview(views(rows@), *theme)));
            } else {
                let line = folded_preview_line(&rows, theme, inner);
                let ghost folded = line@;
                out.push(line);
                assert(line_views(out@) =~= base + (top + seq![folded]));
            }
        },
    }
}

} // verus!
