//! What the cell of a tool call promises.

use vstd::prelude::*;

use crate::i18n::{Locale, UiText};
use crate::json::{json_field_or_empty, json_parsed, json_unsigned, JsonV};
use crate::laws::{ink, larger, leads, strong};
use crate::model::SpanV;
use crate::render::text::{truncated, wrapped};
use crate::seconds::seconds;
use crate::strings::{decimal, text_lines, trimmed};
use crate::theme::Theme;
use crate::tool_cell::{
    arg_text, argument_lines, cell_lines, compacted, diff_line, diff_lines, diff_rows, entry_lines,
    goal_summary, noisy, patch_of_arguments, patch_path, patch_summary, preview_of, summary_of,
    touched, value_summary, MAX_EXPANDED_PREVIEW,
};
use crate::tool_taxonomy::label_of;
use crate::transcript::ToolCallBlock;
use crate::width::unicode_str_width;

verus! {

// ---------------------------------------------------------------- the diff of a patch

/// A line of a patch that frames it and says nothing of the change: the two envelope
/// markers, and a hunk header without a place.
pub open spec fn frames(raw: Seq<char>) -> bool {
    leads("*** Begin Patch"@, raw) || leads("*** End Patch"@, raw) || raw == "@@"@
}

/// How many of the first `n` lines say something of the change.
pub open spec fn said_before(rows: Seq<Seq<char>>, n: int) -> nat
    decreases n,
{
    if n <= 0 {
        0
    } else {
        said_before(rows, n - 1) + (if frames(rows[n - 1]) {
            0nat
        } else {
            1nat
        })
    }
}

proof fn front_is_lead(d: Seq<char>, p: Seq<char>)
    ensures
        leads(p, d) <==> crate::strings::begins(d, p),
{
    if leads(p, d) {
        assert(d.subrange(0, p.len() as int) =~= p);
    } else if p.len() <= d.len() && d.subrange(0, p.len() as int) == p {
        assert forall|i: int| 0 <= i < p.len() implies #[trigger] d[i] == p[i] by {
            assert(d.subrange(0, p.len() as int)[i] == d[i]);
        }
    }
}

proof fn said_rows(rows: Seq<Seq<char>>, n: int)
    requires
        0 <= n <= rows.len(),
    ensures
        diff_rows(rows, n).len() == said_before(rows, n),
        forall|i: int|
            0 <= i < n && !frames(#[trigger] rows[i]) ==> said_before(rows, i) < said_before(rows, n)
                && diff_rows(rows, n)[said_before(rows, i) as int] == rows[i],
    decreases n,
{
    if n > 0 {
        said_rows(rows, n - 1);
        front_is_lead(rows[n - 1], "*** Begin Patch"@);
        front_is_lead(rows[n - 1], "*** End Patch"@);
        assert forall|i: int| 0 <= i < n && !frames(#[trigger] rows[i]) implies said_before(rows, i)
            < said_before(rows, n) && diff_rows(rows, n)[said_before(rows, i) as int]
            == rows[i] by {
            if i < n - 1 {
                assert(said_before(rows, i) < said_before(rows, n - 1));
            }
        }
    }
}

/// Under a patch that did not fail stands every line of the patch but its frame, each on
/// a row of its own and in the patch's order, as much of it as the width holds. A line
/// that came is in the color of additions, one that went in the color of removals, a
/// file in bold, by its path alone, and anything else, context too, is muted.
pub proof fn every_patch_line_has_its_row(
    block: ToolCallBlock,
    theme: Theme,
    width: int,
    expanded: bool,
    t: UiText,
    home: Option<Seq<char>>,
    i: int,
)
    requires
        block.name@ == "apply_patch"@,
        !(block.status is Failed),
    ensures
        ({
            let all = text_lines(patch_of_arguments(block.arguments@));
            let rows = cell_lines(block, theme, width, expanded, t, home);
            let at = 1 + said_before(all, i);
            let raw = all[i];
            let file = "*** Update File: "@;
            let inner = larger(width - 4, 8);
            &&& rows.len() == 1 + said_before(all, all.len() as int)
            &&& 0 <= i < all.len() && !frames(raw) ==> {
                &&& at < rows.len()
                &&& rows[at as int].len() == 2
                &&& rows[at as int][0] == (SpanV {
                    content: if at == 1 {
                        "  ⎿ "@
                    } else {
                        "    "@
                    },
                    style: ink(theme.border.normal),
                })
                &&& rows[at as int][1].content == truncated(
                    if leads(file, raw) {
                        raw.skip(file.len() as int)
                    } else {
                        raw
                    },
                    inner,
                )
                &&& rows[at as int][1].style == (if leads(file, raw) || leads("*** "@, raw) {
                    strong(theme.text.primary)
                } else if raw.len() > 0 && raw[0] == '+' {
                    ink(theme.diff.added)
                } else if raw.len() > 0 && raw[0] == '-' {
                    ink(theme.diff.removed)
                } else {
                    ink(theme.text.muted)
                })
            }
        }),
{
    let all = text_lines(patch_of_arguments(block.arguments@));
    said_rows(all, all.len() as int);
    let rows = cell_lines(block, theme, width, expanded, t, home);
    assert(rows.skip(1) =~= diff_lines(block.arguments@, theme, width));
    if 0 <= i < all.len() && !frames(all[i]) {
        let raw = all[i];
        let k = said_before(all, i) as int;
        front_is_lead(raw, "*** Update File: "@);
        front_is_lead(raw, "*** "@);
        front_is_lead(raw, "+"@);
        front_is_lead(raw, "-"@);
        reveal_strlit("+");
        reveal_strlit("-");
        assert(rows[1 + k] == rows.skip(1)[k]);
        assert(rows[1 + k] == diff_line(raw, k, theme, larger(width - 4, 8)));
    }
}

/// Lines that came, went or stayed are never part of the frame.
pub proof fn changes_and_context_are_shown(raw: Seq<char>)
    requires
        raw.len() > 0,
        raw[0] == ' ' || raw[0] == '+' || raw[0] == '-',
    ensures
        !frames(raw),
{
    reveal_strlit("*** Begin Patch");
    reveal_strlit("*** End Patch");
    reveal_strlit("@@");
    if leads("*** Begin Patch"@, raw) {
        assert(raw[0] == "*** Begin Patch"@[0]);
    }
    if leads("*** End Patch"@, raw) {
        assert(raw[0] == "*** End Patch"@[0]);
    }
}

/// Whether a call is opened does not matter to its diff: a change is never folded away.
pub proof fn diff_does_not_fold(
    block: ToolCallBlock,
    theme: Theme,
    width: int,
    t: UiText,
    home: Option<Seq<char>>,
)
    requires
        block.name@ == "apply_patch"@,
        !(block.status is Failed),
    ensures
        cell_lines(block, theme, width, true, t, home) == cell_lines(
            block,
            theme,
            width,
            false,
            t,
            home,
        ),
{
}

// ---------------------------------------------------------------- the head of a call

/// The first row of a call tells its state by a sign in its color, then what it does in
/// bold, then what it is about; a running call ends in an ellipsis, a settled one in its
/// time where that is a second or more.
pub proof fn head_tells_state_action_and_target(
    block: ToolCallBlock,
    theme: Theme,
    width: int,
    expanded: bool,
    t: UiText,
    home: Option<Seq<char>>,
)
    ensures
        ({
            let head = cell_lines(block, theme, width, expanded, t, home)[0];
            let action = if block.name@ == "task"@ {
                t.unsupported_task_action@
            } else {
                label_of(block.name@, t.locale)
            };
            let target = summary_of(block.name@, block.arguments@, "in"@, home);
            let told: int = if target.len() > 0 && target != "{}"@ {
                4
            } else {
                2
            };
            &&& head.len() >= told
            &&& block.status is Running ==> head[0] == (SpanV {
                content: "●"@ + " "@,
                style: ink(theme.accent.primary),
            })
            &&& block.status is Succeeded ==> head[0] == (SpanV {
                content: "✓"@ + " "@,
                style: ink(theme.status.success),
            })
            &&& block.status is Failed ==> head[0] == (SpanV {
                content: "!"@ + " "@,
                style: ink(theme.status.warning),
            })
            &&& block.status is Cancelled || block.status is Unknown ==> head[0] == (SpanV {
                content: "?"@ + " "@,
                style: ink(theme.status.warning),
            })
            &&& head[1] == (SpanV { content: action, style: strong(theme.accent.secondary) })
            &&& told == 4 ==> head[3] == (SpanV {
                content: truncated(
                    target,
                    larger(width - (unicode_str_width(action) + 11), 8),
                ),
                style: ink(theme.text.primary),
            })
            &&& block.status is Running ==> head.len() == told + 1 && head[told] == (SpanV {
                content: " …"@,
                style: ink(theme.text.muted),
            })
            &&& !(block.status is Running) ==> match block.duration_ms {
                Some(ms) => if ms >= 1000 {
                    head.len() == told + 1 && head[told] == (SpanV {
                        content: " · "@ + seconds(ms as nat) + "s"@,
                        style: ink(theme.text.muted),
                    })
                } else {
                    head.len() == told
                },
                None => head.len() == told,
            }
        }),
{
}

/// Every kind of call has its word, in both languages; a tool that is not known goes by
/// its own name.
pub proof fn actions_have_their_words(name: Seq<char>)
    ensures
        label_of("run_command"@, Locale::Zh) == "执行"@,
        label_of("run_command"@, Locale::En) == "Run"@,
        label_of("shell_command"@, Locale::Zh) == "执行"@,
        label_of("shell_command"@, Locale::En) == "Run"@,
        label_of("read_file"@, Locale::Zh) == "读取"@,
        label_of("read_file"@, Locale::En) == "Read"@,
        label_of("read_symbol"@, Locale::En) == "Read"@,
        label_of("apply_patch"@, Locale::Zh) == "编辑"@,
        label_of("apply_patch"@, Locale::En) == "Edit"@,
        label_of("replace"@, Locale::En) == "Edit"@,
        label_of("grep"@, Locale::Zh) == "搜索"@,
        label_of("grep"@, Locale::En) == "Search"@,
        label_of("repository_search"@, Locale::En) == "Search"@,
        label_of("find_symbol"@, Locale::En) == "Search"@,
        label_of("find_references"@, Locale::En) == "Search"@,
        label_of("list_files"@, Locale::Zh) == "列出"@,
        label_of("list_files"@, Locale::En) == "List"@,
        label_of("update_plan"@, Locale::Zh) == "更新计划"@,
        label_of("update_plan"@, Locale::En) == "Update plan"@,
        label_of("update_goal"@, Locale::Zh) == "目标收尾"@,
        label_of("update_goal"@, Locale::En) == "Close goal"@,
        label_of("request_user_input"@, Locale::En) == "Ask"@,
        label_of("ask_user"@, Locale::Zh) == "询问"@,
        label_of("spawn_agent"@, Locale::Zh) == "子 Agent"@,
        label_of("spawn_agent"@, Locale::En) == "Sub-agent"@,
        name == "git_status"@ ==> label_of(name, Locale::En) == name,
{
    reveal_strlit("read_file");
    reveal_strlit("read_symbol");
    reveal_strlit("run_command");
    reveal_strlit("shell_command");
    reveal_strlit("apply_patch");
    reveal_strlit("replace");
    reveal_strlit("grep");
    reveal_strlit("repository_search");
    reveal_strlit("find_symbol");
    reveal_strlit("find_references");
    reveal_strlit("list_files");
    reveal_strlit("update_plan");
    reveal_strlit("update_goal");
    reveal_strlit("request_user_input");
    reveal_strlit("ask_user");
    reveal_strlit("spawn_agent");
    reveal_strlit("git_status");
    let all = seq![
        "read_file"@,
        "read_symbol"@,
        "run_command"@,
        "shell_command"@,
        "apply_patch"@,
        "replace"@,
        "grep"@,
        "repository_search"@,
        "find_symbol"@,
        "find_references"@,
        "list_files"@,
        "update_plan"@,
        "update_goal"@,
        "request_user_input"@,
        "ask_user"@,
        "spawn_agent"@,
        "git_status"@,
    ];
    assert(all[0][2] == 'a' && all[1][2] == 'a');
    assert(all[0][5] == 'f' && all[1][5] == 's');
    assert(all[2][2] == 'n' && all[3][2] == 'e' && all[4][2] == 'p' && all[5][2] == 'p');
    assert(all[4][0] == 'a' && all[5][0] == 'r');
    assert(all[6].len() == 4 && all[7].len() == 17 && all[8].len() == 11 && all[9].len() == 15);
    assert(all[10].len() == 10 && all[11].len() == 11 && all[12].len() == 11);
    assert(all[0].len() == 9 && all[1].len() == 11 && all[2].len() == 11 && all[3].len() == 13);
    assert(all[4].len() == 11 && all[5].len() == 7 && all[13].len() == 18);
    assert(all[14].len() == 8 && all[15].len() == 11 && all[16].len() == 10);
    assert(all[1][0] == 'r' && all[2][0] == 'r' && all[4][0] == 'a' && all[8][0] == 'f');
    assert(all[11][0] == 'u' && all[12][0] == 'u' && all[15][0] == 's');
    assert(all[11][7] == 'p' && all[12][7] == 'g');
    assert(all[1][1] == 'e' && all[2][1] == 'u');
    assert(all[10][0] == 'l' && all[16][0] == 'g');
}

// ---------------------------------------------------------------- what a call is about

/// What a call is about is what its arguments say: the path and the lines read, from the
/// first to the last; the pattern in quotes and where it is searched; the symbol, the
/// query or the explanation asked for.
pub proof fn target_is_what_the_arguments_say(
    name: Seq<char>,
    arguments: Seq<char>,
    v: JsonV,
    within: Seq<char>,
    home: Option<Seq<char>>,
)
    requires
        json_parsed(arguments) == Some(v),
    ensures
        ({
            let told = value_summary(name, arguments, v, within, home);
            let path = compacted(json_field_or_empty(v, "path"@));
            let pattern = json_field_or_empty(v, "pattern"@);
            &&& summary_of(name, arguments, within, home) == truncated(told, 64)
            &&& name == "read_file"@ && json_unsigned(v, "start_line"@) is Some && json_unsigned(
                v,
                "end_line"@,
            ) is Some ==> told == path + ":"@ + decimal(
                json_unsigned(v, "start_line"@)->0 as nat,
            ) + "-"@ + decimal(json_unsigned(v, "end_line"@)->0 as nat)
            &&& name == "read_file"@ && (json_unsigned(v, "start_line"@) is None || json_unsigned(
                v,
                "end_line"@,
            ) is None) ==> told == path
            &&& name == "grep"@ && path.len() == 0 ==> told == "\""@ + pattern + "\""@
            &&& name == "grep"@ && path.len() != 0 ==> told == "\""@ + pattern + "\""@ + " "@
                + within + " "@ + path
            &&& name == "list_files"@ ==> told == (if path.len() == 0 {
                "."@
            } else {
                path
            })
            &&& name == "apply_patch"@ ==> told == patch_summary(patch_of_arguments(arguments))
            &&& name == "repository_search"@ ==> told == json_field_or_empty(v, "query"@)
            &&& name == "find_symbol"@ || name == "read_symbol"@ || name == "find_references"@
                ==> told == json_field_or_empty(v, "symbol"@)
            &&& name == "update_plan"@ ==> told == json_field_or_empty(v, "explanation"@)
            &&& name == "task"@ && json_field_or_empty(v, "description"@).len() > 0 ==> told
                == json_field_or_empty(v, "description"@)
            &&& name == "task"@ && json_field_or_empty(v, "description"@).len() == 0 ==> told
                == json_field_or_empty(v, "prompt"@)
        }),
{
    reveal_strlit("read_file");
    reveal_strlit("read_symbol");
    reveal_strlit("run_command");
    reveal_strlit("shell_command");
    reveal_strlit("apply_patch");
    reveal_strlit("replace");
    reveal_strlit("grep");
    reveal_strlit("repository_search");
    reveal_strlit("find_symbol");
    reveal_strlit("find_references");
    reveal_strlit("list_files");
    reveal_strlit("update_plan");
    reveal_strlit("update_goal");
    reveal_strlit("task");
    assert("read_file"@.len() == 9 && "read_symbol"@.len() == 11 && "run_command"@.len() == 11);
    assert("shell_command"@.len() == 13 && "apply_patch"@.len() == 11 && "replace"@.len() == 7);
    assert("grep"@.len() == 4 && "repository_search"@.len() == 17 && "find_symbol"@.len() == 11);
    assert("find_references"@.len() == 15 && "list_files"@.len() == 10);
    assert("update_plan"@.len() == 11 && "update_goal"@.len() == 11 && "task"@.len() == 4);
    assert("grep"@[0] == 'g' && "task"@[0] == 't');
    assert("read_symbol"@[1] == 'e' && "run_command"@[1] == 'u' && "read_symbol"@[0] == 'r');
    assert("apply_patch"@[0] == 'a' && "find_symbol"@[0] == 'f' && "update_plan"@[0] == 'u');
    assert("run_command"@[0] == 'r' && "update_goal"@[0] == 'u');
    assert("update_plan"@[7] == 'p' && "update_goal"@[7] == 'g');
}

/// A goal is called blocked exactly where its status says so, and done otherwise; its
/// summary stands behind the word.
pub proof fn goal_is_blocked_or_done(v: JsonV)
    ensures
        json_field_or_empty(v, "status"@) == "blocked"@ ==> leads("受阻"@, goal_summary(v)),
        json_field_or_empty(v, "status"@) != "blocked"@ ==> leads("完成"@, goal_summary(v)),
{
}

/// A path that is not absolute is shown as it is.
pub proof fn relative_paths_stay(path: Seq<char>)
    requires
        path.len() == 0 || path[0] != '/',
    ensures
        compacted(path) == path,
{
}

/// Whether row `k` of a patch is the header of the file that goes by `f`.
pub open spec fn heads(rows: Seq<Seq<char>>, k: int, f: Seq<char>) -> bool {
    &&& 0 <= k < rows.len()
    &&& patch_path(rows[k]) is Some
    &&& patch_path(rows[k])->0 != "/dev/null"@
    &&& compacted(patch_path(rows[k])->0) == f
}

/// Whether one of the first `n` rows of a patch is the header of the file `f`.
pub open spec fn headed(rows: Seq<Seq<char>>, n: int, f: Seq<char>) -> bool {
    exists|k: int| k < n && #[trigger] heads(rows, k, f)
}

/// The files of a patch are named once each, never the null device, and exactly those
/// that stand in a header of the patch.
pub proof fn touched_files_are_named_once(rows: Seq<Seq<char>>, n: int)
    requires
        0 <= n <= rows.len(),
    ensures
        forall|i: int, j: int|
            0 <= i < j < touched(rows, n).len() ==> #[trigger] touched(rows, n)[i]
                != #[trigger] touched(rows, n)[j],
        forall|f: Seq<char>| touched(rows, n).contains(f) <==> #[trigger] headed(rows, n, f),
    decreases n,
{
    if n > 0 {
        touched_files_are_named_once(rows, n - 1);
        let before = touched(rows, n - 1);
        let all = touched(rows, n);
        assert forall|f: Seq<char>| all.contains(f) <==> #[trigger] headed(rows, n, f) by {
            assert(before.contains(f) <==> headed(rows, n - 1, f));
            if all.contains(f) {
                let i = all.index_of(f);
                if i < before.len() {
                    assert(before[i] == f);
                    let k = choose|k: int| k < n - 1 && #[trigger] heads(rows, k, f);
                    assert(heads(rows, k, f));
                } else {
                    assert(heads(rows, n - 1, f));
                }
            }
            if headed(rows, n, f) {
                let k = choose|k: int| k < n && #[trigger] heads(rows, k, f);
                if k < n - 1 {
                    assert(headed(rows, n - 1, f));
                }
                if before.contains(f) {
                    let i = before.index_of(f);
                    assert(all[i] == f);
                } else {
                    assert(k == n - 1);
                    assert(all[before.len() as int] == f);
                }
            }
        }
    } else {
        assert forall|f: Seq<char>| touched(rows, n).contains(f) <==> #[trigger] headed(
            rows,
            n,
            f,
        ) by {}
    }
}

/// A header of a patch names the file that stands behind it, whether the file is
/// changed, added or deleted.
pub proof fn patch_headers_name_their_file(path: Seq<char>)
    requires
        path.len() > 0,
    ensures
        patch_path("*** Update File: "@ + path) == Some(path),
        patch_path("*** Add File: "@ + path) == Some(path),
        patch_path("*** Delete File: "@ + path) == Some(path),
        patch_path("+++ b/"@ + path) == Some(path),
        patch_path("--- a/"@ + path) == Some(path),
{
    reveal_strlit("*** Update File: ");
    reveal_strlit("*** Add File: ");
    reveal_strlit("*** Delete File: ");
    reveal_strlit("+++ b/");
    reveal_strlit("--- a/");
    header_path("*** Update File: "@, path);
    header_path("*** Add File: "@, path);
    header_path("*** Delete File: "@, path);
    header_path("+++ b/"@, path);
    header_path("--- a/"@, path);
    assert(("*** Add File: "@ + path)[4] == 'A');
    assert(("*** Delete File: "@ + path)[4] == 'D');
    assert(("+++ b/"@ + path)[0] == '+');
    assert(("--- a/"@ + path)[0] == '-');
    not_front("*** Add File: "@ + path, "*** Update File: "@, 4);
    not_front("*** Delete File: "@ + path, "*** Update File: "@, 4);
    not_front("*** Delete File: "@ + path, "*** Add File: "@, 4);
    not_front("+++ b/"@ + path, "*** Update File: "@, 0);
    not_front("+++ b/"@ + path, "*** Add File: "@, 0);
    not_front("+++ b/"@ + path, "*** Delete File: "@, 0);
    not_front("--- a/"@ + path, "*** Update File: "@, 0);
    not_front("--- a/"@ + path, "*** Add File: "@, 0);
    not_front("--- a/"@ + path, "*** Delete File: "@, 0);
    not_front("--- a/"@ + path, "+++ b/"@, 0);
}

proof fn header_path(p: Seq<char>, path: Seq<char>)
    requires
        p.len() > 0,
        !crate::strings::whitespace(p[0]),
    ensures
        crate::strings::trimmed_start(p + path) == p + path,
        crate::strings::begins(p + path, p),
        (p + path).skip(p.len() as int) == path,
{
    let s = p + path;
    assert(s[0] == p[0]);
    assert(crate::strings::skip_white(s, 0) == 0);
    assert(s.subrange(0, s.len() as int) =~= s);
    assert(s.subrange(0, p.len() as int) =~= p);
    assert(s.skip(p.len() as int) =~= path);
}

proof fn not_front(s: Seq<char>, p: Seq<char>, i: int)
    requires
        0 <= i < p.len(),
        i < s.len(),
        s[i] != p[i],
    ensures
        !crate::strings::begins(s, p),
{
    if crate::strings::begins(s, p) {
        assert(s.subrange(0, p.len() as int)[i] == s[i]);
    }
}

// ---------------------------------------------------------------- what a call left

/// The output of a call is all there once it is opened, up to the limit, and what is
/// beyond is counted; folded, one row stands for it, with the number of rows behind it.
pub proof fn output_opens_and_folds(
    block: ToolCallBlock,
    theme: Theme,
    width: int,
    t: UiText,
    home: Option<Seq<char>>,
    i: int,
)
    requires
        !(block.name@ == "apply_patch"@ && !(block.status is Failed)),
        preview_of(block, t) is Some,
    ensures
        ({
            let words = wrapped(preview_of(block, t)->0, larger(width - 4, 1) as usize);
            let open = cell_lines(block, theme, width, true, t, home);
            let folded = cell_lines(block, theme, width, false, t, home);
            let limit = MAX_EXPANDED_PREVIEW as int;
            &&& words.len() <= limit ==> open.len() == 1 + words.len()
            &&& words.len() > limit ==> open.len() == 2 + limit && open[1 + limit] == seq![
                SpanV {
                    content: "    … 还有 "@ + decimal((words.len() - limit) as nat) + " 行 · Ctrl+O"@,
                    style: ink(theme.text.muted),
                },
            ]
            &&& 0 <= i < words.len() && i < limit ==> open[1 + i] == seq![
                SpanV {
                    content: if i == 0 {
                        "  ⎿ "@
                    } else {
                        "    "@
                    },
                    style: ink(theme.border.normal),
                },
                SpanV { content: words[i], style: ink(theme.text.muted) },
            ]
            &&& block.status is Succeeded && noisy(block.name@) ==> folded.len() == 1
            &&& !(block.status is Succeeded && noisy(block.name@)) ==> {
                &&& folded.len() == 2
                &&& words.len() > 0 ==> folded[1][1] == (SpanV {
                    content: truncated(words[0], larger(larger(width - 4, 1) - 18, 12)),
                    style: ink(theme.text.muted),
                })
                &&& words.len() > 1 ==> folded[1][2].content == "  (+"@ + decimal(
                    (words.len() - 1) as nat,
                ) + " 行 · Ctrl+O)"@
                &&& words.len() <= 1 ==> folded[1][2].content.len() == 0
            }
        }),
{
}

/// A call that left nothing to read has its head alone.
pub proof fn silent_call_is_one_row(
    block: ToolCallBlock,
    theme: Theme,
    width: int,
    expanded: bool,
    t: UiText,
    home: Option<Seq<char>>,
)
    requires
        block.name@ != "apply_patch"@,
        block.name@ != "update_goal"@,
        block.preview is None || trimmed(block.preview->0@).len() == 0,
    ensures
        cell_lines(block, theme, width, expanded, t, home).len() == 1,
{
}

/// A call shows what it left, in its own words; a delegation that is not supported shows
/// the hint in place of the tool's own error.
pub proof fn preview_is_what_the_call_left(block: ToolCallBlock, t: UiText)
    requires
        block.name@ != "update_goal"@,
        block.preview is Some,
        trimmed(block.preview->0@).len() > 0,
    ensures
        block.name@ != "task"@ ==> preview_of(block, t) == Some(block.preview->0@),
        block.name@ == "task"@ && crate::strings::has_text(block.preview->0@, "unknown tool"@)
            ==> preview_of(block, t) == Some(t.unsupported_task_hint@),
{
}

/// Only calls that read, search or keep books are quiet when they succeed; a command, a
/// patch or an unknown tool is not.
pub proof fn quiet_calls()
    ensures
        noisy("read_file"@) && noisy("list_files"@) && noisy("grep"@) && noisy(
            "repository_search"@,
        ),
        noisy("find_symbol"@) && noisy("read_symbol"@) && noisy("find_references"@),
        noisy("git_status"@) && noisy("git_diff"@) && noisy("update_plan"@) && noisy(
            "update_goal"@,
        ),
        !noisy("shell_command"@) && !noisy("replace"@) && !noisy("task"@),
{
    reveal_strlit("read_file");
    reveal_strlit("list_files");
    reveal_strlit("grep");
    reveal_strlit("repository_search");
    reveal_strlit("find_symbol");
    reveal_strlit("read_symbol");
    reveal_strlit("find_references");
    reveal_strlit("git_status");
    reveal_strlit("git_diff");
    reveal_strlit("update_plan");
    reveal_strlit("update_goal");
    reveal_strlit("shell_command");
    reveal_strlit("replace");
    reveal_strlit("task");
    assert("read_file"@.len() == 9 && "list_files"@.len() == 10 && "grep"@.len() == 4);
    assert("repository_search"@.len() == 17 && "find_symbol"@.len() == 11);
    assert("read_symbol"@.len() == 11 && "find_references"@.len() == 15);
    assert("git_status"@.len() == 10 && "git_diff"@.len() == 8 && "update_plan"@.len() == 11);
    assert("update_goal"@.len() == 11 && "shell_command"@.len() == 13 && "replace"@.len() == 7);
    assert("task"@.len() == 4 && "task"@[0] == 't' && "grep"@[0] == 'g');
}

// ---------------------------------------------------------------- the arguments of a call

proof fn entries_upto(
    entries: Seq<(Seq<char>, JsonV)>,
    more: Seq<(Seq<char>, JsonV)>,
    inner: usize,
    n: int,
)
    requires
        n <= entries.len() <= more.len(),
        forall|i: int| 0 <= i < n ==> #[trigger] more[i] == entries[i],
    ensures
        entry_lines(more, inner, n) == entry_lines(entries, inner, n),
    decreases n,
{
    if n > 0 {
        entries_upto(entries, more, inner, n - 1);
        assert(more[n - 1] == entries[n - 1]);
    }
}

/// One more argument adds its own rows behind the others: its key, a colon and its
/// value.
pub proof fn argument_adds_its_rows(
    entries: Seq<(Seq<char>, JsonV)>,
    key: Seq<char>,
    value: JsonV,
    inner: usize,
    i: int,
)
    requires
        0 <= i < wrapped(key + ": "@ + arg_text(value), inner).len(),
    ensures
        ({
            let before = entry_lines(entries, inner, entries.len() as int);
            let all = entry_lines(entries.push((key, value)), inner, (entries.len() + 1) as int);
            let words = wrapped(key + ": "@ + arg_text(value), inner);
            &&& all.len() == before.len() + words.len()
            &&& all.take(before.len() as int) == before
            &&& all[before.len() + i].len() == 1
            &&& all[before.len() + i][0].content == (if i == 0 {
                "  "@
            } else {
                "    "@
            }) + words[i]
        }),
{
    let more = entries.push((key, value));
    entries_upto(entries, more, inner, entries.len() as int);
    let before = entry_lines(entries, inner, entries.len() as int);
    let all = entry_lines(more, inner, (entries.len() + 1) as int);
    assert(more[entries.len() as int] == (key, value));
    assert(all.take(before.len() as int) =~= before);
}

/// A value is shown as what it is: a text by itself, a truth value by its word, nothing
/// as null.
pub proof fn values_are_shown_as_they_are(s: Seq<char>)
    ensures
        arg_text(JsonV::Text(s)) == s,
        arg_text(JsonV::Bool(true)) == "true"@,
        arg_text(JsonV::Bool(false)) == "false"@,
        arg_text(JsonV::Null) == "null"@,
{
}

/// Arguments that cannot be read are shown as they were written, and an empty object as
/// one.
pub proof fn arguments_are_shown_in_full(arguments: Seq<char>, theme: Theme, width: int, i: int)
    ensures
        ({
            let rows = argument_lines(arguments, theme, width);
            let inner = larger(width - 2, 1) as usize;
            let words = wrapped(arguments, inner);
            &&& rows.len() > 0
            &&& rows[0] == seq![SpanV { content: "参数"@, style: ink(theme.text.muted) }]
            &&& json_parsed(arguments) is None ==> rows.len() == 1 + words.len() && (0 <= i
                < words.len() ==> rows[1 + i].len() == 1 && rows[1 + i][0].content == "  "@
                + words[i])
            &&& json_parsed(arguments) matches Some(JsonV::Object { entries, text }) ==> (
            entries.len() == 0 ==> rows.len() == 2 && rows[1][0].content == "  {}"@)
        }),
{
}

} // verus!
