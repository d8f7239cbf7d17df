//! What the summary of a call tells of its command and its paths.

use vstd::prelude::*;

use crate::json::{json_field_or_empty, json_get, json_parsed, JsonV};
use crate::laws::only_gap_is_filled;
use crate::strings::{
    begins, find_from, find_from_bounds, find_text_from, find_text_from_holds, has_text, joined,
    occurs_at, replaced, skip_white, split_at_char, split_from, trimmed, trimmed_start, whitespace,
};
use crate::tool_cell::{
    after_cd, argument_list, bare_end, base_name, cd_stripped, command_field, command_summary,
    compacted, execute_summary, first_human, goal_summary, home_compacted, human_keys, marker_from,
    named_parts, non_empty, patch_in_entries, patch_in_items, patch_of_arguments, patch_summary,
    patch_value, path_parts, preview_of, project_marker, raw_patch, script_from, shell_program,
    string_items, summary_of, token_break, token_len, without_program,
};
use crate::transcript::ToolCallBlock;
use crate::i18n::UiText;
use crate::render::text::truncated;

verus! {

// ---------------------------------------------------------------- commands

proof fn bare_word_ends(s: Seq<char>, e: int, i: int)
    requires
        0 <= i <= e <= s.len(),
        forall|k: int| i <= k < e ==> !token_break(#[trigger] s[k]),
        e < s.len() ==> token_break(s[e]),
    ensures
        bare_end(s, i) == e,
    decreases e - i,
{
    if i < e {
        bare_word_ends(s, e, i + 1);
    }
}

proof fn quote_is_found(s: Seq<char>, e: int, i: int)
    requires
        0 <= i <= e < s.len(),
        s[e] == '\'',
        forall|k: int| i <= k < e ==> #[trigger] s[k] != '\'',
    ensures
        find_from(s, '\'', i) == e,
    decreases e - i,
{
    if i < e {
        quote_is_found(s, e, i + 1);
    }
}

/// Whether a word names a folder as a shell reads one word: either without quotes,
/// breaks and separators, or all of it in single quotes.
pub open spec fn one_word(w: Seq<char>) -> bool {
    ||| w.len() > 0 && w[0] != '\'' && w[0] != '"' && forall|k: int|
        0 <= k < w.len() ==> !whitespace(#[trigger] w[k]) && w[k] != ';' && w[k] != '&' && w[k]
            != '|'
    ||| w.len() >= 2 && w[0] == '\'' && w.last() == '\'' && forall|k: int|
        0 < k < w.len() - 1 ==> #[trigger] w[k] != '\''
}

/// A word ends where a shell ends it.
pub proof fn word_is_read_whole(w: Seq<char>, rest: Seq<char>)
    requires
        one_word(w),
        w[0] != '\'' && rest.len() > 0 ==> whitespace(rest[0]) || rest[0] == ';' || rest[0] == '&'
            || rest[0] == '|',
    ensures
        token_len(w + rest) == w.len(),
{
    let s = w + rest;
    let n = w.len() as int;
    assert(s[0] == w[0]);
    if w[0] == '\'' {
        assert forall|k: int| 1 <= k < n - 1 implies #[trigger] s[k] != '\'' by {
            assert(s[k] == w[k]);
        }
        assert(s[n - 1] == w.last());
        quote_is_found(s, n - 1, 1);
    } else {
        assert forall|k: int| 0 <= k < n implies !token_break(#[trigger] s[k]) by {
            assert(s[k] == w[k]);
        }
        assert(rest.len() > 0 ==> s[n] == rest[0]);
        bare_word_ends(s, n, 0);
    }
}

proof fn nothing_to_skip(s: Seq<char>)
    requires
        s.len() > 0,
        !whitespace(s[0]),
    ensures
        trimmed_start(s) == s,
{
    assert(skip_white(s, 0) == 0);
    assert(s.skip(0) =~= s);
}

proof fn one_space_to_skip(s: Seq<char>)
    requires
        s.len() > 1,
        s[0] == ' ',
        !whitespace(s[1]),
    ensures
        trimmed_start(s) == s.skip(1),
{
    reveal_with_fuel(skip_white, 2);
    assert(whitespace(' '));
    assert(skip_white(s, 0) == 1);
}

/// A change of folder in front of a command is left out, whether it is followed by two
/// ampersands or a semicolon, and so is every further one.
pub proof fn change_of_folder_is_left_out(w: Seq<char>, cmd: Seq<char>)
    requires
        one_word(w),
        !whitespace(w[0]),
    ensures
        cd_stripped("cd "@ + w + " &&"@ + cmd) == cd_stripped(cmd),
        cd_stripped("cd "@ + w + ";"@ + cmd) == cd_stripped(cmd),
{
    reveal_strlit("cd ");
    reveal_strlit(" &&");
    reveal_strlit("&&");
    reveal_strlit(";");
    let n = w.len() as int;
    let a = "cd "@ + w + " &&"@ + cmd;
    nothing_to_skip(a);
    assert(a.subrange(0, 3) =~= "cd "@);
    let ra = w + (" &&"@ + cmd);
    assert(a.skip(3) =~= ra);
    nothing_to_skip(ra);
    word_is_read_whole(w, " &&"@ + cmd);
    assert(ra.skip(n) =~= " &&"@ + cmd);
    one_space_to_skip(" &&"@ + cmd);
    let ta = (" &&"@ + cmd).skip(1);
    assert(ta.subrange(0, 2) =~= "&&"@);
    assert(ta.skip(2) =~= cmd);
    assert(after_cd(a) == Some(cmd));
    let b = "cd "@ + w + ";"@ + cmd;
    nothing_to_skip(b);
    assert(b.subrange(0, 3) =~= "cd "@);
    let rb = w + (";"@ + cmd);
    assert(b.skip(3) =~= rb);
    nothing_to_skip(rb);
    word_is_read_whole(w, ";"@ + cmd);
    assert(rb.skip(n) =~= ";"@ + cmd);
    nothing_to_skip(";"@ + cmd);
    let tb = ";"@ + cmd;
    assert(tb.subrange(0, 1) =~= ";"@);
    assert(tb.skip(1) =~= cmd);
    assert(!begins(tb, "&&"@)) by {
        if begins(tb, "&&"@) {
            assert(tb.subrange(0, 2)[0] == ';');
            assert("&&"@[0] == '&');
        }
    }
    assert(after_cd(b) == Some(cmd));
}

/// A command that changes no folder is told as it is, and a change of folder with nothing
/// behind it too.
pub proof fn other_commands_are_told_as_they_are(cmd: Seq<char>, w: Seq<char>)
    requires
        one_word(w),
        !whitespace(w[0]),
    ensures
        cmd.len() > 0 && !whitespace(cmd[0]) && (cmd.len() < 3 || cmd[0] != 'c' || cmd[1] != 'd'
            || !whitespace(cmd[2])) ==> cd_stripped(cmd) == cmd,
        cd_stripped("cd "@ + w) == "cd "@ + w,
{
    reveal_strlit("cd ");
    reveal_strlit("cd\t");
    reveal_strlit("&&");
    reveal_strlit(";");
    if cmd.len() > 0 && !whitespace(cmd[0]) && (cmd.len() < 3 || cmd[0] != 'c' || cmd[1] != 'd'
        || !whitespace(cmd[2])) {
        nothing_to_skip(cmd);
        if begins(cmd, "cd "@) {
            assert(cmd.subrange(0, 3)[0] == cmd[0] && cmd.subrange(0, 3)[1] == cmd[1]
                && cmd.subrange(0, 3)[2] == cmd[2]);
            assert("cd "@[0] == 'c' && "cd "@[1] == 'd' && "cd "@[2] == ' ');
        }
        if begins(cmd, "cd\t"@) {
            assert(cmd.subrange(0, 3)[0] == cmd[0] && cmd.subrange(0, 3)[1] == cmd[1]
                && cmd.subrange(0, 3)[2] == cmd[2]);
            assert("cd\t"@[0] == 'c' && "cd\t"@[1] == 'd' && "cd\t"@[2] == '\t');
        }
    }
    let s = "cd "@ + w;
    nothing_to_skip(s);
    assert(s.subrange(0, 3) =~= "cd "@);
    assert(s.skip(3) =~= w);
    nothing_to_skip(w);
    assert(w + Seq::<char>::empty() =~= w);
    word_is_read_whole(w, Seq::empty());
    assert(w.skip(w.len() as int) =~= Seq::<char>::empty());
    assert(trimmed_start(Seq::<char>::empty()).len() == 0);
    assert("&&"@.len() == 2 && ";"@.len() == 1);
    assert(after_cd(s) is None);
}

/// A shell that is handed a script is told by the script; a command line is told as it
/// is; any other program is told with its arguments, and nothing by nothing.
pub proof fn command_is_told_by_what_it_runs(
    name: Seq<char>,
    v: JsonV,
    home: Option<Seq<char>>,
)
    ensures
        ({
            let cmd = command_field(v);
            let program = trimmed(json_field_or_empty(v, "program"@));
            let args = without_program(program, argument_list(v));
            let line = (name == "shell_command"@ || json_get(v, "cmd"@) is Some) && cmd.len() > 0;
            let script = shell_program(program) && script_from(args, 0) is Some;
            &&& line ==> execute_summary(name, v, home) == command_summary(cmd, home)
            &&& !line && script ==> execute_summary(name, v, home) == command_summary(
                script_from(args, 0)->0,
                home,
            )
            &&& !line && !script && program.len() == 0 && args.len() == 0 ==> execute_summary(
                name,
                v,
                home,
            ).len() == 0
            &&& !line && !script && (program.len() > 0 || args.len() > 0) ==> execute_summary(
                name,
                v,
                home,
            ) == command_summary(trimmed(program + " "@ + joined(args, " "@)), home)
        }),
{
}

/// The script of a shell is what follows the first flag that announces one.
pub proof fn script_follows_its_flag(args: Seq<Seq<char>>, from: int, k: int)
    requires
        0 <= from <= k < args.len() - 1,
        args[k] == "-c"@ || args[k] == "/C"@ || args[k] == "/c"@,
        forall|m: int|
            from <= m < k ==> #[trigger] args[m] != "-c"@ && args[m] != "/C"@ && args[m] != "/c"@,
    ensures
        script_from(args, from) == Some(args[k + 1]),
    decreases k - from,
{
    if from < k {
        script_follows_its_flag(args, from + 1, k);
    }
}

/// A first argument that repeats the program is dropped, another is kept.
pub proof fn repeated_program_is_dropped(program: Seq<char>, args: Seq<Seq<char>>)
    ensures
        without_program(program, seq![program] + args) == args,
        args.len() > 0 && args[0] != program && args[0] != base_name(program) ==> without_program(
            program,
            args,
        ) == args,
{
    assert((seq![program] + args).skip(1) =~= args);
}

// ---------------------------------------------------------------- paths

proof fn slash_is_found_alike(a: Seq<char>, b: Seq<char>, i: int)
    requires
        0 <= i <= a.len(),
    ensures
        find_from(a, '/', i) < a.len() ==> find_from(a + seq!['/'] + b, '/', i) == find_from(
            a,
            '/',
            i,
        ),
        find_from(a, '/', i) >= a.len() ==> find_from(a + seq!['/'] + b, '/', i) == a.len(),
    decreases a.len() - i,
{
    let s = a + seq!['/'] + b;
    if i < a.len() {
        assert(s[i] == a[i]);
        if a[i] != '/' {
            slash_is_found_alike(a, b, i + 1);
        }
    } else {
        assert(s[i] == '/');
    }
}

proof fn no_slash_is_found(p: Seq<char>, s: Seq<char>, i: int)
    requires
        p.len() <= i <= s.len(),
        forall|k: int| p.len() <= k < s.len() ==> #[trigger] s[k] != '/',
    ensures
        find_from(s, '/', i) == s.len(),
    decreases s.len() - i,
{
    if i < s.len() {
        no_slash_is_found(p, s, i + 1);
    }
}

proof fn last_part_is_split_off(a: Seq<char>, p: Seq<char>, i: int)
    requires
        0 <= i <= a.len(),
        !p.contains('/'),
    ensures
        split_from(a + seq!['/'] + p, '/', i) == split_from(a, '/', i).push(p),
    decreases a.len() - i,
{
    let s = a + seq!['/'] + p;
    slash_is_found_alike(a, p, i);
    find_from_bounds(a, '/', i);
    let j = find_from(a, '/', i);
    if j < a.len() {
        last_part_is_split_off(a, p, j + 1);
        assert(s.subrange(i, j) =~= a.subrange(i, j));
        assert(split_from(s, '/', i) =~= split_from(a, '/', i).push(p));
    } else {
        let n = a.len() as int;
        assert(s.subrange(i, n) =~= a.subrange(i, n));
        assert forall|k: int| n + 1 <= k < s.len() implies #[trigger] s[k] != '/' by {
            assert(s[k] == p[k - n - 1]);
        }
        no_slash_is_found(a + seq!['/'], s, n + 1);
        assert(s.subrange(n + 1, s.len() as int) =~= p);
        assert(split_from(s, '/', n + 1) =~= seq![p]);
        assert(split_from(s, '/', i) =~= split_from(a, '/', i).push(p));
    }
}

proof fn others_stay(pieces: Seq<Seq<char>>, p: Seq<char>, n: int)
    requires
        n <= pieces.len(),
    ensures
        non_empty(pieces.push(p), n) == non_empty(pieces, n),
        named_parts(pieces.push(p), n) == named_parts(pieces, n),
    decreases n,
{
    if n > 0 {
        others_stay(pieces, p, n - 1);
        assert(pieces.push(p)[n - 1] == pieces[n - 1]);
    }
}

/// A part behind a slash is the last part of the path.
pub proof fn part_behind_a_slash_is_the_last(a: Seq<char>, p: Seq<char>)
    requires
        !p.contains('/'),
        p.len() > 0,
    ensures
        path_parts(a + seq!['/'] + p) == path_parts(a).push(p),
{
    last_part_is_split_off(a, p, 0);
    let pieces = split_at_char(a, '/');
    others_stay(pieces, p, pieces.len() as int);
    assert(pieces.push(p)[pieces.len() as int] == p);
}

/// A program goes by the last part of its path.
pub proof fn program_goes_by_its_name(folder: Seq<char>, p: Seq<char>)
    requires
        !p.contains('/'),
        p.len() > 0,
        p != "."@,
        p != ".."@,
    ensures
        base_name(folder + seq!['/'] + p) == p,
        shell_program(folder + seq!['/'] + p) <==> p == "bash"@ || p == "sh"@ || p == "zsh"@ || p
            == "dash"@ || p == "cmd"@ || p == "cmd.exe"@,
{
    part_behind_a_slash_is_the_last(folder, p);
    let parts = path_parts(folder);
    others_stay(parts, p, parts.len() as int);
    assert(parts.push(p)[parts.len() as int] == p);
    let named = named_parts(parts.push(p), parts.len() as int + 1);
    assert(named.last() == p);
}

proof fn marker_is_first(parts: Seq<Seq<char>>, from: int, k: int)
    requires
        0 <= from <= k <= parts.len(),
        k < parts.len() ==> project_marker(parts[k]),
        forall|m: int| from <= m < k ==> !project_marker(#[trigger] parts[m]),
    ensures
        marker_from(parts, from) == k,
    decreases k - from,
{
    if from < k {
        marker_is_first(parts, from + 1, k);
    }
}

/// An absolute path is told from its first well-known folder on; without one, a file by
/// its name, and a folder by its last two parts.
pub proof fn absolute_paths_are_shortened(path: Seq<char>, k: int)
    requires
        path.len() > 0,
        path[0] == '/',
        path_parts(path).len() > 0,
        0 <= k <= path_parts(path).len(),
        k < path_parts(path).len() ==> project_marker(path_parts(path)[k]),
        forall|m: int| 0 <= m < k ==> !project_marker(#[trigger] path_parts(path)[m]),
    ensures
        ({
            let parts = path_parts(path);
            let n = parts.len() as int;
            let file = parts[n - 1].contains('.');
            &&& k < n ==> compacted(path) == joined(parts.skip(k), "/"@)
            &&& k == n && (file || n == 1) ==> compacted(path) == parts[n - 1]
            &&& k == n && !file && n > 1 ==> compacted(path) == parts[n - 2] + "/"@ + parts[n - 1]
        }),
{
    let parts = path_parts(path);
    let n = parts.len() as int;
    marker_is_first(parts, 0, k);
    if k == n && n > 1 {
        let last = parts.skip(n - 2);
        reveal_with_fuel(joined, 3);
        assert(last =~= seq![parts[n - 2], parts[n - 1]]);
        assert(last.drop_last() =~= seq![parts[n - 2]]);
        assert(joined(last, "/"@) =~= parts[n - 2] + "/"@ + parts[n - 1]);
    }
}

/// The well-known folders are these.
pub proof fn project_folders(name: Seq<char>)
    ensures
        project_marker("src"@),
        project_marker("test"@),
        project_marker("tests"@),
        project_marker("crates"@),
        project_marker("packages"@),
        project_marker("web"@),
        project_marker("docweb"@),
        project_marker("docbackend"@),
        project_marker(name) ==> name == "src"@ || name == "test"@ || name == "tests"@ || name
            == "crates"@ || name == "packages"@ || name == "web"@ || name == "docweb"@ || name
            == "docbackend"@,
{
}

/// A patch in a text is what stands from the mark of its beginning to the mark of its
/// end; without that to the end of the text, and without either all of it.
pub proof fn patch_is_cut_out_whole(s: Seq<char>)
    ensures
        ({
            let b = "*** Begin Patch"@;
            let e = "*** End Patch"@;
            let p = raw_patch(s);
            &&& (forall|k: int| !occurs_at(s, b, k)) ==> p == s
            &&& (exists|k: int| occurs_at(s, b, k)) ==> begins(p, b) && exists|k: int|
                #![trigger s.skip(k)]
                0 <= k && k + p.len() <= s.len() && s.subrange(k, k + p.len()) == p && (k
                    + p.len() == s.len() || p.subrange(p.len() - e.len(), p.len() as int) == e)
        }),
{
    let b = "*** Begin Patch"@;
    let e = "*** End Patch"@;
    reveal_strlit("*** Begin Patch");
    reveal_strlit("*** End Patch");
    find_text_from_holds(s, b, 0);
    let start = find_text_from(s, b, 0);
    if start >= 0 {
        let tail = s.skip(start);
        find_text_from_holds(tail, e, 0);
        let end = find_text_from(tail, e, 0);
        let p = raw_patch(s);
        assert(s.subrange(start, start + b.len()) =~= b);
        assert(s.subrange(start, start + p.len()) =~= p);
        if end >= 0 {
            assert(tail.subrange(end, end + e.len()) =~= e);
            assert(tail.subrange(0, b.len() as int) =~= b);
            assert(tail[3] == b[3] && tail[4] == b[4]) by {
                assert(tail.subrange(0, b.len() as int)[3] == tail[3]);
                assert(tail.subrange(0, b.len() as int)[4] == tail[4]);
            }
            assert(tail[end + 4] == e[4] && tail[end + 2] == e[2]) by {
                assert(tail.subrange(end, end + e.len())[4] == tail[end + 4]);
                assert(tail.subrange(end, end + e.len())[2] == tail[end + 2]);
            }
            assert(b[4] == 'B' && e[4] == 'E' && b[3] == ' ' && e[2] == '*');
            assert(end >= 2);
            assert(p.subrange(0, b.len() as int) =~= b);
            assert(p.subrange(p.len() - e.len(), p.len() as int) =~= e);
        } else {
            assert(p == tail);
            assert(p.subrange(0, b.len() as int) =~= b);
        }
        assert(s.skip(start) == tail);
    } else {
        assert forall|k: int| !occurs_at(s, b, k) by {}
    }
}

/// A tab behind the word is read as a space is.
pub proof fn tab_is_read_as_a_space(w: Seq<char>, cmd: Seq<char>)
    requires
        one_word(w),
        !whitespace(w[0]),
    ensures
        cd_stripped("cd\t"@ + w + ";"@ + cmd) == cd_stripped(cmd),
{
    reveal_strlit("cd ");
    reveal_strlit("cd\t");
    reveal_strlit("&&");
    reveal_strlit(";");
    let n = w.len() as int;
    let b = "cd\t"@ + w + ";"@ + cmd;
    nothing_to_skip(b);
    assert(b.subrange(0, 3) =~= "cd\t"@);
    assert(!begins(b, "cd "@)) by {
        if begins(b, "cd "@) {
            assert(b.subrange(0, 3)[2] == b[2]);
            assert("cd "@[2] == ' ');
        }
    }
    let rb = w + (";"@ + cmd);
    assert(b.skip(3) =~= rb);
    nothing_to_skip(rb);
    word_is_read_whole(w, ";"@ + cmd);
    assert(rb.skip(n) =~= ";"@ + cmd);
    nothing_to_skip(";"@ + cmd);
    let tb = ";"@ + cmd;
    assert(tb.subrange(0, 1) =~= ";"@);
    assert(tb.skip(1) =~= cmd);
    assert(!begins(tb, "&&"@)) by {
        if begins(tb, "&&"@) {
            assert(tb.subrange(0, 2)[0] == ';');
            assert("&&"@[0] == '&');
        }
    }
    assert(after_cd(b) == Some(cmd));
}

/// A tool without a summary of its own is told by the first of these fields that says
/// anything, in this order.
pub proof fn fields_are_asked_in_order(v: JsonV, home: Option<Seq<char>>, k: int)
    requires
        0 <= k < human_keys().len(),
        json_field_or_empty(v, human_keys()[k]).len() > 0,
        forall|m: int|
            0 <= m < k ==> json_field_or_empty(v, #[trigger] human_keys()[m]).len() == 0,
    ensures
        human_keys() == seq![
            "path"@,
            "file"@,
            "file_path"@,
            "filepath"@,
            "target_file"@,
            "query"@,
            "pattern"@,
            "symbol"@,
            "description"@,
            "prompt"@,
            "cmd"@,
            "command"@,
            "name"@,
        ],
        first_human(v, human_keys(), home, 0) == (if has_text(human_keys()[k], "path"@)
            || human_keys()[k] == "file"@ {
            compacted(json_field_or_empty(v, human_keys()[k]))
        } else {
            home_compacted(json_field_or_empty(v, human_keys()[k]), home)
        }),
{
    reveal_strlit("filepath");
    reveal_strlit("path");
    let f = "filepath"@;
    assert(f.subrange(4, 8) =~= "path"@);
    crate::strings::has_text_is_occurrence(f, "path"@);
    assert(occurs_at(f, "path"@, 4));
    first_field_is_taken(v, home, 0, k);
}

proof fn first_field_is_taken(v: JsonV, home: Option<Seq<char>>, from: int, k: int)
    requires
        0 <= from <= k < human_keys().len(),
        json_field_or_empty(v, human_keys()[k]).len() > 0,
        forall|m: int|
            from <= m < k ==> json_field_or_empty(v, #[trigger] human_keys()[m]).len() == 0,
    ensures
        first_human(v, human_keys(), home, from) == first_human(v, human_keys(), home, k),
    decreases k - from,
{
    if from < k {
        assert(json_field_or_empty(v, human_keys()[from]).len() == 0);
        first_field_is_taken(v, home, from + 1, k);
    }
}

/// The home directory in a command is a tilde; without one the command stays.
pub proof fn home_in_a_command_is_a_tilde(head: Seq<char>, home: Seq<char>, tail: Seq<char>)
    requires
        home.len() > 0,
        !head.contains(home[0]),
        forall|k: int| !occurs_at(tail, home, k),
    ensures
        home_compacted(head + home + tail, Some(home)) == head + "~"@ + tail,
        home_compacted(head, None) == head,
{
    only_gap_is_filled(head, home, tail, "~"@);
}

/// A patch is found where it stands in the arguments: in a text itself, and in a list or
/// an object in the first place that holds one.
pub proof fn patch_is_found_in_the_arguments(
    s: Seq<char>,
    items: Seq<JsonV>,
    entries: Seq<(Seq<char>, JsonV)>,
    text: Seq<char>,
    k: int,
)
    ensures
        has_text(s, "*** Begin Patch"@) || has_text(s, "\n+++ b/"@) ==> patch_value(JsonV::Text(s))
            == Some(s),
        !has_text(s, "*** Begin Patch"@) && !has_text(s, "\n+++ b/"@) ==> patch_value(
            JsonV::Text(s),
        ) is None,
        0 <= k < items.len() && patch_value(items[k]) is Some && (forall|m: int|
            0 <= m < k ==> patch_value(#[trigger] items[m]) is None) ==> patch_value(
            JsonV::Array { items, text },
        ) == patch_value(items[k]),
        0 <= k < entries.len() && patch_value(entries[k].1) is Some && (forall|m: int|
            0 <= m < k ==> patch_value((#[trigger] entries[m]).1) is None) ==> patch_value(
            JsonV::Object { entries, text },
        ) == patch_value(entries[k].1),
{
    if 0 <= k < items.len() && patch_value(items[k]) is Some && (forall|m: int|
        0 <= m < k ==> patch_value(#[trigger] items[m]) is None) {
        first_item_is_taken(items, 0, k);
    }
    if 0 <= k < entries.len() && patch_value(entries[k].1) is Some && (forall|m: int|
        0 <= m < k ==> patch_value((#[trigger] entries[m]).1) is None) {
        first_entry_is_taken(entries, 0, k);
    }
}

proof fn first_item_is_taken(items: Seq<JsonV>, from: int, k: int)
    requires
        0 <= from <= k < items.len(),
        patch_value(items[k]) is Some,
        forall|m: int| from <= m < k ==> patch_value(#[trigger] items[m]) is None,
    ensures
        patch_in_items(items, from) == patch_value(items[k]),
    decreases k - from,
{
    if from < k {
        first_item_is_taken(items, from + 1, k);
    }
}

proof fn first_entry_is_taken(entries: Seq<(Seq<char>, JsonV)>, from: int, k: int)
    requires
        0 <= from <= k < entries.len(),
        patch_value(entries[k].1) is Some,
        forall|m: int| from <= m < k ==> patch_value((#[trigger] entries[m]).1) is None,
    ensures
        patch_in_entries(entries, from) == patch_value(entries[k].1),
    decreases k - from,
{
    if from < k {
        first_entry_is_taken(entries, from + 1, k);
    }
}

/// A goal that was closed tells how, and its summary behind a colon without the marks of
/// emphasis.
pub proof fn goal_tells_its_summary(v: JsonV)
    ensures
        ({
            let said = replaced(
                replaced(json_field_or_empty(v, "summary"@), "**"@, ""@),
                "`"@,
                ""@,
            );
            let how = if json_field_or_empty(v, "status"@) == "blocked"@ {
                "受阻"@
            } else {
                "完成"@
            };
            &&& said.len() == 0 ==> goal_summary(v) == how
            &&& said.len() > 0 ==> goal_summary(v) == how + "："@ + said
        }),
{
}

/// A delegation that the runtime does not know is told by its hint, any other by what it
/// left; a goal that was closed is told by its closing words.
pub proof fn unknown_delegation_is_hinted_at(block: ToolCallBlock, t: UiText, left: Seq<char>)
    requires
        block.preview is Some,
        block.preview->0@ == left,
        trimmed(left).len() > 0,
    ensures
        block.name@ == "task"@ && (has_text(left, "unknown tool"@) || has_text(
            left,
            "spawn_agent"@,
        )) ==> preview_of(block, t) == Some(t.unsupported_task_hint@),
        block.name@ == "task"@ && !has_text(left, "unknown tool"@) && !has_text(
            left,
            "spawn_agent"@,
        ) ==> preview_of(block, t) == Some(left),
        (json_parsed(block.arguments@) matches Some(v) ==> (block.name@ == "update_goal"@
            && goal_summary(v).len() > 0 ==> preview_of(block, t) == Some(goal_summary(v)))),
{
    reveal_strlit("task");
    reveal_strlit("update_goal");
    assert("task"@.len() == 4 && "update_goal"@.len() == 11);
}

proof fn items_ignore_what_follows(items: Seq<JsonV>, v: JsonV, n: int)
    requires
        n <= items.len(),
    ensures
        string_items(items.push(v), n) == string_items(items, n),
    decreases n,
{
    if n > 0 {
        items_ignore_what_follows(items, v, n - 1);
        assert(items.push(v)[n - 1] == items[n - 1]);
    }
}

/// Every text among the arguments of a program is one of them, in order; anything else is
/// left out.
pub proof fn arguments_are_the_texts(items: Seq<JsonV>, v: JsonV)
    ensures
        string_items(Seq::empty(), 0).len() == 0,
        (v matches JsonV::Text(s) ==> string_items(items.push(v), items.len() as int + 1)
            == string_items(items, items.len() as int).push(s)),
        !(v is Text) ==> string_items(items.push(v), items.len() as int + 1) == string_items(
            items,
            items.len() as int,
        ),
{
    items_ignore_what_follows(items, v, items.len() as int);
    assert(items.push(v)[items.len() as int] == v);
}

/// Arguments that are no JSON are told as a patch by the files it touches, as a
/// replacement by its name, and else as a command line; what only looks like JSON is not
/// told at all.
pub proof fn plain_arguments_are_told(
    name: Seq<char>,
    arguments: Seq<char>,
    within: Seq<char>,
    home: Option<Seq<char>>,
)
    ensures
        json_parsed(arguments) is None ==> {
            let told = summary_of(name, arguments, within, home);
            let looks = trimmed_start(arguments).len() > 0 && (trimmed_start(arguments)[0] == '{'
                || trimmed_start(arguments)[0] == '[');
            &&& name == "apply_patch"@ ==> told == truncated(
                patch_summary(patch_of_arguments(arguments)),
                64,
            )
            &&& name == "replace"@ ==> told == "文本替换"@
            &&& name != "apply_patch"@ && name != "replace"@ && looks ==> told.len() == 0
            &&& name != "apply_patch"@ && name != "replace"@ && !looks ==> told == truncated(
                command_summary(arguments, home),
                56,
            )
        },
{
    reveal_strlit("apply_patch");
    reveal_strlit("replace");
    reveal_strlit("{");
    reveal_strlit("[");
    assert("apply_patch"@.len() == 11 && "replace"@.len() == 7);
    let s = trimmed_start(arguments);
    assert("{"@[0] == '{' && "["@[0] == '[');
    if s.len() > 0 {
        assert(s.subrange(0, 1)[0] == s[0]);
        if s[0] == '{' {
            assert(s.subrange(0, 1) =~= "{"@);
        }
        if s[0] == '[' {
            assert(s.subrange(0, 1) =~= "["@);
        }
    }
}

} // verus!
