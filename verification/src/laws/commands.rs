//! What the commands, their popup and the tools' categories promise.

use vstd::prelude::*;

use crate::i18n::{SlashText, UiText};
use crate::laws::files::{match_sets_case_aside, stands_at};
use crate::laws::leads;
use crate::screen::{
    category_of, category_text, copy_of, find_def, ghost_for, ghost_of, listed_upto, mention,
    mention_query, passes, popup_for, popup_of, popup_upto, prefixed, primary, registry, skill_rows,
    Category, DefV, SlashCategory, ToolFilter,
};
use crate::strings::{
    ascii_lower, begins, has_text, lowered, skip_set, skip_white, text_words, trimmed, whitespace,
    word_end, words_from,
};
use crate::transcript::{ToolCallBlock, ToolStatus};

verus! {

// ---------------------------------------------------------------- the popup

proof fn leading_is_beginning(p: Seq<char>, s: Seq<char>)
    ensures
        leads(p, s) <==> begins(s, p),
{
    if leads(p, s) {
        assert(s.subrange(0, p.len() as int) =~= p);
    }
    if begins(s, p) {
        assert forall|i: int| 0 <= i < p.len() implies #[trigger] s[i] == p[i] by {
            assert(s.subrange(0, p.len() as int)[i] == p[i]);
        }
    }
}

/// Whether a command goes by a name that begins with what was typed.
pub open spec fn begun(d: DefV, typed: Seq<char>) -> bool {
    leads(typed, d.name) || exists|i: int|
        0 <= i < d.aliases.len() && leads(typed, #[trigger] d.aliases[i])
}

proof fn popup_ignores_what_follows(
    defs: Seq<DefV>,
    d: DefV,
    typed: Seq<char>,
    t: UiText,
    cat: Option<SlashCategory>,
    n: int,
)
    requires
        n <= defs.len(),
    ensures
        popup_upto(defs.push(d), typed, t, n) == popup_upto(defs, typed, t, n),
        listed_upto(defs.push(d), t, cat, n) == listed_upto(defs, t, cat, n),
    decreases n,
{
    if n > 0 {
        popup_ignores_what_follows(defs, d, typed, t, cat, n - 1);
        assert(defs.push(d)[n - 1] == defs[n - 1]);
    }
}

/// A command adds its row to the popup where one of its names begins with what was
/// typed; an internal command never does, and one that is only searched for not on a
/// bare slash. Otherwise nothing is added.
pub proof fn popup_offers_what_was_begun(defs: Seq<DefV>, d: DefV, typed: Seq<char>, t: UiText)
    ensures
        ({
            let before = popup_upto(defs, typed, t, defs.len() as int);
            let after = popup_upto(defs.push(d), typed, t, defs.len() as int + 1);
            let visible = d.visibility is Quick || (d.visibility is Searchable && typed != "/"@);
            &&& visible && begun(d, typed) ==> after == before.push(
                (d.name, copy_of(d.name, t.slash_brief)),
            )
            &&& !(visible && begun(d, typed)) ==> after == before
        }),
{
    popup_ignores_what_follows(defs, d, typed, t, None, defs.len() as int);
    assert(defs.push(d)[defs.len() as int] == d);
    leading_is_beginning(typed, d.name);
    assert forall|i: int| 0 <= i < d.aliases.len() implies leads(typed, #[trigger] d.aliases[i])
        == begins(d.aliases[i], typed) by {
        leading_is_beginning(typed, d.aliases[i]);
    }
    assert(begun(d, typed) == prefixed(d, typed));
}

/// The help lists every command that is listed, by its name and description, in its own
/// group and in the list of all.
pub proof fn help_lists_every_listed_command(
    defs: Seq<DefV>,
    d: DefV,
    t: UiText,
    cat: Option<SlashCategory>,
)
    ensures
        ({
            let before = listed_upto(defs, t, cat, defs.len() as int);
            let after = listed_upto(defs.push(d), t, cat, defs.len() as int + 1);
            let wanted = d.listed && (cat is None || cat->0 == d.category);
            &&& wanted ==> after == before.push((d.name, copy_of(d.name, t.slash)))
            &&& !wanted ==> after == before
        }),
{
    popup_ignores_what_follows(defs, d, Seq::empty(), t, cat, defs.len() as int);
    assert(defs.push(d)[defs.len() as int] == d);
}

/// Every command of the registry is described by its own wording, and its aliases by the
/// same.
pub proof fn commands_have_their_own_wording(s: SlashText)
    ensures
        copy_of("/model"@, s) == s.model@,
        copy_of("/permission"@, s) == s.permission@,
        copy_of("/mode"@, s) == s.permission@,
        copy_of("/goal"@, s) == s.goal@,
        copy_of("/btw"@, s) == s.btw@,
        copy_of("/recap"@, s) == s.recap@,
        copy_of("/work-mode"@, s) == s.work_mode@,
        copy_of("/collab"@, s) == s.collab@,
        copy_of("/plan"@, s) == s.plan_collab@,
        copy_of("/memory"@, s) == s.memory@,
        copy_of("/skill"@, s) == s.skill@,
        copy_of("/feature-dev"@, s) == s.feature_dev@,
        copy_of("/diff"@, s) == s.diff@,
        copy_of("/trace"@, s) == s.trace@,
        copy_of("/tools"@, s) == s.tools@,
        copy_of("/sessions"@, s) == s.sessions@,
        copy_of("/restore"@, s) == s.restore@,
        copy_of("/fork"@, s) == s.fork@,
        copy_of("/compact"@, s) == s.compact@,
        copy_of("/export"@, s) == s.export@,
        copy_of("/web"@, s) == s.web@,
        copy_of("/remote"@, s) == s.remote@,
        copy_of("/remote-loc"@, s) == s.remote_loc@,
        copy_of("/attach"@, s) == s.attach@,
        copy_of("/paste"@, s) == s.paste@,
        copy_of("/editor"@, s) == s.editor@,
        copy_of("/theme"@, s) == s.theme@,
        copy_of("/clear"@, s) == s.clear@,
        copy_of("/doctor"@, s) == s.doctor@,
        copy_of("/help"@, s) == s.help@,
        copy_of("/quit"@, s) == s.quit@,
{
    reveal_strlit("/model");
    assert("/model"@.len() == 6 && "/model"@[1] == 'm');
    reveal_strlit("/permission");
    assert("/permission"@.len() == 11 && "/permission"@[1] == 'p');
    reveal_strlit("/mode");
    assert("/mode"@.len() == 5 && "/mode"@[1] == 'm');
    reveal_strlit("/goal");
    assert("/goal"@.len() == 5 && "/goal"@[1] == 'g');
    reveal_strlit("/btw");
    assert("/btw"@.len() == 4 && "/btw"@[1] == 'b');
    reveal_strlit("/recap");
    assert("/recap"@.len() == 6 && "/recap"@[1] == 'r');
    reveal_strlit("/work-mode");
    assert("/work-mode"@.len() == 10 && "/work-mode"@[5] == '-');
    reveal_strlit("/work_mode");
    assert("/work_mode"@.len() == 10 && "/work_mode"@[5] == '_');
    reveal_strlit("/collab");
    assert("/collab"@.len() == 7 && "/collab"@[1] == 'c');
    reveal_strlit("/plan");
    assert("/plan"@.len() == 5 && "/plan"@[1] == 'p');
    reveal_strlit("/memory");
    assert("/memory"@.len() == 7 && "/memory"@[1] == 'm');
    reveal_strlit("/skill");
    assert("/skill"@.len() == 6 && "/skill"@[1] == 's');
    reveal_strlit("/feature-dev");
    assert("/feature-dev"@.len() == 12);
    reveal_strlit("/diff");
    assert("/diff"@.len() == 5 && "/diff"@[1] == 'd');
    reveal_strlit("/trace");
    assert("/trace"@.len() == 6 && "/trace"@[1] == 't' && "/trace"@[2] == 'r');
    reveal_strlit("/tools");
    assert("/tools"@.len() == 6 && "/tools"@[1] == 't' && "/tools"@[2] == 'o');
    reveal_strlit("/sessions");
    assert("/sessions"@.len() == 9);
    reveal_strlit("/restore");
    assert("/restore"@.len() == 8 && "/restore"@[1] == 'r');
    reveal_strlit("/checkpoint");
    assert("/checkpoint"@.len() == 11 && "/checkpoint"@[1] == 'c');
    reveal_strlit("/rewind");
    assert("/rewind"@.len() == 7 && "/rewind"@[1] == 'r' && "/rewind"@[3] == 'w');
    reveal_strlit("/fork");
    assert("/fork"@.len() == 5 && "/fork"@[1] == 'f');
    reveal_strlit("/compact");
    assert("/compact"@.len() == 8 && "/compact"@[1] == 'c');
    reveal_strlit("/export");
    assert("/export"@.len() == 7 && "/export"@[1] == 'e' && "/export"@[2] == 'x');
    reveal_strlit("/save");
    assert("/save"@.len() == 5 && "/save"@[1] == 's');
    reveal_strlit("/web");
    assert("/web"@.len() == 4 && "/web"@[1] == 'w');
    reveal_strlit("/remote");
    assert("/remote"@.len() == 7 && "/remote"@[1] == 'r' && "/remote"@[3] == 'm');
    reveal_strlit("/remote-loc");
    assert("/remote-loc"@.len() == 11 && "/remote-loc"@[1] == 'r');
    reveal_strlit("/image");
    assert("/image"@.len() == 6 && "/image"@[1] == 'i');
    reveal_strlit("/attach");
    assert("/attach"@.len() == 7 && "/attach"@[1] == 'a');
    reveal_strlit("/paste");
    assert("/paste"@.len() == 6 && "/paste"@[1] == 'p');
    reveal_strlit("/editor");
    assert("/editor"@.len() == 7 && "/editor"@[1] == 'e' && "/editor"@[2] == 'd');
    reveal_strlit("/theme");
    assert("/theme"@.len() == 6 && "/theme"@[1] == 't' && "/theme"@[2] == 'h');
    reveal_strlit("/clear");
    assert("/clear"@.len() == 6 && "/clear"@[1] == 'c');
    reveal_strlit("/new");
    assert("/new"@.len() == 4 && "/new"@[1] == 'n');
    reveal_strlit("/doctor");
    assert("/doctor"@.len() == 7 && "/doctor"@[1] == 'd');
    reveal_strlit("/help");
    assert("/help"@.len() == 5 && "/help"@[1] == 'h');
    reveal_strlit("/quit");
    assert("/quit"@.len() == 5 && "/quit"@[1] == 'q');
    reveal_strlit("/q");
    assert("/q"@.len() == 2);
}

proof fn skills_ignore_what_follows(
    catalog: Seq<(Seq<char>, Seq<char>)>,
    s: (Seq<char>, Seq<char>),
    typed: Seq<char>,
    t: UiText,
    n: int,
)
    requires
        n <= catalog.len(),
    ensures
        skill_rows(catalog.push(s), typed, t, n) == skill_rows(catalog, typed, t, n),
    decreases n,
{
    if n > 0 {
        skills_ignore_what_follows(catalog, s, typed, t, n - 1);
        assert(catalog.push(s)[n - 1] == catalog[n - 1]);
    }
}

/// A skill whose name is no command is offered under a slash where what was typed begins
/// it, told by its own wording, else by its description, else as a skill. Under a bare
/// slash only the skills with wording of their own are offered, and a skill that a command
/// hides never is.
pub proof fn skills_join_the_popup(
    catalog: Seq<(Seq<char>, Seq<char>)>,
    name: Seq<char>,
    desc: Seq<char>,
    rest: Seq<char>,
    t: UiText,
)
    requires
        rest.len() > 0 ==> rest[0] != '/',
    ensures
        ({
            let typed = "/"@ + rest;
            let n = catalog.len() as int;
            let own = copy_of("/"@ + name, t.slash_brief);
            let before = skill_rows(catalog, typed, t, n);
            let after = skill_rows(catalog.push((name, desc)), typed, t, n + 1);
            let wanted = find_def(registry(), "/"@ + name, 0) is None && leads(rest, name) && (
            rest.len() > 0 || own.len() > 0);
            &&& wanted ==> after == before.push(
                (
                    "/"@ + name,
                    if own.len() > 0 {
                        own
                    } else if desc.len() > 0 {
                        desc
                    } else {
                        t.slash.skill_entry@
                    },
                ),
            )
            &&& !wanted ==> after == before
        }),
{
    reveal_strlit("/");
    let typed = "/"@ + rest;
    let n = catalog.len() as int;
    skills_ignore_what_follows(catalog, (name, desc), typed, t, n);
    assert(catalog.push((name, desc))[n] == (name, desc));
    reveal_with_fuel(skip_set, 3);
    assert("/"@.contains('/')) by {
        assert("/"@[0] == '/');
    }
    assert(typed[0] == '/');
    assert(rest.len() > 0 ==> typed[1] == rest[0]);
    assert(skip_set(typed, "/"@, 0) == 1);
    assert(typed.skip(1) =~= rest);
    let entry = "/"@ + name;
    leading_is_beginning(rest, name);
    leading_is_beginning(typed, entry);
    if leads(typed, entry) {
        assert forall|i: int| 0 <= i < rest.len() implies #[trigger] name[i] == rest[i] by {
            assert(entry[i + 1] == typed[i + 1]);
        }
    }
    assert(typed == "/"@ <==> rest.len() == 0) by {
        if rest.len() == 0 {
            assert(typed =~= "/"@);
        }
    }
}

/// The popup opens on a line that begins with a slash and on nothing else; behind a
/// space it stays only where there is a choice left.
pub proof fn popup_opens_on_a_slash(
    text: Seq<char>,
    t: UiText,
    catalog: Seq<(Seq<char>, Seq<char>)>,
    skill_text: UiText,
)
    ensures
        ({
            let rows = popup_for(text, t, catalog, skill_text);
            &&& text.len() == 0 || text[0] != '/' ==> rows.len() == 0
            &&& text.contains('\n') ==> rows.len() == 0
            &&& text.contains(' ') ==> rows.len() != 1
            &&& text.len() > 0 && text[0] == '/' && (forall|k: int|
                0 <= k < text.len() ==> !whitespace(#[trigger] text[k])) ==> rows == popup_of(
                text,
                t,
            ) + skill_rows(catalog, text, skill_text, catalog.len() as int)
        }),
{
    reveal_strlit("/");
    if text.len() > 0 {
        assert(text.subrange(0, 1) =~= seq![text[0]]);
        assert("/"@ =~= seq!['/']);
        if text[0] != '/' && text.subrange(0, 1) == "/"@ {
            assert(text.subrange(0, 1)[0] == text[0]);
        }
    }
    if text.len() > 0 && text[0] == '/' && (forall|k: int|
        0 <= k < text.len() ==> !whitespace(#[trigger] text[k])) {
        assert(Seq::<char>::empty() + text =~= text);
        last_word_is_pushed(Seq::empty(), text);
        assert(text_words(Seq::<char>::empty()) =~= Seq::empty());
        assert(text_words(text)[0] == text);
        assert(!text.contains(' ')) by {
            if text.contains(' ') {
                let k = choose|k: int| 0 <= k < text.len() && text[k] == ' ';
                assert(whitespace(text[k]));
            }
        }
        assert(!text.contains('\n')) by {
            if text.contains('\n') {
                let k = choose|k: int| 0 <= k < text.len() && text[k] == '\n';
                assert(whitespace(text[k]));
            }
        }
    }
}

// ---------------------------------------------------------------- words

proof fn white_is_skipped_alike(pre: Seq<char>, w: Seq<char>, i: int)
    requires
        w.len() > 0,
        !whitespace(w[0]),
        0 <= i <= pre.len(),
    ensures
        skip_white(pre + w, i) == skip_white(pre, i),
        i <= skip_white(pre, i) <= pre.len(),
        skip_white(pre, i) < pre.len() ==> !whitespace(pre[skip_white(pre, i)]),
    decreases pre.len() - i,
{
    let s = pre + w;
    if i < pre.len() {
        assert(s[i] == pre[i]);
        if whitespace(pre[i]) {
            white_is_skipped_alike(pre, w, i + 1);
        }
    } else {
        assert(s[i] == w[0]);
    }
}

proof fn word_ends_alike(pre: Seq<char>, w: Seq<char>, a: int)
    requires
        0 <= a < pre.len(),
        whitespace(pre.last()),
    ensures
        word_end(pre + w, a) == word_end(pre, a),
        a <= word_end(pre, a) < pre.len(),
        !whitespace(pre[a]) ==> a < word_end(pre, a),
    decreases pre.len() - a,
{
    let s = pre + w;
    assert(s[a] == pre[a]);
    if !whitespace(pre[a]) {
        assert(a + 1 < pre.len());
        word_ends_alike(pre, w, a + 1);
    }
}

proof fn word_runs_to_the_end(s: Seq<char>, a: int)
    requires
        0 <= a <= s.len(),
        forall|k: int| a <= k < s.len() ==> !whitespace(#[trigger] s[k]),
    ensures
        word_end(s, a) == s.len(),
    decreases s.len() - a,
{
    if a < s.len() {
        word_runs_to_the_end(s, a + 1);
    }
}

proof fn words_are_found_alike(pre: Seq<char>, w: Seq<char>, i: int)
    requires
        w.len() > 0,
        forall|k: int| 0 <= k < w.len() ==> !whitespace(#[trigger] w[k]),
        pre.len() > 0 ==> whitespace(pre.last()),
        0 <= i <= pre.len(),
    ensures
        words_from(pre + w, i) == words_from(pre, i).push(w),
    decreases pre.len() - i,
{
    let s = pre + w;
    white_is_skipped_alike(pre, w, i);
    let a = skip_white(pre, i);
    if a < pre.len() {
        word_ends_alike(pre, w, a);
        let b = word_end(pre, a);
        words_are_found_alike(pre, w, b);
        assert(s.subrange(a, b) =~= pre.subrange(a, b));
        assert(words_from(s, i) =~= words_from(pre, i).push(w));
    } else {
        assert forall|k: int| a <= k < s.len() implies !whitespace(#[trigger] s[k]) by {
            assert(s[k] == w[k - a]);
        }
        word_runs_to_the_end(s, a);
        assert(s.subrange(a, s.len() as int) =~= w);
        assert(skip_white(s, s.len() as int) == s.len());
        assert(words_from(s, s.len() as int) =~= Seq::empty());
        assert(words_from(pre, i) =~= Seq::empty());
        assert(words_from(s, i) =~= words_from(pre, i).push(w));
    }
}

/// A word behind white space, or alone, is the last of the words.
pub proof fn last_word_is_pushed(pre: Seq<char>, w: Seq<char>)
    requires
        w.len() > 0,
        forall|k: int| 0 <= k < w.len() ==> !whitespace(#[trigger] w[k]),
        pre.len() > 0 ==> whitespace(pre.last()),
    ensures
        text_words(pre + w) == text_words(pre).push(w),
{
    words_are_found_alike(pre, w, 0);
}

/// A file is asked for by a word that begins with an at sign; what follows the sign is
/// the query. A word that begins otherwise asks for none.
pub proof fn at_sign_asks_for_a_file(pre: Seq<char>, w: Seq<char>)
    requires
        w.len() > 0,
        forall|k: int| 0 <= k < w.len() ==> !whitespace(#[trigger] w[k]),
        pre.len() > 0 ==> whitespace(pre.last()),
    ensures
        w[0] == '@' ==> mention_query(pre + w) == Some(w.skip(1)),
        w[0] != '@' ==> mention_query(pre + w) is None,
{
    reveal_strlit("@");
    last_word_is_pushed(pre, w);
    assert(w.subrange(0, 1) =~= seq![w[0]]);
    assert("@"@ =~= seq!['@']);
    if w[0] != '@' && w.subrange(0, 1) == "@"@ {
        assert(w.subrange(0, 1)[0] == w[0]);
    }
}

// ---------------------------------------------------------------- skills and hints

/// A skill is mentioned by a dollar sign and its name, and what is to be done follows
/// behind a space.
pub proof fn mention_names_the_skill(name: Seq<char>, rest: Seq<char>)
    requires
        name.len() > 0,
        name[0] != '$',
        trimmed(name) == name,
    ensures
        trimmed(rest).len() == 0 ==> mention(name, rest) == "$"@ + name,
        trimmed(rest).len() > 0 ==> mention(name, rest) == "$"@ + name + " "@ + trimmed(rest),
{
    reveal_strlit("$");
    assert(!"$"@.contains(name[0]));
    assert(name.skip(0) =~= name);
}

/// The groups of commands have each their own title.
pub proof fn groups_have_their_titles(t: UiText)
    ensures
        category_text(SlashCategory::Agent, t) == t.help_group_agent@,
        category_text(SlashCategory::View, t) == t.help_group_view@,
        category_text(SlashCategory::Session, t) == t.help_group_session@,
        category_text(SlashCategory::Input, t) == t.help_group_input@,
        category_text(SlashCategory::System, t) == t.help_group_system@,
{
}

/// The hint behind a command's name is its own, with a space of its own where none was
/// typed yet.
pub proof fn hints_are_the_commands_own(t: UiText)
    ensures
        ghost_of("/btw"@, t) == Some((t.slash_ghost.btw@, t.slash_ghost.btw_spaced@)),
        ghost_of("/goal"@, t) == Some((t.slash_ghost.goal@, t.slash_ghost.goal_spaced@)),
        ghost_of("/skill"@, t) == Some((t.slash_ghost.skill@, t.slash_ghost.skill_spaced@)),
        ghost_of("/attach"@, t) == Some((t.slash_ghost.path@, t.slash_ghost.path_spaced@)),
{
    reveal_strlit("/btw");
    assert("/btw"@.len() == 4);
    reveal_strlit("/goal");
    assert("/goal"@.len() == 5);
    reveal_strlit("/skill");
    assert("/skill"@.len() == 6);
    reveal_strlit("/attach");
    assert("/attach"@.len() == 7);
}

/// A hint ends its line: one typed without a space behind it gets the wording with one.
pub proof fn hint_brings_its_space(text: Seq<char>, t: UiText, name: Seq<char>)
    requires
        primary(text.take(word_end(text, 0))) == Some(name),
        ghost_of(name, t) is Some,
        ghost_for(text, t) is Some,
    ensures
        whitespace(text.last()) ==> ghost_for(text, t)->0 == (ghost_of(name, t)->0).0,
        !whitespace(text.last()) ==> ghost_for(text, t)->0 == (ghost_of(name, t)->0).1,
{
}

/// A bare slash, or nothing, stands for the help.
pub proof fn bare_slash_is_help()
    ensures
        primary("/"@) == Some("/help"@),
        primary(Seq::empty()) == Some("/help"@),
{
}

/// A command may be named with its slash or without.
pub proof fn slash_may_be_left_out(token: Seq<char>)
    requires
        token.len() > 0,
        token[0] != '/',
    ensures
        primary(token) == primary("/"@ + token),
{
    reveal_strlit("/");
    let slashed = "/"@ + token;
    assert(slashed.subrange(0, 1) =~= "/"@);
    assert(token.subrange(0, 1)[0] == token[0]);
    assert(token.subrange(0, 1) != "/"@);
    assert(slashed.len() > 1);
    assert(slashed != "/"@);
    assert(token != "/"@);
}

// ---------------------------------------------------------------- tools

/// Whether a tool's name holds `part`, ASCII case aside.
pub open spec fn names_part(name: Seq<char>, part: Seq<char>) -> bool {
    exists|k: int| #[trigger] stands_at(name, part, k)
}

proof fn part_is_found(name: Seq<char>, part: Seq<char>)
    requires
        forall|i: int| 0 <= i < part.len() ==> !(65 <= #[trigger] part[i] as int <= 90),
    ensures
        has_text(lowered(name), part) <==> names_part(name, part),
{
    match_sets_case_aside(name, part);
    assert forall|i: int| 0 <= i < part.len() implies lowered(part)[i] == #[trigger] part[i] by {
        letter_stays(part[i]);
    }
    assert(lowered(part) =~= part);
}

proof fn letter_stays(c: char)
    requires
        !(65 <= c as int <= 90),
    ensures
        ascii_lower(c) == c,
{
    assert('A' as u32 == 65 && 'Z' as u32 == 90);
    assert(c as u32 == c as int);
}

/// The tool that runs commands is a shell; a tool that reads, searches or lists by its
/// name reads; one that writes, patches or edits by its name writes; any other is other.
pub proof fn tools_are_sorted_by_their_name(name: Seq<char>)
    ensures
        ({
            let reads = names_part(name, "read"@) || names_part(name, "grep"@) || names_part(
                name,
                "search"@,
            ) || names_part(name, "find"@) || names_part(name, "list"@) || names_part(
                name,
                "symbol"@,
            );
            let writes = names_part(name, "write"@) || names_part(name, "patch"@) || names_part(
                name,
                "edit"@,
            ) || names_part(name, "apply"@) || names_part(name, "create"@) || names_part(
                name,
                "delete"@,
            );
            let shell = lowered(name) == "run_command"@;
            &&& shell ==> category_of(name) == Category::Shell
            &&& !shell && reads ==> category_of(name) == Category::Read
            &&& !shell && !reads && writes ==> category_of(name) == Category::Write
            &&& !shell && !reads && !writes ==> category_of(name) == Category::Other
        }),
{
    reveal_strlit("read");
    part_is_found(name, "read"@);
    reveal_strlit("grep");
    part_is_found(name, "grep"@);
    reveal_strlit("search");
    part_is_found(name, "search"@);
    reveal_strlit("find");
    part_is_found(name, "find"@);
    reveal_strlit("list");
    part_is_found(name, "list"@);
    reveal_strlit("symbol");
    part_is_found(name, "symbol"@);
    reveal_strlit("write");
    part_is_found(name, "write"@);
    reveal_strlit("patch");
    part_is_found(name, "patch"@);
    reveal_strlit("edit");
    part_is_found(name, "edit"@);
    reveal_strlit("apply");
    part_is_found(name, "apply"@);
    reveal_strlit("create");
    part_is_found(name, "create"@);
    reveal_strlit("delete");
    part_is_found(name, "delete"@);
}

/// The filter of failed calls passes the failed ones and no other, the filter of all
/// passes each, and a kind's filter the calls of that kind.
pub proof fn filters_pass_their_kind(block: ToolCallBlock)
    ensures
        passes(ToolFilter::All, block),
        passes(ToolFilter::Failed, block) <==> block.status == ToolStatus::Failed,
        passes(ToolFilter::Read, block) <==> category_of(block.name@) == Category::Read,
        passes(ToolFilter::Write, block) <==> category_of(block.name@) == Category::Write,
        passes(ToolFilter::Shell, block) <==> category_of(block.name@) == Category::Shell,
{
}

/// Behind a space the popup goes by the first word, and stays while more than one row is
/// left.
pub proof fn popup_stays_while_there_is_a_choice(
    token: Seq<char>,
    rest: Seq<char>,
    t: UiText,
    catalog: Seq<(Seq<char>, Seq<char>)>,
    skill_text: UiText,
)
    requires
        token.len() > 0,
        token[0] == '/',
        forall|k: int| 0 <= k < token.len() ==> !whitespace(#[trigger] token[k]),
        forall|k: int| 0 <= k < rest.len() ==> whitespace(#[trigger] rest[k]) && rest[k] != '\n',
        rest.len() > 0,
        rest[0] == ' ',
    ensures
        ({
            let full = popup_of(token, t) + skill_rows(
                catalog,
                token,
                skill_text,
                catalog.len() as int,
            );
            let rows = popup_for(token + rest, t, catalog, skill_text);
            &&& full.len() > 1 ==> rows == full
            &&& full.len() <= 1 ==> rows.len() == 0
        }),
{
    reveal_strlit("/");
    let text = token + rest;
    let n = token.len() as int;
    assert(text.subrange(0, 1) =~= "/"@) by {
        assert(text[0] == '/');
    }
    assert(text[n] == ' ');
    assert(text.contains(' '));
    assert(!text.contains('\n')) by {
        if text.contains('\n') {
            let k = choose|k: int| 0 <= k < text.len() && text[k] == '\n';
            if k < n {
                assert(text[k] == token[k]);
                assert(whitespace('\n'));
            } else {
                assert(text[k] == rest[k - n]);
            }
        }
    }
    assert(text[0] == token[0]);
    assert(skip_white(text, 0) == 0);
    first_word_ends(text, n, 0);
    assert(text.subrange(0, n) =~= token);
    assert(text_words(text)[0] == token);
}

proof fn first_word_ends(s: Seq<char>, e: int, i: int)
    requires
        0 <= i <= e < s.len(),
        whitespace(s[e]),
        forall|k: int| i <= k < e ==> !whitespace(#[trigger] s[k]),
    ensures
        word_end(s, i) == e,
    decreases e - i,
{
    if i < e {
        first_word_ends(s, e, i + 1);
    }
}

} // verus!
