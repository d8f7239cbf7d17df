//! Cutting, padding and wrapping text by terminal columns.

use vstd::prelude::*;

use crate::model::views;
use crate::strings::{chars_of, control, is_control, repeated, split, split_at_char, string_of};
use crate::width::{
    char_columns, columns, columns_sum, fit_backward, fit_end, fit_end_is_longest, fit_forward,
    fit_start, fit_start_is_longest, str_width, textwrap_lines, unicode_str_width, wrap_words,
};

verus! {

broadcast use crate::model::group_views;

/// `s` with every control character as a space.
pub open spec fn flat(s: Seq<char>) -> Seq<char> {
    Seq::new(
        s.len(),
        |i: int|
            if control(s[i]) {
                ' '
            } else {
                s[i]
            },
    )
}

/// The characters of `s`, each control character as a space.
pub fn flatten(s: &str) -> (r: Vec<char>)
    ensures
        r@ == flat(s@),
{
    let v = chars_of(s);
    let mut out: Vec<char> = Vec::new();
    let mut i: usize = 0;
    while i < v.len()
        invariant
            v@ == s@,
            i <= v@.len(),
            out@ =~= flat(s@.take(i as int)),
        decreases v@.len() - i,
    {
        let c: char = if is_control(v[i]) {
            ' '
        } else {
            v[i]
        };
        out.push(c);
        i += 1;
    }
    assert(s@.take(i as int) =~= s@);
    out
}

pub open spec fn less_one(n: int) -> int {
    if n > 0 {
        n - 1
    } else {
        0
    }
}

/// A text on one line, cut to `max` columns: the whole text where it fits, else
/// the longest front that leaves a column for the ellipsis.
pub open spec fn truncated(s: Seq<char>, max: int) -> Seq<char> {
    let f = flat(s);
    if unicode_str_width(f) <= max {
        f
    } else {
        f.take(fit_end(f, 0, less_one(max))).push('…')
    }
}

/// The mirror of `truncated`: the tail is kept.
pub open spec fn head_elided(s: Seq<char>, max: int) -> Seq<char> {
    let f = flat(s);
    if unicode_str_width(f) <= max {
        f
    } else {
        seq!['…'] + f.skip(fit_start(f, f.len() as int, less_one(max)))
    }
}

/// Truncate a string to at most `max` display columns, adding an ellipsis.
/// Measures and cuts by display width, and control characters become spaces, so
/// a summary made of arbitrary output cannot leave its row.
pub fn truncate_display(s: &str, max: usize) -> (r: String)
    ensures
        r@ == truncated(s@, max as int),
{
    let f = flatten(s);
    let whole = string_of(&f, 0, f.len());
    assert(f@.subrange(0, f@.len() as int) =~= f@);
    if str_width(whole.as_str()) <= max {
        return whole;
    }
    let budget: usize = if max > 0 {
        max - 1
    } else {
        0
    };
    let (end, _used) = fit_forward(&f, 0, budget);
    let mut out = string_of(&f, 0, end);
    assert(f@.subrange(0, end as int) =~= f@.take(end as int));
    out.push('…');
    out
}

/// Cut `s` from the front to at most `max` display columns, marking the cut with
/// a leading ellipsis: for values whose tail is the informative end.
pub fn elide_head(s: &str, max: usize) -> (r: String)
    ensures
        r@ == head_elided(s@, max as int),
{
    let f = flatten(s);
    let whole = string_of(&f, 0, f.len());
    assert(f@.subrange(0, f@.len() as int) =~= f@);
    if str_width(whole.as_str()) <= max {
        return whole;
    }
    let budget: usize = if max > 0 {
        max - 1
    } else {
        0
    };
    let start: usize = fit_backward(&f, f.len(), budget);
    let mut out = String::new();
    out.push('…');
    out.append(string_of(&f, start, f.len()).as_str());
    assert(out@ =~= head_elided(s@, max as int));
    out
}

/// `s` from position `i` on, as it is printed from column `col` on: tabs run to
/// the next multiple of eight, other control characters are spaces.
pub open spec fn sanitized_from(s: Seq<char>, i: int, col: nat) -> Seq<char>
    decreases s.len() - i,
{
    if i < 0 || i >= s.len() {
        Seq::empty()
    } else if s[i] == '\t' {
        let n = (8 - col % 8) as nat;
        repeated(' ', n) + sanitized_from(s, i + 1, col + n)
    } else if control(s[i]) {
        seq![' '] + sanitized_from(s, i + 1, col + 1)
    } else {
        seq![s[i]] + sanitized_from(s, i + 1, col + columns(s[i]))
    }
}

proof fn column_in_cycle(col: nat, more: nat)
    ensures
        (col + more) % 8 == (col % 8 + more) % 8,
        more == 8 - col % 8 ==> (col + more) % 8 == 0,
{
}

/// Make a raw line safe for cell-based output: expand tabs and neutralise other
/// control characters.
#[verifier::spinoff_prover]
pub fn sanitize_terminal_line(s: &str) -> (r: String)
    ensures
        r@ == sanitized_from(s@, 0, 0),
{
    let v = chars_of(s);
    let mut out = String::new();
    let mut i: usize = 0;
    let mut col: usize = 0;
    let ghost mut full: nat = 0;
    assert(out@ + sanitized_from(s@, 0, 0) =~= sanitized_from(s@, 0, 0));
    while i < v.len()
        invariant
            v@ == s@,
            i <= v@.len(),
            col == full % 8,
            out@ + sanitized_from(s@, i as int, full) == sanitized_from(s@, 0, 0),
        decreases v@.len() - i,
    {
        let ghost before = out@;
        let ghost was = full;
        if v[i] == '\t' {
            let spaces: usize = 8 - col;
            let mut k: usize = 0;
            while k < spaces
                invariant
                    k <= spaces,
                    out@ =~= before + repeated(' ', k as nat),
                decreases spaces - k,
            {
                out.push(' ');
                k += 1;
            }
            col = 0;
            proof {
                column_in_cycle(full, spaces as nat);
                full = full + spaces as nat;
                assert(before + (repeated(' ', spaces as nat) + sanitized_from(s@, i + 1, full))
                    =~= out@ + sanitized_from(s@, i + 1, full));
            }
        } else if is_control(v[i]) {
            out.push(' ');
            col = (col + 1) % 8;
            proof {
                column_in_cycle(full, 1);
                full = full + 1;
                assert(before + (seq![' '] + sanitized_from(s@, i + 1, full)) =~= out@
                    + sanitized_from(s@, i + 1, full));
            }
        } else {
            out.push(v[i]);
            let cw: usize = char_columns(v[i]);
            col = (col + cw) % 8;
            proof {
                column_in_cycle(full, columns(s@[i as int]));
                full = full + columns(s@[i as int]);
                assert(before + (seq![s@[i as int]] + sanitized_from(s@, i + 1, full)) =~= out@
                    + sanitized_from(s@, i + 1, full));
            }
        }
        i += 1;
    }
    assert(out@ + sanitized_from(s@, i as int, full) =~= out@);
    out
}

/// What one logical line wraps into.
pub open spec fn wrapped_line(logical: Seq<char>, width: usize) -> Seq<Seq<char>> {
    if logical.len() == 0 {
        seq![Seq::empty()]
    } else {
        textwrap_lines(logical, width)
    }
}

/// What the first `n` logical lines wrap into.
pub open spec fn wrapped_lines(logical: Seq<Seq<char>>, width: usize, n: int) -> Seq<Seq<char>>
    decreases n,
{
    if n <= 0 {
        Seq::empty()
    } else {
        wrapped_lines(logical, width, n - 1) + wrapped_line(logical[n - 1], width)
    }
}

/// `text` wrapped at `width`, its own newlines kept.
pub open spec fn wrapped(text: Seq<char>, width: usize) -> Seq<Seq<char>> {
    if text.len() == 0 {
        seq![Seq::empty()]
    } else {
        let logical = split_at_char(text, '\n');
        wrapped_lines(logical, width, logical.len() as int)
    }
}

/// Width-aware wrap that preserves explicit newlines.
pub fn wrap(text: &str, width: usize) -> (r: Vec<String>)
    ensures
        views(r@) == wrapped(text@, width),
{
    let mut out: Vec<String> = Vec::new();
    if text.is_empty() {
        out.push(String::new());
        assert(views(out@) =~= wrapped(text@, width));
        return out;
    }
    let logical = split(text, '\n');
    let mut i: usize = 0;
    while i < logical.len()
        invariant
            views(logical@) == split_at_char(text@, '\n'),
            i <= logical@.len(),
            views(out@) == wrapped_lines(views(logical@), width, i as int),
        decreases logical@.len() - i,
    {
        let ghost before = views(out@);
        assert(views(logical@)[i as int] == logical@[i as int]@);
        if logical[i].as_str().is_empty() {
            out.push(String::new());
            assert(views(out@) =~= before + wrapped_line(logical@[i as int]@, width));
        } else {
            let mut pieces = wrap_words(logical[i].as_str(), width);
            let ghost held = pieces@;
            out.append(&mut pieces);
            assert(views(out@) =~= before + views(held));
        }
        i += 1;
    }
    out
}

/// How far a row of `room` columns reaches into `s` from position `i` on, when
/// `used` columns are taken: the first glyph is taken even if it is too wide.
pub open spec fn prefix_end(s: Seq<char>, i: int, used: int, room: int) -> int
    decreases s.len() - i,
{
    if i >= s.len() {
        s.len() as int
    } else if used > 0 && used + columns(s[i]) > room {
        i
    } else if used == 0 && columns(s[i]) > room {
        i + 1
    } else {
        prefix_end(s, i + 1, used + columns(s[i]), room)
    }
}

pub open spec fn display_prefix(s: Seq<char>, room: int) -> int {
    if room == 0 {
        0
    } else {
        prefix_end(s, 0, 0, room)
    }
}

/// Take a display-width prefix of at most `room` cells; return (piece, rest).
/// With room at all, a text that is not empty gives a piece that is not empty.
pub fn take_display_prefix(text: &str, room: usize) -> (r: (String, &str))
    ensures
        r.0@ == text@.take(display_prefix(text@, room as int)),
        r.1@ == text@.skip(display_prefix(text@, room as int)),
        0 <= display_prefix(text@, room as int) <= text@.len(),
        r.0@ + r.1@ == text@,
        room > 0 && text@.len() > 0 ==> r.0@.len() > 0,
{
    let v = chars_of(text);
    if room == 0 || v.len() == 0 {
        let none = String::new();
        assert(none@ =~= text@.take(0));
        assert(text@.skip(0) =~= text@);
        assert(none@ + text@ =~= text@);
        return (none, text);
    }
    let n: usize = v.len();
    let mut used: usize = 0;
    let mut end: usize = 0;
    while end < n
        invariant_except_break
            prefix_end(v@, 0, 0, room as int) == prefix_end(v@, end as int, used as int, room as int),
        invariant
            n == v@.len(),
            end <= n,
            used <= room,
            used > 0 ==> end > 0,
            0 < room,
        ensures
            end == prefix_end(v@, 0, 0, room as int),
            end > 0 || n == 0,
        decreases n - end,
    {
        let cw: usize = char_columns(v[end]);
        if used > 0 && cw > room - used {
            break;
        }
        if used == 0 && cw > room {
            end += 1;
            break;
        }
        used += cw;
        end += 1;
    }
    let piece = string_of(&v, 0, end);
    let rest = text.substring_char(end, n);
    assert(piece@ =~= text@.take(end as int));
    assert(rest@ =~= text@.skip(end as int));
    assert(piece@ + rest@ =~= text@);
    (piece, rest)
}

/// `s` filled up with spaces to `width` columns.
pub open spec fn padded(s: Seq<char>, width: int) -> Seq<char> {
    let used = unicode_str_width(s);
    if used < width {
        s + repeated(' ', (width - used) as nat)
    } else {
        s
    }
}

/// Pad `s` on the right to `width` columns, not characters.
pub fn pad_display(s: &str, width: usize) -> (r: String)
    ensures
        r@ == padded(s@, width as int),
{
    let mut i: usize = str_width(s);
    let ghost used = i;
    let mut out = s.to_owned();
    assert(out@ =~= s@ + repeated(' ', 0));
    while i < width
        invariant
            used <= i,
            used <= width ==> i <= width,
            used > width ==> i == used,
            out@ == s@ + repeated(' ', (i - used) as nat),
        decreases width - i,
    {
        out.push(' ');
        i += 1;
        assert(out@ =~= s@ + repeated(' ', (i - used) as nat));
    }
    assert(s@ + repeated(' ', 0) =~= s@);
    out
}

proof fn prefix_end_bounds(s: Seq<char>, i: int, used: int, room: int)
    requires
        0 <= i <= s.len(),
    ensures
        i <= prefix_end(s, i, used, room) <= s.len(),
        used == 0 && i < s.len() ==> prefix_end(s, i, used, room) > i,
    decreases s.len() - i,
{
    if i < s.len() && !(used > 0 && used + columns(s[i]) > room) && !(used == 0 && columns(s[i])
        > room) {
        prefix_end_bounds(s, i + 1, used + columns(s[i]), room);
    }
}

/// A prefix lies within the text, and with room at all it takes something of a text
/// that is not empty.
pub proof fn display_prefix_advances(s: Seq<char>, room: int)
    ensures
        0 <= display_prefix(s, room) <= s.len(),
        room != 0 && s.len() > 0 ==> display_prefix(s, room) > 0,
{
    prefix_end_bounds(s, 0, 0, room);
}

/// A cut text is the whole text, each control character as a space, or a front of it
/// that leaves a column free, and the ellipsis.
pub proof fn truncated_shape(s: Seq<char>, max: int)
    requires
        0 <= max,
    ensures
        truncated(s, max) == flat(s) || (exists|k: int|
            0 <= k <= s.len() && truncated(s, max) == #[trigger] flat(s).take(k).push('…')
                && columns_sum(flat(s).take(k)) <= less_one(max)),
        unicode_str_width(flat(s)) <= max ==> truncated(s, max) == flat(s),
{
    let f = flat(s);
    if unicode_str_width(f) > max {
        let k = fit_end(f, 0, less_one(max));
        fit_end_is_longest(f, 0, less_one(max));
        assert(f.subrange(0, k) =~= f.take(k));
        assert(truncated(s, max) == f.take(k).push('…'));
    }
}

/// The mirror: a text cut at its front keeps a tail behind the ellipsis.
pub proof fn head_elided_shape(s: Seq<char>, max: int)
    requires
        0 <= max,
    ensures
        head_elided(s, max) == flat(s) || (exists|k: int|
            0 <= k <= s.len() && head_elided(s, max) == seq!['…'] + #[trigger] flat(s).skip(k)
                && columns_sum(flat(s).skip(k)) <= less_one(max)),
        unicode_str_width(flat(s)) <= max ==> head_elided(s, max) == flat(s),
{
    let f = flat(s);
    if unicode_str_width(f) > max {
        let k = fit_start(f, f.len() as int, less_one(max));
        fit_start_is_longest(f, f.len() as int, less_one(max));
        assert(f.subrange(k, f.len() as int) =~= f.skip(k));
        assert(head_elided(s, max) == seq!['…'] + f.skip(k));
    }
}

/// A printed line holds no control character, and printing it again changes nothing.
pub proof fn sanitized_is_clean(s: Seq<char>, i: int, col: nat)
    requires
        0 <= i <= s.len(),
    ensures
        forall|k: int|
            0 <= k < sanitized_from(s, i, col).len() ==> !control(
                #[trigger] sanitized_from(s, i, col)[k],
            ),
    decreases s.len() - i,
{
    if i < s.len() {
        let (head, more) = if s[i] == '\t' {
            let n = (8 - col % 8) as nat;
            (repeated(' ', n), col + n)
        } else if control(s[i]) {
            (seq![' '], col + 1)
        } else {
            (seq![s[i]], col + columns(s[i]))
        };
        let rest = sanitized_from(s, i + 1, more);
        sanitized_is_clean(s, i + 1, more);
        assert(sanitized_from(s, i, col) == head + rest);
        assert forall|k: int| 0 <= k < (head + rest).len() implies !control(
            #[trigger] (head + rest)[k],
        ) by {
            if k < head.len() {
                assert((head + rest)[k] == head[k]);
            } else {
                assert((head + rest)[k] == rest[k - head.len()]);
            }
        }
    }
}

proof fn clean_stays(s: Seq<char>, i: int, col: nat)
    requires
        0 <= i <= s.len(),
        forall|k: int| 0 <= k < s.len() ==> !control(#[trigger] s[k]),
    ensures
        sanitized_from(s, i, col) == s.skip(i),
    decreases s.len() - i,
{
    if i < s.len() {
        assert(!control(s[i]));
        clean_stays(s, i + 1, col + columns(s[i]));
        assert(seq![s[i]] + s.skip(i + 1) =~= s.skip(i));
    } else {
        assert(s.skip(i) =~= Seq::<char>::empty());
    }
}

/// Making a line safe twice is making it safe once.
pub proof fn sanitizing_is_idempotent(s: Seq<char>)
    ensures
        sanitized_from(sanitized_from(s, 0, 0), 0, 0) == sanitized_from(s, 0, 0),
{
    let once = sanitized_from(s, 0, 0);
    sanitized_is_clean(s, 0, 0);
    clean_stays(once, 0, 0);
    assert(once.skip(0) =~= once);
}

} // verus!
