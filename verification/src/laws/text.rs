//! What the helpers that lay out text promise.

use vstd::prelude::*;

use crate::render::text::{
    display_prefix, flat, head_elided, padded, prefix_end, sanitized_from, truncated, wrapped,
    wrapped_lines,
};
use crate::strings::{
    control, drop_white, find_from, lines_from, repeated, skip_white, split_at_char, split_from,
    text_lines, trimmed, whitespace,
};
use crate::width::{
    columns, columns_sum, fit_end, fit_end_is_longest, fit_start, fit_start_is_longest,
    textwrap_lines, unicode_str_width,
};

verus! {

/// A text that does not fit is cut behind the most characters that leave one column for
/// the ellipsis; control characters in it are spaces.
pub proof fn cut_keeps_as_much_as_fits(s: Seq<char>, max: int)
    requires
        0 < max,
    ensures
        ({
            let f = Seq::new(
                s.len(),
                |i: int|
                    if control(s[i]) {
                        ' '
                    } else {
                        s[i]
                    },
            );
            let cut = truncated(s, max);
            let k = cut.len() - 1;
            &&& unicode_str_width(f) <= max ==> cut == f
            &&& unicode_str_width(f) > max ==> {
                &&& 0 <= k <= f.len()
                &&& cut == f.take(k).push('…')
                &&& columns_sum(f.take(k)) <= max - 1
                &&& k < f.len() ==> columns_sum(f.take(k + 1)) > max - 1
            }
        }),
{
    let f = flat(s);
    fit_end_is_longest(f, 0, max - 1);
    let k = fit_end(f, 0, max - 1);
    assert(f.subrange(0, k) =~= f.take(k));
    if k < f.len() {
        assert(f.subrange(0, k + 1) =~= f.take(k + 1));
    }
}

/// A text cut at its head keeps the most characters of its end behind the ellipsis.
pub proof fn head_cut_keeps_the_end(s: Seq<char>, max: int)
    requires
        0 < max,
    ensures
        ({
            let f = flat(s);
            let cut = head_elided(s, max);
            let k = f.len() - (cut.len() - 1);
            &&& unicode_str_width(f) <= max ==> cut == f
            &&& unicode_str_width(f) > max ==> {
                &&& 0 <= k <= f.len()
                &&& cut == seq!['…'] + f.skip(k)
                &&& columns_sum(f.skip(k)) <= max - 1
                &&& k > 0 ==> columns_sum(f.skip(k - 1)) > max - 1
            }
        }),
{
    let f = flat(s);
    fit_start_is_longest(f, f.len() as int, max - 1);
    let k = fit_start(f, f.len() as int, max - 1);
    assert(f.subrange(k, f.len() as int) =~= f.skip(k));
    if k > 0 {
        assert(f.subrange(k - 1, f.len() as int) =~= f.skip(k - 1));
    }
}

/// A text is filled up with spaces to the width that it misses, and never cut.
pub proof fn padding_only_adds_spaces(s: Seq<char>, width: int)
    ensures
        unicode_str_width(s) >= width ==> padded(s, width) == s,
        unicode_str_width(s) < width ==> padded(s, width) == s + Seq::new(
            (width - unicode_str_width(s)) as nat,
            |i: int| ' ',
        ),
{
    if unicode_str_width(s) < width {
        let n = (width - unicode_str_width(s)) as nat;
        assert(repeated(' ', n) =~= Seq::new(n, |i: int| ' '));
    }
}

/// A tab runs to the next column that is a multiple of eight, any other control character
/// is one space, and every other character stays as it is.
pub proof fn tabs_run_to_their_stop(s: Seq<char>, i: int, col: nat, n: nat)
    requires
        0 <= i < s.len(),
        1 <= n <= 8,
        (col + n) % 8 == 0,
    ensures
        s[i] == '\t' ==> sanitized_from(s, i, col) == Seq::new(n, |k: int| ' ') + sanitized_from(
            s,
            i + 1,
            col + n,
        ),
        s[i] != '\t' && control(s[i]) ==> sanitized_from(s, i, col) == seq![' '] + sanitized_from(
            s,
            i + 1,
            col + 1,
        ),
        !control(s[i]) ==> sanitized_from(s, i, col) == seq![s[i]] + sanitized_from(
            s,
            i + 1,
            col + columns(s[i]),
        ),
{
    if s[i] == '\t' {
        assert(n == 8 - col % 8);
        assert(repeated(' ', n) =~= Seq::new(n, |k: int| ' '));
        assert(control('\t'));
    }
}

proof fn lines_wrap_alone(logical: Seq<Seq<char>>, line: Seq<char>, width: usize, n: int)
    requires
        n <= logical.len(),
    ensures
        wrapped_lines(logical.push(line), width, n) == wrapped_lines(logical, width, n),
    decreases n,
{
    if n > 0 {
        lines_wrap_alone(logical, line, width, n - 1);
        assert(logical.push(line)[n - 1] == logical[n - 1]);
    }
}

/// Every line of a text is wrapped by itself, in order, and an empty one is a row of its
/// own.
pub proof fn lines_are_wrapped_one_by_one(
    logical: Seq<Seq<char>>,
    line: Seq<char>,
    width: usize,
)
    ensures
        wrapped_lines(logical.push(line), width, logical.len() as int + 1) == wrapped_lines(
            logical,
            width,
            logical.len() as int,
        ) + (if line.len() == 0 {
            seq![Seq::<char>::empty()]
        } else {
            textwrap_lines(line, width)
        }),
{
    lines_wrap_alone(logical, line, width, logical.len() as int);
    assert(logical.push(line)[logical.len() as int] == line);
}

proof fn prefix_runs(s: Seq<char>, i: int, used: int, room: int)
    requires
        0 <= i <= s.len(),
        0 < used <= room,
    ensures
        i <= prefix_end(s, i, used, room) <= s.len(),
        used + columns_sum(s.subrange(i, prefix_end(s, i, used, room))) <= room,
        prefix_end(s, i, used, room) < s.len() ==> used + columns_sum(
            s.subrange(i, prefix_end(s, i, used, room) + 1),
        ) > room,
    decreases s.len() - i,
{
    if i < s.len() && used + columns(s[i]) <= room {
        prefix_runs(s, i + 1, used + columns(s[i]), room);
        let e = prefix_end(s, i + 1, used + columns(s[i]), room);
        one_ahead(s, i, e);
        if e < s.len() {
            one_ahead(s, i, e + 1);
        }
    } else if i < s.len() {
        assert(s.subrange(i, i) =~= Seq::<char>::empty());
        one_ahead(s, i, i + 1);
        assert(s.subrange(i + 1, i + 1) =~= Seq::<char>::empty());
    } else {
        assert(s.subrange(i, s.len() as int) =~= Seq::<char>::empty());
    }
}

proof fn one_ahead(s: Seq<char>, i: int, e: int)
    requires
        0 <= i < e <= s.len(),
    ensures
        columns_sum(s.subrange(i, e)) == columns(s[i]) + columns_sum(s.subrange(i + 1, e)),
{
    crate::width::columns_sum_one(s[i]);
    crate::width::columns_sum_add(seq![s[i]], s.subrange(i + 1, e));
    assert(s.subrange(i, e) =~= seq![s[i]] + s.subrange(i + 1, e));
}

/// A piece that begins with a character of at least one column holds the most characters
/// that fit, and that one at least.
pub proof fn piece_holds_what_fits(s: Seq<char>, room: int)
    requires
        room > 0,
        s.len() > 0,
        columns(s[0]) > 0,
    ensures
        ({
            let e = display_prefix(s, room);
            &&& 1 <= e <= s.len()
            &&& e == 1 || columns_sum(s.take(e)) <= room
            &&& e < s.len() ==> columns_sum(s.take(e + 1)) > room
        }),
{
    let e = display_prefix(s, room);
    if columns(s[0]) > room {
        assert(e == 1);
        if 1 < s.len() {
            one_ahead(s, 0, 2);
            assert(s.take(2) =~= s.subrange(0, 2));
        }
    } else {
        prefix_runs(s, 1, columns(s[0]) as int, room);
        one_ahead(s, 0, e);
        assert(s.take(e) =~= s.subrange(0, e));
        if e < s.len() {
            one_ahead(s, 0, e + 1);
            assert(s.take(e + 1) =~= s.subrange(0, e + 1));
        }
    }
}

// ---------------------------------------------------------------- lines and trimming

proof fn breaks_are_found_alike(a: Seq<char>, b: Seq<char>, i: int)
    requires
        0 <= i <= a.len(),
        forall|k: int| i <= k < a.len() ==> #[trigger] a[k] != '\n',
    ensures
        find_from(a + seq!['\n'] + b, '\n', i) == a.len(),
    decreases a.len() - i,
{
    let s = a + seq!['\n'] + b;
    if i < a.len() {
        assert(s[i] == a[i]);
        breaks_are_found_alike(a, b, i + 1);
    } else {
        assert(s[i] == '\n');
    }
}

proof fn shifted_break(s: Seq<char>, by: int, i: int)
    requires
        0 <= by <= s.len(),
        0 <= i <= s.len() - by,
    ensures
        find_from(s, '\n', by + i) == by + find_from(s.skip(by), '\n', i),
    decreases s.len() - by - i,
{
    if by + i < s.len() {
        assert(s.skip(by)[i] == s[by + i]);
        if s[by + i] != '\n' {
            shifted_break(s, by, i + 1);
        }
    }
}

proof fn shifted_lines(s: Seq<char>, by: int, i: int)
    requires
        0 <= by <= s.len(),
        0 <= i <= s.len() - by,
    ensures
        lines_from(s, by + i) == lines_from(s.skip(by), i),
        split_from(s, '\n', by + i) == split_from(s.skip(by), '\n', i),
    decreases s.len() - by - i,
{
    let t = s.skip(by);
    shifted_break(s, by, i);
    crate::strings::find_from_bounds(t, '\n', i);
    let j = find_from(t, '\n', i);
    if j < t.len() {
        shifted_lines(s, by, j + 1);
        assert(s.subrange(by + i, by + j) =~= t.subrange(i, j));
    } else {
        assert(s.subrange(by + i, s.len() as int) =~= t.subrange(i, t.len() as int));
    }
}

/// A break ends a line: what stands before it is the first line, without the carriage
/// return that may end it, and the lines behind it follow.
pub proof fn break_ends_a_line(a: Seq<char>, b: Seq<char>)
    requires
        forall|k: int| 0 <= k < a.len() ==> #[trigger] a[k] != '\n',
    ensures
        a.len() == 0 || a.last() != '\r' ==> text_lines(a + seq!['\n'] + b) == seq![a]
            + text_lines(b),
        text_lines(a + seq!['\r', '\n'] + b) == seq![a] + text_lines(b),
        split_at_char(a + seq!['\n'] + b, '\n') == seq![a] + split_at_char(b, '\n'),
{
    let s = a + seq!['\n'] + b;
    breaks_are_found_alike(a, b, 0);
    shifted_lines(s, a.len() as int + 1, 0);
    assert(s.skip(a.len() as int + 1) =~= b);
    assert(s.subrange(0, a.len() as int) =~= a);
    let ar = a + seq!['\r'];
    let r = a + seq!['\r', '\n'] + b;
    assert(r =~= ar + seq!['\n'] + b);
    assert forall|k: int| 0 <= k < ar.len() implies #[trigger] ar[k] != '\n' by {
        if k < a.len() {
            assert(ar[k] == a[k]);
        }
    }
    breaks_are_found_alike(ar, b, 0);
    shifted_lines(r, ar.len() as int + 1, 0);
    assert(r.skip(ar.len() as int + 1) =~= b);
    assert(r.subrange(0, ar.len() as int) =~= ar);
    assert(ar.drop_last() =~= a);
    assert(ar.last() == '\r');
    assert(ar.take(ar.len() - 1) =~= a);
}

/// A text without a break is one line, and an empty one is none.
pub proof fn last_line_needs_no_break(a: Seq<char>)
    requires
        forall|k: int| 0 <= k < a.len() ==> #[trigger] a[k] != '\n',
    ensures
        a.len() > 0 ==> text_lines(a) == seq![a],
        a.len() == 0 ==> text_lines(a).len() == 0,
        split_at_char(a, '\n') == seq![a],
{
    no_break(a, 0);
    assert(a.subrange(0, a.len() as int) =~= a);
}

proof fn no_break(a: Seq<char>, i: int)
    requires
        0 <= i <= a.len(),
        forall|k: int| 0 <= k < a.len() ==> #[trigger] a[k] != '\n',
    ensures
        find_from(a, '\n', i) == a.len(),
    decreases a.len() - i,
{
    if i < a.len() {
        no_break(a, i + 1);
    }
}

proof fn white_front(s: Seq<char>, e: int, i: int)
    requires
        0 <= i <= e <= s.len(),
        forall|k: int| i <= k < e ==> whitespace(#[trigger] s[k]),
        e < s.len() ==> !whitespace(s[e]),
    ensures
        skip_white(s, i) == e,
    decreases e - i,
{
    if i < e {
        white_front(s, e, i + 1);
    }
}

proof fn white_back(s: Seq<char>, e: int, j: int)
    requires
        0 <= e <= j <= s.len(),
        forall|k: int| e <= k < j ==> whitespace(#[trigger] s[k]),
        e > 0 ==> !whitespace(s[e - 1]),
    ensures
        drop_white(s, j) == e,
    decreases j,
{
    if e < j {
        white_back(s, e, j - 1);
    }
}

/// Trimming takes the white space from both ends and nothing else.
pub proof fn trimming_takes_the_ends(a: Seq<char>, s: Seq<char>, b: Seq<char>)
    requires
        forall|k: int| 0 <= k < a.len() ==> whitespace(#[trigger] a[k]),
        forall|k: int| 0 <= k < b.len() ==> whitespace(#[trigger] b[k]),
        s.len() > 0,
        !whitespace(s[0]),
        !whitespace(s.last()),
    ensures
        trimmed(a + s + b) == s,
{
    let w = a + s + b;
    let e = a.len() as int;
    let f = e + s.len();
    assert forall|k: int| 0 <= k < e implies whitespace(#[trigger] w[k]) by {
        assert(w[k] == a[k]);
    }
    assert forall|k: int| f <= k < w.len() implies whitespace(#[trigger] w[k]) by {
        assert(w[k] == b[k - f]);
    }
    assert(w[e] == s[0]);
    assert(w[f - 1] == s.last());
    white_front(w, e, 0);
    white_back(w, f, w.len() as int);
    assert(w.subrange(e, f) =~= s);
}

} // verus!
