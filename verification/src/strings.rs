//! Text as a sequence of characters: scanning, splitting, joining and decimal
//! numbers, each with the sequence it computes as its contract.

use vstd::prelude::*;

use crate::model::views;

verus! {

/// `String::push` appends one character.
pub assume_specification[ String::push ](s: &mut String, c: char)
    ensures
        final(s)@ == old(s)@.push(c),
;

broadcast use crate::model::group_views;

// ---------------------------------------------------------------- characters

/// The C0 and C1 control characters.
pub open spec fn control(c: char) -> bool {
    c as u32 <= 0x1f || 0x7f <= c as u32 <= 0x9f
}

pub fn is_control(c: char) -> (r: bool)
    ensures
        r == control(c),
{
    let n: u32 = c as u32;
    n <= 0x1f || (0x7f <= n && n <= 0x9f)
}

/// The characters with the Unicode `White_Space` property.
pub open spec fn whitespace(c: char) -> bool {
    let n = c as u32;
    ||| 0x09 <= n <= 0x0d
    ||| n == 0x20
    ||| n == 0x85
    ||| n == 0xa0
    ||| n == 0x1680
    ||| 0x2000 <= n <= 0x200a
    ||| n == 0x2028
    ||| n == 0x2029
    ||| n == 0x202f
    ||| n == 0x205f
    ||| n == 0x3000
}

pub fn is_whitespace(c: char) -> (r: bool)
    ensures
        r == whitespace(c),
{
    let n: u32 = c as u32;
    (0x09 <= n && n <= 0x0d) || n == 0x20 || n == 0x85 || n == 0xa0 || n == 0x1680 || (0x2000 <= n
        && n <= 0x200a) || n == 0x2028 || n == 0x2029 || n == 0x202f || n == 0x205f || n == 0x3000
}

// ---------------------------------------------------------------- conversions

/// The characters of `s`.
pub fn chars_of(s: &str) -> (r: Vec<char>)
    ensures
        r@ == s@,
{
    let mut out: Vec<char> = Vec::new();
    for c in it: s.chars()
        invariant
            out@ == it.seq().take(it.index() as int),
            it.seq() == s@,
    {
        out.push(c);
        assert(it.seq().take(it.index() + 1) =~= it.seq().take(it.index() as int).push(c));
    }
    assert(s@.take(s@.len() as int) =~= s@);
    out
}

/// The text made of the characters `from..to` of `v`.
pub fn string_of(v: &Vec<char>, from: usize, to: usize) -> (r: String)
    requires
        from <= to <= v@.len(),
    ensures
        r@ == v@.subrange(from as int, to as int),
{
    let mut out = String::new();
    let mut i: usize = from;
    while i < to
        invariant
            from <= i <= to <= v@.len(),
            out@ == v@.subrange(from as int, i as int),
        decreases to - i,
    {
        out.push(v[i]);
        assert(v@.subrange(from as int, i + 1) =~= v@.subrange(from as int, i as int).push(
            v@[i as int],
        ));
        i += 1;
    }
    out
}

/// Whether two texts are equal.
pub fn same(a: &str, b: &str) -> (r: bool)
    ensures
        r == (a@ == b@),
{
    let x = chars_of(a);
    let y = chars_of(b);
    if x.len() != y.len() {
        return false;
    }
    let mut i: usize = 0;
    while i < x.len()
        invariant
            x@ == a@,
            y@ == b@,
            x@.len() == y@.len(),
            i <= x@.len(),
            forall|k: int| 0 <= k < i ==> x@[k] == y@[k],
        decreases x@.len() - i,
    {
        if x[i] != y[i] {
            assert(a@[i as int] != b@[i as int]);
            return false;
        }
        i += 1;
    }
    assert(a@ =~= b@);
    true
}

// ---------------------------------------------------------------- concatenation

pub fn cat2(a: &str, b: &str) -> (r: String)
    ensures
        r@ == a@ + b@,
{
    let mut out = a.to_owned();
    out.append(b);
    out
}

pub fn cat3(a: &str, b: &str, c: &str) -> (r: String)
    ensures
        r@ == a@ + b@ + c@,
{
    let mut out = a.to_owned();
    out.append(b);
    out.append(c);
    out
}

pub fn cat4(a: &str, b: &str, c: &str, d: &str) -> (r: String)
    ensures
        r@ == a@ + b@ + c@ + d@,
{
    let mut out = a.to_owned();
    out.append(b);
    out.append(c);
    out.append(d);
    out
}

pub fn cat5(a: &str, b: &str, c: &str, d: &str, e: &str) -> (r: String)
    ensures
        r@ == a@ + b@ + c@ + d@ + e@,
{
    let mut out = a.to_owned();
    out.append(b);
    out.append(c);
    out.append(d);
    out.append(e);
    out
}

/// `n` copies of the character `c`.
pub open spec fn repeated(c: char, n: nat) -> Seq<char> {
    Seq::new(n, |i: int| c)
}

pub fn repeat_char(c: char, n: usize) -> (r: String)
    ensures
        r@ == repeated(c, n as nat),
{
    let mut out = String::new();
    let mut i: usize = 0;
    while i < n
        invariant
            i <= n,
            out@ =~= repeated(c, i as nat),
        decreases n - i,
    {
        out.push(c);
        i += 1;
    }
    out
}

/// The texts of `parts` with `sep` between neighbours.
pub open spec fn joined(parts: Seq<Seq<char>>, sep: Seq<char>) -> Seq<char>
    decreases parts.len(),
{
    if parts.len() == 0 {
        Seq::empty()
    } else if parts.len() == 1 {
        parts[0]
    } else {
        joined(parts.drop_last(), sep) + sep + parts.last()
    }
}

pub fn join(parts: &Vec<String>, sep: &str) -> (r: String)
    ensures
        r@ == joined(views(parts@), sep@),
{
    let mut out = String::new();
    let mut i: usize = 0;
    let ghost all = views(parts@);
    assert(all.take(0) =~= Seq::<Seq<char>>::empty());
    while i < parts.len()
        invariant
            all == views(parts@),
            i <= parts@.len(),
            out@ == joined(all.take(i as int), sep@),
        decreases parts@.len() - i,
    {
        if i > 0 {
            out.append(sep);
        }
        out.append(parts[i].as_str());
        i += 1;
        assert(all.take(i as int).drop_last() =~= all.take(i - 1));
        assert(Seq::<char>::empty() + all[i - 1] =~= all[i - 1]);
    }
    assert(all.take(i as int) =~= all);
    out
}

// ---------------------------------------------------------------- scanning

/// The first position at or after `i` that holds `c`, or the length of `s`.
pub open spec fn find_from(s: Seq<char>, c: char, i: int) -> int
    decreases s.len() - i,
{
    if i >= s.len() {
        s.len() as int
    } else if s[i] == c {
        i
    } else {
        find_from(s, c, i + 1)
    }
}

pub proof fn find_from_bounds(s: Seq<char>, c: char, i: int)
    requires
        0 <= i <= s.len(),
    ensures
        i <= find_from(s, c, i) <= s.len(),
        find_from(s, c, i) < s.len() ==> s[find_from(s, c, i)] == c,
        forall|k: int| i <= k < find_from(s, c, i) ==> s[k] != c,
    decreases s.len() - i,
{
    if i < s.len() && s[i] != c {
        find_from_bounds(s, c, i + 1);
    }
}

pub fn find_char(v: &Vec<char>, c: char, from: usize) -> (r: usize)
    requires
        from <= v@.len(),
    ensures
        r == find_from(v@, c, from as int),
        from <= r <= v@.len(),
        r < v@.len() ==> v@[r as int] == c,
        forall|k: int| from <= k < r ==> v@[k] != c,
{
    let mut i: usize = from;
    while i < v.len()
        invariant
            from <= i <= v@.len(),
            find_from(v@, c, from as int) == find_from(v@, c, i as int),
            forall|k: int| from <= k < i ==> v@[k] != c,
        decreases v@.len() - i,
    {
        if v[i] == c {
            return i;
        }
        i += 1;
    }
    i
}

/// Whether `s` holds the character `c`.
pub fn has_char(s: &str, c: char) -> (r: bool)
    ensures
        r == s@.contains(c),
{
    let v = chars_of(s);
    let i: usize = find_char(&v, c, 0);
    i < v.len()
}

/// Whether `p` stands in `s` at position `i`.
pub open spec fn occurs_at(s: Seq<char>, p: Seq<char>, i: int) -> bool {
    0 <= i && i + p.len() <= s.len() && s.subrange(i, i + p.len()) == p
}

/// The first position at or after `i` where `p` stands in `s`, or -1.
pub open spec fn find_text_from(s: Seq<char>, p: Seq<char>, i: int) -> int
    decreases s.len() + 1 - i,
{
    if i > s.len() {
        -1
    } else if occurs_at(s, p, i) {
        i
    } else {
        find_text_from(s, p, i + 1)
    }
}

/// Whether `p` stands anywhere in `s`.
pub open spec fn has_text(s: Seq<char>, p: Seq<char>) -> bool {
    find_text_from(s, p, 0) >= 0
}

pub proof fn find_text_from_holds(s: Seq<char>, p: Seq<char>, i: int)
    requires
        0 <= i,
    ensures
        find_text_from(s, p, i) == -1 || (find_text_from(s, p, i) >= i && occurs_at(
            s,
            p,
            find_text_from(s, p, i),
        )),
        forall|k: int|
            i <= k && (find_text_from(s, p, i) == -1 || k < find_text_from(s, p, i))
                ==> !occurs_at(s, p, k),
    decreases s.len() + 1 - i,
{
    if i <= s.len() && !occurs_at(s, p, i) {
        find_text_from_holds(s, p, i + 1);
    }
}

/// Containment means that some position holds the text.
pub proof fn has_text_is_occurrence(s: Seq<char>, p: Seq<char>)
    ensures
        has_text(s, p) <==> exists|k: int| occurs_at(s, p, k),
{
    find_text_from_holds(s, p, 0);
}

pub fn text_at(v: &Vec<char>, p: &Vec<char>, i: usize) -> (r: bool)
    requires
        i <= v@.len(),
    ensures
        r == occurs_at(v@, p@, i as int),
{
    let n: usize = v.len();
    if p.len() > n - i {
        return false;
    }
    let mut k: usize = 0;
    while k < p.len()
        invariant
            k <= p@.len(),
            n == v@.len(),
            i + p@.len() <= n,
            forall|j: int| 0 <= j < k ==> v@[i + j] == p@[j],
        decreases p@.len() - k,
    {
        if v[i + k] != p[k] {
            assert(v@.subrange(i as int, i + p@.len())[k as int] != p@[k as int]);
            return false;
        }
        k += 1;
    }
    assert(v@.subrange(i as int, i + p@.len()) =~= p@);
    true
}

/// The first position at or after `from` where `p` stands in `v`.
pub fn find_text(v: &Vec<char>, p: &Vec<char>, from: usize) -> (r: Option<usize>)
    requires
        from <= v@.len(),
    ensures
        match r {
            Some(i) => i == find_text_from(v@, p@, from as int) && occurs_at(v@, p@, i as int)
                && from <= i,
            None => find_text_from(v@, p@, from as int) == -1,
        },
{
    let mut i: usize = from;
    loop
        invariant
            from <= i <= v@.len(),
            find_text_from(v@, p@, from as int) == find_text_from(v@, p@, i as int),
        decreases v@.len() - i,
    {
        if text_at(v, p, i) {
            return Some(i);
        }
        if i == v.len() {
            assert(find_text_from(v@, p@, i + 1) == -1);
            return None;
        }
        i += 1;
    }
}

pub fn contains(s: &str, p: &str) -> (r: bool)
    ensures
        r == has_text(s@, p@),
{
    let v = chars_of(s);
    let q = chars_of(p);
    find_text(&v, &q, 0).is_some()
}

/// Whether `s` begins with `p`.
pub open spec fn begins(s: Seq<char>, p: Seq<char>) -> bool {
    occurs_at(s, p, 0)
}

/// Whether `s` ends with `p`.
pub open spec fn ends(s: Seq<char>, p: Seq<char>) -> bool {
    occurs_at(s, p, s.len() - p.len())
}

pub fn starts_with(s: &str, p: &str) -> (r: bool)
    ensures
        r == begins(s@, p@),
{
    let v = chars_of(s);
    let q = chars_of(p);
    text_at(&v, &q, 0)
}

pub fn ends_with(s: &str, p: &str) -> (r: bool)
    ensures
        r == ends(s@, p@),
{
    let v = chars_of(s);
    let q = chars_of(p);
    if q.len() > v.len() {
        return false;
    }
    text_at(&v, &q, v.len() - q.len())
}

/// What follows `p` at the front of `s`, when `s` begins with `p`.
pub fn strip_prefix(s: &str, p: &str) -> (r: Option<String>)
    ensures
        match r {
            Some(rest) => begins(s@, p@) && rest@ == s@.skip(p@.len() as int),
            None => !begins(s@, p@),
        },
{
    let v = chars_of(s);
    let q = chars_of(p);
    if text_at(&v, &q, 0) {
        let rest = string_of(&v, q.len(), v.len());
        assert(rest@ =~= s@.skip(p@.len() as int));
        Some(rest)
    } else {
        None
    }
}

/// What follows `p` at the front of `s`, or `s` itself.
pub open spec fn after_prefix(s: Seq<char>, p: Seq<char>) -> Seq<char> {
    if begins(s, p) {
        s.skip(p.len() as int)
    } else {
        s
    }
}

pub fn drop_prefix(s: &str, p: &str) -> (r: String)
    ensures
        r@ == after_prefix(s@, p@),
{
    match strip_prefix(s, p) {
        Some(rest) => rest,
        None => s.to_owned(),
    }
}

// ---------------------------------------------------------------- trimming

/// The first position at or after `i` that holds no white space.
pub open spec fn skip_white(s: Seq<char>, i: int) -> int
    decreases s.len() - i,
{
    if i >= s.len() {
        s.len() as int
    } else if whitespace(s[i]) {
        skip_white(s, i + 1)
    } else {
        i
    }
}

/// The end of `s.take(j)` without the white space it ends in.
pub open spec fn drop_white(s: Seq<char>, j: int) -> int
    decreases j,
{
    if j <= 0 {
        0
    } else if j <= s.len() && whitespace(s[j - 1]) {
        drop_white(s, j - 1)
    } else {
        j
    }
}

/// `s` without the white space around it.
pub open spec fn trimmed(s: Seq<char>) -> Seq<char> {
    let a = skip_white(s, 0);
    let b = drop_white(s, s.len() as int);
    if a < b {
        s.subrange(a, b)
    } else {
        Seq::empty()
    }
}

proof fn skip_white_advances(s: Seq<char>, i: int)
    requires
        0 <= i <= s.len(),
    ensures
        i <= skip_white(s, i),
    decreases s.len() - i,
{
    if i < s.len() && whitespace(s[i]) {
        skip_white_advances(s, i + 1);
    }
}

proof fn drop_white_retreats(s: Seq<char>, j: int)
    ensures
        drop_white(s, j) <= j || j < 0,
    decreases j,
{
    if j > 0 && whitespace(s[j - 1]) {
        drop_white_retreats(s, j - 1);
    }
}

/// A trimmed text lies within the text.
pub proof fn trimmed_is_inside(s: Seq<char>)
    ensures
        0 <= skip_white(s, 0),
        drop_white(s, s.len() as int) <= s.len(),
{
    skip_white_advances(s, 0);
    drop_white_retreats(s, s.len() as int);
}

/// `s` without the white space at its front.
pub open spec fn trimmed_start(s: Seq<char>) -> Seq<char> {
    s.subrange(skip_white(s, 0), s.len() as int)
}

/// `s` without the white space at its end.
pub open spec fn trimmed_end(s: Seq<char>) -> Seq<char> {
    s.subrange(0, drop_white(s, s.len() as int))
}

pub fn skip_whitespace(v: &Vec<char>, from: usize) -> (r: usize)
    requires
        from <= v@.len(),
    ensures
        r == skip_white(v@, from as int),
        from <= r <= v@.len(),
        r < v@.len() ==> !whitespace(v@[r as int]),
        forall|k: int| from <= k < r ==> whitespace(v@[k]),
{
    let mut i: usize = from;
    while i < v.len()
        invariant
            from <= i <= v@.len(),
            skip_white(v@, from as int) == skip_white(v@, i as int),
            forall|k: int| from <= k < i ==> whitespace(v@[k]),
        decreases v@.len() - i,
    {
        if !is_whitespace(v[i]) {
            return i;
        }
        i += 1;
    }
    i
}

pub fn drop_whitespace(v: &Vec<char>, to: usize) -> (r: usize)
    requires
        to <= v@.len(),
    ensures
        r == drop_white(v@, to as int),
        r <= to,
        r > 0 ==> !whitespace(v@[r - 1]),
        forall|k: int| r <= k < to ==> whitespace(v@[k]),
{
    let mut j: usize = to;
    while j > 0
        invariant
            j <= to <= v@.len(),
            drop_white(v@, to as int) == drop_white(v@, j as int),
            forall|k: int| j <= k < to ==> whitespace(v@[k]),
        decreases j,
    {
        if !is_whitespace(v[j - 1]) {
            return j;
        }
        j -= 1;
    }
    j
}

pub fn trim(s: &str) -> (r: String)
    ensures
        r@ == trimmed(s@),
{
    let v = chars_of(s);
    let a: usize = skip_whitespace(&v, 0);
    let b: usize = drop_whitespace(&v, v.len());
    if a < b {
        string_of(&v, a, b)
    } else {
        String::new()
    }
}

pub fn trim_start(s: &str) -> (r: String)
    ensures
        r@ == trimmed_start(s@),
{
    let v = chars_of(s);
    let a: usize = skip_whitespace(&v, 0);
    string_of(&v, a, v.len())
}

pub fn trim_end(s: &str) -> (r: String)
    ensures
        r@ == trimmed_end(s@),
{
    let v = chars_of(s);
    let b: usize = drop_whitespace(&v, v.len());
    string_of(&v, 0, b)
}

// ---------------------------------------------------------------- splitting

/// The pieces of `s` from position `i` on, cut at every `c`.
pub open spec fn split_from(s: Seq<char>, c: char, i: int) -> Seq<Seq<char>>
    decreases s.len() - i,
{
    let j = find_from(s, c, i);
    if i < 0 || j < i || j >= s.len() {
        seq![s.subrange(i, s.len() as int)]
    } else {
        seq![s.subrange(i, j)] + split_from(s, c, j + 1)
    }
}

/// The pieces of `s` between the occurrences of `c`.
pub open spec fn split_at_char(s: Seq<char>, c: char) -> Seq<Seq<char>> {
    split_from(s, c, 0)
}

/// A text has at least one piece.
pub proof fn split_is_not_empty(s: Seq<char>, c: char, i: int)
    ensures
        split_from(s, c, i).len() > 0,
{
}

pub fn split(s: &str, c: char) -> (r: Vec<String>)
    ensures
        views(r@) == split_at_char(s@, c),
{
    let v = chars_of(s);
    let mut out: Vec<String> = Vec::new();
    let mut i: usize = 0;
    assert(views(out@) + split_from(s@, c, 0) =~= split_at_char(s@, c));
    loop
        invariant
            v@ == s@,
            i <= v@.len(),
            views(out@) + split_from(s@, c, i as int) == split_at_char(s@, c),
        decreases v@.len() - i,
    {
        let j: usize = find_char(&v, c, i);
        let piece = string_of(&v, i, j);
        let ghost before = views(out@);
        out.push(piece);
        if j == v.len() {
            assert(before + split_from(s@, c, i as int) =~= views(out@));
            return out;
        }
        proof {
            let rest = split_from(s@, c, j + 1);
            assert(before + (seq![piece@] + rest) =~= before.push(piece@) + rest);
        }
        i = j + 1;
    }
}

/// `s` without a carriage return at its end.
pub open spec fn without_cr(s: Seq<char>) -> Seq<char> {
    if s.len() > 0 && s.last() == '\r' {
        s.drop_last()
    } else {
        s
    }
}

/// The lines of `s` from position `i` on.
pub open spec fn lines_from(s: Seq<char>, i: int) -> Seq<Seq<char>>
    decreases s.len() - i,
{
    if i < 0 || i >= s.len() {
        Seq::empty()
    } else {
        let j = find_from(s, '\n', i);
        if j < i || j >= s.len() {
            seq![s.subrange(i, s.len() as int)]
        } else {
            seq![without_cr(s.subrange(i, j))] + lines_from(s, j + 1)
        }
    }
}

/// The lines of `s`: each ends at a newline, which may follow a carriage
/// return; the last one may lack it.
pub open spec fn text_lines(s: Seq<char>) -> Seq<Seq<char>> {
    lines_from(s, 0)
}

pub fn lines(s: &str) -> (r: Vec<String>)
    ensures
        views(r@) == text_lines(s@),
{
    let v = chars_of(s);
    let mut out: Vec<String> = Vec::new();
    let mut i: usize = 0;
    assert(views(out@) + lines_from(s@, 0) =~= text_lines(s@));
    while i < v.len()
        invariant
            v@ == s@,
            i <= v@.len(),
            views(out@) + lines_from(s@, i as int) == text_lines(s@),
        decreases v@.len() - i,
    {
        let j: usize = find_char(&v, '\n', i);
        let ghost before = views(out@);
        if j == v.len() {
            out.push(string_of(&v, i, j));
            assert(views(out@) =~= before + lines_from(s@, i as int));
            return out;
        }
        let end: usize = if j > i && v[j - 1] == '\r' {
            j - 1
        } else {
            j
        };
        let piece = string_of(&v, i, end);
        out.push(piece);
        proof {
            let whole = s@.subrange(i as int, j as int);
            assert(whole.len() > 0 ==> whole.last() == s@[j - 1]);
            assert(piece@ =~= without_cr(whole));
            let rest = lines_from(s@, j + 1);
            assert(before + (seq![piece@] + rest) =~= before.push(piece@) + rest);
        }
        i = j + 1;
    }
    assert(views(out@) + lines_from(s@, i as int) =~= views(out@));
    out
}

/// The first position at or after `i` that holds white space.
pub open spec fn word_end(s: Seq<char>, i: int) -> int
    decreases s.len() - i,
{
    if i >= s.len() {
        s.len() as int
    } else if whitespace(s[i]) {
        i
    } else {
        word_end(s, i + 1)
    }
}

/// The words of `s` from position `i` on.
pub open spec fn words_from(s: Seq<char>, i: int) -> Seq<Seq<char>>
    decreases s.len() - i,
{
    let a = skip_white(s, i);
    let b = word_end(s, a);
    if i < 0 || a < i || b <= a || b > s.len() {
        Seq::empty()
    } else {
        seq![s.subrange(a, b)] + words_from(s, b)
    }
}

/// The runs of characters of `s` between white space.
pub open spec fn text_words(s: Seq<char>) -> Seq<Seq<char>> {
    words_from(s, 0)
}

pub fn find_whitespace(v: &Vec<char>, from: usize) -> (r: usize)
    requires
        from <= v@.len(),
    ensures
        r == word_end(v@, from as int),
        from <= r <= v@.len(),
        r < v@.len() ==> whitespace(v@[r as int]),
        forall|k: int| from <= k < r ==> !whitespace(v@[k]),
{
    let mut i: usize = from;
    while i < v.len()
        invariant
            from <= i <= v@.len(),
            word_end(v@, from as int) == word_end(v@, i as int),
            forall|k: int| from <= k < i ==> !whitespace(v@[k]),
        decreases v@.len() - i,
    {
        if is_whitespace(v[i]) {
            return i;
        }
        i += 1;
    }
    i
}

pub fn split_whitespace(s: &str) -> (r: Vec<String>)
    ensures
        views(r@) == text_words(s@),
{
    let v = chars_of(s);
    let mut out: Vec<String> = Vec::new();
    let mut i: usize = 0;
    assert(views(out@) + words_from(s@, 0) =~= text_words(s@));
    loop
        invariant
            v@ == s@,
            i <= v@.len(),
            views(out@) + words_from(s@, i as int) == text_words(s@),
        decreases v@.len() - i,
    {
        let a: usize = skip_whitespace(&v, i);
        if a == v.len() {
            assert(views(out@) + words_from(s@, i as int) =~= views(out@));
            return out;
        }
        let b: usize = find_whitespace(&v, a);
        let piece = string_of(&v, a, b);
        let ghost before = views(out@);
        out.push(piece);
        proof {
            let rest = words_from(s@, b as int);
            assert(before + (seq![piece@] + rest) =~= before.push(piece@) + rest);
        }
        i = b;
    }
}

// ---------------------------------------------------------------- case and numbers

/// The lower case form of an ASCII letter; any other character itself.
pub open spec fn ascii_lower(c: char) -> char {
    if 'A' as u32 <= c as u32 <= 'Z' as u32 {
        ((c as u32 + 32) as u8) as char
    } else {
        c
    }
}

pub fn lower(c: char) -> (r: char)
    ensures
        r == ascii_lower(c),
{
    let n: u32 = c as u32;
    if 65 <= n && n <= 90 {
        ((n + 32) as u8) as char
    } else {
        c
    }
}

/// `s` with its ASCII letters in lower case.
pub open spec fn lowered(s: Seq<char>) -> Seq<char> {
    Seq::new(s.len(), |i: int| ascii_lower(s[i]))
}

pub fn to_ascii_lowercase(s: &str) -> (r: String)
    ensures
        r@ == lowered(s@),
{
    let v = chars_of(s);
    let mut out = String::new();
    let mut i: usize = 0;
    while i < v.len()
        invariant
            v@ == s@,
            i <= v@.len(),
            out@ =~= lowered(s@.take(i as int)),
        decreases v@.len() - i,
    {
        out.push(lower(v[i]));
        i += 1;
    }
    assert(s@.take(i as int) =~= s@);
    out
}

/// The decimal digit of `d`.
pub open spec fn digit(d: nat) -> char {
    (('0' as u32 + d) as u8) as char
}

/// `n` in decimal.
pub open spec fn decimal(n: nat) -> Seq<char>
    decreases n,
{
    if n < 10 {
        seq![digit(n)]
    } else {
        decimal(n / 10).push(digit(n % 10))
    }
}

/// A number is written with at least one digit, and begins with one.
pub proof fn decimal_starts_with_a_digit(n: nat)
    ensures
        decimal(n).len() > 0,
        '0' <= decimal(n)[0] <= '9',
    decreases n,
{
    if n >= 10 {
        decimal_starts_with_a_digit(n / 10);
    }
}

pub fn dec(n: u64) -> (r: String)
    ensures
        r@ == decimal(n as nat),
    decreases n,
{
    if n < 10 {
        let mut out = String::new();
        out.push((48 + n as u8) as char);
        assert(out@ =~= seq![digit(n as nat)]);
        out
    } else {
        let mut out = dec(n / 10);
        out.push((48 + (n % 10) as u8) as char);
        out
    }
}

/// The decimal form of a number of any machine size.
pub fn dec_wide(n: u128) -> (r: String)
    ensures
        r@ == decimal(n as nat),
    decreases n,
{
    if n < 10 {
        dec(n as u64)
    } else {
        let mut out = dec_wide(n / 10);
        out.push((48 + (n % 10) as u8) as char);
        out
    }
}

pub open spec fn signed_decimal(n: int) -> Seq<char> {
    if n < 0 {
        seq!['-'] + decimal((-n) as nat)
    } else {
        decimal(n as nat)
    }
}

pub fn dec_signed(n: i64) -> (r: String)
    ensures
        r@ == signed_decimal(n as int),
{
    if n < 0 {
        let m: u64 = (-(n as i128)) as u64;
        let mut out = String::new();
        out.push('-');
        out.append(dec(m).as_str());
        assert(out@ =~= seq!['-'] + decimal((-n) as nat));
        out
    } else {
        dec(n as u64)
    }
}

/// `n` in decimal, with a zero in front of a single digit.
pub open spec fn two_digits(n: nat) -> Seq<char> {
    if n < 10 {
        "0"@ + decimal(n)
    } else {
        decimal(n)
    }
}

pub fn dec2(n: u64) -> (r: String)
    ensures
        r@ == two_digits(n as nat),
{
    if n < 10 {
        cat2("0", dec(n).as_str())
    } else {
        dec(n)
    }
}

// ---------------------------------------------------------------- reading numbers

pub open spec fn is_digit(c: char) -> bool {
    '0' as u32 <= c as u32 <= '9' as u32
}

pub open spec fn all_digits(s: Seq<char>) -> bool {
    forall|i: int| 0 <= i < s.len() ==> is_digit(#[trigger] s[i])
}

/// The number that a row of digits stands for.
pub open spec fn digits_value(s: Seq<char>) -> nat
    decreases s.len(),
{
    if s.len() == 0 {
        0
    } else {
        (digits_value(s.drop_last()) * 10 + (s.last() as u32 - '0' as u32)) as nat
    }
}

/// The number that `s` writes: digits, with a plus sign or without.
pub open spec fn parsed_number(s: Seq<char>) -> Option<nat> {
    let d = if s.len() > 0 && s[0] == '+' {
        s.skip(1)
    } else {
        s
    };
    if d.len() > 0 && all_digits(d) {
        Some(digits_value(d))
    } else {
        None
    }
}

/// The number that `s` writes, when it is at most 255.
pub fn parse_byte(s: &str) -> (r: Option<u8>)
    ensures
        match parsed_number(s@) {
            Some(n) => if n <= 255 {
                r == Some(n as u8)
            } else {
                r is None
            },
            None => r is None,
        },
{
    let v = chars_of(s);
    let start: usize = if v.len() > 0 && v[0] == '+' {
        1
    } else {
        0
    };
    let ghost d = v@.skip(start as int);
    assert(v@.skip(0) =~= v@);
    if start == v.len() {
        return None;
    }
    let mut i: usize = start;
    let mut n: u32 = 0;
    assert(d.take(0) =~= Seq::<char>::empty());
    while i < v.len()
        invariant
            start <= i <= v@.len(),
            d == v@.skip(start as int),
            d == (if s@.len() > 0 && s@[0] == '+' {
                s@.skip(1)
            } else {
                s@
            }),
            forall|k: int| 0 <= k < i - start ==> is_digit(#[trigger] d[k]),
            n <= 256,
            n < 256 ==> n == digits_value(d.take(i - start)),
            n == 256 ==> digits_value(d.take(i - start)) >= 256,
        decreases v@.len() - i,
    {
        let c: u32 = v[i] as u32;
        if c < 48 || c > 57 {
            assert(!is_digit(d[i - start]));
            return None;
        }
        let next: u32 = n * 10 + (c - 48);
        n = if next > 256 {
            256
        } else {
            next
        };
        i += 1;
        assert(d.take(i - start).drop_last() =~= d.take(i - start - 1));
    }
    assert(d.take(i - start) =~= d);
    if n < 256 {
        Some(n as u8)
    } else {
        None
    }
}

// ---------------------------------------------------------------- replacing

/// `s` from position `i` on, with `w` in place of every `p`; an empty `p` stands
/// nowhere.
pub open spec fn replaced_from(s: Seq<char>, p: Seq<char>, w: Seq<char>, i: int) -> Seq<char>
    decreases s.len() - i,
{
    let j = find_text_from(s, p, i);
    if i < 0 || p.len() == 0 || j < i || j + p.len() > s.len() {
        s.subrange(i, s.len() as int)
    } else {
        s.subrange(i, j) + w + replaced_from(s, p, w, j + p.len())
    }
}

/// `s` with `w` in place of every `p`.
pub open spec fn replaced(s: Seq<char>, p: Seq<char>, w: Seq<char>) -> Seq<char> {
    replaced_from(s, p, w, 0)
}

pub fn replace(s: &str, p: &str, w: &str) -> (r: String)
    ensures
        r@ == replaced(s@, p@, w@),
{
    let v = chars_of(s);
    let q = chars_of(p);
    let n: usize = v.len();
    let mut out = String::new();
    let mut i: usize = 0;
    if q.len() == 0 {
        assert(s@.subrange(0, s@.len() as int) =~= s@);
        return s.to_owned();
    }
    assert(out@ + replaced_from(s@, p@, w@, 0) =~= replaced(s@, p@, w@));
    loop
        invariant
            v@ == s@,
            q@ == p@,
            q@.len() > 0,
            n == v@.len(),
            i <= n,
            out@ + replaced_from(s@, p@, w@, i as int) == replaced(s@, p@, w@),
        decreases v@.len() - i,
    {
        let ghost before = out@;
        match find_text(&v, &q, i) {
            None => {
                out.append(string_of(&v, i, v.len()).as_str());
                return out;
            },
            Some(j) => {
                out.append(string_of(&v, i, j).as_str());
                out.append(w);
                proof {
                    let rest = replaced_from(s@, p@, w@, j + p@.len());
                    assert(before + (s@.subrange(i as int, j as int) + w@ + rest) =~= out@ + rest);
                }
                i = j + q.len();
            },
        }
    }
}

/// `s` with `w` in place of the first `p`.
pub open spec fn replaced_first(s: Seq<char>, p: Seq<char>, w: Seq<char>) -> Seq<char> {
    let j = find_text_from(s, p, 0);
    if j < 0 {
        s
    } else {
        s.take(j) + w + s.skip(j + p.len())
    }
}

pub fn replace_first(s: &str, p: &str, w: &str) -> (r: String)
    ensures
        r@ == replaced_first(s@, p@, w@),
{
    let v = chars_of(s);
    let q = chars_of(p);
    let n: usize = v.len();
    match find_text(&v, &q, 0) {
        None => s.to_owned(),
        Some(j) => {
            let mut out = string_of(&v, 0, j);
            out.append(w);
            out.append(string_of(&v, j + q.len(), n).as_str());
            assert(out@ =~= replaced_first(s@, p@, w@));
            out
        },
    }
}

/// The first position at or after `i` whose character is not one of `set`.
pub open spec fn skip_set(s: Seq<char>, set: Seq<char>, i: int) -> int
    decreases s.len() - i,
{
    if i >= s.len() {
        s.len() as int
    } else if set.contains(s[i]) {
        skip_set(s, set, i + 1)
    } else {
        i
    }
}

/// The end of `s.take(j)` without the characters of `set` it ends in.
pub open spec fn drop_set(s: Seq<char>, set: Seq<char>, j: int) -> int
    decreases j,
{
    if j <= 0 {
        0
    } else if j <= s.len() && set.contains(s[j - 1]) {
        drop_set(s, set, j - 1)
    } else {
        j
    }
}

/// `s` without the characters of `set` at its front.
pub fn trim_start_of(s: &str, set: &str) -> (r: String)
    ensures
        r@ == s@.skip(skip_set(s@, set@, 0)),
        0 <= skip_set(s@, set@, 0) <= s@.len(),
{
    let v = chars_of(s);
    let mut i: usize = 0;
    while i < v.len() && has_char(set, v[i])
        invariant
            v@ == s@,
            i <= v@.len(),
            skip_set(s@, set@, 0) == skip_set(s@, set@, i as int),
        decreases v@.len() - i,
    {
        i += 1;
    }
    let r = string_of(&v, i, v.len());
    assert(r@ =~= s@.skip(i as int));
    r
}

/// `s` without the characters of `set` at its end.
pub fn trim_end_of(s: &str, set: &str) -> (r: String)
    ensures
        r@ == s@.take(drop_set(s@, set@, s@.len() as int)),
        0 <= drop_set(s@, set@, s@.len() as int) <= s@.len(),
{
    let v = chars_of(s);
    let mut j: usize = v.len();
    while j > 0 && has_char(set, v[j - 1])
        invariant
            v@ == s@,
            j <= v@.len(),
            drop_set(s@, set@, s@.len() as int) == drop_set(s@, set@, j as int),
        decreases j,
    {
        j -= 1;
    }
    let r = string_of(&v, 0, j);
    assert(r@ =~= s@.take(j as int));
    r
}

/// Whether a list of strings holds the text `x`.
pub fn holds(v: &Vec<String>, x: &str) -> (r: bool)
    ensures
        r == views(v@).contains(x@),
{
    let mut i: usize = 0;
    while i < v.len()
        invariant
            i <= v@.len(),
            forall|k: int| 0 <= k < i ==> views(v@)[k] != x@,
        decreases v@.len() - i,
    {
        if same(v[i].as_str(), x) {
            assert(views(v@)[i as int] == x@);
            return true;
        }
        i += 1;
    }
    false
}

/// A copy of a list of strings.
pub fn copy_all(v: &Vec<String>) -> (r: Vec<String>)
    ensures
        views(r@) == views(v@),
{
    let mut out: Vec<String> = Vec::new();
    let mut i: usize = 0;
    while i < v.len()
        invariant
            i <= v@.len(),
            views(out@) =~= views(v@).take(i as int),
        decreases v@.len() - i,
    {
        out.push(v[i].clone());
        i += 1;
    }
    assert(views(v@).take(i as int) =~= views(v@));
    out
}

/// The pieces of `s` from position `i` on, cut at every `p`.
pub open spec fn split_text_from(s: Seq<char>, p: Seq<char>, i: int) -> Seq<Seq<char>>
    decreases s.len() - i,
{
    let j = find_text_from(s, p, i);
    if i < 0 || p.len() == 0 || j < i || j + p.len() > s.len() {
        seq![s.subrange(i, s.len() as int)]
    } else {
        seq![s.subrange(i, j)] + split_text_from(s, p, j + p.len())
    }
}

/// The pieces of `s` between the occurrences of `p`, which is not empty.
pub fn split_text(s: &str, p: &str) -> (r: Vec<String>)
    ensures
        views(r@) == split_text_from(s@, p@, 0),
{
    let v = chars_of(s);
    let q = chars_of(p);
    let n: usize = v.len();
    let mut out: Vec<String> = Vec::new();
    let mut i: usize = 0;
    if q.len() == 0 {
        out.push(string_of(&v, 0, n));
        assert(views(out@) =~= split_text_from(s@, p@, 0));
        return out;
    }
    assert(views(out@) + split_text_from(s@, p@, 0) =~= split_text_from(s@, p@, 0));
    loop
        invariant
            v@ == s@,
            q@ == p@,
            q@.len() > 0,
            n == v@.len(),
            i <= n,
            views(out@) + split_text_from(s@, p@, i as int) == split_text_from(s@, p@, 0),
        decreases n - i,
    {
        let ghost before = views(out@);
        match find_text(&v, &q, i) {
            None => {
                out.push(string_of(&v, i, n));
                assert(views(out@) =~= before + split_text_from(s@, p@, i as int));
                return out;
            },
            Some(j) => {
                let piece = string_of(&v, i, j);
                out.push(piece);
                proof {
                    let rest = split_text_from(s@, p@, j + p@.len());
                    assert(before + (seq![piece@] + rest) =~= before.push(piece@) + rest);
                }
                i = j + q.len();
            },
        }
    }
}

} // verus!
