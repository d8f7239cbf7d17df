//! Terminal columns, grapheme clusters and line breaking, as the Unicode crates
//! compute them.

use vstd::prelude::*;

use textwrap::wrap as textwrap_wrap;
use unicode_segmentation::UnicodeSegmentation;
use unicode_width::{UnicodeWidthChar, UnicodeWidthStr};

use crate::line::Line;
use crate::number::sat;
use crate::model::{views, SpanV};
use crate::strings::control;

verus! {

broadcast use crate::model::group_views;

/// What `UnicodeWidthChar::width` returns for a character.
pub uninterp spec fn unicode_char_width(c: char) -> Option<usize>;

/// What `UnicodeWidthStr::width` returns for a text.
pub uninterp spec fn unicode_str_width(s: Seq<char>) -> usize;

/// The extended grapheme clusters that `UnicodeSegmentation::graphemes` yields.
pub uninterp spec fn unicode_graphemes(s: Seq<char>) -> Seq<Seq<char>>;

/// The lines that `textwrap::wrap` breaks a text into at a width.
pub uninterp spec fn textwrap_lines(text: Seq<char>, width: usize) -> Seq<Seq<char>>;

/// `UnicodeWidthChar::width`: the columns of a character. It is `None` for the
/// control characters and for no other, one for printable ASCII, and three at
/// most.
#[verifier::external_body]
fn char_width_of(c: char) -> (w: Option<usize>)
    ensures
        w == unicode_char_width(c),
        w is None <==> control(c),
        0x20 <= c as u32 <= 0x7e ==> w == Some(1usize),
        w matches Some(n) ==> n <= 3,
{
    UnicodeWidthChar::width(c)
}

/// `UnicodeWidthStr::width`: the columns of a text. What it is beyond being a
/// function of the text is left to the crate.
#[verifier::external_body]
pub(crate) fn str_width(s: &str) -> (w: usize)
    ensures
        w == unicode_str_width(s@),
{
    UnicodeWidthStr::width(s)
}

/// Whether `all` are the clusters `front` with the character `c` behind them: joined to
/// the last cluster, or one of its own.
pub open spec fn one_more(front: Seq<Seq<char>>, c: char, all: Seq<Seq<char>>) -> bool {
    ||| all == front.push(seq![c])
    ||| all == front.drop_last().push(front.last().push(c))
}

/// `UnicodeSegmentation::graphemes(true)`, collected. The clusters are slices of
/// the text from its front to its end, none empty, so together they are the text.
/// They are found from the front: whether a cluster ends before a character rests on
/// that character and on those before it alone. So the first clusters, with one more
/// character behind them, are found again as they are, but that the character may join
/// the last.
#[verifier::external_body]
pub(crate) fn graphemes(s: &str) -> (r: Vec<String>)
    ensures
        views(r@) == unicode_graphemes(s@),
        concat(views(r@)) == s@,
        forall|i: int| 0 <= i < r@.len() ==> (#[trigger] r@[i])@.len() > 0,
        forall|n: int, c: char|
            0 < n <= r@.len() ==> one_more(
                views(r@).take(n),
                c,
                #[trigger] unicode_graphemes(concat(views(r@).take(n)).push(c)),
            ),
{
    UnicodeSegmentation::graphemes(s, true).map(|g| g.to_string()).collect()
}

/// `textwrap::wrap` with a width, each line owned. Where the lines break is left
/// to the crate.
#[verifier::external_body]
pub(crate) fn wrap_words(text: &str, width: usize) -> (r: Vec<String>)
    ensures
        views(r@) == textwrap_lines(text@, width),
{
    textwrap_wrap(text, width).into_iter().map(|line| line.into_owned()).collect()
}

/// Texts one after the other.
pub open spec fn concat(parts: Seq<Seq<char>>) -> Seq<char>
    decreases parts.len(),
{
    if parts.len() == 0 {
        Seq::empty()
    } else {
        concat(parts.drop_last()) + parts.last()
    }
}

/// The columns that a character takes; none for a control character.
pub open spec fn columns(c: char) -> nat {
    match unicode_char_width(c) {
        Some(w) => w as nat,
        None => 0,
    }
}

/// The columns of the characters of `s`, each measured alone.
pub open spec fn columns_sum(s: Seq<char>) -> nat
    decreases s.len(),
{
    if s.len() == 0 {
        0
    } else {
        columns_sum(s.drop_last()) + columns(s.last())
    }
}

pub fn char_columns(c: char) -> (w: usize)
    ensures
        w == columns(c),
        w <= 3,
        control(c) ==> w == 0,
        0x20 <= c as u32 <= 0x7e ==> w == 1,
{
    match char_width_of(c) {
        Some(w) => w,
        None => 0,
    }
}

/// The end of the longest run of characters from `i` on that fits in `room`
/// columns.
pub open spec fn fit_end(s: Seq<char>, i: int, room: int) -> int
    decreases s.len() - i,
{
    if i >= s.len() {
        s.len() as int
    } else if columns(s[i]) > room {
        i
    } else {
        fit_end(s, i + 1, room - columns(s[i]))
    }
}

/// The start of the longest run of characters before `j` that fits in `room`
/// columns.
pub open spec fn fit_start(s: Seq<char>, j: int, room: int) -> int
    decreases j,
{
    if j <= 0 {
        0
    } else if columns(s[j - 1]) > room {
        j
    } else {
        fit_start(s, j - 1, room - columns(s[j - 1]))
    }
}

pub proof fn columns_sum_add(a: Seq<char>, b: Seq<char>)
    ensures
        columns_sum(a + b) == columns_sum(a) + columns_sum(b),
    decreases b.len(),
{
    if b.len() == 0 {
        assert(a + b =~= a);
    } else {
        assert((a + b).drop_last() =~= a + b.drop_last());
        columns_sum_add(a, b.drop_last());
    }
}

pub proof fn columns_sum_one(c: char)
    ensures
        columns_sum(seq![c]) == columns(c),
{
    assert(seq![c].drop_last() =~= Seq::<char>::empty());
    reveal_with_fuel(columns_sum, 2);
}

/// A cut at the front keeps the longest run that fits: what is kept fits in the
/// room, and one character more would not.
pub proof fn fit_end_is_longest(s: Seq<char>, i: int, room: int)
    requires
        0 <= i <= s.len(),
        0 <= room,
    ensures
        i <= fit_end(s, i, room) <= s.len(),
        columns_sum(s.subrange(i, fit_end(s, i, room))) <= room,
        fit_end(s, i, room) < s.len() ==> columns_sum(s.subrange(i, fit_end(s, i, room) + 1))
            > room,
    decreases s.len() - i,
{
    let e = fit_end(s, i, room);
    if i >= s.len() || columns(s[i]) > room {
        assert(s.subrange(i, e) =~= Seq::<char>::empty());
        if i < s.len() {
            assert(s.subrange(i, e + 1) =~= seq![s[i]]);
            columns_sum_one(s[i]);
        }
    } else {
        let w = columns(s[i]);
        fit_end_is_longest(s, i + 1, room - w);
        columns_sum_one(s[i]);
        assert(s.subrange(i, e) =~= seq![s[i]] + s.subrange(i + 1, e));
        columns_sum_add(seq![s[i]], s.subrange(i + 1, e));
        if e < s.len() {
            assert(s.subrange(i, e + 1) =~= seq![s[i]] + s.subrange(i + 1, e + 1));
            columns_sum_add(seq![s[i]], s.subrange(i + 1, e + 1));
        }
    }
}

/// A cut at the end keeps the longest run that fits.
pub proof fn fit_start_is_longest(s: Seq<char>, j: int, room: int)
    requires
        0 <= j <= s.len(),
        0 <= room,
    ensures
        0 <= fit_start(s, j, room) <= j,
        columns_sum(s.subrange(fit_start(s, j, room), j)) <= room,
        fit_start(s, j, room) > 0 ==> columns_sum(s.subrange(fit_start(s, j, room) - 1, j)) > room,
    decreases j,
{
    let b = fit_start(s, j, room);
    if j <= 0 || columns(s[j - 1]) > room {
        assert(s.subrange(b, j) =~= Seq::<char>::empty());
        if j > 0 {
            assert(s.subrange(b - 1, j) =~= seq![s[j - 1]]);
            columns_sum_one(s[j - 1]);
        }
    } else {
        fit_start_is_longest(s, j - 1, room - columns(s[j - 1]));
        assert(s.subrange(b, j).drop_last() =~= s.subrange(b, j - 1));
        assert(columns_sum(s.subrange(b, j)) <= room);
        if b > 0 {
            assert(s.subrange(b - 1, j).drop_last() =~= s.subrange(b - 1, j - 1));
        }
    }
}

/// The end of the longest run of `v` from `from` on that fits in `room` columns,
/// and the columns it takes.
pub fn fit_forward(v: &Vec<char>, from: usize, room: usize) -> (r: (usize, usize))
    requires
        from <= v@.len(),
    ensures
        r.0 == fit_end(v@, from as int, room as int),
        from <= r.0 <= v@.len(),
        r.1 == columns_sum(v@.subrange(from as int, r.0 as int)),
        r.1 <= room,
{
    let mut i: usize = from;
    let mut used: usize = 0;
    assert(v@.subrange(from as int, from as int) =~= Seq::<char>::empty());
    while i < v.len()
        invariant
            from <= i <= v@.len(),
            used <= room,
            used == columns_sum(v@.subrange(from as int, i as int)),
            fit_end(v@, from as int, room as int) == fit_end(v@, i as int, room - used),
        decreases v@.len() - i,
    {
        let cw: usize = char_columns(v[i]);
        if cw > room - used {
            return (i, used);
        }
        proof {
            assert(v@.subrange(from as int, i + 1).drop_last() =~= v@.subrange(
                from as int,
                i as int,
            ));
        }
        used += cw;
        i += 1;
    }
    (i, used)
}

/// The start of the longest run of `v` before `to` that fits in `room` columns.
pub fn fit_backward(v: &Vec<char>, to: usize, room: usize) -> (r: usize)
    requires
        to <= v@.len(),
    ensures
        r == fit_start(v@, to as int, room as int),
        r <= to,
{
    let mut j: usize = to;
    let mut used: usize = 0;
    while j > 0
        invariant
            j <= to <= v@.len(),
            used <= room,
            fit_start(v@, to as int, room as int) == fit_start(v@, j as int, room - used),
        decreases j,
    {
        let cw: usize = char_columns(v[j - 1]);
        if cw > room - used {
            return j;
        }
        used += cw;
        j -= 1;
    }
    j
}

/// The columns of a line: those of its spans, each measured as a text.
pub open spec fn line_columns(l: Seq<SpanV>) -> nat
    decreases l.len(),
{
    if l.len() == 0 {
        0
    } else {
        line_columns(l.drop_last()) + unicode_str_width(l.last().content) as nat
    }
}

impl Line {
    /// The columns of the line.
    pub fn width(&self) -> (w: usize)
        ensures
            w == sat(line_columns(self@) as int),
    {
        let mut w: usize = 0;
        let mut i: usize = 0;
        assert(self@.take(0) =~= Seq::<SpanV>::empty());
        while i < self.spans.len()
            invariant
                i <= self.spans@.len(),
                w == sat(line_columns(self@.take(i as int)) as int),
            decreases self.spans@.len() - i,
        {
            w = w.saturating_add(str_width(self.spans[i].content.as_str()));
            i += 1;
            assert(self@.take(i as int).drop_last() =~= self@.take(i - 1));
        }
        assert(self@.take(i as int) =~= self@);
        w
    }
}

/// Two lists of texts one after the other.
pub proof fn concat_adds(a: Seq<Seq<char>>, b: Seq<Seq<char>>)
    ensures
        concat(a + b) == concat(a) + concat(b),
    decreases b.len(),
{
    if b.len() == 0 {
        assert(a + b =~= a);
        assert(concat(a) + concat(b) =~= concat(a));
    } else {
        assert((a + b).drop_last() =~= a + b.drop_last());
        concat_adds(a, b.drop_last());
        assert(concat(a) + concat(b.drop_last()) + b.last() =~= concat(a) + (concat(b.drop_last())
            + b.last()));
    }
}

} // verus!
