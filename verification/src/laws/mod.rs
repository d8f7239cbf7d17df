//! What the screens promise, in plain characters, colors and numbers.

use vstd::prelude::*;

use crate::line::{Color, Style};
use crate::strings::{
    all_digits, decimal, digits_value, find_text_from, find_text_from_holds, is_digit, occurs_at,
    replaced, replaced_first, replaced_from,
};

pub mod agents;
pub mod calls;
pub mod commands;
pub mod composing;
pub mod conversation;
pub mod details;
pub mod endings;
pub mod files;
pub mod opening;
pub mod pages;
pub mod screens;
pub mod selecting;
pub mod session;
pub mod status;
pub mod text;
pub mod title;
pub mod tools;

verus! {

/// Plain text in a color.
pub open spec fn ink(c: Color) -> Style {
    Style { fg: Some(c), bg: None, bold: false, dim: false }
}

/// Bold text in a color.
pub open spec fn strong(c: Color) -> Style {
    Style { fg: Some(c), bg: None, bold: true, dim: false }
}

/// Text without a style.
pub open spec fn bare() -> Style {
    Style { fg: None, bg: None, bold: false, dim: false }
}

/// Whether the characters of `p` stand at the front of `s`.
pub open spec fn leads(p: Seq<char>, s: Seq<char>) -> bool {
    p.len() <= s.len() && forall|i: int| 0 <= i < p.len() ==> #[trigger] s[i] == p[i]
}

/// The larger of two numbers.
pub open spec fn larger(a: int, b: int) -> int {
    if a >= b {
        a
    } else {
        b
    }
}

/// A number in decimal reads back: its characters are digits and stand for it.
pub proof fn decimal_reads_back(n: nat)
    ensures
        decimal(n).len() > 0,
        all_digits(decimal(n)),
        digits_value(decimal(n)) == n,
    decreases n,
{
    if n < 10 {
        assert(decimal(n).drop_last() =~= Seq::<char>::empty());
        reveal_with_fuel(digits_value, 2);
    } else {
        decimal_reads_back(n / 10);
        assert(decimal(n).drop_last() =~= decimal(n / 10));
        assert forall|i: int| 0 <= i < decimal(n).len() implies is_digit(
            #[trigger] decimal(n)[i],
        ) by {
            if i < decimal(n / 10).len() {
                assert(decimal(n)[i] == decimal(n / 10)[i]);
            }
        }
    }
}

/// A text stands where it is first found: behind what does not hold its first character.
pub proof fn found_at(head: Seq<char>, p: Seq<char>, tail: Seq<char>)
    requires
        p.len() > 0,
        !head.contains(p[0]),
    ensures
        find_text_from(head + p + tail, p, 0) == head.len(),
{
    let s = head + p + tail;
    find_text_from_holds(s, p, 0);
    assert(s.subrange(head.len() as int, (head.len() + p.len()) as int) =~= p);
    assert(occurs_at(s, p, head.len() as int));
    let j = find_text_from(s, p, 0);
    if j < head.len() {
        assert(s.subrange(j, j + p.len())[0] == s[j]);
        assert(s[j] == head[j]);
        assert(head.contains(p[0]));
    }
}

/// The first gap of a wording is filled, and the rest stays as it is.
pub proof fn first_gap_is_filled(head: Seq<char>, p: Seq<char>, tail: Seq<char>, w: Seq<char>)
    requires
        p.len() > 0,
        !head.contains(p[0]),
    ensures
        replaced_first(head + p + tail, p, w) == head + w + tail,
{
    let s = head + p + tail;
    found_at(head, p, tail);
    assert(s.take(head.len() as int) =~= head);
    assert(s.skip((head.len() + p.len()) as int) =~= tail);
}

/// The only gap of a wording is filled, and the rest stays as it is.
pub proof fn only_gap_is_filled(head: Seq<char>, p: Seq<char>, tail: Seq<char>, w: Seq<char>)
    requires
        p.len() > 0,
        !head.contains(p[0]),
        forall|k: int| !occurs_at(tail, p, k),
    ensures
        replaced(head + p + tail, p, w) == head + w + tail,
{
    let s = head + p + tail;
    let j = head.len() as int;
    let e = j + p.len();
    found_at(head, p, tail);
    find_text_from_holds(s, p, e);
    let f = find_text_from(s, p, e);
    if f != -1 {
        assert(s.subrange(f, f + p.len()) =~= tail.subrange(f - e, f - e + p.len()));
        assert(occurs_at(tail, p, f - e));
    }
    assert(replaced_from(s, p, w, e) == s.subrange(e, s.len() as int));
    assert(s.subrange(0, j) =~= head);
    assert(s.subrange(e, s.len() as int) =~= tail);
}

/// A text without the first character of `p` holds no `p`.
pub proof fn absent(s: Seq<char>, p: Seq<char>)
    requires
        p.len() > 0,
        !s.contains(p[0]),
    ensures
        forall|k: int| !occurs_at(s, p, k),
{
    assert forall|k: int| !occurs_at(s, p, k) by {
        if occurs_at(s, p, k) {
            assert(s.subrange(k, k + p.len())[0] == s[k]);
        }
    }
}

} // verus!
