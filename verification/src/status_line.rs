//! The status strip, the chips of the input border and the footer.
//!
//! The header names branch and repository, the status strip what runs now, the
//! input border the model and its modes, the footer what the context holds.

use vstd::arithmetic::div_mod::{lemma_div_is_ordered, lemma_fundamental_div_mod};
use vstd::prelude::*;

use chrono::NaiveTime;

use crate::i18n::{text_of, UiText};
use crate::line::{bold_style, fg_style, spanv, styled_line, Color, Line, Span, Style};
use crate::model::{line_views, views, SpanV};
use crate::number::at_least;
use crate::overlay::OverlayKind;
use crate::protocol::{
    model_ref, FinalizationStage, ModelRef, PlanStepStatus, RuntimeStatus, UiPlan, UiPlanStep,
};
use crate::render::text::{truncate_display, truncated};
use crate::seconds::{excess, excess_of, half_even, rounded};
use crate::state::{opt_text, AppState, Reconnecting};
use crate::strings::{
    after_prefix, cat2, cat3, cat4, chars_of, dec, dec2, dec_wide, decimal, drop_prefix, join,
    joined, replace, replace_first, replaced, replaced_first, same, skip_set, string_of,
    strip_prefix, trim, trim_start_of, trimmed, two_digits, begins,
};
use crate::theme::Theme;
use crate::transcript::TranscriptItem;
use crate::width::{str_width, unicode_str_width};

verus! {

broadcast use crate::model::group_views;

// ---------------------------------------------------------------- durations and times

/// A duration: `59s`, `2m 05s`.
pub open spec fn elapsed(secs: nat) -> Seq<char> {
    if secs >= 60 {
        decimal(secs / 60) + "m "@ + two_digits(secs % 60) + "s"@
    } else {
        decimal(secs) + "s"@
    }
}

pub fn fmt_elapsed(secs: u64) -> (r: String)
    ensures
        r@ == elapsed(secs as nat),
{
    if secs >= 60 {
        cat4(dec(secs / 60).as_str(), "m ", dec2(secs % 60).as_str(), "s")
    } else {
        cat2(dec(secs).as_str(), "s")
    }
}

/// Whether the numbers are a time of a day.
pub open spec fn time_of_day(hour: u32, minute: u32, second: u32) -> bool {
    hour <= 23 && minute <= 59 && second <= 59
}

/// `NaiveTime::from_hms_opt`, and `format("%H:%M")` of the time it makes: a time
/// exists for an hour below 24 and a minute and a second below 60, and is written
/// as the hour and the minute in two digits each.
#[verifier::external_body]
fn naive_clock(hour: u32, minute: u32, second: u32) -> (r: Option<String>)
    ensures
        r is Some == time_of_day(hour, minute, second),
        r matches Some(s) ==> s@ == two_digits(hour as nat) + ":"@ + two_digits(minute as nat),
{
    NaiveTime::from_hms_opt(hour, minute, second).map(|time| time.format("%H:%M").to_string())
}

/// A wall clock time as `HH:MM`: 24-hour, no seconds, no date, no label; none where
/// the numbers are no time of a day.
pub fn fmt_clock(hour: u32, minute: u32, second: u32) -> (r: Option<String>)
    ensures
        r is Some == time_of_day(hour, minute, second),
        r matches Some(s) ==> s@ == two_digits(hour as nat) + ":"@ + two_digits(minute as nat),
{
    naive_clock(hour, minute, second)
}

// ---------------------------------------------------------------- token counts

/// The digits of `s` from position `i` on, with a comma before every group of three
/// that has digits before it.
pub open spec fn grouped_from(s: Seq<char>, i: int) -> Seq<char>
    decreases s.len() - i,
{
    if i < 0 || i >= s.len() {
        Seq::empty()
    } else if i > 0 && (s.len() - i) % 3 == 0 {
        seq![',', s[i]] + grouped_from(s, i + 1)
    } else {
        seq![s[i]] + grouped_from(s, i + 1)
    }
}

/// A number with its thousands apart.
pub open spec fn grouped(n: nat) -> Seq<char> {
    grouped_from(decimal(n), 0)
}

pub fn fmt_tokens(n: u32) -> (r: String)
    ensures
        r@ == grouped(n as nat),
{
    let digits = dec(n as u64);
    let v = chars_of(digits.as_str());
    let len: usize = v.len();
    let mut out = String::new();
    let mut i: usize = 0;
    assert(out@ + grouped_from(digits@, 0) =~= grouped(n as nat));
    while i < len
        invariant
            v@ == digits@,
            len == v@.len(),
            i <= len,
            out@ + grouped_from(digits@, i as int) == grouped(n as nat),
        decreases len - i,
    {
        let ghost before = out@;
        let ghost rest = grouped_from(digits@, i + 1);
        if i > 0 && (len - i) % 3 == 0 {
            out.push(',');
            out.push(v[i]);
            assert(before + (seq![',', digits@[i as int]] + rest) =~= out@ + rest);
        } else {
            out.push(v[i]);
            assert(before + (seq![digits@[i as int]] + rest) =~= out@ + rest);
        }
        i += 1;
    }
    assert(out@ + grouped_from(digits@, i as int) =~= out@);
    out
}

/// `s` without its commas.
pub open spec fn without_commas(s: Seq<char>) -> Seq<char>
    decreases s.len(),
{
    if s.len() == 0 {
        Seq::empty()
    } else if s[0] == ',' {
        without_commas(s.skip(1))
    } else {
        seq![s[0]] + without_commas(s.skip(1))
    }
}

proof fn decimal_has_no_comma(n: nat)
    ensures
        !decimal(n).contains(','),
    decreases n,
{
    if n >= 10 {
        decimal_has_no_comma(n / 10);
    }
    let last = decimal(n).last();
    assert(last != ',');
    assert forall|i: int| 0 <= i < decimal(n).len() implies decimal(n)[i] != ',' by {
        if n >= 10 && i < decimal(n / 10).len() {
            assert(decimal(n)[i] == decimal(n / 10)[i]);
        }
    }
}

proof fn grouping_keeps_digits(s: Seq<char>, i: int)
    requires
        0 <= i <= s.len(),
        !s.contains(','),
    ensures
        without_commas(grouped_from(s, i)) == s.skip(i),
    decreases s.len() - i,
{
    if i < s.len() {
        grouping_keeps_digits(s, i + 1);
        let rest = grouped_from(s, i + 1);
        assert(s[i] != ',');
        let tail = seq![s[i]] + rest;
        assert(tail.skip(1) =~= rest);
        assert(without_commas(tail) =~= s.skip(i));
        if i > 0 && (s.len() - i) % 3 == 0 {
            let whole = seq![',', s[i]] + rest;
            assert(whole.skip(1) =~= tail);
        }
    } else {
        assert(s.skip(i) =~= Seq::<char>::empty());
    }
}

/// Grouping changes no digit: without its commas the text is the number.
pub proof fn grouped_number_reads_back(n: nat)
    ensures
        without_commas(grouped(n)) == decimal(n),
{
    decimal_has_no_comma(n);
    grouping_keeps_digits(decimal(n), 0);
    assert(decimal(n).skip(0) =~= decimal(n));
}

/// A whole part and one decimal, which is left out where it is zero.
pub open spec fn one_decimal(whole: nat, tenth: nat, unit: Seq<char>) -> Seq<char> {
    if tenth == 0 {
        decimal(whole) + unit
    } else {
        decimal(whole) + "."@ + decimal(tenth) + unit
    }
}

/// The magnitude of a count.
pub open spec fn compact_count(n: nat) -> Seq<char> {
    if n >= 1_000_000 {
        one_decimal(n / 1_000_000, (n % 1_000_000) / 100_000, "M"@)
    } else if n >= 10_000 {
        decimal(n / 1_000) + "k"@
    } else if n >= 1_000 {
        one_decimal(n / 1_000, (n % 1_000) / 100, "k"@)
    } else {
        decimal(n)
    }
}

fn with_decimal(whole: u64, tenth: u64, unit: &str) -> (r: String)
    ensures
        r@ == one_decimal(whole as nat, tenth as nat, unit@),
{
    if tenth == 0 {
        cat2(dec(whole).as_str(), unit)
    } else {
        cat4(dec(whole).as_str(), ".", dec(tenth).as_str(), unit)
    }
}

/// Compact magnitude for footer context: `41181 → 41k`, `1048576 → 1M`.
pub fn fmt_tokens_compact(n: u32) -> (r: String)
    ensures
        r@ == compact_count(n as nat),
{
    let n: u64 = n as u64;
    if n >= 1_000_000 {
        with_decimal(n / 1_000_000, (n % 1_000_000) / 100_000, "M")
    } else if n >= 10_000 {
        cat2(dec(n / 1_000).as_str(), "k")
    } else if n >= 1_000 {
        with_decimal(n / 1_000, (n % 1_000) / 100, "k")
    } else {
        dec(n)
    }
}

// ---------------------------------------------------------------- estimates

/// Two to the 24: every smaller integer is a binary fraction of 24 bits.
pub const SINGLE: u128 = 0x100_0000;

/// The integer of 24 significant bits nearest to `n`, the even one on a tie.
pub open spec fn nearest_single(n: nat) -> nat {
    let k = excess(n, SINGLE as nat);
    half_even(n, k) * k
}

/// The number of 24 significant bits nearest to `n / 1.6`, in units of one
/// 2^24th. The divisor is the number of 24 bits nearest to 1.6, which is
/// 13421773 / 2^23.
pub open spec fn over_one_point_six(n: nat) -> nat {
    let a = n * 0x8000_0000_0000;
    let k = excess(a / 13421773, SINGLE as nat);
    half_even(a, 13421773 * k) * k
}

/// How many of the first `n` characters are at or above U+2E80.
pub open spec fn wide_count(s: Seq<char>, n: int) -> nat
    decreases n,
{
    if n <= 0 {
        0
    } else {
        wide_count(s, n - 1) + (if s[n - 1] as u32 >= 0x2E80 {
            1nat
        } else {
            0
        })
    }
}

/// The tokens that so many wide and other characters may come to: a wide one counts
/// 1/1.6, another 1/4, in numbers of 24 bits, and the sum is rounded up.
pub open spec fn estimate_of(wide: nat, other: nat) -> nat {
    let sum = nearest_single(
        over_one_point_six(nearest_single(wide)) + nearest_single(other) * 0x40_0000,
    );
    (sum + 0xff_ffff) as nat / SINGLE as nat
}

/// The largest count that is kept.
pub open spec fn counted(n: nat) -> nat {
    if n > u32::MAX {
        u32::MAX as nat
    } else {
        n
    }
}

/// The estimate for a text.
pub open spec fn estimate(s: Seq<char>) -> nat {
    let wide = wide_count(s, s.len() as int);
    estimate_of(counted(wide), counted((s.len() - wide) as nat))
}

proof fn excess_is_enough(n: nat, bound: nat)
    requires
        bound >= 1,
    ensures
        n < bound * excess(n, bound),
    decreases n,
{
    if n >= bound {
        excess_is_enough(n / 2, bound);
        let e = excess(n / 2, bound);
        assert(bound * (2 * e) == 2 * (bound * e)) by (nonlinear_arith);
        assert(n < bound * excess(n, bound));
    } else {
        assert(excess(n, bound) == 1);
        assert(bound * 1 == bound);
    }
}

proof fn single_is_bounded(n: nat)
    requires
        n <= 0xffff_ffff,
    ensures
        nearest_single(n) <= 0x1_0000_0000,
{
    let k = excess(n, SINGLE as nat);
    reveal_with_fuel(excess, 10);
    assert(k == 1 || k == 2 || k == 4 || k == 8 || k == 16 || k == 32 || k == 64 || k == 128 || k
        == 256);
    excess_is_enough(n, SINGLE as nat);
    let q = n / k;
    assert(q < SINGLE) by (nonlinear_arith)
        requires
            n < SINGLE * k,
            q == n / k,
            k >= 1,
    ;
    let h = half_even(n, k);
    assert(h <= 0x100_0000);
    assert(h * k <= 0x1_0000_0000) by (nonlinear_arith)
        requires
            h <= 0x100_0000,
            k <= 256,
    ;
}

fn single_of(n: u128) -> (r: u128)
    requires
        n <= 0x200_0000_0000_0000,
    ensures
        r == nearest_single(n as nat),
        r <= n + n / 0x80_0000 + 1,
        n <= 0xffff_ffff ==> r <= 0x1_0000_0000,
{
    let k: u128 = excess_of(n, SINGLE);
    let m: u128 = rounded(n, k);
    assert(k * m == m * k) by (nonlinear_arith);
    assert(k <= n / 0x80_0000 + 1);
    proof {
        if n <= 0xffff_ffff {
            single_is_bounded(n as nat);
        }
    }
    k * m
}

fn over_of(n: u128) -> (r: u128)
    requires
        n <= 0x1_0000_0000,
    ensures
        r == over_one_point_six(n as nat),
        r <= 0xB0_0000_0000_0000,
{
    let a: u128 = n * 0x8000_0000_0000;
    let f: u128 = a / 13421773;
    let k: u128 = excess_of(f, SINGLE);
    assert(k <= 0x2_0000_0000);
    let d: u128 = 13421773 * k;
    let m: u128 = rounded(a, d);
    assert(k * m == m * k) by (nonlinear_arith);
    assert(13421773 * (k * m) == d * m) by (nonlinear_arith)
        requires
            d == 13421773 * k,
    ;
    k * m
}

/// The tokens that a text may come to.
pub fn estimate_tokens(text: &str) -> (r: u32)
    ensures
        r == estimate(text@),
{
    let v = chars_of(text);
    let mut wide: u128 = 0;
    let mut i: usize = 0;
    while i < v.len()
        invariant
            v@ == text@,
            i <= v@.len(),
            wide == wide_count(text@, i as int),
            wide <= i,
        decreases v@.len() - i,
    {
        if v[i] as u32 >= 0x2E80 {
            wide += 1;
        }
        i += 1;
    }
    let other: u128 = v.len() as u128 - wide;
    let w: u128 = if wide > 0xffff_ffff {
        0xffff_ffff
    } else {
        wide
    };
    let o: u128 = if other > 0xffff_ffff {
        0xffff_ffff
    } else {
        other
    };
    let a: u128 = over_of(single_of(w));
    let b: u128 = single_of(o) * 0x40_0000;
    let sum: u128 = single_of(a + b);
    assert(sum <= 0xFF_0000_0000_0000);
    ((sum + 0xff_ffff) / SINGLE) as u32
}

proof fn excess_grows(n: nat, m: nat, bound: nat)
    requires
        n <= m,
        bound >= 1,
    ensures
        excess(n, bound) >= 1,
        excess(n, bound) == excess(m, bound) || 2 * excess(n, bound) <= excess(m, bound),
    decreases m,
{
    if m >= bound {
        if n >= bound {
            excess_grows(n / 2, m / 2, bound);
        } else {
            excess_grows(m / 2, m / 2, bound);
        }
    }
}

proof fn excess_is_needed(n: nat, bound: nat)
    requires
        bound >= 1,
    ensures
        excess(n, bound) == 1 || bound * excess(n, bound) <= 2 * n,
    decreases n,
{
    if n >= bound {
        excess_is_needed(n / 2, bound);
        let e = excess(n / 2, bound);
        assert(bound * (2 * e) == 2 * (bound * e)) by (nonlinear_arith);
        if e == 1 {
            assert(bound * 1 == bound);
        }
    }
}

proof fn half_even_grows(x: nat, y: nat, d: nat)
    requires
        x <= y,
        d >= 1,
    ensures
        half_even(x, d) <= half_even(y, d),
{
    lemma_div_is_ordered(x as int, y as int, d as int);
    lemma_fundamental_div_mod(x as int, d as int);
    lemma_fundamental_div_mod(y as int, d as int);
}

proof fn half_even_between(x: nat, d: nat, b: nat)
    requires
        d >= 1,
    ensures
        x < b * d ==> half_even(x, d) <= b,
        x >= b * d ==> half_even(x, d) >= b,
{
    lemma_fundamental_div_mod(x as int, d as int);
    let q = x / d;
    assert(x < b * d ==> q < b) by (nonlinear_arith)
        requires
            x == d * q + x % d,
            x % d >= 0,
            d >= 1,
    ;
    assert(x >= b * d ==> q >= b) by (nonlinear_arith)
        requires
            x == d * q + x % d,
            x % d < d,
            d >= 1,
    ;
}

/// `a / d` to 24 significant bits.
spec fn quotient(a: nat, d: nat) -> nat {
    let k = excess(a / d, SINGLE as nat);
    half_even(a, d * k) * k
}

proof fn quotient_grows(a: nat, b: nat, d: nat)
    requires
        a <= b,
        d >= 1,
    ensures
        quotient(a, d) <= quotient(b, d),
{
    let half: nat = 0x80_0000;
    let fa = a / d;
    let fb = b / d;
    let ka = excess(fa, SINGLE as nat);
    let kb = excess(fb, SINGLE as nat);
    lemma_div_is_ordered(a as int, b as int, d as int);
    excess_grows(fa, fb, SINGLE as nat);
    lemma_fundamental_div_mod(a as int, d as int);
    lemma_fundamental_div_mod(b as int, d as int);
    assert(d * ka >= 1 && d * kb >= 1) by (nonlinear_arith)
        requires
            d >= 1,
            ka >= 1,
            kb >= 1,
    ;
    let ha = half_even(a, d * ka);
    let hb = half_even(b, d * kb);
    if ka == kb {
        half_even_grows(a, b, d * ka);
        assert(ha * ka <= hb * ka) by (nonlinear_arith)
            requires
                ha <= hb,
        ;
    } else {
        excess_is_enough(fa, SINGLE as nat);
        excess_is_needed(fb, SINGLE as nat);
        assert(a < SINGLE * (d * ka)) by (nonlinear_arith)
            requires
                a == d * fa + a % d,
                a % d < d,
                fa < SINGLE * ka,
                d >= 1,
        ;
        half_even_between(a, d * ka, SINGLE as nat);
        assert(b >= half * (d * kb)) by (nonlinear_arith)
            requires
                b == d * fb + b % d,
                b % d >= 0,
                2 * fb >= SINGLE * kb,
                SINGLE == 2 * half,
                d >= 1,
        ;
        half_even_between(b, d * kb, half);
        assert(ha * ka <= SINGLE * ka) by (nonlinear_arith)
            requires
                ha <= SINGLE,
        ;
        assert(hb * kb >= half * kb) by (nonlinear_arith)
            requires
                hb >= half,
        ;
        assert(half * kb >= SINGLE * ka) by (nonlinear_arith)
            requires
                kb >= 2 * ka,
                SINGLE == 2 * half,
        ;
    }
}

proof fn single_grows(n: nat, m: nat)
    requires
        n <= m,
    ensures
        nearest_single(n) <= nearest_single(m),
{
    quotient_grows(n, m, 1);
    assert(n / 1 == n && m / 1 == m);
}

proof fn estimate_of_grows(wide: nat, other: nat, more_wide: nat, more_other: nat)
    requires
        wide <= more_wide,
        other <= more_other,
    ensures
        estimate_of(wide, other) <= estimate_of(more_wide, more_other),
{
    single_grows(wide, more_wide);
    single_grows(other, more_other);
    quotient_grows(
        nearest_single(wide) * 0x8000_0000_0000,
        nearest_single(more_wide) * 0x8000_0000_0000,
        13421773,
    );
    single_grows(
        over_one_point_six(nearest_single(wide)) + nearest_single(other) * 0x40_0000,
        over_one_point_six(nearest_single(more_wide)) + nearest_single(more_other) * 0x40_0000,
    );
}

proof fn wide_is_counted_apart(a: Seq<char>, b: Seq<char>, k: int)
    requires
        0 <= k <= b.len(),
    ensures
        wide_count(a + b, a.len() + k) == wide_count(a, a.len() as int) + wide_count(b, k),
        wide_count(b, k) <= k,
    decreases k,
{
    if k > 0 {
        wide_is_counted_apart(a, b, k - 1);
        assert((a + b)[a.len() + k - 1] == b[k - 1]);
    } else {
        wide_of_the_front(a, b, a.len() as int);
    }
}

proof fn wide_of_the_front(a: Seq<char>, b: Seq<char>, n: int)
    requires
        n <= a.len(),
    ensures
        wide_count(a + b, n) == wide_count(a, n),
    decreases n,
{
    if n > 0 {
        wide_of_the_front(a, b, n - 1);
        assert((a + b)[n - 1] == a[n - 1]);
    }
}

/// More text never costs fewer tokens.
pub proof fn estimate_grows_with_the_text(a: Seq<char>, b: Seq<char>)
    ensures
        estimate(a) <= estimate(a + b),
{
    wide_is_counted_apart(a, b, b.len() as int);
    wide_is_counted_apart(b, a, a.len() as int);
    let wide = wide_count(a, a.len() as int);
    let more = wide_count(a + b, (a + b).len() as int);
    estimate_of_grows(
        counted(wide),
        counted((a.len() - wide) as nat),
        counted(more),
        counted(((a + b).len() - more) as nat),
    );
}

proof fn wide_ignores_order(a: Seq<char>, b: Seq<char>)
    requires
        a.to_multiset() == b.to_multiset(),
    ensures
        a.len() == b.len(),
        wide_count(a, a.len() as int) == wide_count(b, b.len() as int),
    decreases a.len(),
{
    broadcast use vstd::seq_lib::group_to_multiset_ensures;

    assert(a.len() == a.to_multiset().len() && b.len() == b.to_multiset().len());
    if a.len() > 0 {
        let n = a.len() - 1;
        let c = a[n];
        assert(a.contains(c));
        assert(b.to_multiset().count(c) > 0);
        assert(b.contains(c));
        let i = choose|i: int| 0 <= i < b.len() && b[i] == c;
        assert(a.remove(n).to_multiset() =~= b.remove(i).to_multiset());
        wide_ignores_order(a.remove(n), b.remove(i));
        let head = a.remove(n);
        let front = b.take(i);
        let back = b.skip(i + 1);
        assert(a =~= head + seq![c]);
        assert(b.remove(i) =~= front + back);
        assert(b =~= front + (seq![c] + back));
        wide_is_counted_apart(head, seq![c], 1);
        wide_is_counted_apart(front, back, back.len() as int);
        wide_is_counted_apart(front, seq![c] + back, (back.len() + 1) as int);
        wide_is_counted_apart(seq![c], back, back.len() as int);
    }
}

/// The order of the characters does not matter to the estimate.
pub proof fn estimate_ignores_order(a: Seq<char>, b: Seq<char>)
    requires
        a.to_multiset() == b.to_multiset(),
    ensures
        estimate(a) == estimate(b),
{
    wide_ignores_order(a, b);
}

/// The text of the last of the first `n` items that is a message still being
/// written.
pub open spec fn open_message(items: Seq<TranscriptItem>, n: int) -> Option<Seq<char>>
    decreases n,
{
    if n <= 0 {
        None
    } else {
        match items[n - 1] {
            TranscriptItem::Assistant(b) => if !b.done {
                Some(b.text@)
            } else {
                open_message(items, n - 1)
            },
            _ => open_message(items, n - 1),
        }
    }
}

/// The tokens of the round that streams: those of the answer and of the reasoning.
pub open spec fn streaming(state: AppState) -> nat {
    let items = state.transcript.items@;
    let visible = match open_message(items, items.len() as int) {
        Some(text) => estimate(text),
        None => 0,
    };
    counted(visible + estimate(state.live_reasoning@))
}

/// Live output of the round currently streaming: the visible answer and the hidden
/// reasoning. Reasoning has to count, or a hard-working turn looks frozen.
pub fn streaming_output_estimate(state: &AppState) -> (r: Option<u32>)
    ensures
        match r {
            Some(n) => n == streaming(*state) && n > 0,
            None => streaming(*state) == 0,
        },
{
    let mut visible: u32 = 0;
    let mut i: usize = state.transcript.items.len();
    let ghost items = state.transcript.items@;
    let ghost len = items.len() as int;
    while i > 0
        invariant_except_break
            visible == 0,
            open_message(items, len) == open_message(items, i as int),
        invariant
            items == state.transcript.items@,
            i <= items.len(),
        ensures
            visible == (match open_message(items, len) {
                Some(text) => estimate(text),
                None => 0,
            }),
        decreases i,
    {
        i -= 1;
        match &state.transcript.items[i] {
            TranscriptItem::Assistant(b) => if !b.done {
                visible = estimate_tokens(b.text.as_str());
                break;
            },
            _ => {},
        }
    }
    let thinking: u32 = estimate_tokens(state.live_reasoning.as_str());
    let total: u32 = visible.saturating_add(thinking);
    if total > 0 {
        Some(total)
    } else {
        None
    }
}

// ---------------------------------------------------------------- the input border

/// The user-facing names of the permission profiles.
pub open spec fn permission_label(mode_label: Seq<char>) -> Seq<char> {
    if mode_label == "RequestApproval"@ {
        "ask"@
    } else if mode_label == "FullAccess"@ {
        "full"@
    } else {
        "auto"@
    }
}

/// Stable English permission chip for the input border (`ask` / `auto` / `full`).
pub fn permission_chip_label(state: &AppState) -> (r: &'static str)
    ensures
        r@ == permission_label(state.mode_label@),
{
    if same(state.mode_label.as_str(), "RequestApproval") {
        "ask"
    } else if same(state.mode_label.as_str(), "FullAccess") {
        "full"
    } else {
        "auto"
    }
}

/// How many of the first `n` models have the name.
pub open spec fn named_so(models: Seq<ModelRef>, name: Seq<char>, n: int) -> nat
    decreases n,
{
    if n <= 0 {
        0
    } else {
        named_so(models, name, n - 1) + (if models[n - 1].model@ == name {
            1nat
        } else {
            0
        })
    }
}

/// The name of a model without its provider, where no two models share the name.
pub open spec fn friendly_model(raw: Seq<char>, models: Seq<ModelRef>) -> Seq<char> {
    match model_ref(raw) {
        None => raw,
        Some((provider, model)) => if named_so(models, model, models.len() as int) > 1 {
            raw
        } else {
            model
        },
    }
}

/// Strip `provider/` when the model name is unambiguous among `available`.
pub fn friendly_model_label(raw: &str, available: &Vec<ModelRef>) -> (r: String)
    ensures
        r@ == friendly_model(raw@, available@),
{
    let parsed = match ModelRef::parse(raw) {
        Some(m) => m,
        None => {
            return raw.to_owned();
        },
    };
    let mut n: usize = 0;
    let mut i: usize = 0;
    while i < available.len()
        invariant
            i <= available@.len(),
            n == named_so(available@, parsed.model@, i as int),
            n <= i,
        decreases available@.len() - i,
    {
        if same(available[i].model.as_str(), parsed.model.as_str()) {
            n += 1;
        }
        i += 1;
    }
    if n > 1 {
        raw.to_owned()
    } else {
        parsed.model
    }
}

/// A head, where it is not empty, and the parts behind it.
pub open spec fn chip_of(head: Seq<char>, parts: Seq<Seq<char>>) -> Seq<char> {
    joined(
        (if head.len() == 0 {
            Seq::empty()
        } else {
            seq![head]
        }) + parts,
        " · "@,
    )
}

/// The chip with as many of its first `n` parts as fit.
pub open spec fn fitting_chip(head: Seq<char>, parts: Seq<Seq<char>>, n: int, width: int) -> Option<
    Seq<char>,
>
    decreases n,
{
    let chip = chip_of(head, parts.take(n));
    if unicode_str_width(chip) <= width {
        Some(chip)
    } else if n <= 0 {
        None
    } else {
        fitting_chip(head, parts, n - 1, width)
    }
}

/// What the input border says behind the model, in the order of priority.
pub open spec fn border_parts(state: AppState) -> Seq<Seq<char>> {
    seq![
        state.work_profile@,
        permission_label(state.mode_label@),
        state.collaboration@,
    ] + (if state.untrusted_config@.len() == 0 {
        Seq::empty()
    } else {
        seq![text_of(state.locale).untrusted_config_chip@]
    })
}

/// The reasoning effort, where there is one.
pub open spec fn effort_of(state: AppState) -> Option<Seq<char>> {
    match state.reasoning_effort {
        Some(e) => if trimmed(e@).len() == 0 {
            None
        } else {
            Some(trimmed(e@))
        },
        None => None,
    }
}

/// The chip of the input border: the model with its effort, then what fits of the
/// rest; the model alone where not even the effort fits; a cut name as the last.
pub open spec fn border_chip(state: AppState, width: int) -> Seq<char> {
    let model = friendly_model(state.model_label@, state.available_models@);
    let head = match effort_of(state) {
        Some(e) => model + " ("@ + e + ")"@,
        None => model,
    };
    let parts = border_parts(state);
    match fitting_chip(head, parts, parts.len() as int, width) {
        Some(chip) => chip,
        None => if effort_of(state) is Some && unicode_str_width(model) <= width {
            model
        } else {
            truncated(model, at_least(width, 1))
        },
    }
}

fn chip_text(head: &str, parts: &Vec<String>, n: usize) -> (r: String)
    requires
        n <= parts@.len(),
    ensures
        r@ == chip_of(head@, views(parts@).take(n as int)),
{
    let mut all: Vec<String> = Vec::new();
    if !head.is_empty() {
        all.push(head.to_owned());
    }
    let ghost first = views(all@);
    let ghost texts = views(parts@);
    let mut i: usize = 0;
    assert(first + texts.take(0) =~= first);
    while i < n
        invariant
            texts == views(parts@),
            i <= n <= parts@.len(),
            views(all@) == first + texts.take(i as int),
        decreases n - i,
    {
        all.push(parts[i].clone());
        i += 1;
        assert(texts.take(i as int) =~= texts.take(i - 1).push(texts[i - 1]));
        assert(views(all@) =~= first + texts.take(i as int));
    }
    assert(first =~= (if head@.len() == 0 {
        Seq::<Seq<char>>::empty()
    } else {
        seq![head@]
    }));
    join(&all, " · ")
}

/// Input-border runtime summary: `{model} [(effort)] · work · perm · session`.
///
/// Every field is a value already on [`AppState`]. A missing effort omits the
/// parentheses. When `max_width` is tight, drop from the right: session, then
/// permission, then work mode, then effort, then truncate the model.
pub fn runtime_status_chip(state: &AppState, max_width: usize) -> (r: String)
    ensures
        r@ == border_chip(*state, max_width as int),
{
    let model = friendly_model_label(state.model_label.as_str(), &state.available_models);
    let effort = match &state.reasoning_effort {
        Some(e) => {
            let e = trim(e.as_str());
            if e.as_str().is_empty() {
                None
            } else {
                Some(e)
            }
        },
        None => None,
    };
    let mut parts: Vec<String> = Vec::new();
    parts.push(state.work_profile.clone());
    parts.push(permission_chip_label(state).to_owned());
    parts.push(state.collaboration.clone());
    if state.untrusted_config.len() > 0 {
        parts.push(state.t().untrusted_config_chip.to_owned());
    }
    assert(views(parts@) =~= border_parts(*state));
    let head = match &effort {
        Some(e) => cat4(model.as_str(), " (", e.as_str(), ")"),
        None => model.clone(),
    };
    let mut n: usize = parts.len();
    let ghost all = border_parts(*state);
    loop
        invariant_except_break
            fitting_chip(head@, all, all.len() as int, max_width as int) == fitting_chip(
                head@,
                all,
                n as int,
                max_width as int,
            ),
        invariant
            views(parts@) == all,
            n <= parts@.len(),
            all == border_parts(*state),
            model@ == friendly_model(state.model_label@, state.available_models@),
            effort is Some <==> effort_of(*state) is Some,
            effort matches Some(e) ==> effort_of(*state) == Some(e@),
            head@ == (match effort_of(*state) {
                Some(e) => model@ + " ("@ + e + ")"@,
                None => model@,
            }),
        ensures
            fitting_chip(head@, all, all.len() as int, max_width as int) is None,
        decreases n,
    {
        let chip = chip_text(head.as_str(), &parts, n);
        if str_width(chip.as_str()) <= max_width {
            return chip;
        }
        if n == 0 {
            break;
        }
        n -= 1;
    }
    // Drop effort next, then width-safe truncate the model name.
    if effort.is_some() && str_width(model.as_str()) <= max_width {
        return model;
    }
    truncate_display(
        model.as_str(),
        if max_width > 1 {
            max_width
        } else {
            1
        },
    )
}

// ---------------------------------------------------------------- the footer

/// How much of its window the context takes, in words; none while nothing is known.
pub open spec fn context_chip(state: AppState) -> Option<Seq<char>> {
    let window = state.context_window_tokens;
    let used = at_least(state.context_tokens as int, state.token_input as int);
    if window == 0 || used == 0 {
        None
    } else {
        Some(
            replaced_first(
                replaced_first(
                    text_of(state.locale).footer_context@,
                    "{}"@,
                    compact_count(used as nat),
                ),
                "{}"@,
                compact_count(window as nat),
            ),
        )
    }
}

/// The share of the input that came from the cache, in words.
pub open spec fn cache_chip(state: AppState) -> Option<Seq<char>> {
    if state.token_input == 0 || state.token_cached == 0 {
        None
    } else {
        let pct = (state.token_cached as nat * 100) / state.token_input as nat;
        let shown = if pct > 100 {
            100
        } else {
            pct
        };
        Some(replaced(text_of(state.locale).footer_cache@, "{}"@, decimal(shown)))
    }
}

/// Footer context line: `Context 8k/1M`. Hidden until real usage is known.
pub fn footer_ctx_chip(state: &AppState) -> (r: Option<String>)
    ensures
        opt_text(r) == context_chip(*state),
{
    let window: u32 = state.context_window();
    let used: u32 = if state.context_tokens < state.token_input {
        state.token_input
    } else {
        state.context_tokens
    };
    // A fresh session with zero usage shows no gauge.
    if window == 0 || used == 0 {
        return None;
    }
    let once = replace_first(state.t().footer_context, "{}", fmt_tokens_compact(used).as_str());
    Some(replace_first(once.as_str(), "{}", fmt_tokens_compact(window).as_str()))
}

/// Prefix-cache hit rate when the provider reported cached tokens.
pub fn footer_cache_chip(state: &AppState) -> (r: Option<String>)
    ensures
        opt_text(r) == cache_chip(*state),
{
    if state.token_input == 0 || state.token_cached == 0 {
        return None;
    }
    let pct: u64 = (state.token_cached as u64 * 100) / state.token_input as u64;
    let shown: u64 = if pct > 100 {
        100
    } else {
        pct
    };
    Some(replace(state.t().footer_cache, "{}", dec(shown).as_str()))
}

/// The chips that there are, joined.
pub open spec fn usage_line(state: AppState) -> Option<Seq<char>> {
    match (context_chip(state), cache_chip(state)) {
        (Some(a), Some(b)) => Some(a + " · "@ + b),
        (Some(a), None) => Some(a),
        (None, b) => b,
    }
}

/// Footer usage line: `Context 21k/1M · cache 42%`, each chip optional. Hidden until
/// real usage is known.
pub fn footer_usage_line(state: &AppState) -> (r: Option<String>)
    ensures
        opt_text(r) == usage_line(*state),
{
    let cache = footer_cache_chip(state);
    match footer_ctx_chip(state) {
        Some(a) => match cache {
            Some(b) => Some(cat3(a.as_str(), " · ", b.as_str())),
            None => Some(a),
        },
        None => cache,
    }
}

// ---------------------------------------------------------------- fitting the strip

/// The first position from `i` on whose character makes the text wider than `limit`.
pub open spec fn first_over(s: Seq<char>, i: int, limit: int) -> int
    decreases s.len() - i,
{
    if i >= s.len() {
        s.len() as int
    } else if unicode_str_width(s.take(i + 1)) > limit {
        i
    } else {
        first_over(s, i + 1, limit)
    }
}

/// A text cut to `width` columns: whole where it fits, else as much of its front as
/// leaves a column for the ellipsis.
pub open spec fn cut_to(s: Seq<char>, width: int) -> Seq<char> {
    let end = first_over(s, 0, width - 1);
    if width == 0 {
        Seq::empty()
    } else if unicode_str_width(s) <= width || end >= s.len() {
        s
    } else {
        s.take(end).push('…')
    }
}

pub fn truncate_to_width(s: &str, width: usize) -> (r: String)
    ensures
        r@ == cut_to(s@, width as int),
{
    if width == 0 {
        return String::new();
    }
    if str_width(s) <= width {
        return s.to_owned();
    }
    let v = chars_of(s);
    let n: usize = v.len();
    let mut i: usize = 0;
    while i < n
        invariant
            v@ == s@,
            n == v@.len(),
            i <= n,
            width > 0,
            unicode_str_width(s@) > width,
            first_over(s@, 0, width - 1) == first_over(s@, i as int, width - 1),
        decreases n - i,
    {
        let next = string_of(&v, 0, i + 1);
        assert(next@ =~= s@.take(i + 1));
        if str_width(next.as_str()) > width - 1 {
            let mut acc = string_of(&v, 0, i);
            assert(acc@ =~= s@.take(i as int));
            acc.push('…');
            return acc;
        }
        i += 1;
    }
    s.to_owned()
}

/// How many of the parts from `i` on fit when they are joined.
pub open spec fn fit_count(parts: Seq<Seq<char>>, width: int, i: int) -> int
    decreases parts.len() - i,
{
    if i >= parts.len() {
        parts.len() as int
    } else if unicode_str_width(joined(parts.take(i + 1), " · "@)) > width {
        i
    } else {
        fit_count(parts, width, i + 1)
    }
}

/// The first parts that fit, joined.
pub open spec fn fitted(parts: Seq<Seq<char>>, width: int) -> Seq<char> {
    cut_to(joined(parts.take(fit_count(parts, width, 0)), " · "@), width)
}

pub fn fit_status(parts: &Vec<String>, width: usize) -> (r: String)
    ensures
        r@ == fitted(views(parts@), width as int),
{
    let mut out = String::new();
    let ghost all = views(parts@);
    let mut i: usize = 0;
    assert(all.take(0) =~= Seq::<Seq<char>>::empty());
    while i < parts.len()
        invariant_except_break
            fit_count(all, width as int, 0) == fit_count(all, width as int, i as int),
        invariant
            all == views(parts@),
            i <= parts@.len(),
            out@ == joined(all.take(i as int), " · "@),
        ensures
            i == fit_count(all, width as int, 0),
        decreases parts@.len() - i,
    {
        let candidate = if i == 0 {
            parts[0].clone()
        } else {
            cat3(out.as_str(), " · ", parts[i].as_str())
        };
        assert(all.take(i + 1).drop_last() =~= all.take(i as int));
        assert(candidate@ == joined(all.take(i + 1), " · "@));
        if str_width(candidate.as_str()) > width {
            break;
        }
        out = candidate;
        i += 1;
    }
    truncate_to_width(out.as_str(), width)
}

// ---------------------------------------------------------------- the phase

/// Coarse status-strip phase.
#[derive(Clone, Copy, Debug, PartialEq, Eq, Structural)]
pub enum StatusPhase {
    /// Nothing running; the strip is empty or holds a stale activity label.
    Idle,
    /// Model or tools are working (may show a spinner).
    Busy,
    /// Blocked on the human (approval, clarification, or a picker).
    AwaitingUser,
}

/// The phase of a state: an open overlay wins over everything.
pub open spec fn phase_of(state: AppState) -> StatusPhase {
    if state.overlay is Some {
        StatusPhase::AwaitingUser
    } else if state.status == RuntimeStatus::Busy {
        StatusPhase::Busy
    } else {
        StatusPhase::Idle
    }
}

/// Which phase the status strip should present.
///
/// Awaiting the user always wins over busy, so that a spinner never implies that
/// the model is progressing while an overlay waits for an answer.
pub fn status_phase(state: &AppState) -> (r: StatusPhase)
    ensures
        r == phase_of(*state),
{
    if state.overlay.is_some() {
        return StatusPhase::AwaitingUser;
    }
    match state.status {
        RuntimeStatus::Busy => StatusPhase::Busy,
        RuntimeStatus::Idle | RuntimeStatus::Error => StatusPhase::Idle,
    }
}

// ---------------------------------------------------------------- the rows

/// What a busy turn waits for.
#[derive(Clone, Copy, Debug, PartialEq, Eq, Structural)]
pub enum WaitKind {
    Model,
    Approval,
    /// A task, a command or a child agent.
    Target,
}

/// A wait, and the headline it has.
#[derive(Debug)]
pub struct WaitView {
    pub kind: WaitKind,
    pub headline: String,
}

/// A row of the strip for one activity.
#[derive(Debug)]
pub struct ActivityRow {
    pub text: String,
    pub selected: bool,
}

/// The rows of the activities.
pub open spec fn activity_rows(rows: Seq<ActivityRow>, width: int, theme: Theme) -> Seq<Seq<SpanV>> {
    Seq::new(
        rows.len(),
        |i: int|
            styled_line(
                cut_to(rows[i].text@, width),
                fg_style(
                    if rows[i].selected {
                        theme.text.primary
                    } else {
                        theme.text.muted
                    },
                ),
            ),
    )
}

fn append_activity_rows(lines: &mut Vec<Line>, rows: &Vec<ActivityRow>, width: usize, theme: &Theme)
    ensures
        line_views(final(lines)@) == line_views(old(lines)@) + activity_rows(
            rows@,
            width as int,
            *theme,
        ),
{
    let ghost base = line_views(lines@);
    let ghost all = activity_rows(rows@, width as int, *theme);
    let mut i: usize = 0;
    assert(base + all.take(0) =~= base);
    while i < rows.len()
        invariant
            i <= rows@.len(),
            all == activity_rows(rows@, width as int, *theme),
            line_views(lines@) == base + all.take(i as int),
        decreases rows@.len() - i,
    {
        let color = if rows[i].selected {
            theme.text.primary
        } else {
            theme.text.muted
        };
        let text = truncate_to_width(rows[i].text.as_str(), width);
        lines.push(Line::of(Span::new(text, Style::fg(color))));
        i += 1;
        assert(all.take(i as int) =~= all.take(i - 1).push(all[i - 1]));
        assert(line_views(lines@) =~= base + all.take(i as int));
    }
    assert(all.take(i as int) =~= all);
}

/// The frames of the spinner.
pub open spec fn spinner(i: int) -> Seq<char> {
    if i == 0 {
        "⠋"@
    } else if i == 1 {
        "⠙"@
    } else if i == 2 {
        "⠹"@
    } else if i == 3 {
        "⠸"@
    } else if i == 4 {
        "⠼"@
    } else if i == 5 {
        "⠴"@
    } else if i == 6 {
        "⠦"@
    } else if i == 7 {
        "⠧"@
    } else if i == 8 {
        "⠇"@
    } else {
        "⠏"@
    }
}

fn spinner_frame(tick: u64) -> (r: &'static str)
    ensures
        r@ == spinner((tick % 10) as int),
{
    let i: u64 = tick % 10;
    if i == 0 {
        "⠋"
    } else if i == 1 {
        "⠙"
    } else if i == 2 {
        "⠹"
    } else if i == 3 {
        "⠸"
    } else if i == 4 {
        "⠼"
    } else if i == 5 {
        "⠴"
    } else if i == 6 {
        "⠦"
    } else if i == 7 {
        "⠧"
    } else if i == 8 {
        "⠇"
    } else {
        "⠏"
    }
}

/// The first step from `i` on that the plan declares in progress.
pub open spec fn running_step(steps: Seq<UiPlanStep>, i: int) -> Option<UiPlanStep>
    decreases steps.len() - i,
{
    if i >= steps.len() {
        None
    } else if steps[i].status == PlanStepStatus::Running {
        Some(steps[i])
    } else {
        running_step(steps, i + 1)
    }
}

/// Where in its plan a turn is: the step that the plan declares in progress.
pub open spec fn step_chip(plan: Option<UiPlan>, t: UiText) -> Option<Seq<char>> {
    match plan {
        None => None,
        Some(plan) => match running_step(plan.steps@, 0) {
            None => None,
            Some(step) => Some(
                replaced(
                    replaced(t.plan_running_chip@, "{current}"@, decimal((step.index + 1) as nat)),
                    "{total}"@,
                    decimal(plan.steps@.len()),
                ),
            ),
        },
    }
}

/// `第 2/4 步进行中` for the live activity line, from the declared plan only.
///
/// The step shown is the one the plan declares in progress, never the next pending
/// one. No plan, or no step in progress, means no chip.
pub fn live_plan_step_chip(state: &AppState, t: &UiText) -> (r: Option<String>)
    ensures
        opt_text(r) == step_chip(state.plan, *t),
{
    let plan = match &state.plan {
        None => {
            return None;
        },
        Some(plan) => plan,
    };
    let mut i: usize = 0;
    while i < plan.steps.len()
        invariant
            state.plan == Some(*plan),
            i <= plan.steps@.len(),
            running_step(plan.steps@, 0) == running_step(plan.steps@, i as int),
        decreases plan.steps@.len() - i,
    {
        if plan.steps[i].status == PlanStepStatus::Running {
            let current = dec_wide(plan.steps[i].index as u128 + 1);
            let total = dec(plan.steps.len() as u64);
            let once = replace(t.plan_running_chip, "{current}", current.as_str());
            return Some(replace(once.as_str(), "{total}", total.as_str()));
        }
        i += 1;
    }
    None
}

/// The name of a finalization stage.
pub open spec fn stage_label(stage: FinalizationStage, t: UiText) -> Seq<char> {
    match stage {
        FinalizationStage::SettlingDependencies => t.finalizing_dependencies@,
        FinalizationStage::Verification => t.finalizing_verification@,
        FinalizationStage::Evidence => t.finalizing_evidence@,
        FinalizationStage::Review => t.finalizing_review@,
        FinalizationStage::ResolvingOutcome => t.finalizing_outcome@,
        FinalizationStage::PublishingTerminal => t.finalizing_terminal@,
    }
}

fn stage_text(stage: FinalizationStage, t: &UiText) -> (r: &'static str)
    ensures
        r@ == stage_label(stage, *t),
{
    match stage {
        FinalizationStage::SettlingDependencies => t.finalizing_dependencies,
        FinalizationStage::Verification => t.finalizing_verification,
        FinalizationStage::Evidence => t.finalizing_evidence,
        FinalizationStage::Review => t.finalizing_review,
        FinalizationStage::ResolvingOutcome => t.finalizing_outcome,
        FinalizationStage::PublishingTerminal => t.finalizing_terminal,
    }
}

/// A retry as the strip announces it.
pub open spec fn reconnect_label(rc: Reconnecting, now_ms: u64, t: UiText) -> Seq<char> {
    replaced(
        replaced(
            replaced(t.reconnecting@, "{attempt}"@, decimal(rc.attempt as nat)),
            "{max}"@,
            decimal(rc.max_attempts as nat),
        ),
        "{secs}"@,
        decimal(rc.left(now_ms)),
    )
}

/// Whether the turn waits on the model and on nothing more specific.
pub open spec fn waits_on_model(state: AppState, wait: Option<WaitView>) -> bool {
    match wait {
        Some(view) => view.kind == WaitKind::Model,
        None => state.activity is None,
    }
}

/// What a busy turn does: a finalization stage first, then a retry, then the brief
/// confirmation of one, then reasoning, the activity, and the model.
pub open spec fn busy_label(state: AppState, wait: Option<WaitView>, now_ms: u64) -> Seq<char> {
    let t = text_of(state.locale);
    match state.finalization_stage {
        Some(stage) => stage_label(stage, t),
        None => match state.reconnecting {
            Some(rc) => reconnect_label(rc, now_ms, t),
            None => if waits_on_model(state, wait) {
                if state.reconnected_until_ms matches Some(at) && at > now_ms {
                    t.reconnected@
                } else if state.live_reasoning@.len() != 0 {
                    t.thinking@
                } else {
                    t.waiting_model@
                }
            } else {
                match state.activity {
                    Some(label) => label@,
                    None => t.waiting_model@,
                }
            },
        },
    }
}

fn busy_text(state: &AppState, wait: &Option<WaitView>, now_ms: u64) -> (r: String)
    ensures
        r@ == busy_label(*state, *wait, now_ms),
{
    let t = state.t();
    match state.finalization_stage {
        Some(stage) => {
            return stage_text(stage, &t).to_owned();
        },
        None => {},
    }
    match state.reconnecting {
        Some(rc) => {
            let a = replace(t.reconnecting, "{attempt}", dec(rc.attempt as u64).as_str());
            let b = replace(a.as_str(), "{max}", dec(rc.max_attempts as u64).as_str());
            return replace(b.as_str(), "{secs}", dec(rc.remaining_secs(now_ms)).as_str());
        },
        None => {},
    }
    let on_model = match wait {
        Some(view) => view.kind == WaitKind::Model,
        None => state.activity.is_none(),
    };
    if on_model {
        let confirmed = match state.reconnected_until_ms {
            Some(at) => at > now_ms,
            None => false,
        };
        if confirmed {
            t.reconnected.to_owned()
        } else if !state.live_reasoning.as_str().is_empty() {
            t.thinking.to_owned()
        } else {
            t.waiting_model.to_owned()
        }
    } else {
        match &state.activity {
            Some(label) => label.clone(),
            None => t.waiting_model.to_owned(),
        }
    }
}

/// The prefix of a turn that pursues a goal.
pub open spec fn turn_mode(state: AppState) -> Seq<char> {
    if state.goal_mode_active {
        text_of(state.locale).goal_mode@ + " · "@
    } else {
        ""@
    }
}

fn turn_mode_text(state: &AppState) -> (r: String)
    ensures
        r@ == turn_mode(*state),
{
    if state.goal_mode_active {
        cat2(state.t().goal_mode, " · ")
    } else {
        "".to_owned()
    }
}

/// One part, where it is wanted.
pub open spec fn part_if(wanted: bool, part: Seq<char>) -> Seq<Seq<char>> {
    if wanted {
        seq![part]
    } else {
        Seq::empty()
    }
}

/// The count of tool calls, without the separator that leads it.
pub open spec fn calls_chip(n: nat, t: UiText) -> Seq<char> {
    let filled = replaced_first(t.tool_calls_n@, "{}"@, decimal(n));
    trimmed(filled.skip(skip_set(filled, " ·"@, 0)))
}

/// The parts of the live line, in the order of priority.
pub open spec fn busy_parts(state: AppState, wait: Option<WaitView>, now_ms: u64) -> Seq<Seq<char>> {
    let t = text_of(state.locale);
    let frame = spinner((state.tick % 10) as int);
    let clock = match state.activity_elapsed_secs {
        Some(secs) => secs,
        None => state.elapsed_secs,
    };
    seq![frame + " "@ + turn_mode(state) + busy_label(state, wait, now_ms)] + (match step_chip(
        state.plan,
        t,
    ) {
        Some(chip) => seq![chip],
        None => Seq::empty(),
    }) + seq![elapsed(clock as nat)] + part_if(
        state.turn_tool_calls > 0,
        calls_chip(state.turn_tool_calls as nat, t),
    ) + part_if(
        state.token_input > 0 || state.token_output > 0,
        "↑"@ + grouped(state.token_input as nat) + " ↓"@ + grouped(state.token_output as nat),
    ) + part_if(streaming(state) > 0, "↓~"@ + grouped(streaming(state)))
}

fn busy_part_texts(state: &AppState, wait: &Option<WaitView>, now_ms: u64) -> (r: Vec<String>)
    ensures
        views(r@) == busy_parts(*state, *wait, now_ms),
{
    let t = state.t();
    let frame = spinner_frame(state.tick);
    let mut parts: Vec<String> = Vec::new();
    parts.push(
        cat4(
            frame,
            " ",
            turn_mode_text(state).as_str(),
            busy_text(state, wait, now_ms).as_str(),
        ),
    );
    // Where in the plan, when there is one.
    match live_plan_step_chip(state, &t) {
        Some(step) => {
            parts.push(step);
        },
        None => {},
    }
    // An activity that owns a clock reports its own.
    let clock: u64 = match state.activity_elapsed_secs {
        Some(secs) => secs,
        None => state.elapsed_secs,
    };
    parts.push(fmt_elapsed(clock));
    // How much work the turn has done; zero is not reported.
    if state.turn_tool_calls > 0 {
        let filled = replace_first(
            t.tool_calls_n,
            "{}",
            dec(state.turn_tool_calls as u64).as_str(),
        );
        parts.push(trim(trim_start_of(filled.as_str(), " ·").as_str()));
    }
    // Totals are reported when a round ends; the estimate moves while one runs.
    if state.token_input > 0 || state.token_output > 0 {
        parts.push(
            cat4(
                "↑",
                fmt_tokens(state.token_input).as_str(),
                " ↓",
                fmt_tokens(state.token_output).as_str(),
            ),
        );
    }
    match streaming_output_estimate(state) {
        Some(est) => {
            parts.push(cat2("↓~", fmt_tokens(est).as_str()));
        },
        None => {},
    }
    assert(views(parts@) =~= busy_parts(*state, *wait, now_ms));
    parts
}

/// A marker and what stands behind it.
pub open spec fn marked_line(text: Seq<char>, marker: Seq<char>, style: Style, theme: Theme) -> Seq<SpanV> {
    seq![
        spanv(marker, style),
        spanv(after_prefix(text, marker), fg_style(theme.text.secondary)),
    ]
}

/// The live line of a busy turn.
pub open spec fn live_line(state: AppState, wait: Option<WaitView>, now_ms: u64, width: int) -> Seq<SpanV> {
    marked_line(
        fitted(busy_parts(state, wait, now_ms), width),
        spinner((state.tick % 10) as int),
        bold_style(state.theme.accent.primary),
        state.theme,
    )
}

/// The line of a turn that waits for a target.
pub open spec fn wait_line(state: AppState, view: WaitView, width: int) -> Seq<SpanV> {
    marked_line(
        cut_to("◌ "@ + turn_mode(state) + view.headline@, width),
        "◌"@,
        fg_style(state.theme.accent.primary),
        state.theme,
    )
}

/// The rows of a busy turn. One that waits for a target names the wait; any other
/// shows the spinner.
pub open spec fn busy_lines(
    state: AppState,
    wait: Option<WaitView>,
    rows: Seq<ActivityRow>,
    now_ms: u64,
    width: int,
) -> Seq<Seq<SpanV>> {
    let head = match wait {
        Some(view) => if view.kind == WaitKind::Target {
            wait_line(state, view, width)
        } else {
            live_line(state, wait, now_ms, width)
        },
        None => live_line(state, wait, now_ms, width),
    };
    seq![head] + activity_rows(rows, width, state.theme)
}

fn blocked_wait_line(state: &AppState, view: &WaitView, width: usize) -> (r: Line)
    ensures
        r@ == wait_line(*state, *view, width as int),
{
    let whole = cat3("◌ ", turn_mode_text(state).as_str(), view.headline.as_str());
    let text = truncate_to_width(whole.as_str(), width);
    Line::of2(
        Span::text("◌", Style::fg(state.theme.accent.primary)),
        Span::new(drop_prefix(text.as_str(), "◌"), Style::fg(state.theme.text.secondary)),
    )
}

pub fn busy_status_lines(
    state: &AppState,
    wait: &Option<WaitView>,
    rows: &Vec<ActivityRow>,
    now_ms: u64,
    width: usize,
) -> (r: Vec<Line>)
    ensures
        line_views(r@) == busy_lines(*state, *wait, rows@, now_ms, width as int),
{
    let theme = &state.theme;
    let mut lines: Vec<Line> = Vec::new();
    let blocked = match wait {
        Some(view) => if view.kind == WaitKind::Target {
            Some(view)
        } else {
            None
        },
        None => None,
    };
    match blocked {
        Some(view) => {
            lines.push(blocked_wait_line(state, view, width));
        },
        None => {
            let parts = busy_part_texts(state, wait, now_ms);
            let text = fit_status(&parts, width);
            let frame = spinner_frame(state.tick);
            lines.push(
                Line::of2(
                    Span::text(frame, Style::bold(theme.accent.primary)),
                    Span::new(
                        drop_prefix(text.as_str(), frame),
                        Style::fg(theme.text.secondary),
                    ),
                ),
            );
        },
    }
    append_activity_rows(&mut lines, rows, width, theme);
    assert(line_views(lines@) =~= busy_lines(*state, *wait, rows@, now_ms, width as int));
    lines
}

/// A marker of the turn, bold while the turn is busy.
pub open spec fn marker_line(text: Seq<char>, color: Color, width: int, state: AppState) -> Seq<SpanV> {
    styled_line(
        cut_to(text, width),
        if state.status == RuntimeStatus::Busy {
            bold_style(color)
        } else {
            fg_style(color)
        },
    )
}

pub fn turn_marker(text: &str, color: Color, width: usize, state: &AppState) -> (r: Line)
    ensures
        r@ == marker_line(text@, color, width as int, *state),
{
    let style = if state.is_busy() {
        Style::bold(color)
    } else {
        Style::fg(color)
    };
    Line::of(Span::new(truncate_to_width(text, width), style))
}

/// The rows of a turn that does not run.
pub open spec fn idle_lines(state: AppState, rows: Seq<ActivityRow>, width: int) -> Seq<Seq<SpanV>> {
    seq![
        match state.activity {
            Some(label) => styled_line("… "@ + label@, fg_style(state.theme.text.secondary)),
            None => Seq::empty(),
        },
    ] + activity_rows(rows, width, state.theme)
}

/// The line of an overlay that has the strip for itself.
pub open spec fn overlay_line(state: AppState, width: int) -> Option<Seq<SpanV>> {
    match state.overlay {
        Some(o) => if o.kind == OverlayKind::Clarification {
            Some(
                marker_line(
                    text_of(state.locale).waiting_reply@,
                    state.theme.accent.primary,
                    width,
                    state,
                ),
            )
        } else {
            match o.status_hint {
                Some(hint) => Some(styled_line(hint@, fg_style(state.theme.status.warning))),
                None => None,
            }
        },
        None => None,
    }
}

/// The status strip. A clarification and an approval have it for themselves, with
/// no spinner; a picker leaves it to the turn.
pub open spec fn strip(
    state: AppState,
    wait: Option<WaitView>,
    rows: Seq<ActivityRow>,
    now_ms: u64,
    width: int,
) -> Seq<Seq<SpanV>> {
    match overlay_line(state, width) {
        Some(line) => seq![line],
        None => if state.status == RuntimeStatus::Busy {
            busy_lines(state, wait, rows, now_ms, width)
        } else {
            idle_lines(state, rows, width)
        },
    }
}

/// Status strip: one headline, then a compact disclosure of what runs.
pub fn status_lines(
    state: &AppState,
    wait: &Option<WaitView>,
    rows: &Vec<ActivityRow>,
    now_ms: u64,
    width: usize,
) -> (r: Vec<Line>)
    ensures
        line_views(r@) == strip(*state, *wait, rows@, now_ms, width as int),
        r@.len() > 0,
{
    let theme = &state.theme;
    let mut lines: Vec<Line> = Vec::new();
    // Phase first: never paint a busy spinner while blocked on the user.
    match &state.overlay {
        Some(overlay) => {
            if overlay.kind == OverlayKind::Clarification {
                lines.push(
                    turn_marker(state.t().waiting_reply, theme.accent.primary, width, state),
                );
                assert(line_views(lines@) =~= strip(*state, *wait, rows@, now_ms, width as int));
                return lines;
            }
            match &overlay.status_hint {
                Some(hint) => {
                    lines.push(
                        Line::of(Span::text(hint.as_str(), Style::fg(theme.status.warning))),
                    );
                    assert(line_views(lines@) =~= strip(
                        *state,
                        *wait,
                        rows@,
                        now_ms,
                        width as int,
                    ));
                    return lines;
                },
                None => {},
            }
        },
        None => {},
    }
    if state.status == RuntimeStatus::Busy {
        let lines = busy_status_lines(state, wait, rows, now_ms, width);
        assert(line_views(lines@).len() == lines@.len());
        return lines;
    }
    match &state.activity {
        Some(label) => {
            lines.push(
                Line::of(
                    Span::new(cat2("… ", label.as_str()), Style::fg(theme.text.secondary)),
                ),
            );
        },
        None => {
            lines.push(Line::empty());
        },
    }
    // A background process outlives the turn that started it, so its row stays
    // visible while the main thread is idle.
    append_activity_rows(&mut lines, rows, width, theme);
    assert(line_views(lines@) =~= idle_lines(*state, rows@, width as int));
    assert(line_views(lines@).len() == lines@.len());
    lines
}

/// First status-strip row.
pub fn status_line_content(
    state: &AppState,
    wait: &Option<WaitView>,
    rows: &Vec<ActivityRow>,
    now_ms: u64,
    width: usize,
) -> (r: Line)
    ensures
        r@ == strip(*state, *wait, rows@, now_ms, width as int)[0],
{
    let lines = status_lines(state, wait, rows, now_ms, width);
    assert(line_views(lines@)[0] == lines@[0]@);
    lines[0].copy()
}

/// While an approval or a clarification waits for the user, the strip is one row
/// that shows no activity, whatever the turn does.
pub proof fn awaiting_user_beats_busy(
    state: AppState,
    wait: Option<WaitView>,
    rows: Seq<ActivityRow>,
    now_ms: u64,
    width: int,
)
    requires
        state.overlay matches Some(o) && (o.kind == OverlayKind::Clarification || o.status_hint
            is Some),
    ensures
        phase_of(state) == StatusPhase::AwaitingUser,
        strip(state, wait, rows, now_ms, width).len() == 1,
        forall|s: AppState|
            s.overlay == state.overlay && s.theme == state.theme && s.locale == state.locale
                && s.status == state.status ==> #[trigger] strip(s, wait, rows, now_ms, width)
                == strip(state, wait, rows, now_ms, width),
{
}

// ---------------------------------------------------------------- the header

/// A repository with the home directory as `~`; a dash where there is none.
pub open spec fn collapsed_repo(repo: Seq<char>, home: Option<Seq<char>>) -> Seq<char> {
    if repo.len() == 0 {
        "—"@
    } else {
        match home {
            Some(h) => if begins(repo, h) {
                "~"@ + repo.skip(h.len() as int)
            } else {
                repo
            },
            None => repo,
        }
    }
}

pub open spec fn opt_view(o: Option<&str>) -> Option<Seq<char>> {
    match o {
        Some(s) => Some(s@),
        None => None,
    }
}

/// Collapse a repository path's home prefix to `~` for display, or `—` when no
/// repository is set. `home` is the home directory, where it is known.
pub fn home_collapsed_repo(state: &AppState, home: Option<&str>) -> (r: String)
    ensures
        r@ == collapsed_repo(state.repository@, opt_view(home)),
{
    if state.repository.as_str().is_empty() {
        return "—".to_owned();
    }
    let repo = state.repository.as_str();
    match home {
        Some(h) => match strip_prefix(repo, h) {
            Some(rest) => cat2("~", rest.as_str()),
            None => repo.to_owned(),
        },
        None => repo.to_owned(),
    }
}

/// The header: branch and repository where both fit, else the branch with its sign,
/// else the branch.
pub open spec fn header_text(branch: Seq<char>, repo: Seq<char>, width: int) -> Seq<char> {
    let full = "⑂ "@ + branch + " · "@ + repo;
    let mid = "⑂ "@ + branch;
    if unicode_str_width(full) <= width {
        full
    } else if unicode_str_width(mid) <= width {
        mid
    } else {
        branch
    }
}

/// Sparse top chrome: `⑂ branch · ~/path` only.
pub fn header_line(state: &AppState, home: Option<&str>, width: usize) -> (r: Line)
    ensures
        r@ == styled_line(
            cut_to(
                header_text(
                    match state.branch {
                        Some(b) => b@,
                        None => "—"@,
                    },
                    collapsed_repo(state.repository@, opt_view(home)),
                    width as int,
                ),
                width as int,
            ),
            fg_style(state.theme.text.secondary),
        ),
{
    let branch = match &state.branch {
        Some(b) => b.as_str(),
        None => "—",
    };
    let repo = home_collapsed_repo(state, home);
    let full = cat4("⑂ ", branch, " · ", repo.as_str());
    let mid = cat2("⑂ ", branch);
    let text = if str_width(full.as_str()) <= width {
        full
    } else if str_width(mid.as_str()) <= width {
        mid
    } else {
        branch.to_owned()
    };
    Line::of(
        Span::new(
            truncate_to_width(text.as_str(), width),
            Style::fg(state.theme.text.secondary),
        ),
    )
}

} // verus!
