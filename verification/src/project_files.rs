//! The files of a project that a mention can complete: listed by version control, or
//! found by walking the tree.

use vstd::prelude::*;

use crate::model::views;
use crate::strings::{chars_of, lines, replace, replaced, same, text_lines};

verus! {

broadcast use crate::model::group_views;

/// The most files that are taken.
pub const MAX_FILES: usize = 20_000;

// ---------------------------------------------------------------- order

/// Lexicographic order of the characters from position `i` on.
pub open spec fn at_or_before(a: Seq<char>, b: Seq<char>, i: int) -> bool
    decreases a.len() - i,
{
    if i >= a.len() {
        true
    } else if i >= b.len() {
        false
    } else if a[i] == b[i] {
        at_or_before(a, b, i + 1)
    } else {
        a[i] < b[i]
    }
}

/// `a` does not come after `b`.
pub open spec fn ordered(a: Seq<char>, b: Seq<char>) -> bool {
    at_or_before(a, b, 0)
}

/// Each text comes no later than those behind it.
pub open spec fn sorted(s: Seq<Seq<char>>) -> bool {
    forall|i: int, j: int| 0 <= i <= j < s.len() ==> ordered(#[trigger] s[i], #[trigger] s[j])
}

proof fn order_is_total(a: Seq<char>, b: Seq<char>, i: int)
    requires
        0 <= i,
    ensures
        at_or_before(a, b, i) || at_or_before(b, a, i),
    decreases a.len() - i,
{
    if i < a.len() && i < b.len() && a[i] == b[i] {
        order_is_total(a, b, i + 1);
    }
}

proof fn order_is_transitive(a: Seq<char>, b: Seq<char>, c: Seq<char>, i: int)
    requires
        0 <= i,
        at_or_before(a, b, i),
        at_or_before(b, c, i),
    ensures
        at_or_before(a, c, i),
    decreases a.len() - i,
{
    if i < a.len() && i < b.len() && i < c.len() && a[i] == b[i] && b[i] == c[i] {
        order_is_transitive(a, b, c, i + 1);
    }
}

proof fn order_is_antisymmetric(a: Seq<char>, b: Seq<char>, i: int)
    requires
        0 <= i <= a.len(),
        i <= b.len(),
        at_or_before(a, b, i),
        at_or_before(b, a, i),
        forall|k: int| 0 <= k < i ==> a[k] == b[k],
    ensures
        a == b,
    decreases a.len() - i,
{
    if i < a.len() && i < b.len() {
        order_is_antisymmetric(a, b, i + 1);
    } else {
        assert(a =~= b);
    }
}

/// The order of paths is a total order.
pub proof fn paths_are_totally_ordered(a: Seq<char>, b: Seq<char>, c: Seq<char>)
    ensures
        ordered(a, a),
        ordered(a, b) || ordered(b, a),
        ordered(a, b) && ordered(b, a) ==> a == b,
        ordered(a, b) && ordered(b, c) ==> ordered(a, c),
{
    order_is_total(a, a, 0);
    order_is_total(a, b, 0);
    if ordered(a, b) && ordered(b, a) {
        order_is_antisymmetric(a, b, 0);
    }
    if ordered(a, b) && ordered(b, c) {
        order_is_transitive(a, b, c, 0);
    }
}

fn comes_first(a: &str, b: &str) -> (r: bool)
    ensures
        r == ordered(a@, b@),
{
    let x = chars_of(a);
    let y = chars_of(b);
    let mut i: usize = 0;
    while i < x.len()
        invariant
            i <= x@.len(),
            x@ == a@,
            y@ == b@,
            ordered(a@, b@) == at_or_before(a@, b@, i as int),
        decreases x@.len() - i,
    {
        if i >= y.len() {
            return false;
        }
        if x[i] != y[i] {
            return x[i] < y[i];
        }
        i += 1;
    }
    true
}

// ---------------------------------------------------------------- sorting

/// The same texts, each as often.
pub open spec fn same_texts(a: Seq<Seq<char>>, b: Seq<Seq<char>>) -> bool {
    a.to_multiset() =~= b.to_multiset()
}

proof fn sorted_push(s: Seq<Seq<char>>, x: Seq<char>)
    requires
        sorted(s),
        forall|i: int| 0 <= i < s.len() ==> ordered(#[trigger] s[i], x),
    ensures
        sorted(s.push(x)),
{
    let r = s.push(x);
    assert forall|i: int, j: int| 0 <= i <= j < r.len() implies ordered(
        #[trigger] r[i],
        #[trigger] r[j],
    ) by {
        if j < s.len() {
            assert(ordered(s[i], s[j]));
        } else if i < s.len() {
            assert(ordered(s[i], x));
        } else {
            paths_are_totally_ordered(x, x, x);
        }
    }
}

/// Two sorted lists as one.
fn merge(a: &Vec<String>, b: &Vec<String>) -> (r: Vec<String>)
    requires
        sorted(views(a@)),
        sorted(views(b@)),
    ensures
        sorted(views(r@)),
        same_texts(views(r@), views(a@) + views(b@)),
{
    let mut out: Vec<String> = Vec::new();
    let ghost av = views(a@);
    let ghost bv = views(b@);
    let mut i: usize = 0;
    let mut j: usize = 0;
    proof {
        vstd::seq_lib::lemma_multiset_commutative(av, bv);
        assert(av.take(0) =~= Seq::<Seq<char>>::empty());
        assert(bv.take(0) =~= Seq::<Seq<char>>::empty());
        assert(av.take(0) + bv.take(0) =~= Seq::<Seq<char>>::empty());
    }
    while i < a.len() || j < b.len()
        invariant
            av == views(a@),
            bv == views(b@),
            av.len() == a@.len(),
            bv.len() == b@.len(),
            sorted(av),
            sorted(bv),
            i <= a@.len(),
            j <= b@.len(),
            sorted(views(out@)),
            same_texts(views(out@), av.take(i as int) + bv.take(j as int)),
            forall|k: int|
                0 <= k < out@.len() && i < a@.len() ==> ordered(
                    #[trigger] views(out@)[k],
                    av[i as int],
                ),
            forall|k: int|
                0 <= k < out@.len() && j < b@.len() ==> ordered(
                    #[trigger] views(out@)[k],
                    bv[j as int],
                ),
        decreases a@.len() - i + b@.len() - j,
    {
        let first = if i >= a.len() {
            false
        } else if j >= b.len() {
            true
        } else {
            comes_first(a[i].as_str(), b[j].as_str())
        };
        let ghost before = views(out@);
        broadcast use vstd::seq_lib::group_to_multiset_ensures;
        if first {
            let ghost x = av[i as int];
            out.push(a[i].clone());
            proof {
                assert(views(out@) =~= before.push(x));
                sorted_push(before, x);
                assert(av.take(i + 1) =~= av.take(i as int).push(x));
                vstd::seq_lib::lemma_multiset_commutative(av.take(i + 1), bv.take(j as int));
                vstd::seq_lib::lemma_multiset_commutative(av.take(i as int), bv.take(j as int));
                assert forall|k: int| 0 <= k < out@.len() && i + 1 < a@.len() implies ordered(
                    #[trigger] views(out@)[k],
                    av[i + 1],
                ) by {
                    assert(ordered(av[i as int], av[i + 1]));
                    if k < before.len() {
                        assert(views(out@)[k] == before[k]);
                        paths_are_totally_ordered(before[k], x, av[i + 1]);
                    }
                }
                assert forall|k: int| 0 <= k < out@.len() && j < b@.len() implies ordered(
                    #[trigger] views(out@)[k],
                    bv[j as int],
                ) by {
                    if k < before.len() {
                        assert(views(out@)[k] == before[k]);
                    }
                }
            }
            i += 1;
        } else {
            let ghost x = bv[j as int];
            out.push(b[j].clone());
            proof {
                if i < a@.len() {
                    paths_are_totally_ordered(av[i as int], x, x);
                }
                assert(views(out@) =~= before.push(x));
                sorted_push(before, x);
                assert(bv.take(j + 1) =~= bv.take(j as int).push(x));
                vstd::seq_lib::lemma_multiset_commutative(av.take(i as int), bv.take(j + 1));
                vstd::seq_lib::lemma_multiset_commutative(av.take(i as int), bv.take(j as int));
                assert forall|k: int| 0 <= k < out@.len() && j + 1 < b@.len() implies ordered(
                    #[trigger] views(out@)[k],
                    bv[j + 1],
                ) by {
                    assert(ordered(bv[j as int], bv[j + 1]));
                    if k < before.len() {
                        assert(views(out@)[k] == before[k]);
                        paths_are_totally_ordered(before[k], x, bv[j + 1]);
                    }
                }
                assert forall|k: int| 0 <= k < out@.len() && i < a@.len() implies ordered(
                    #[trigger] views(out@)[k],
                    av[i as int],
                ) by {
                    if k < before.len() {
                        assert(views(out@)[k] == before[k]);
                    }
                }
            }
            j += 1;
        }
    }
    assert(av.take(i as int) =~= av);
    assert(bv.take(j as int) =~= bv);
    out
}

/// The texts in order.
pub fn sort_texts(v: Vec<String>) -> (r: Vec<String>)
    ensures
        sorted(views(r@)),
        same_texts(views(r@), views(v@)),
    decreases v@.len(),
{
    let n: usize = v.len();
    if n <= 1 {
        proof {
            if n == 1 {
                let x = views(v@)[0];
                paths_are_totally_ordered(x, x, x);
            }
        }
        return v;
    }
    let ghost all = views(v@);
    let mut front = v;
    let back = front.split_off(n / 2);
    assert(views(front@) + views(back@) =~= all);
    let ghost fv = views(front@);
    let ghost bv = views(back@);
    let a = sort_texts(front);
    let b = sort_texts(back);
    proof {
        vstd::seq_lib::lemma_multiset_commutative(fv, bv);
        vstd::seq_lib::lemma_multiset_commutative(views(a@), views(b@));
    }
    merge(&a, &b)
}

/// A sorted list is the only one with its texts.
pub proof fn sorted_is_unique(a: Seq<Seq<char>>, b: Seq<Seq<char>>)
    requires
        sorted(a),
        sorted(b),
        same_texts(a, b),
    ensures
        a == b,
    decreases a.len(),
{
    broadcast use vstd::seq_lib::group_to_multiset_ensures;

    assert(a.len() == a.to_multiset().len());
    assert(b.len() == b.to_multiset().len());
    if a.len() > 0 {
        let x = a.last();
        let y = b.last();
        assert(a.contains(x));
        assert(b.contains(y));
        assert(b.to_multiset().count(x) > 0);
        assert(b.contains(x));
        assert(a.to_multiset().count(y) > 0);
        assert(a.contains(y));
        let i = choose|i: int| 0 <= i < a.len() && a[i] == y;
        let j = choose|j: int| 0 <= j < b.len() && b[j] == x;
        assert(ordered(a[i], a[a.len() - 1]));
        assert(ordered(b[j], b[b.len() - 1]));
        paths_are_totally_ordered(x, y, x);
        assert(x == y);
        assert(a.drop_last().push(x) =~= a);
        assert(b.drop_last().push(y) =~= b);
        assert(a.drop_last().to_multiset() =~= a.to_multiset().remove(x));
        assert(b.drop_last().to_multiset() =~= b.to_multiset().remove(x));
        let ad = a.drop_last();
        let bd = b.drop_last();
        assert forall|i: int, j: int| 0 <= i <= j < ad.len() implies ordered(
            #[trigger] ad[i],
            #[trigger] ad[j],
        ) by {
            assert(ordered(a[i], a[j]));
        }
        assert forall|i: int, j: int| 0 <= i <= j < bd.len() implies ordered(
            #[trigger] bd[i],
            #[trigger] bd[j],
        ) by {
            assert(ordered(b[i], b[j]));
        }
        sorted_is_unique(ad, bd);
    } else {
        assert(a =~= b);
    }
}

// ---------------------------------------------------------------- listed files

/// Neighbours that are equal as one.
pub open spec fn without_repeats(s: Seq<Seq<char>>, n: int) -> Seq<Seq<char>>
    decreases n,
{
    if n <= 0 {
        Seq::empty()
    } else if n >= 2 && s[n - 1] == s[n - 2] {
        without_repeats(s, n - 1)
    } else {
        without_repeats(s, n - 1).push(s[n - 1])
    }
}

fn dedup(v: &Vec<String>) -> (r: Vec<String>)
    ensures
        views(r@) == without_repeats(views(v@), v@.len() as int),
{
    let mut out: Vec<String> = Vec::new();
    let mut i: usize = 0;
    while i < v.len()
        invariant
            i <= v@.len(),
            views(out@) == without_repeats(views(v@), i as int),
        decreases v@.len() - i,
    {
        if !(i > 0 && same(v[i].as_str(), v[i - 1].as_str())) {
            out.push(v[i].clone());
        }
        i += 1;
    }
    out
}

/// The first `n` lines without the empty ones, `limit` of them at most.
pub open spec fn named_lines(rows: Seq<Seq<char>>, n: int, limit: int) -> Seq<Seq<char>>
    decreases n,
{
    if n <= 0 {
        Seq::empty()
    } else {
        let before = named_lines(rows, n - 1, limit);
        if rows[n - 1].len() == 0 || before.len() >= limit {
            before
        } else {
            before.push(rows[n - 1])
        }
    }
}

/// The paths that a listing names.
pub open spec fn listed_paths(listing: Seq<char>) -> Seq<Seq<char>> {
    let rows = text_lines(listing);
    named_lines(rows, rows.len() as int, 20_000)
}

/// Each text comes before those behind it, and no two are equal.
pub open spec fn strictly_sorted(s: Seq<Seq<char>>) -> bool {
    sorted(s) && forall|i: int, j: int| 0 <= i < j < s.len() ==> #[trigger] s[i] != #[trigger] s[j]
}

proof fn repeats_gone(s: Seq<Seq<char>>, n: int)
    requires
        0 <= n <= s.len(),
        sorted(s),
    ensures
        strictly_sorted(without_repeats(s, n)),
        forall|x: Seq<char>|
            without_repeats(s, n).contains(x) <==> #[trigger] s.take(n).contains(x),
        n > 0 ==> without_repeats(s, n).len() > 0 && without_repeats(s, n).last() == s[n - 1],
    decreases n,
{
    let r = without_repeats(s, n);
    if n > 0 {
        repeats_gone(s, n - 1);
        let before = without_repeats(s, n - 1);
        let x = s[n - 1];
        assert(s.take(n) =~= s.take(n - 1).push(x));
        assert forall|y: Seq<char>| r.contains(y) <==> #[trigger] s.take(n).contains(y) by {
            if s.take(n).contains(y) {
                if y == x {
                    if n >= 2 && s[n - 1] == s[n - 2] {
                        assert(before[before.len() - 1] == x);
                    } else {
                        assert(r[r.len() - 1] == x);
                    }
                } else {
                    let whole = s.take(n);
                    let k = choose|k: int| 0 <= k < whole.len() && whole[k] == y;
                    assert(s.take(n - 1)[k] == y);
                    assert(s.take(n - 1).contains(y));
                    assert(before.contains(y));
                    let m = choose|m: int| 0 <= m < before.len() && before[m] == y;
                    assert(r[m] == y);
                }
            }
            if r.contains(y) {
                let m = choose|m: int| 0 <= m < r.len() && r[m] == y;
                if m < before.len() {
                    assert(before[m] == y);
                    assert(before.contains(y));
                    assert(s.take(n - 1).contains(y));
                    let front = s.take(n - 1);
                    let k = choose|k: int| 0 <= k < front.len() && front[k] == y;
                    assert(s.take(n)[k] == y);
                } else {
                    assert(s.take(n)[n - 1] == x);
                }
            }
        }
        if !(n >= 2 && s[n - 1] == s[n - 2]) {
            assert forall|i: int| 0 <= i < before.len() implies ordered(#[trigger] before[i], x)
                && before[i] != x by {
                assert(before.contains(before[i]));
                assert(s.take(n - 1).contains(before[i]));
                let front = s.take(n - 1);
                let k = choose|k: int| 0 <= k < front.len() && front[k] == before[i];
                assert(s[k] == before[i]);
                assert(ordered(s[k], s[n - 1]));
                if before[i] == x {
                    assert(ordered(s[k], s[n - 2]));
                    assert(ordered(s[n - 2], s[n - 1]));
                    paths_are_totally_ordered(s[n - 2], x, x);
                    assert(s[n - 2] == x);
                }
            }
            sorted_push(before, x);
        }
    }
}

/// The files of a listing, one path to a line: the first twenty thousand that are
/// named, in order, each once.
pub fn listed_files(listing: &str) -> (r: Vec<String>)
    ensures
        strictly_sorted(views(r@)),
        forall|x: Seq<char>|
            views(r@).contains(x) <==> #[trigger] listed_paths(listing@).contains(x),
{
    let rows = lines(listing);
    let ghost rv = text_lines(listing@);
    let mut named: Vec<String> = Vec::new();
    let mut i: usize = 0;
    assert(rv.len() == rows@.len());
    while i < rows.len()
        invariant
            views(rows@) == rv,
            rv.len() == rows@.len(),
            i <= rows@.len(),
            views(named@) == named_lines(rv, i as int, 20_000),
        decreases rows@.len() - i,
    {
        assert(rv[i as int] == rows@[i as int]@);
        assert(views(named@).len() == named@.len());
        if !rows[i].as_str().is_empty() && named.len() < MAX_FILES {
            named.push(rows[i].clone());
        }
        i += 1;
    }
    let ghost paths = views(named@);
    let in_order = sort_texts(named);
    let ghost sv = views(in_order@);
    proof {
        broadcast use vstd::seq_lib::group_to_multiset_ensures;

        repeats_gone(sv, sv.len() as int);
        assert(sv.take(sv.len() as int) =~= sv);
        assert forall|x: Seq<char>| sv.contains(x) <==> #[trigger] paths.contains(x) by {
            assert(sv.to_multiset().count(x) == paths.to_multiset().count(x));
        }
    }
    dedup(&in_order)
}

// ---------------------------------------------------------------- walking

/// What to do with an entry of the tree.
#[derive(Clone, Copy, Debug, PartialEq, Eq, Structural)]
pub enum WalkStep {
    Skip,
    Enter,
    Take,
}

/// A directory that holds no files of the project's own.
pub open spec fn skipped_dir(name: Seq<char>) -> bool {
    name == ".git"@ || name == "target"@ || name == "node_modules"@ || name == ".venv"@
}

/// What to do with an entry named `name`: generated and foreign trees are left out.
pub fn walk_step(is_dir: bool, is_file: bool, name: &str) -> (r: WalkStep)
    ensures
        r == (if is_dir {
            if skipped_dir(name@) {
                WalkStep::Skip
            } else {
                WalkStep::Enter
            }
        } else if is_file {
            WalkStep::Take
        } else {
            WalkStep::Skip
        }),
{
    if is_dir {
        if same(name, ".git") || same(name, "target") || same(name, "node_modules") || same(
            name,
            ".venv",
        ) {
            WalkStep::Skip
        } else {
            WalkStep::Enter
        }
    } else if is_file {
        WalkStep::Take
    } else {
        WalkStep::Skip
    }
}

/// Whether the walk has found enough.
pub fn walk_is_full(found: usize) -> (r: bool)
    ensures
        r == (found >= 20_000),
{
    found >= MAX_FILES
}

/// A path as it is shown, on every platform.
pub fn shown_path(relative: &str) -> (r: String)
    ensures
        r@ == replaced(relative@, "\\"@, "/"@),
{
    replace(relative, "\\", "/")
}

} // verus!
