//! What a mention of a file offers.

use vstd::prelude::*;

use crate::model::views;
use crate::render::popup::offered_files;
use crate::screen::{
    byte_len, file_matches, file_popup_is_ordered, file_source, mention_query, ranked,
    stands_before,
};
use crate::state::AppState;
use crate::strings::{ascii_lower, has_text_is_occurrence, lowered, occurs_at};

verus! {

/// The number of a letter with ASCII case set aside.
pub open spec fn caseless(c: char) -> int {
    if 65 <= c as int <= 90 {
        c as int + 32
    } else {
        c as int
    }
}

/// Whether the letters of `q` stand in `path` at `k`, ASCII case set aside on both sides.
pub open spec fn stands_at(path: Seq<char>, q: Seq<char>, k: int) -> bool {
    0 <= k && k + q.len() <= path.len() && forall|j: int|
        0 <= j < q.len() ==> caseless(#[trigger] path[k + j]) == caseless(q[j])
}

proof fn lower_is_caseless(a: char, b: char)
    ensures
        ascii_lower(a) == ascii_lower(b) <==> caseless(a) == caseless(b),
{
    assert('A' as u32 == 65 && 'Z' as u32 == 90);
    assert(a as u32 == a as int && b as u32 == b as int);
    assert(65 <= a as int <= 90 ==> ascii_lower(a) as int == a as int + 32);
    assert(65 <= b as int <= 90 ==> ascii_lower(b) as int == b as int + 32);
}

proof fn same_letters(a: Seq<char>, b: Seq<char>, i: int, j: int)
    requires
        0 <= i < a.len(),
        0 <= j < b.len(),
    ensures
        lowered(a)[i] == lowered(b)[j] <==> caseless(a[i]) == caseless(b[j]),
{
    lower_is_caseless(a[i], b[j]);
}

proof fn occurs_caseless(path: Seq<char>, q: Seq<char>, k: int)
    ensures
        occurs_at(lowered(path), lowered(q), k) <==> stands_at(path, q, k),
{
    let p = lowered(path);
    let l = lowered(q);
    if occurs_at(p, l, k) {
        assert forall|j: int| 0 <= j < q.len() implies caseless(#[trigger] path[k + j]) == caseless(
            q[j],
        ) by {
            assert(p.subrange(k, k + l.len())[j] == p[k + j]);
            same_letters(path, q, k + j, j);
        }
    }
    if stands_at(path, q, k) {
        assert forall|j: int| 0 <= j < l.len() implies #[trigger] p.subrange(k, k + l.len())[j]
            == l[j] by {
            assert(caseless(path[k + j]) == caseless(q[j]));
            same_letters(path, q, k + j, j);
        }
        assert(p.subrange(k, k + l.len()) =~= l);
    }
}

/// A path matches what is typed exactly where the typed letters stand in it somewhere,
/// ASCII case set aside on both sides.
pub proof fn match_sets_case_aside(path: Seq<char>, q: Seq<char>)
    ensures
        file_matches(path, lowered(q)) <==> exists|k: int| stands_at(path, q, k),
{
    has_text_is_occurrence(lowered(path), lowered(q));
    if file_matches(path, lowered(q)) {
        let k = choose|k: int| occurs_at(lowered(path), lowered(q), k);
        occurs_caseless(path, q, k);
        assert(stands_at(path, q, k));
    }
    if exists|k: int| stands_at(path, q, k) {
        let k = choose|k: int| stands_at(path, q, k);
        occurs_caseless(path, q, k);
        assert(occurs_at(lowered(path), lowered(q), k));
    }
}

/// A path matches whatever is typed of it as it is written.
pub proof fn every_part_of_a_path_matches(path: Seq<char>, a: int, b: int)
    requires
        0 <= a <= b <= path.len(),
    ensures
        file_matches(path, lowered(path.subrange(a, b))),
{
    assert(stands_at(path, path.subrange(a, b), a));
    match_sets_case_aside(path, path.subrange(a, b));
}

/// The case of a letter, in the path or in what is typed, does not change a match.
pub proof fn case_does_not_change_a_match(
    path: Seq<char>,
    other: Seq<char>,
    q: Seq<char>,
    typed: Seq<char>,
)
    requires
        path.len() == other.len(),
        q.len() == typed.len(),
        forall|i: int| 0 <= i < path.len() ==> caseless(#[trigger] path[i]) == caseless(other[i]),
        forall|i: int| 0 <= i < q.len() ==> caseless(#[trigger] q[i]) == caseless(typed[i]),
    ensures
        file_matches(path, lowered(q)) == file_matches(other, lowered(typed)),
{
    match_sets_case_aside(path, q);
    match_sets_case_aside(other, typed);
    assert forall|k: int| stands_at(path, q, k) == stands_at(other, typed, k) by {
        if 0 <= k && k + q.len() <= path.len() {
            assert forall|j: int| 0 <= j < q.len() implies (caseless(path[k + j]) == caseless(q[j]))
                == (caseless(#[trigger] other[k + j]) == caseless(typed[j])) by {
                assert(caseless(path[k + j]) == caseless(other[k + j]));
                assert(caseless(q[j]) == caseless(typed[j]));
            }
            if stands_at(path, q, k) {
                assert forall|j: int| 0 <= j < typed.len() implies caseless(#[trigger] other[k + j])
                    == caseless(typed[j]) by {
                    assert(caseless(path[k + j]) == caseless(q[j]));
                }
            }
            if stands_at(other, typed, k) {
                assert forall|j: int| 0 <= j < q.len() implies caseless(#[trigger] path[k + j])
                    == caseless(q[j]) by {
                    assert(caseless(other[k + j]) == caseless(typed[j]));
                }
            }
        }
    }
    if exists|k: int| stands_at(path, q, k) {
        let k = choose|k: int| stands_at(path, q, k);
        assert(stands_at(other, typed, k));
    }
    if exists|k: int| stands_at(other, typed, k) {
        let k = choose|k: int| stands_at(other, typed, k);
        assert(stands_at(path, q, k));
    }
}

proof fn ranked_holds(paths: Seq<Seq<char>>, query: Seq<char>, path: Seq<char>)
    ensures
        ranked(paths, query, paths.len() as int).contains(path) <==> paths.contains(path)
            && file_matches(path, query),
{
    let n = paths.len() as int;
    let keep = |p: Seq<char>| file_matches(p, query);
    file_popup_is_ordered(paths, query, n);
    broadcast use vstd::seq_lib::group_to_multiset_ensures;

    assert(paths.take(n) =~= paths);
    let kept = paths.filter(keep);
    let all = ranked(paths, query, n);
    assert(all.contains(path) <==> all.to_multiset().count(path) > 0);
    assert(kept.contains(path) <==> kept.to_multiset().count(path) > 0);
    broadcast use vstd::seq_lib::group_filter_ensures;

    if paths.contains(path) && file_matches(path, query) {
        let i = choose|i: int| 0 <= i < paths.len() && paths[i] == path;
        assert(keep(paths[i]));
        assert(kept.contains(paths[i]));
    }
    if kept.contains(path) {
        let i = choose|i: int| 0 <= i < kept.len() && kept[i] == path;
        assert(keep(kept[i]));
        paths.lemma_filter_contains_rev(keep, path);
    }
}

/// A mention offers only files of the project in which the typed letters stand, ASCII
/// case set aside, and offers all of them where they are fifty or fewer; it never offers
/// more than fifty.
pub proof fn mention_offers_what_holds_the_letters(state: AppState, q: Seq<char>, path: Seq<char>)
    requires
        mention_query(state.composer.before()) == Some(q),
        !state.slash_popup_dismissed,
    ensures
        ({
            let source = if state.file_candidates@.len() == 0 {
                views(state.context_files@)
            } else {
                views(state.file_candidates@)
            };
            let fits = source.contains(path) && exists|k: int| stands_at(path, q, k);
            &&& offered_files(state).len() <= 50
            &&& offered_files(state).contains(path) ==> fits
            &&& fits && offered_files(state).len() < 50 ==> offered_files(state).contains(path)
        }),
{
    let source = file_source(state);
    let all = ranked(source, lowered(q), source.len() as int);
    ranked_holds(source, lowered(q), path);
    match_sets_case_aside(path, q);
    let shown = offered_files(state);
    if shown.contains(path) {
        let i = choose|i: int| 0 <= i < shown.len() && shown[i] == path;
        assert(all[i] == path);
    }
    if all.contains(path) && shown.len() < 50 {
        assert(shown =~= all);
    }
}

/// A dismissed popup offers no file, and neither does a text without a mention.
pub proof fn nothing_is_offered_unasked(state: AppState)
    ensures
        state.slash_popup_dismissed ==> offered_files(state).len() == 0,
        mention_query(state.composer.before()) is None ==> offered_files(state).len() == 0,
{
}

/// The files that begin with what is typed stand first, and among files alike in that
/// the shorter ones do, by their length in bytes.
pub proof fn offered_files_are_ranked(state: AppState, q: Seq<char>, i: int, j: int)
    requires
        mention_query(state.composer.before()) == Some(q),
        0 <= i < j < offered_files(state).len(),
    ensures
        ({
            let a = offered_files(state)[i];
            let b = offered_files(state)[j];
            &&& stands_at(b, q, 0) ==> stands_at(a, q, 0)
            &&& stands_at(a, q, 0) == stands_at(b, q, 0) ==> byte_len(lowered(a)) <= byte_len(
                lowered(b),
            )
        }),
{
    let source = file_source(state);
    let all = ranked(source, lowered(q), source.len() as int);
    file_popup_is_ordered(source, lowered(q), source.len() as int);
    let a = offered_files(state)[i];
    let b = offered_files(state)[j];
    assert(all[i] == a && all[j] == b);
    assert(!stands_before(all[j], all[i], lowered(q)));
    occurs_caseless(a, q, 0);
    occurs_caseless(b, q, 0);
}

} // verus!
