//! The contextual prompt suggestion: the next step the runtime already produced,
//! offered as a hint the user accepts with Tab.
//!
//! It is presentation state, never input. It lives beside the composer, not inside it,
//! so it can never reach a message, a draft or the history. Only `accept` turns it
//! into real text, and only because the user pressed Tab.

use vstd::prelude::*;

use crate::model::views;
use crate::number::at_most;
use crate::protocol::RuntimeStatus;
use crate::render::popup::offered_files;
use crate::screen::{pairs, popup_for, visible_file_popup, visible_slash_popup, Screen};
use crate::i18n::text_of;
use crate::state::{opt_text, AppState, WorkbenchFocus};
use crate::strings::{join, joined, skip_white, split_whitespace, text_words, whitespace, word_end, words_from};
use crate::width::{concat, concat_adds, graphemes, one_more, unicode_graphemes};

verus! {

broadcast use crate::model::group_views;

/// Longest suggestion that is shown, in graphemes, so that an unusually long step
/// cannot own the whole input row.
pub const MAX_GRAPHEMES: usize = 120;

/// White space collapsed to single spaces.
pub open spec fn folded(text: Seq<char>) -> Seq<char> {
    joined(text_words(text), " "@)
}

/// The first 120 clusters of a text, and an ellipsis where there are more.
pub open spec fn shortened(s: Seq<char>) -> Seq<char> {
    let gs = unicode_graphemes(s);
    let kept = concat(gs.take(at_most(gs.len() as int, 120)));
    if gs.len() > 120 {
        kept.push('…')
    } else {
        kept
    }
}

/// A candidate as a one-line suggestion.
pub open spec fn suggestion_of(text: Seq<char>) -> Option<Seq<char>> {
    if folded(text).len() == 0 {
        None
    } else {
        Some(shortened(folded(text)))
    }
}

proof fn word_has_no_white(s: Seq<char>, a: int)
    requires
        0 <= a,
    ensures
        forall|k: int| a <= k < word_end(s, a) && k < s.len() ==> !whitespace(#[trigger] s[k]),
    decreases s.len() - a,
{
    if a < s.len() && !whitespace(s[a]) {
        word_has_no_white(s, a + 1);
    }
}

proof fn words_have_no_white(s: Seq<char>, i: int)
    requires
        0 <= i,
    ensures
        forall|w: int, k: int|
            0 <= w < words_from(s, i).len() && 0 <= k < words_from(s, i)[w].len() ==> !whitespace(
                #[trigger] words_from(s, i)[w][k],
            ),
    decreases s.len() - i,
{
    let a = skip_white(s, i);
    let b = word_end(s, a);
    let all = words_from(s, i);
    if !(a < i || b <= a || b > s.len()) {
        word_has_no_white(s, a);
        words_have_no_white(s, b);
        let rest = words_from(s, b);
        assert forall|w: int, k: int|
            0 <= w < all.len() && 0 <= k < all[w].len() implies !whitespace(
            #[trigger] all[w][k],
        ) by {
            if w == 0 {
                assert(all[0] == s.subrange(a, b));
                assert(all[0][k] == s[a + k]);
            } else {
                assert(all[w] == rest[w - 1]);
                assert(!whitespace(rest[w - 1][k]));
            }
        }
    }
}

proof fn words_are_not_empty(s: Seq<char>, i: int)
    requires
        0 <= i,
    ensures
        forall|w: int|
            0 <= w < words_from(s, i).len() ==> (#[trigger] words_from(s, i)[w]).len() > 0,
    decreases s.len() - i,
{
    let a = skip_white(s, i);
    let b = word_end(s, a);
    let all = words_from(s, i);
    if !(a < i || b <= a || b > s.len()) {
        words_are_not_empty(s, b);
        let rest = words_from(s, b);
        assert forall|w: int| 0 <= w < all.len() implies (#[trigger] all[w]).len() > 0 by {
            if w > 0 {
                assert(all[w] == rest[w - 1]);
            }
        }
    }
}

/// No white space but single spaces between words.
pub open spec fn tidy(s: Seq<char>) -> bool {
    &&& s.len() > 0 ==> !whitespace(s[0]) && !whitespace(s.last())
    &&& forall|k: int| 0 <= k < s.len() && whitespace(#[trigger] s[k]) ==> s[k] == ' '
    &&& forall|k: int|
        0 <= k < s.len() - 1 && whitespace(#[trigger] s[k]) ==> !whitespace(s[k + 1])
}

proof fn joined_is_tidy(parts: Seq<Seq<char>>)
    requires
        forall|w: int| 0 <= w < parts.len() ==> (#[trigger] parts[w]).len() > 0,
        forall|w: int, k: int|
            0 <= w < parts.len() && 0 <= k < parts[w].len() ==> !whitespace(
                #[trigger] parts[w][k],
            ),
    ensures
        tidy(joined(parts, " "@)),
        parts.len() > 0 ==> joined(parts, " "@).len() > 0,
    decreases parts.len(),
{
    reveal_strlit(" ");
    let all = joined(parts, " "@);
    if parts.len() == 1 {
        assert(forall|k: int| 0 <= k < parts[0].len() ==> !whitespace(#[trigger] parts[0][k]));
        assert(parts[0].len() > 0);
        assert(all == parts[0]);
    } else if parts.len() > 1 {
        let front = parts.drop_last();
        assert forall|w: int| 0 <= w < front.len() implies (#[trigger] front[w]).len() > 0 by {
            assert(front[w] == parts[w]);
        }
        assert forall|w: int, k: int|
            0 <= w < front.len() && 0 <= k < front[w].len() implies !whitespace(
            #[trigger] front[w][k],
        ) by {
            assert(front[w] == parts[w]);
            assert(!whitespace(parts[w][k]));
        }
        joined_is_tidy(front);
        let j = joined(front, " "@);
        let l = parts.last();
        assert(parts[parts.len() - 1].len() > 0);
        assert(all == j + " "@ + l);
        assert forall|k: int| j.len() < k < all.len() implies !whitespace(#[trigger] all[k]) by {
            assert(all[k] == l[k - j.len() - 1]);
            assert(!whitespace(parts[parts.len() - 1][k - j.len() - 1]));
        }
        assert(all[0] == j[0]);
        assert forall|k: int| 0 <= k < all.len() && whitespace(#[trigger] all[k]) implies all[k]
            == ' ' by {
            if k < j.len() {
                assert(all[k] == j[k]);
            }
        }
        assert forall|k: int| 0 <= k < all.len() - 1 && whitespace(#[trigger] all[k]) implies
            !whitespace(all[k + 1]) by {
            if k < j.len() {
                assert(all[k] == j[k]);
                assert(k != j.len() - 1);
                assert(all[k + 1] == j[k + 1]);
            }
        }
    }
}

/// A folded text has no white space but single spaces between words, none in front and
/// none behind: it stays on one line.
pub proof fn folded_is_one_line(text: Seq<char>)
    ensures
        tidy(folded(text)),
{
    words_have_no_white(text, 0);
    words_are_not_empty(text, 0);
    joined_is_tidy(text_words(text));
}

proof fn joined_from_the_front(w: Seq<char>, rest: Seq<Seq<char>>, sep: Seq<char>)
    requires
        rest.len() > 0,
    ensures
        joined(seq![w] + rest, sep) == w + sep + joined(rest, sep),
    decreases rest.len(),
{
    let all = seq![w] + rest;
    assert(all.last() == rest.last());
    assert(all.drop_last() =~= seq![w] + rest.drop_last());
    assert(joined(all, sep) == joined(all.drop_last(), sep) + sep + rest.last());
    if rest.len() == 1 {
        assert(all.drop_last() =~= seq![w]);
        assert(joined(seq![w], sep) == w);
        assert(joined(rest, sep) == rest.last());
    } else {
        let front = joined(rest.drop_last(), sep);
        joined_from_the_front(w, rest.drop_last(), sep);
        assert(joined(rest, sep) == front + sep + rest.last());
        assert(w + sep + front + sep + rest.last() =~= w + sep + (front + sep + rest.last()));
    }
}

proof fn word_extends(s: Seq<char>, a: int)
    requires
        0 <= a <= s.len(),
    ensures
        a <= word_end(s, a) <= s.len(),
        a < s.len() && !whitespace(s[a]) ==> a < word_end(s, a),
        word_end(s, a) < s.len() ==> whitespace(s[word_end(s, a)]),
    decreases s.len() - a,
{
    if a < s.len() && !whitespace(s[a]) {
        word_extends(s, a + 1);
    }
}

proof fn tidy_words_join_back(s: Seq<char>, i: int)
    requires
        tidy(s),
        0 <= i < s.len(),
        !whitespace(s[i]),
    ensures
        words_from(s, i).len() > 0,
        joined(words_from(s, i), " "@) == s.skip(i),
    decreases s.len() - i,
{
    reveal_strlit(" ");
    let b = word_end(s, i);
    word_extends(s, i);
    assert(skip_white(s, i) == i);
    let w = s.subrange(i, b);
    if b == s.len() {
        assert(words_from(s, b) =~= Seq::<Seq<char>>::empty());
        assert(words_from(s, i) =~= seq![w]);
        assert(w =~= s.skip(i));
    } else {
        assert(whitespace(s[b]) && s[b] == ' ');
        assert(b != s.len() - 1);
        assert(!whitespace(s[b + 1]));
        reveal_with_fuel(skip_white, 2);
        assert(skip_white(s, b) == b + 1);
        assert(skip_white(s, b + 1) == b + 1);
        word_extends(s, b + 1);
        tidy_words_join_back(s, b + 1);
        assert(words_from(s, b) == words_from(s, b + 1));
        joined_from_the_front(w, words_from(s, b), " "@);
        assert(w + " "@ + s.skip(b + 1) =~= s.skip(i));
    }
}

/// Folding a text that is folded already changes nothing.
pub proof fn folding_again_changes_nothing(s: Seq<char>)
    requires
        tidy(s),
    ensures
        folded(s) == s,
{
    if s.len() > 0 {
        tidy_words_join_back(s, 0);
        assert(s.skip(0) =~= s);
    } else {
        assert(text_words(s) =~= Seq::<Seq<char>>::empty());
        assert(folded(s) =~= s);
    }
}

proof fn white_is_skipped(s: Seq<char>, i: int)
    requires
        0 <= i <= s.len(),
    ensures
        i <= skip_white(s, i) <= s.len(),
        skip_white(s, i) < s.len() ==> !whitespace(s[skip_white(s, i)]),
        forall|k: int| i <= k < skip_white(s, i) ==> whitespace(#[trigger] s[k]),
    decreases s.len() - i,
{
    if i < s.len() && whitespace(s[i]) {
        white_is_skipped(s, i + 1);
    }
}

/// Nothing is left of a text when it is folded exactly where it is all white space.
pub proof fn only_blank_folds_to_nothing(text: Seq<char>)
    ensures
        folded(text).len() == 0 <==> forall|k: int|
            0 <= k < text.len() ==> whitespace(#[trigger] text[k]),
{
    white_is_skipped(text, 0);
    let a = skip_white(text, 0);
    word_extends(text, a);
    words_have_no_white(text, 0);
    words_are_not_empty(text, 0);
    joined_is_tidy(text_words(text));
    if a == text.len() {
        assert(text_words(text) =~= Seq::<Seq<char>>::empty());
    } else {
        assert(text_words(text).len() > 0);
    }
}

/// The cut of a text, with the ellipsis behind it, is cut no further.
proof fn cut_is_stable(front: Seq<Seq<char>>, c: char)
    requires
        front.len() == 120,
        c == '…',
        one_more(front, c, unicode_graphemes(concat(front).push(c))),
    ensures
        shortened(concat(front).push(c)) == concat(front).push(c),
        unicode_graphemes(concat(front).push(c)).len() <= 121,
{
    let out = concat(front).push(c);
    let gs = unicode_graphemes(out);
    if gs == front.push(seq![c]) {
        assert(gs.take(120) =~= front);
    } else {
        assert(gs == front.drop_last().push(front.last().push(c)));
        assert(gs.take(120) =~= gs);
        assert(gs.drop_last() =~= front.drop_last());
        assert(concat(gs) =~= out);
    }
}

/// Fold a candidate into a one-line suggestion, or reject it.
///
/// White space collapses so that the hint cannot grow the composer, and the cut is by
/// grapheme, so that a character is never halved. A blank candidate is rejected, and a
/// suggestion that is folded again stays as it is.
pub fn normalize(text: &str) -> (r: Option<String>)
    ensures
        opt_text(r) == suggestion_of(text@),
        r is None <==> forall|k: int| 0 <= k < text@.len() ==> whitespace(#[trigger] text@[k]),
        r matches Some(s) ==> {
            &&& tidy(s@)
            &&& unicode_graphemes(s@).len() <= 121
            &&& suggestion_of(s@) == Some(s@)
        },
{
    let single = join(&split_whitespace(text), " ");
    proof {
        only_blank_folds_to_nothing(text@);
        folded_is_one_line(text@);
    }
    if single.as_str().is_empty() {
        return None;
    }
    let gs = graphemes(single.as_str());
    let ghost gv = unicode_graphemes(single@);
    let mut out = String::new();
    let mut i: usize = 0;
    assert(gv.len() == gs@.len());
    assert(gv.take(0) =~= Seq::<Seq<char>>::empty());
    while i < gs.len() && i < MAX_GRAPHEMES
        invariant
            views(gs@) == gv,
            gv.len() == gs@.len(),
            i <= gs@.len(),
            i <= 120,
            out@ == concat(gv.take(i as int)),
        decreases gs@.len() - i,
    {
        assert(gv[i as int] == gs@[i as int]@);
        out.append(gs[i].as_str());
        i += 1;
        assert(gv.take(i as int).drop_last() =~= gv.take(i - 1));
    }
    let ghost kept = out@;
    proof {
        // What is kept is a front of the folded text.
        assert(gv.take(i as int) + gv.skip(i as int) =~= gv);
        concat_adds(gv.take(i as int), gv.skip(i as int));
        assert(forall|k: int| 0 <= k < kept.len() ==> #[trigger] kept[k] == single@[k]);
    }
    if gs.len() > MAX_GRAPHEMES {
        out.push('…');
        proof {
            let front = gv.take(120);
            assert(front.last() == gs@[119]@);
            assert(kept.len() > 0);
            assert(one_more(front, '…', unicode_graphemes(concat(front).push('…'))));
            cut_is_stable(front, '…');
            assert(out@[0] == kept[0] && kept[0] == single@[0]);
            assert forall|k: int| 0 <= k < out@.len() && whitespace(#[trigger] out@[k]) implies
                out@[k] == ' ' by {
                if k < kept.len() {
                    assert(out@[k] == single@[k]);
                }
            }
            assert forall|k: int| 0 <= k < out@.len() - 1 && whitespace(#[trigger] out@[k])
                implies !whitespace(out@[k + 1]) by {
                assert(out@[k] == single@[k]);
                if k + 1 < kept.len() {
                    assert(out@[k + 1] == single@[k + 1]);
                }
            }
        }
    } else {
        assert(gv.take(i as int) =~= gv);
        assert(out@ =~= single@);
    }
    proof {
        folding_again_changes_nothing(out@);
    }
    Some(out)
}

/// Everything but the suggestion is what it was.
pub open spec fn only_suggestion_changed(a: AppState, b: AppState) -> bool {
    b == (AppState { prompt_suggestion: b.prompt_suggestion, ..a })
}

/// Offer `text` as the next-step suggestion.
///
/// A user draft always wins: with text in the composer nothing is offered, nor parked
/// to surprise the user once they clear the line.
#[verifier::rlimit(30)]
pub fn offer(state: &mut AppState, text: &str)
    ensures
        only_suggestion_changed(*old(state), *final(state)),
        opt_text(final(state).prompt_suggestion) == (if old(state).composer.text@.len() == 0 {
            suggestion_of(text@)
        } else {
            None
        }),
{
    state.prompt_suggestion = if state.composer.is_empty() {
        normalize(text)
    } else {
        None
    };
}

/// Destroy the suggestion: the user has said something else with their hands, or a
/// turn or a session ended.
#[verifier::rlimit(30)]
pub fn clear(state: &mut AppState)
    ensures
        only_suggestion_changed(*old(state), *final(state)),
        final(state).prompt_suggestion is None,
{
    state.prompt_suggestion = None;
}

/// The hint is on screen.
pub open spec fn shown(state: AppState) -> bool {
    &&& state.prompt_suggestion is Some
    &&& state.active_screen == Screen::Conversation
    &&& state.status == RuntimeStatus::Idle
    &&& state.runtime_connected
    &&& state.workbench_focus == WorkbenchFocus::Input
    &&& state.composer.text@.len() == 0
    &&& !state.composer.browsing_history
    &&& state.overlay is None
    &&& state.turn_nav is None
    &&& (state.slash_popup_dismissed || popup_for(
        state.composer.text@,
        text_of(state.locale),
        pairs(state.skill_catalog@),
        text_of(state.locale),
    ).len() == 0)
    &&& offered_files(state).len() == 0
}

/// The single definition of "the hint is on screen". Tab means accept exactly where it
/// is, and switches the focus elsewhere.
pub fn is_visible(state: &AppState) -> (r: bool)
    requires
        state.composer.wf(),
    ensures
        r == shown(*state),
{
    let slash = visible_slash_popup(state);
    let files = visible_file_popup(state);
    assert(pairs(slash@).len() == slash@.len());
    assert(views(files@).len() == files@.len());
    state.prompt_suggestion.is_some() && state.active_screen == Screen::Conversation
        && state.status == RuntimeStatus::Idle && state.runtime_connected && state.workbench_focus
        == WorkbenchFocus::Input && state.composer.is_empty() && !state.composer.browsing_history
        && state.overlay.is_none() && state.turn_nav.is_none() && slash.len() == 0 && files.len()
        == 0
}

/// Tab: move the suggestion into the real buffer and stop there. Nothing is submitted:
/// until Enter it is an ordinary draft.
#[verifier::rlimit(30)]
pub fn accept(state: &mut AppState)
    ensures
        old(state).wf() ==> final(state).wf(),
        final(state).prompt_suggestion is None,
        old(state).prompt_suggestion is None ==> *final(state) == *old(state),
        old(state).prompt_suggestion matches Some(s) ==> {
            &&& final(state).composer.text@ == s@
            &&& final(state).composer.wf()
            &&& final(state).composer.cursor == s@.len()
            &&& *final(state) == (AppState {
                prompt_suggestion: None,
                composer: final(state).composer,
                ..*old(state)
            })
        },
{
    let text = match &state.prompt_suggestion {
        Some(s) => s.clone(),
        None => {
            return ;
        },
    };
    state.prompt_suggestion = None;
    state.composer.replace(text);
}

/// A suggestion never stands over a draft: while the hint is on screen the composer is
/// empty, and a draft is never replaced by an offer.
pub proof fn draft_beats_suggestion(state: AppState)
    requires
        state.composer.text@.len() > 0,
    ensures
        !shown(state),
{
}

} // verus!
