use vstd::prelude::*;

use crate::lines::{lines_of, str_views};
use crate::search::{lower_of, matching_lines, matching_lines_folded};
use crate::text::{is_substring, occurs_at};

verus! {

broadcast use {vstd::seq_lib::group_seq_properties, Seq::lemma_filter_pred};

/// `idx` picks the elements of `a` out of `b`, at strictly increasing positions.
pub open spec fn embeds(idx: Seq<int>, a: Seq<Seq<char>>, b: Seq<Seq<char>>) -> bool {
    &&& idx.len() == a.len()
    &&& forall|k: int| 0 <= k < idx.len() ==> 0 <= #[trigger] idx[k] < b.len() && a[k] == b[idx[k]]
    &&& forall|j: int, k: int| 0 <= j < k < idx.len() ==> idx[j] < idx[k]
}

/// `a` is `b` with some elements left out and none reordered.
pub open spec fn is_subsequence(a: Seq<Seq<char>>, b: Seq<Seq<char>>) -> bool {
    exists|idx: Seq<int>| embeds(idx, a, b)
}

proof fn lemma_filter_embeds(ls: Seq<Seq<char>>, pred: spec_fn(Seq<char>) -> bool) -> (idx: Seq<int>)
    ensures
        embeds(idx, ls.filter(pred), ls),
    decreases ls.len(),
{
    reveal(Seq::filter);
    if ls.len() == 0 {
        Seq::empty()
    } else {
        let sub = lemma_filter_embeds(ls.drop_last(), pred);
        if pred(ls.last()) {
            sub.push(ls.len() - 1)
        } else {
            sub
        }
    }
}

proof fn lemma_filter_all(ls: Seq<Seq<char>>, pred: spec_fn(Seq<char>) -> bool)
    requires
        forall|k: int| 0 <= k < ls.len() ==> pred(#[trigger] ls[k]),
    ensures
        ls.filter(pred) == ls,
    decreases ls.len(),
{
    reveal(Seq::filter);
    if ls.len() > 0 {
        lemma_filter_all(ls.drop_last(), pred);
        assert(ls.drop_last().push(ls.last()) =~= ls);
    }
}

proof fn lemma_filter_len_weaker(
    ls: Seq<Seq<char>>,
    p: spec_fn(Seq<char>) -> bool,
    p2: spec_fn(Seq<char>) -> bool,
)
    requires
        forall|k: int| 0 <= k < ls.len() && p(#[trigger] ls[k]) ==> p2(ls[k]),
    ensures
        ls.filter(p).len() <= ls.filter(p2).len(),
    decreases ls.len(),
{
    reveal(Seq::filter);
    if ls.len() > 0 {
        lemma_filter_len_weaker(ls.drop_last(), p, p2);
    }
}

/// Every line that `search` returns holds the query, and the lines come in the
/// order they have in the text, each at most as often as it occurs there.
pub proof fn search_lines_hold_query_in_order(q: Seq<char>, t: Seq<char>)
    ensures
        forall|i: int|
            0 <= i < matching_lines(q, t).len() ==> is_substring(q, #[trigger] matching_lines(q, t)[i]),
        is_subsequence(matching_lines(q, t), lines_of(t)),
{
    let idx = lemma_filter_embeds(lines_of(t), |l: Seq<char>| is_substring(q, l));
    assert(embeds(idx, matching_lines(q, t), lines_of(t)));
}

/// Where folding case keeps every exact match a match, the case-folded search
/// returns at least as many lines as the exact one.
pub proof fn folded_search_returns_at_least_exact(q: Seq<char>, t: Seq<char>)
    requires
        forall|k: int|
            0 <= k < lines_of(t).len() && is_substring(q, #[trigger] lines_of(t)[k])
                ==> is_substring(lower_of(q), lower_of(lines_of(t)[k])),
    ensures
        matching_lines(q, t).len() <= matching_lines_folded(q, t).len(),
{
    lemma_filter_len_weaker(
        lines_of(t),
        |l: Seq<char>| is_substring(q, l),
        |l: Seq<char>| is_substring(lower_of(q), lower_of(l)),
    );
}

/// Two results of `search` on the same query and text hold the same lines.
pub proof fn search_is_deterministic(q: &str, t: &str, a: Seq<&str>, b: Seq<&str>)
    requires
        str_views(a) == matching_lines(q@, t@),
        str_views(b) == matching_lines(q@, t@),
    ensures
        str_views(a) == str_views(b),
{
}

/// The empty query matches every line of the text.
pub proof fn empty_query_matches_every_line(t: Seq<char>)
    ensures
        matching_lines(Seq::empty(), t) == lines_of(t),
{
    assert forall|l: Seq<char>| is_substring(Seq::empty(), l) by {
        assert(l.subrange(0, 0) =~= Seq::<char>::empty());
        assert(occurs_at(Seq::empty(), l, 0));
    }
    lemma_filter_all(lines_of(t), |l: Seq<char>| is_substring(Seq::empty(), l));
}

/// An empty text has no lines, so neither search returns any.
pub proof fn empty_text_matches_nothing(q: Seq<char>)
    ensures
        lines_of(Seq::empty()) == Seq::<Seq<char>>::empty(),
        matching_lines(q, Seq::empty()) == Seq::<Seq<char>>::empty(),
        matching_lines_folded(q, Seq::empty()) == Seq::<Seq<char>>::empty(),
{
    reveal(Seq::filter);
}

} // verus!
