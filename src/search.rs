use vstd::prelude::*;

use crate::lines::{lines, lines_of, str_views};
use crate::text::{contains_query, is_substring};

verus! {

broadcast use {vstd::seq_lib::group_seq_properties, Seq::lemma_filter_push};

/// What `str::to_lowercase` makes of a sequence of characters.
pub uninterp spec fn lower_of(s: Seq<char>) -> Seq<char>;

/// Relies on `str::to_lowercase`: Unicode's lowercase mapping, which depends on
/// the characters alone and not on any locale.
#[verifier::external_body]
fn lowercase(s: &str) -> (r: String)
    ensures
        r@ == lower_of(s@),
{
    s.to_lowercase()
}

/// The lines of `ls` that hold `q`, in their order.
pub open spec fn select_matching(q: Seq<char>, ls: Seq<Seq<char>>) -> Seq<Seq<char>> {
    ls.filter(|l: Seq<char>| is_substring(q, l))
}

/// The lines of `ls` whose lowercase form holds the lowercase form of `q`, in their order.
pub open spec fn select_matching_folded(q: Seq<char>, ls: Seq<Seq<char>>) -> Seq<Seq<char>> {
    ls.filter(|l: Seq<char>| is_substring(lower_of(q), lower_of(l)))
}

/// What `search(q, t)` returns: the lines of `t` that hold `q`.
pub open spec fn matching_lines(q: Seq<char>, t: Seq<char>) -> Seq<Seq<char>> {
    select_matching(q, lines_of(t))
}

/// What `search_case_insensitive(q, t)` returns.
pub open spec fn matching_lines_folded(q: Seq<char>, t: Seq<char>) -> Seq<Seq<char>> {
    select_matching_folded(q, lines_of(t))
}

/// The lines of `contents` that hold `query` exactly, as slices of `contents`, in order.
pub fn search<'a>(query: &str, contents: &'a str) -> (r: Vec<&'a str>)
    ensures
        str_views(r@) == matching_lines(query@, contents@),
{
    let all = lines(contents);
    let mut r: Vec<&'a str> = Vec::new();
    let mut i: usize = 0;
    while i < all.len()
        invariant
            i <= all@.len(),
            str_views(all@) == lines_of(contents@),
            str_views(r@) == select_matching(query@, str_views(all@).take(i as int)),
        decreases all@.len() - i,
    {
        let line = all[i];
        proof {
            assert(str_views(all@).take(i + 1) =~= str_views(all@).take(i as int).push(line@));
            assert(str_views(r@.push(line)) =~= str_views(r@).push(line@));
        }
        if contains_query(line, query) {
            r.push(line);
        }
        i = i + 1;
    }
    assert(str_views(all@).take(i as int) =~= str_views(all@));
    r
}

/// The lines of `contents` whose lowercase form holds the lowercase form of
/// `query`, as slices of `contents`, in order. Both are folded anew for each line.
pub fn search_case_insensitive<'a>(query: &str, contents: &'a str) -> (r: Vec<&'a str>)
    ensures
        str_views(r@) == matching_lines_folded(query@, contents@),
{
    let all = lines(contents);
    let mut r: Vec<&'a str> = Vec::new();
    let mut i: usize = 0;
    while i < all.len()
        invariant
            i <= all@.len(),
            str_views(all@) == lines_of(contents@),
            str_views(r@) == select_matching_folded(query@, str_views(all@).take(i as int)),
        decreases all@.len() - i,
    {
        let line = all[i];
        proof {
            assert(str_views(all@).take(i + 1) =~= str_views(all@).take(i as int).push(line@));
            assert(str_views(r@.push(line)) =~= str_views(r@).push(line@));
        }
        let folded_line = lowercase(line);
        let folded_query = lowercase(query);
        if contains_query(folded_line.as_str(), folded_query.as_str()) {
            r.push(line);
        }
        i = i + 1;
    }
    assert(str_views(all@).take(i as int) =~= str_views(all@));
    r
}

} // verus!
