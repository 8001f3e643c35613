use vstd::prelude::*;

use crate::text::chars_of;

verus! {

/// Number of characters from `start` up to the next `'\n'` or the end of `s`.
pub open spec fn line_len(s: Seq<char>, start: int) -> nat
    decreases s.len() - start,
{
    if start < 0 || start >= s.len() || s[start] == '\n' {
        0
    } else {
        1 + line_len(s, start + 1)
    }
}

/// `l` without one trailing carriage return, if it has one.
pub open spec fn trim_cr(l: Seq<char>) -> Seq<char> {
    if l.len() > 0 && l.last() == '\r' {
        l.drop_last()
    } else {
        l
    }
}

/// The lines of `s` that begin at or after position `start`, which begins a line.
///
/// A line ends at `'\n'` or at the end of `s`; a `"\r\n"` ending counts as one
/// line ending, and a text that ends with a line ending has no empty last line.
pub open spec fn lines_from(s: Seq<char>, start: int) -> Seq<Seq<char>>
    decreases s.len() - start,
{
    if start < 0 || start >= s.len() {
        seq![]
    } else {
        let end: int = start + line_len(s, start) as int;
        if end < s.len() {
            seq![trim_cr(s.subrange(start, end))] + lines_from(s, end + 1)
        } else {
            seq![s.subrange(start, s.len() as int)]
        }
    }
}

/// The lines of a text, in order.
pub open spec fn lines_of(s: Seq<char>) -> Seq<Seq<char>> {
    lines_from(s, 0)
}

/// What each string slice of `v` holds, in order.
pub open spec fn str_views(v: Seq<&str>) -> Seq<Seq<char>> {
    v.map_values(|l: &str| l@)
}

/// The lines of `contents`, as slices of it, in order.
pub fn lines<'a>(contents: &'a str) -> (r: Vec<&'a str>)
    ensures
        str_views(r@) == lines_of(contents@),
{
    let cs = chars_of(contents);
    let n: usize = cs.len();
    let mut r: Vec<&'a str> = Vec::new();
    let mut start: usize = 0;
    while start < n
        invariant
            start <= n,
            n == cs@.len(),
            cs@ == contents@,
            lines_of(cs@) == str_views(r@) + lines_from(cs@, start as int),
        decreases n - start,
    {
        let mut end: usize = start;
        while end < n && cs[end] != '\n'
            invariant
                start <= end <= n,
                n == cs@.len(),
                line_len(cs@, start as int) == (end - start) + line_len(cs@, end as int),
            decreases n - end,
        {
            end = end + 1;
        }
        let stop: usize = if end < n && end > start && cs[end - 1] == '\r' {
            end - 1
        } else {
            end
        };
        let line = contents.substring_char(start, stop);
        proof {
            let raw = cs@.subrange(start as int, end as int);
            assert(line_len(cs@, end as int) == 0);
            if end < n && stop < end {
                assert(raw.drop_last() =~= cs@.subrange(start as int, stop as int));
            }
            if end < n {
                assert(lines_from(cs@, start as int) == seq![line@] + lines_from(cs@, end + 1));
            } else {
                assert(lines_from(cs@, start as int) == seq![line@]);
                assert(lines_from(cs@, n as int) == Seq::<Seq<char>>::empty());
            }
            assert(str_views(r@.push(line)) =~= str_views(r@).push(line@));
        }
        r.push(line);
        start = if end < n {
            end + 1
        } else {
            n
        };
    }
    proof {
        assert(lines_of(cs@) =~= str_views(r@));
    }
    r
}

} // verus!
