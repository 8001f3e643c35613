use vstd::prelude::*;

verus! {

/// `q` occurs in `t` starting at position `i`.
pub open spec fn occurs_at(q: Seq<char>, t: Seq<char>, i: int) -> bool {
    &&& 0 <= i
    &&& i + q.len() <= t.len()
    &&& t.subrange(i, i + q.len()) == q
}

/// `q` is a contiguous substring of `t`; the empty sequence is a substring of anything.
pub open spec fn is_substring(q: Seq<char>, t: Seq<char>) -> bool {
    exists|i: int| occurs_at(q, t, i)
}

/// The characters of `s`, in order, as a vector.
pub fn chars_of(s: &str) -> (r: Vec<char>)
    ensures
        r@ == s@,
{
    let mut r: Vec<char> = Vec::new();
    for c in it: s.chars()
        invariant
            it.seq() == s@,
            r@ == it.seq().take(it.index() as int),
    {
        r.push(c);
    }
    r
}

fn occurs_at_chars(q: &Vec<char>, t: &Vec<char>, i: usize) -> (r: bool)
    requires
        i + q@.len() <= t@.len(),
    ensures
        r == occurs_at(q@, t@, i as int),
{
    let n: usize = t.len();
    let mut j: usize = 0;
    while j < q.len()
        invariant
            j <= q@.len(),
            i + q@.len() <= t@.len(),
            n == t@.len(),
            forall|k: int| 0 <= k < j ==> t@[i + k] == q@[k],
        decreases q@.len() - j,
    {
        if t[i + j] != q[j] {
            assert(t@.subrange(i as int, i + q@.len())[j as int] != q@[j as int]);
            return false;
        }
        j = j + 1;
    }
    assert(t@.subrange(i as int, i + q@.len()) =~= q@);
    true
}

fn contains_chars(t: &Vec<char>, q: &Vec<char>) -> (r: bool)
    ensures
        r == is_substring(q@, t@),
{
    if q.len() > t.len() {
        return false;
    }
    let last: usize = t.len() - q.len();
    let mut i: usize = 0;
    loop
        invariant
            i <= last,
            last == t@.len() - q@.len(),
            forall|k: int| 0 <= k < i ==> !occurs_at(q@, t@, k),
        decreases last - i,
    {
        if occurs_at_chars(q, t, i) {
            return true;
        }
        if i == last {
            return false;
        }
        i = i + 1;
    }
}

/// Whether `line` holds `query` as a contiguous substring, compared character by character.
pub fn contains_query(line: &str, query: &str) -> (r: bool)
    ensures
        r == is_substring(query@, line@),
{
    let t = chars_of(line);
    let q = chars_of(query);
    contains_chars(&t, &q)
}

} // verus!
