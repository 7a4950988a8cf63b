//! Source text: the pieces of generated code are strings, and a view of one
//! is the sequence of its characters.

use vstd::prelude::*;

verus! {

/// The pieces one after another, with `sep` between each two.
pub open spec fn joined(parts: Seq<Seq<char>>, sep: Seq<char>) -> Seq<char>
    decreases parts.len(),
{
    if parts.len() == 0 {
        Seq::empty()
    } else if parts.len() == 1 {
        parts[0]
    } else {
        joined(parts.drop_last(), sep) + sep + parts.last()
    }
}

/// Each piece followed by `end`, one after another.
pub open spec fn terminated(parts: Seq<Seq<char>>, end: Seq<char>) -> Seq<char>
    decreases parts.len(),
{
    if parts.len() == 0 {
        Seq::empty()
    } else {
        terminated(parts.drop_last(), end) + parts.last() + end
    }
}

/// Whether two pieces of text hold the same characters.
pub fn str_eq(a: &str, b: &str) -> (same: bool)
    ensures
        same == (a@ == b@),
{
    let x = String::from_str(a);
    let y = String::from_str(b);
    x == y
}

/// Joins the pieces with `sep` between each two.
pub fn join(parts: &Vec<String>, sep: &str) -> (out: String)
    ensures
        out@ == joined(parts.deep_view(), sep@),
{
    let mut out = String::new();
    let mut i: usize = 0;
    while i < parts.len()
        invariant
            i <= parts.len(),
            out@ == joined(parts.deep_view().take(i as int), sep@),
        decreases parts.len() - i,
    {
        proof {
            let all = parts.deep_view();
            assert(all.take(i + 1).drop_last() == all.take(i as int));
            assert(all.take(i + 1).last() == parts[i as int]@);
            if i == 0 {
                assert(Seq::<char>::empty() + parts[0]@ == parts[0]@);
            }
        }
        if i > 0 {
            out.append(sep);
        }
        out.append(parts[i].as_str());
        i += 1;
    }
    proof {
        assert(parts.deep_view().take(parts.len() as int) == parts.deep_view());
    }
    out
}

/// Writes the pieces one after another, each followed by `end`.
pub fn terminate(parts: &Vec<String>, end: &str) -> (out: String)
    ensures
        out@ == terminated(parts.deep_view(), end@),
{
    let mut out = String::new();
    let mut i: usize = 0;
    while i < parts.len()
        invariant
            i <= parts.len(),
            out@ == terminated(parts.deep_view().take(i as int), end@),
        decreases parts.len() - i,
    {
        proof {
            let all = parts.deep_view();
            assert(all.take(i + 1).drop_last() == all.take(i as int));
            assert(all.take(i + 1).last() == parts[i as int]@);
        }
        out.append(parts[i].as_str());
        out.append(end);
        i += 1;
    }
    proof {
        assert(parts.deep_view().take(parts.len() as int) == parts.deep_view());
    }
    out
}

} // verus!
