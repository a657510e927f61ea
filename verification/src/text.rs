//! Text assembly: joining fragments with a separator.

use vstd::prelude::*;
use vstd::string::*;

verus! {

/// The fragments of `parts` in order, with `sep` between each two neighbours.
pub open spec fn join_spec(parts: Seq<Seq<char>>, sep: Seq<char>) -> Seq<char>
    decreases parts.len(),
{
    if parts.len() == 0 {
        Seq::empty()
    } else if parts.len() == 1 {
        parts[0]
    } else {
        join_spec(parts.drop_last(), sep) + sep + parts.last()
    }
}

/// The views of the strings of a vector, in order.
pub open spec fn views(parts: Seq<String>) -> Seq<Seq<char>> {
    Seq::new(parts.len(), |i: int| parts[i]@)
}

/// Joins `parts` with `sep` between each two neighbours.
pub fn join(parts: &Vec<String>, sep: &str) -> (out: String)
    ensures
        out@ == join_spec(views(parts@), sep@),
{
    let mut out = String::new();
    let n = parts.len();
    let mut i: usize = 0;
    while i < n
        invariant
            n == parts.len(),
            i <= n,
            out@ == join_spec(views(parts@).take(i as int), sep@),
        decreases n - i,
    {
        if i > 0 {
            out.append(sep);
        }
        out.append(parts[i].as_str());
        proof {
            let all = views(parts@);
            let next = all.take(i as int + 1);
            assert(next.drop_last() =~= all.take(i as int));
            assert(next.last() == parts@[i as int]@);
            if i == 0 {
                assert(out@ =~= parts@[0]@);
            }
        }
        i = i + 1;
    }
    proof {
        assert(views(parts@).take(n as int) =~= views(parts@));
    }
    out
}

/// The views of a vector that got one more string are the views it had, and
/// the view of that string.
pub proof fn lemma_views_push(parts: Seq<String>, last: String)
    ensures
        views(parts.push(last)) == views(parts).push(last@),
{
    assert(views(parts.push(last)) =~= views(parts).push(last@));
}

/// Copies `parts` and appends `last`.
pub fn extended(parts: &Vec<String>, last: String) -> (out: Vec<String>)
    ensures
        views(out@) == views(parts@).push(last@),
{
    let mut out: Vec<String> = Vec::new();
    let n = parts.len();
    let mut i: usize = 0;
    while i < n
        invariant
            n == parts.len(),
            i <= n,
            out@.len() == i,
            views(out@) == views(parts@).take(i as int),
        decreases n - i,
    {
        let part = parts[i].clone();
        proof {
            lemma_views_push(out@, part);
            assert(views(parts@).take(i as int).push(part@) =~= views(parts@).take(i as int + 1));
        }
        out.push(part);
        i = i + 1;
    }
    proof {
        assert(views(parts@).take(n as int) =~= views(parts@));
        lemma_views_push(out@, last);
    }
    out.push(last);
    out
}

/// Whether two texts hold the same characters.
pub fn same_text(a: &str, b: &str) -> (same: bool)
    ensures
        same == (a@ == b@),
{
    let left = a.to_owned();
    let right = b.to_owned();
    left == right
}

} // verus!
