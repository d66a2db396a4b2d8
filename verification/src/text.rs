//! Text building shared by the tools: joining a list of strings.
use vstd::prelude::*;

verus! {

/// The strings of `parts`, in order, with `sep` between each two neighbours.
pub open spec fn seq_join(parts: Seq<Seq<char>>, sep: Seq<char>) -> Seq<char>
    decreases parts.len(),
{
    if parts.len() == 0 {
        Seq::empty()
    } else if parts.len() == 1 {
        parts[0]
    } else {
        seq_join(parts.drop_last(), sep) + sep + parts.last()
    }
}

/// Joins `parts` with `sep`, as `[String]::join` does.
pub fn join(parts: &Vec<String>, sep: &str) -> (joined: String)
    ensures
        joined@ == seq_join(parts.deep_view(), sep@),
{
    let mut joined = String::new();
    let ghost all = parts.deep_view();
    let n: usize = parts.len();
    let mut i: usize = 0;
    while i < n
        invariant
            n == parts.len(),
            all == parts.deep_view(),
            all.len() == n,
            0 <= i <= n,
            joined@ == seq_join(all.take(i as int), sep@),
        decreases n - i,
    {
        assert(all.take(i + 1).drop_last() =~= all.take(i as int));
        assert(all.take(i + 1).last() == parts[i as int]@);
        if i != 0 {
            joined.append(sep);
        } else {
            assert(all.take(0) =~= Seq::<Seq<char>>::empty());
        }
        joined.append(parts[i].as_str());
        i = i + 1;
    }
    assert(all.take(n as int) =~= all);
    joined
}

} // verus!
