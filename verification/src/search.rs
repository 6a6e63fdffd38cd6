//! Match lists: the positions, in a full list, of the items that a search
//! query matches, and how a cursor moves among them.

use vstd::prelude::*;

verus! {

/// The positions below `n` whose items satisfy `pred`, in increasing order.
pub open spec fn match_list(n: nat, pred: spec_fn(int) -> bool) -> Seq<usize>
    decreases n,
{
    if n == 0 {
        Seq::empty()
    } else {
        let r = match_list((n - 1) as nat, pred);
        if pred(n - 1) {
            r.push((n - 1) as usize)
        } else {
            r
        }
    }
}

/// The elements of a list are strictly increasing.
pub open spec fn strictly_increasing(s: Seq<usize>) -> bool {
    forall|i: int, j: int| 0 <= i < j < s.len() ==> s[i] < s[j]
}

/// A match list is strictly increasing, lists only positions below `n` that
/// satisfy `pred`, and lists every such position.
pub proof fn lemma_match_list(n: nat, pred: spec_fn(int) -> bool)
    requires
        n <= usize::MAX + 1,
    ensures
        strictly_increasing(match_list(n, pred)),
        match_list(n, pred).len() <= n,
        forall|i: int|
            0 <= i < match_list(n, pred).len() ==> #[trigger] match_list(n, pred)[i] < n && pred(
                match_list(n, pred)[i] as int,
            ),
        forall|k: int| 0 <= k < n && pred(k) ==> #[trigger] match_list(n, pred).contains(k as usize),
    decreases n,
{
    if n > 0 {
        lemma_match_list((n - 1) as nat, pred);
        let r = match_list((n - 1) as nat, pred);
        assert forall|k: int| 0 <= k < n && pred(k) implies #[trigger] match_list(n, pred).contains(
            k as usize,
        ) by {
            if k < n - 1 {
                assert(r.contains(k as usize));
                let j = choose|j: int| 0 <= j < r.len() && r[j] == k as usize;
                if pred(n - 1) {
                    assert(match_list(n, pred)[j] == k as usize);
                }
            } else {
                assert(match_list(n, pred)[r.len() as int] == k as usize);
            }
        }
    }
}

/// The match list of the full range: every position below `n`.
pub proof fn lemma_match_list_all(n: nat, pred: spec_fn(int) -> bool)
    requires
        forall|k: int| 0 <= k < n ==> #[trigger] pred(k),
    ensures
        match_list(n, pred) == Seq::new(n, |k: int| k as usize),
    decreases n,
{
    if n > 0 {
        lemma_match_list_all((n - 1) as nat, pred);
        assert(pred(n - 1));
        assert(match_list(n, pred) =~= Seq::new(n, |k: int| k as usize));
    }
}

/// The first position in `m` whose element exceeds `x`, or `m.len()` when
/// none does.
pub open spec fn first_above(m: Seq<usize>, x: usize) -> int
    decreases m.len(),
{
    if m.len() == 0 {
        0
    } else if m[0] > x {
        0
    } else {
        1 + first_above(m.drop_first(), x)
    }
}

/// The last position in `m` whose element is below `x`, or `-1` when none
/// is.
pub open spec fn last_below(m: Seq<usize>, x: usize) -> int
    decreases m.len(),
{
    if m.len() == 0 {
        -1
    } else if m.last() < x {
        m.len() - 1
    } else {
        last_below(m.drop_last(), x)
    }
}

/// Where `first_above` lands: every earlier element is at most `x`, and the
/// element there, if any, exceeds it.
pub proof fn lemma_first_above(m: Seq<usize>, x: usize)
    ensures
        0 <= first_above(m, x) <= m.len(),
        first_above(m, x) < m.len() ==> m[first_above(m, x)] > x,
        forall|j: int| 0 <= j < first_above(m, x) ==> #[trigger] m[j] <= x,
    decreases m.len(),
{
    if m.len() > 0 && m[0] <= x {
        lemma_first_above(m.drop_first(), x);
        assert forall|j: int| 0 <= j < first_above(m, x) implies #[trigger] m[j] <= x by {
            if j > 0 {
                assert(m[j] == m.drop_first()[j - 1]);
            }
        }
    }
}

/// Where `last_below` lands: every later element is at least `x`, and the
/// element there, if any, is below it.
pub proof fn lemma_last_below(m: Seq<usize>, x: usize)
    ensures
        -1 <= last_below(m, x) < m.len(),
        last_below(m, x) >= 0 ==> m[last_below(m, x)] < x,
        forall|j: int| last_below(m, x) < j < m.len() ==> #[trigger] m[j] >= x,
    decreases m.len(),
{
    if m.len() > 0 && m.last() >= x {
        lemma_last_below(m.drop_last(), x);
        assert forall|j: int| last_below(m, x) < j < m.len() implies #[trigger] m[j] >= x by {
            if j < m.len() - 1 {
                assert(m[j] == m.drop_last()[j]);
            }
        }
    }
}

/// The position in `m` of its first element above `x`, if any
/// (`position(|&i| i > x)`).
pub fn position_above(m: &Vec<usize>, x: usize) -> (res: Option<usize>)
    ensures
        match res {
            Some(p) => p == first_above(m@, x) && p < m@.len(),
            None => first_above(m@, x) == m@.len(),
        },
{
    proof {
        lemma_first_above(m@, x);
    }
    let mut i: usize = 0;
    while i < m.len()
        invariant
            i <= m@.len(),
            forall|j: int| 0 <= j < i ==> #[trigger] m@[j] <= x,
            0 <= first_above(m@, x) <= m@.len(),
            first_above(m@, x) < m@.len() ==> m@[first_above(m@, x)] > x,
            forall|j: int| 0 <= j < first_above(m@, x) ==> #[trigger] m@[j] <= x,
        decreases m.len() - i,
    {
        if m[i] > x {
            return Some(i);
        }
        i += 1;
    }
    None
}

/// The position in `m` of its last element below `x`, if any
/// (`rposition(|&i| i < x)`).
pub fn position_below(m: &Vec<usize>, x: usize) -> (res: Option<usize>)
    ensures
        match res {
            Some(p) => p == last_below(m@, x) && p < m@.len(),
            None => last_below(m@, x) == -1,
        },
{
    proof {
        lemma_last_below(m@, x);
    }
    let mut i: usize = m.len();
    while i > 0
        invariant
            i <= m@.len(),
            forall|j: int| i <= j < m@.len() ==> #[trigger] m@[j] >= x,
            -1 <= last_below(m@, x) < m@.len(),
            last_below(m@, x) >= 0 ==> m@[last_below(m@, x)] < x,
            forall|j: int| last_below(m@, x) < j < m@.len() ==> #[trigger] m@[j] >= x,
        decreases i,
    {
        if m[i - 1] < x {
            return Some(i - 1);
        }
        i -= 1;
    }
    None
}

/// The positions `0..n`, in order.
pub fn all_positions(n: usize) -> (res: Vec<usize>)
    ensures
        res@ == Seq::new(n as nat, |k: int| k as usize),
{
    let mut res: Vec<usize> = Vec::new();
    let mut i: usize = 0;
    while i < n
        invariant
            i <= n,
            res@ == Seq::new(i as nat, |k: int| k as usize),
        decreases n - i,
    {
        res.push(i);
        assert(res@ =~= Seq::new((i + 1) as nat, |k: int| k as usize));
        i += 1;
    }
    res
}

} // verus!
