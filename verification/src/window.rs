//! Bounded histories that keep only their most recent entries.

use vstd::prelude::*;
use std::collections::VecDeque;

verus! {

/// `s` followed by `x`, keeping only the last `cap` entries.
pub open spec fn bounded_push<T>(s: Seq<T>, x: T, cap: nat) -> Seq<T> {
    let v = s.push(x);
    if v.len() > cap {
        v.skip(v.len() - cap)
    } else {
        v
    }
}

/// Appends `x` and drops the oldest entries beyond `cap`.
pub fn push_bounded<T>(v: &mut Vec<T>, x: T, cap: usize)
    ensures
        final(v)@ == bounded_push(old(v)@, x, cap as nat),
{
    v.push(x);
    let ghost pushed = v@;
    while v.len() > cap
        invariant
            pushed.len() > cap ==> v@.len() >= cap,
            pushed.len() <= cap ==> v@.len() == pushed.len(),
            pushed.len() >= v@.len(),
            v@ == pushed.skip(pushed.len() - v@.len()),
        decreases v@.len(),
    {
        v.remove(0);
        assert(v@ =~= pushed.skip(pushed.len() - v@.len()));
    }
    assert(v@ =~= bounded_push(old(v)@, x, cap as nat));
}

/// Appends `x` at the back of a queue and pops the oldest entries from the
/// front while it holds more than `cap`.
pub fn push_back_bounded<T>(q: &mut VecDeque<T>, x: T, cap: usize)
    ensures
        final(q)@ == bounded_push(old(q)@, x, cap as nat),
{
    q.push_back(x);
    let ghost pushed = q@;
    while q.len() > cap
        invariant
            pushed.len() > cap ==> q@.len() >= cap,
            pushed.len() <= cap ==> q@.len() == pushed.len(),
            pushed.len() >= q@.len(),
            q@ == pushed.skip(pushed.len() - q@.len()),
        decreases q@.len(),
    {
        let _ = q.pop_front();
        assert(q@ =~= pushed.skip(pushed.len() - q@.len()));
    }
    assert(q@ =~= bounded_push(old(q)@, x, cap as nat));
}

/// Law: a bounded history never exceeds its capacity, ends with the newest
/// entry, and keeps the previous entries in order minus the oldest ones.
pub proof fn lemma_bounded_push<T>(s: Seq<T>, x: T, cap: nat)
    requires
        cap > 0,
        s.len() <= cap,
    ensures
        bounded_push(s, x, cap).len() == if s.len() < cap {
            s.len() + 1int
        } else {
            cap as int
        },
        bounded_push(s, x, cap).last() == x,
        forall|i: int|
            0 <= i < bounded_push(s, x, cap).len() - 1 ==> #[trigger] bounded_push(s, x, cap)[i] == s[i
                + (s.len() + 1 - bounded_push(s, x, cap).len())],
{
}

} // verus!
