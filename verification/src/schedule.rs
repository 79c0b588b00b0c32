//! The agent schedule: within one tick, the host runs the guest
//! programs serially over the live ships in ascending handle order, so
//! that a match replays identically from its seed.

use vstd::prelude::*;

verus! {

broadcast use vstd::seq_lib::group_to_multiset_ensures;

/// Whether a handle sequence is in ascending order.
pub open spec fn ascending(s: Seq<u64>) -> bool {
    forall|i: int, j: int| 0 <= i < j < s.len() ==> s[i] <= s[j]
}

fn min_index(handles: &Vec<u64>) -> (m: usize)
    requires
        handles@.len() > 0,
    ensures
        m < handles@.len(),
        forall|j: int| 0 <= j < handles@.len() ==> handles@[m as int] <= handles@[j],
{
    let n: usize = handles.len();
    let mut m: usize = 0;
    let mut k: usize = 1;
    while k < n
        invariant
            n == handles@.len(),
            m < k <= n,
            forall|j: int| 0 <= j < k ==> handles@[m as int] <= handles@[j],
        decreases n - k,
    {
        if handles[k] < handles[m] {
            m = k;
        }
        k = k + 1;
    }
    m
}

/// The order in which the host visits the ships of one tick: the same
/// handles, ascending.
pub fn schedule_order(handles: &Vec<u64>) -> (r: Vec<u64>)
    ensures
        r@.len() == handles@.len(),
        ascending(r@),
        r@.to_multiset() == handles@.to_multiset(),
{
    let mut work = handles.clone();
    let mut out: Vec<u64> = Vec::new();
    proof {
        assert(out@.to_multiset().add(work@.to_multiset()) =~= handles@.to_multiset());
    }
    while work.len() > 0
        invariant
            out@.to_multiset().add(work@.to_multiset()) == handles@.to_multiset(),
            out@.len() + work@.len() == handles@.len(),
            ascending(out@),
            forall|i: int, j: int|
                0 <= i < out@.len() && 0 <= j < work@.len() ==> out@[i] <= work@[j],
        decreases work@.len(),
    {
        let m = min_index(&work);
        let x = work.remove(m);
        out.push(x);
        proof {
            assert(out@.to_multiset().add(work@.to_multiset()) =~= handles@.to_multiset());
        }
    }
    out
}

} // verus!
