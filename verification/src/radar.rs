//! Radar contact selection: among the candidates inside a ship's beam,
//! the strongest return wins, and only that one is reported.
//!
//! The beam test and the range model are continuous and stay with the
//! sweep; the selection rule works on plain values. A candidate's echo
//! arrives as an order-preserving key (for a non-negative IEEE 754
//! return, numeric order and bit-pattern order agree), so picking the
//! largest key picks the strongest return. Ties go to the earliest
//! candidate, which keeps the sweep deterministic.

use vstd::prelude::*;

verus! {

/// One radar candidate as the sweep sees it.
#[derive(Clone, Copy, PartialEq, Eq, Structural, Debug)]
pub struct RadarReturn {
    /// Whether the candidate's bearing lies inside the beam sector.
    pub in_beam: bool,
    /// Order-preserving key of the candidate's echo strength.
    pub strength_key: u64,
}

/// Whether any candidate lies inside the beam.
pub open spec fn any_in_beam(rs: Seq<RadarReturn>) -> bool {
    exists|i: int| 0 <= i < rs.len() && rs[i].in_beam
}

/// Pick the reported contact: the first candidate in the beam whose
/// return no other candidate in the beam exceeds.
pub fn strongest_return(candidates: &Vec<RadarReturn>) -> (r: Option<usize>)
    ensures
        r is Some <==> any_in_beam(candidates@),
        r matches Some(i) ==> i < candidates@.len() && candidates@[i as int].in_beam && (forall|j: int|
            0 <= j < candidates@.len() && candidates@[j].in_beam ==> candidates@[j].strength_key
                <= candidates@[i as int].strength_key) && (forall|j: int|
            0 <= j < i && candidates@[j].in_beam ==> candidates@[j].strength_key < candidates@[
                i as int
            ].strength_key),
{
    let n: usize = candidates.len();
    let mut found: bool = false;
    let mut best_index: usize = 0;
    let mut best_key: u64 = 0;
    let mut k: usize = 0;
    while k < n
        invariant
            k <= n,
            n == candidates@.len(),
            !found ==> forall|i: int| 0 <= i < k ==> !candidates@[i].in_beam,
            found ==> best_index < k && candidates@[best_index as int].in_beam && best_key
                == candidates@[best_index as int].strength_key,
            found ==> forall|i: int|
                0 <= i < k && candidates@[i].in_beam ==> candidates@[i].strength_key <= best_key,
            found ==> forall|i: int|
                0 <= i < best_index && candidates@[i].in_beam ==> candidates@[i].strength_key < best_key,
        decreases n - k,
    {
        let c = candidates[k];
        if c.in_beam && (!found || c.strength_key > best_key) {
            found = true;
            best_index = k;
            best_key = c.strength_key;
        }
        k = k + 1;
    }
    if found {
        Some(best_index)
    } else {
        None
    }
}

} // verus!
