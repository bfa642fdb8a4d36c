//! Quorum derivation for report finalization.
//!
//! A report submitted while `N` agents are registered needs
//! `max(1, ceil(2N/3))` confirming votes (the submitter's auto-confirmation
//! included) to be accepted. The bar is computed once, at submission time,
//! and frozen into the report.

use vstd::prelude::*;

verus! {

/// The quorum for an agent population of `agent_count`:
/// `max(1, ceil(2 * agent_count / 3))`, written with the integer-division
/// identity `ceil(2n/3) == (2n + 2) / 3`.
pub open spec fn quorum_spec(agent_count: nat) -> nat {
    let q = (2 * agent_count + 2) / 3;
    if q < 1 {
        1
    } else {
        q
    }
}

/// `quorum_spec` clamped to what an eight-bit counter can hold.
pub open spec fn quorum_clamped(agent_count: nat) -> nat {
    if quorum_spec(agent_count) > 255 {
        255
    } else {
        quorum_spec(agent_count)
    }
}

/// The quorum is exactly `max(1, ceil(2n/3))`: it is at least 1, it is 1 for
/// an empty population, and for a non-empty population it is the least `q`
/// with `3q >= 2n`.
pub proof fn lemma_quorum_is_two_thirds_ceiling(n: nat)
    ensures
        quorum_spec(n) >= 1,
        n == 0 ==> quorum_spec(n) == 1,
        n > 0 ==> 3 * quorum_spec(n) >= 2 * n,
        n > 0 ==> 3 * (quorum_spec(n) - 1) < 2 * n,
{
    let x = 2 * n + 2;
    vstd::arithmetic::div_mod::lemma_fundamental_div_mod(x as int, 3);
    vstd::arithmetic::div_mod::lemma_mod_bound(x as int, 3);
    assert(3 * (x / 3) <= x < 3 * (x / 3) + 3);
}

/// Derives the quorum frozen into a new report from the current agent count,
/// saturating at the counter's maximum rather than wrapping.
pub fn compute_quorum(agent_count: u32) -> (quorum: u8)
    ensures
        quorum == quorum_clamped(agent_count as nat),
        quorum >= 1,
{
    let wide: u64 = (agent_count as u64) * 2 + 2;
    let q: u64 = wide / 3;
    if q < 1 {
        1
    } else if q > 255 {
        255
    } else {
        q as u8
    }
}

} // verus!
