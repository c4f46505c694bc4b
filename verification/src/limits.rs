//! Counting in 64 bits without wrapping round.

use vstd::prelude::*;

verus! {

/// `count`, held at the largest `u64`.
pub open spec fn held(count: nat) -> nat {
    if count > u64::MAX {
        u64::MAX as nat
    } else {
        count
    }
}

/// Holding is monotone, changes nothing below the limit, and a sum may be
/// held part by part.
pub proof fn lemma_held(a: nat, b: nat)
    ensures
        held(a) <= u64::MAX,
        a <= u64::MAX ==> held(a) == a,
        a <= b ==> held(a) <= held(b),
        held(held(a) + b) == held(a + b),
{
}

} // verus!
