//! The advertising-state decision.
//!
//! A backend that advertises one native service provider per registered
//! service reports each provider's started flag; the peripheral counts
//! as advertising exactly when it has services and every one of them
//! has started.

use vstd::prelude::*;

verus! {

/// Whether a peripheral with the given per-service started flags is
/// advertising: it has at least one service and all of them started.
pub fn is_advertising_from_statuses(started: &Vec<bool>) -> (r: bool)
    ensures
        r == (started@.len() > 0 && (forall|i: int| 0 <= i < started@.len() ==> started@[i])),
{
    if started.len() == 0 {
        return false;
    }
    let mut i: usize = 0;
    while i < started.len()
        invariant
            i <= started@.len(),
            forall|j: int| 0 <= j < i ==> started@[j],
        decreases started@.len() - i,
    {
        if !started[i] {
            return false;
        }
        i = i + 1;
    }
    true
}

} // verus!
