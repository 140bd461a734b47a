//! The single-use pattern shared by every dialog builder.
//!
//! A builder holds its native value in an owned slot. Its abstract state is
//! `Some(settings)`, the settings that the native value holds, while it is
//! usable, and `None` once a terminal step has consumed it.
use vstd::prelude::*;
use crate::error::DialogError;

verus! {

/// What a call on a builder in state `v` reports: success while usable,
/// `AlreadyConsumed` once exhausted.
pub open spec fn outcome<C>(v: Option<C>) -> Result<(), DialogError> {
    if v is Some {
        Ok(())
    } else {
        Err(DialogError::AlreadyConsumed)
    }
}

/// Takes the native value out of `slot`, leaving it empty. Fails with
/// `AlreadyConsumed` when the slot was already empty.
pub fn take_native<N>(slot: &mut Option<N>) -> (r: Result<N, DialogError>)
    ensures
        final(slot).is_none(),
        match *old(slot) {
            Some(n) => r == Ok::<N, DialogError>(n),
            None => r == Err::<N, DialogError>(DialogError::AlreadyConsumed),
        },
{
    match slot.take() {
        Some(n) => Ok(n),
        None => Err(DialogError::AlreadyConsumed),
    }
}

} // verus!
