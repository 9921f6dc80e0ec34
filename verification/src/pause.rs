use vstd::prelude::*;

use crate::errors::GorkError;
use crate::state::{GlobalState, Identity};

verus! {

/// Pause the program: index updates and claims are blocked until the
/// admin unpauses. Only the admin may call this; on rejection the record
/// is left untouched.
pub fn pause_handler(gs: &mut GlobalState, caller: Identity) -> (result: Result<(), GorkError>)
    ensures
        match result {
            Ok(()) => {
                &&& caller == old(gs).admin
                &&& *final(gs) == (GlobalState { paused: true, ..*old(gs) })
            },
            Err(e) => {
                &&& e == GorkError::NotAdmin
                &&& caller != old(gs).admin
                &&& *final(gs) == *old(gs)
            },
        },
{
    if !(caller == gs.admin) {
        return Err(GorkError::NotAdmin);
    }
    gs.paused = true;
    Ok(())
}

/// Unpause the program. Only the admin may call this; on rejection the
/// record is left untouched.
pub fn unpause_handler(gs: &mut GlobalState, caller: Identity) -> (result: Result<(), GorkError>)
    ensures
        match result {
            Ok(()) => {
                &&& caller == old(gs).admin
                &&& *final(gs) == (GlobalState { paused: false, ..*old(gs) })
            },
            Err(e) => {
                &&& e == GorkError::NotAdmin
                &&& caller != old(gs).admin
                &&& *final(gs) == *old(gs)
            },
        },
{
    if !(caller == gs.admin) {
        return Err(GorkError::NotAdmin);
    }
    gs.paused = false;
    Ok(())
}

} // verus!
