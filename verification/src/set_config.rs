use vstd::prelude::*;

use crate::errors::GorkError;
use crate::state::{GlobalState, Identity};

verus! {

/// Why a configuration update by `caller` fails, or `None` when it is
/// admissible: only the admin may reconfigure, and the caps must stay
/// usable.
pub open spec fn set_config_error(
    gs: GlobalState,
    caller: Identity,
    max_per_minute: u64,
    max_per_day: u64,
) -> Option<GorkError> {
    if caller != gs.admin {
        Some(GorkError::NotAdmin)
    } else if max_per_minute == 0 || max_per_day < max_per_minute {
        Some(GorkError::ZeroAmount)
    } else {
        None
    }
}

/// Update the distribution caps. Only the admin may call this; every
/// other field of the record is left as it was, and on rejection the
/// record is left untouched.
pub fn set_config(
    gs: &mut GlobalState,
    caller: Identity,
    max_per_minute: u64,
    max_per_day: u64,
) -> (result: Result<(), GorkError>)
    ensures
        match result {
            Ok(()) => {
                &&& set_config_error(*old(gs), caller, max_per_minute, max_per_day) is None
                &&& *final(gs) == (GlobalState { max_per_minute, max_per_day, ..*old(gs) })
                &&& final(gs).wf()
            },
            Err(e) => {
                &&& set_config_error(*old(gs), caller, max_per_minute, max_per_day) == Some(e)
                &&& *final(gs) == *old(gs)
            },
        },
{
    if !(caller == gs.admin) {
        return Err(GorkError::NotAdmin);
    }
    if max_per_minute == 0 {
        return Err(GorkError::ZeroAmount);
    }
    if max_per_day < max_per_minute {
        return Err(GorkError::ZeroAmount);
    }
    gs.max_per_minute = max_per_minute;
    gs.max_per_day = max_per_day;
    Ok(())
}

} // verus!
