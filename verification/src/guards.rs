//! Access-control guards, decided over plain values.
//!
//! Which identity made the call, and whether it controls the service,
//! the process boundary knows; the guards decide what those facts allow.

use vstd::prelude::*;

use crate::principal::{anonymous_bytes, PrincipalId};

verus! {

/// Admits every caller but the anonymous principal.
pub fn caller_is_not_anonymous(caller: &PrincipalId) -> (r: Result<(), String>)
    ensures
        match r {
            Ok(()) => caller@ != anonymous_bytes(),
            Err(m) => {
                &&& caller@ == anonymous_bytes()
                &&& m@
                    == "Update call error. RejectionCode: CanisterReject, Error: Anonymous caller not authorized."@
            },
        },
{
    if caller.is_anonymous() {
        Err(
            "Update call error. RejectionCode: CanisterReject, Error: Anonymous caller not authorized.".to_owned(),
        )
    } else {
        Ok(())
    }
}

/// Admits the call only when the platform reports the caller as a
/// controller of the service.
pub fn caller_is_controller(is_controller: bool) -> (r: Result<(), String>)
    ensures
        match r {
            Ok(()) => is_controller,
            Err(m) => !is_controller && m@ == "Caller is not a controller."@,
        },
{
    if is_controller {
        Ok(())
    } else {
        Err("Caller is not a controller.".to_owned())
    }
}

} // verus!
