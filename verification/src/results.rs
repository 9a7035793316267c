//! Result types returned by the client-facing operations.

use vstd::prelude::*;

use crate::payment::PaymentError;
use crate::principal::PrincipalId;

verus! {

/// The ways a provisioning or reconfiguration call can fail.
///
/// Each pipeline step has its own distinguishable error; the detail strings
/// carry the failure report of the remote platform call verbatim.
#[derive(Debug)]
pub enum CreateCanisterError {
    /// The code module slot for the requested kind is empty.
    NoWasmStored,
    /// The platform refused to allocate a compute instance.
    CanisterCreationFailed(String),
    /// The initialization payload could not be encoded.
    InitArgsEncodingFailed(String),
    /// The platform refused to install the code module.
    WasmInstallationFailed(String),
    /// Payment admission was denied; no platform resource was consumed.
    PaymentError(PaymentError),
    /// The client's instance list is at capacity; the write was refused.
    RegistryFull,
}

/// Outcome of a provisioning call: the new instance handle, or the error.
#[derive(Debug)]
pub enum CreateCanisterResult {
    Created(PrincipalId),
    Failed(CreateCanisterError),
}

/// Outcome of a reconfiguration call against a running ledger instance.
#[derive(Debug)]
pub enum SetIndexCanisterResult {
    Done,
    Failed(CreateCanisterError),
}

/// Outcome of storing a code module fetched from a URL: the byte count
/// stored, or a report of why the fetch was refused.
#[derive(Debug, PartialEq, Eq)]
pub enum SetWasmResult {
    Stored(usize),
    Failed(String),
}

impl SetWasmResult {
    /// Tags a plain fetch outcome with the result's own variants.
    pub fn from(result: Result<usize, String>) -> (r: Self)
        ensures
            match result {
                Ok(n) => r == SetWasmResult::Stored(n),
                Err(e) => r == SetWasmResult::Failed(e),
            },
    {
        match result {
            Ok(res) => SetWasmResult::Stored(res),
            Err(err) => SetWasmResult::Failed(err),
        }
    }
}

} // verus!
