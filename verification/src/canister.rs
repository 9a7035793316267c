//! The reconfiguration pipeline: pushing an upgrade-mode payload into an
//! already-running ledger instance.
//!
//! No registry write happens here — the registry tracks provisioning,
//! not live configuration — and there is no check that the target was
//! provisioned by this service: any instance the service administers can
//! be retargeted.

use vstd::prelude::*;

use crate::args::UpgradeLedgerCanisterArgs;
use crate::results::{CreateCanisterError, SetIndexCanisterResult};
use crate::state::State;
use crate::wasm::get_stored_ledger_wasm;

verus! {

/// Preflight of a reconfiguration request: reads the stored ledger code
/// module to push in upgrade mode. An empty slot fails the request
/// before any remote call.
pub fn upgrade_ledger_canister(state: &State, args: &UpgradeLedgerCanisterArgs) -> (r: Result<
    Vec<u8>,
    CreateCanisterError,
>)
    ensures
        match r {
            Ok(wasm) => {
                &&& state.icrc_ledger_wasm.wasm@.len() > 0
                &&& wasm@ == state.icrc_ledger_wasm.wasm@
            },
            Err(e) => {
                &&& e is NoWasmStored
                &&& state.icrc_ledger_wasm.wasm@.len() == 0
            },
        },
{
    let ledger_wasm = get_stored_ledger_wasm(state);
    if ledger_wasm.len() == 0 {
        return Err(CreateCanisterError::NoWasmStored);
    }
    Ok(ledger_wasm)
}

/// Tags the installation outcome of a reconfiguration push.
pub fn upgrade_finished(install_outcome: Result<(), String>) -> (r: SetIndexCanisterResult)
    ensures
        match install_outcome {
            Ok(()) => r == SetIndexCanisterResult::Done,
            Err(e) => r == SetIndexCanisterResult::Failed(
                CreateCanisterError::WasmInstallationFailed(e),
            ),
        },
{
    match install_outcome {
        Ok(()) => SetIndexCanisterResult::Done,
        Err(e) => SetIndexCanisterResult::Failed(CreateCanisterError::WasmInstallationFailed(e)),
    }
}

} // verus!
