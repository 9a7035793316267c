//! The application state: everything the service persists across
//! requests — configuration, the two code module slots, and the
//! per-client instance registry — owned as one explicit object and
//! passed into every operation.

use vstd::prelude::*;

use crate::config::{spec_config_ledger, Config, InitArgs};
use crate::principal::PrincipalId;
use crate::user_canister::{registry_wf, UserCanisterMap};
use crate::wasm::WasmStorage;

verus! {

/// The persisted service state.
#[derive(Debug)]
pub struct State {
    /// Service configuration; absent until install has run.
    pub config: Option<Config>,
    /// The ledger code module slot.
    pub icrc_ledger_wasm: WasmStorage,
    /// The index code module slot.
    pub icrc_index_wasm: WasmStorage,
    /// The per-client instance registry.
    pub user_canister: UserCanisterMap,
}

/// A well-formed state: the registry invariants hold.
pub open spec fn state_wf(s: State) -> bool {
    registry_wf(s.user_canister.entries@)
}

impl State {
    /// The state of a freshly installed service: no configuration, empty
    /// code module slots, empty registry.
    pub fn new() -> (r: Self)
        ensures
            r.config is None,
            r.icrc_ledger_wasm.wasm@.len() == 0,
            r.icrc_index_wasm.wasm@.len() == 0,
            r.user_canister.entries@.len() == 0,
            state_wf(r),
    {
        State {
            config: None,
            icrc_ledger_wasm: WasmStorage::new(),
            icrc_index_wasm: WasmStorage::new(),
            user_canister: UserCanisterMap::new(),
        }
    }
}

/// Stores the configuration built from the install arguments, leaving
/// everything else untouched.
pub fn set_config(state: &mut State, arg: InitArgs)
    ensures
        final(state).config matches Some(c) && c.cycles_ledger@ == spec_config_ledger(arg),
        final(state).icrc_ledger_wasm == old(state).icrc_ledger_wasm,
        final(state).icrc_index_wasm == old(state).icrc_index_wasm,
        final(state).user_canister == old(state).user_canister,
{
    let config = Config::from(arg);
    state.config = Some(config);
}

/// Provides the instance handle of the ledger used for payments.
///
/// Callers may read the configuration only once install or post-install
/// has put one in place.
pub fn payment_ledger(state: &State) -> (r: PrincipalId)
    requires
        state.config is Some,
    ensures
        state.config matches Some(c) && r@ == c.cycles_ledger@,
{
    match &state.config {
        Some(c) => c.cycles_ledger.clone(),
        None => unreached(),
    }
}

} // verus!
