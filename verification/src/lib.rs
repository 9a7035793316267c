//! Provisioning service for ICRC ledger and index instances: verified
//! decision logic for the provisioning pipeline, the persistent state
//! layer, and payment-gated admission.

pub mod args;
pub mod canister;
pub mod config;
pub mod generic;
pub mod guards;
pub mod index;
pub mod ledger;
pub mod methods;
pub mod payment;
pub mod principal;
pub mod results;
pub mod state;
pub mod user_canister;
pub mod wasm;

use vstd::prelude::*;

use crate::args::{SetIndexCanisterArgs, SetNameArgs, SetSymbolArgs, UpgradeLedgerCanisterArgs};
use crate::config::{spec_config_ledger, Args, Config};
use crate::generic::CanisterCreatePlan;
use crate::ledger::{
    upgrade_sets_only_index, upgrade_sets_only_name, upgrade_sets_only_symbol, LedgerArg,
    UpgradeArgs,
};
use crate::payment::PaymentError;
use crate::principal::PrincipalId;
use crate::results::CreateCanisterError;
use crate::state::{set_config, State};

verus! {

/// Initializes the service state on installation: install arguments are
/// stored as the configuration; upgrade arguments are refused, which the
/// process boundary turns into a fatal installation error.
pub fn init(state: &mut State, args: Args) -> (r: Result<(), String>)
    ensures
        match args {
            Args::Init(a) => {
                &&& r is Ok
                &&& final(state).config matches Some(c) && c.cycles_ledger@
                    == spec_config_ledger(a)
                &&& final(state).icrc_ledger_wasm == old(state).icrc_ledger_wasm
                &&& final(state).icrc_index_wasm == old(state).icrc_index_wasm
                &&& final(state).user_canister == old(state).user_canister
            },
            Args::Upgrade => {
                &&& r matches Err(m) && m@ == "upgrade args in init"@
                &&& *final(state) == *old(state)
            },
        },
{
    match args {
        Args::Init(a) => {
            set_config(state, a);
            Ok(())
        },
        Args::Upgrade => Err("upgrade args in init".to_owned()),
    }
}

/// Restores or validates state after an upgrade of the service itself:
/// fresh install arguments overwrite the configuration; otherwise the
/// existing configuration is validated, and its absence is a fatal
/// startup condition for the process boundary to act on.
pub fn post_upgrade(state: &mut State, arg: Option<Args>) -> (r: Result<(), String>)
    ensures
        match arg {
            Some(Args::Init(a)) => {
                &&& r is Ok
                &&& final(state).config matches Some(c) && c.cycles_ledger@
                    == spec_config_ledger(a)
                &&& final(state).icrc_ledger_wasm == old(state).icrc_ledger_wasm
                &&& final(state).icrc_index_wasm == old(state).icrc_index_wasm
                &&& final(state).user_canister == old(state).user_canister
            },
            _ => {
                &&& *final(state) == *old(state)
                &&& match r {
                    Ok(()) => old(state).config is Some,
                    Err(m) => {
                        &&& old(state).config is None
                        &&& m@
                            == "config is not initialized: reinstall the canister instead of upgrading"@
                    },
                }
            },
        },
{
    match arg {
        Some(Args::Init(a)) => {
            set_config(state, a);
            Ok(())
        },
        _ => {
            if state.config.is_some() {
                Ok(())
            } else {
                Err("config is not initialized: reinstall the canister instead of upgrading".to_owned())
            }
        },
    }
}

/// Returns the current service configuration.
///
/// Callers may read the configuration only once install or post-install
/// has put one in place.
pub fn config(state: &State) -> (r: Config)
    requires
        state.config is Some,
    ensures
        state.config matches Some(c) && r.cycles_ledger@ == c.cycles_ledger@,
{
    match &state.config {
        Some(c) => c.clone(),
        None => unreached(),
    }
}

/// Admission-gated preflight of a ledger provisioning request: a denied
/// payment ends the request before anything else is consulted, and no
/// platform resource is consumed.
pub fn create_icrc_ledger(
    state: &State,
    payment_outcome: Result<(), PaymentError>,
    caller: &PrincipalId,
    factory_id: &PrincipalId,
) -> (r: Result<(CanisterCreatePlan, Vec<u8>), CreateCanisterError>)
    ensures
        match payment_outcome {
            Err(pe) => r == Err::<(CanisterCreatePlan, Vec<u8>), _>(
                CreateCanisterError::PaymentError(pe),
            ),
            Ok(()) => match r {
                Ok((plan, wasm)) => {
                    &&& state.icrc_ledger_wasm.wasm@.len() > 0
                    &&& wasm@ == state.icrc_ledger_wasm.wasm@
                    &&& crate::generic::create_plan_ok(plan, factory_id@, caller@)
                },
                Err(e) => {
                    &&& e is NoWasmStored
                    &&& state.icrc_ledger_wasm.wasm@.len() == 0
                },
            },
        },
{
    if let Err(pe) = payment_outcome {
        return Err(CreateCanisterError::PaymentError(pe));
    }
    crate::generic::create_icrc_ledger(state, caller, factory_id)
}

/// Admission-gated preflight of an index provisioning request.
pub fn create_icrc_index(
    state: &State,
    payment_outcome: Result<(), PaymentError>,
    caller: &PrincipalId,
    factory_id: &PrincipalId,
) -> (r: Result<(CanisterCreatePlan, Vec<u8>), CreateCanisterError>)
    ensures
        match payment_outcome {
            Err(pe) => r == Err::<(CanisterCreatePlan, Vec<u8>), _>(
                CreateCanisterError::PaymentError(pe),
            ),
            Ok(()) => match r {
                Ok((plan, wasm)) => {
                    &&& state.icrc_index_wasm.wasm@.len() > 0
                    &&& wasm@ == state.icrc_index_wasm.wasm@
                    &&& crate::generic::create_plan_ok(plan, factory_id@, caller@)
                },
                Err(e) => {
                    &&& e is NoWasmStored
                    &&& state.icrc_index_wasm.wasm@.len() == 0
                },
            },
        },
{
    if let Err(pe) = payment_outcome {
        return Err(CreateCanisterError::PaymentError(pe));
    }
    crate::generic::create_icrc_index(state, caller, factory_id)
}

/// Builds the reconfiguration request that associates an index instance
/// with a running ledger: an upgrade payload carrying exactly that one
/// change.
pub fn set_index_canister(args: SetIndexCanisterArgs) -> (r: UpgradeLedgerCanisterArgs)
    ensures
        r.ledger_id@ == args.ledger_id@,
        r.args matches LedgerArg::Upgrade(Some(u)) && upgrade_sets_only_index(u, args.index_id@),
{
    let mut u = UpgradeArgs::unset();
    u.index_principal = Some(args.index_id);
    UpgradeLedgerCanisterArgs { ledger_id: args.ledger_id, args: LedgerArg::Upgrade(Some(u)) }
}

/// Builds the reconfiguration request that changes a running ledger's
/// token symbol and nothing else.
pub fn set_symbol(args: SetSymbolArgs) -> (r: UpgradeLedgerCanisterArgs)
    ensures
        r.ledger_id@ == args.ledger_id@,
        r.args matches LedgerArg::Upgrade(Some(u)) && upgrade_sets_only_symbol(u, args.symbol@),
{
    let mut u = UpgradeArgs::unset();
    u.token_symbol = Some(args.symbol);
    UpgradeLedgerCanisterArgs { ledger_id: args.ledger_id, args: LedgerArg::Upgrade(Some(u)) }
}

/// Builds the reconfiguration request that changes a running ledger's
/// token name and nothing else.
pub fn set_name(args: SetNameArgs) -> (r: UpgradeLedgerCanisterArgs)
    ensures
        r.ledger_id@ == args.ledger_id@,
        r.args matches LedgerArg::Upgrade(Some(u)) && upgrade_sets_only_name(u, args.name@),
{
    let mut u = UpgradeArgs::unset();
    u.token_name = Some(args.name);
    UpgradeLedgerCanisterArgs { ledger_id: args.ledger_id, args: LedgerArg::Upgrade(Some(u)) }
}

} // verus!
