//! The provisioning pipeline.
//!
//! Provisioning an instance is an ordered sequence of remote operations:
//! allocate a compute instance, record it as pending, install the stored
//! code module with freshly built initialization parameters, record it
//! as installed. Each remote call suspends the request, so the pipeline
//! is split at every suspension point: the functions here make each
//! decision and each state commit, and the caller performs the remote
//! calls between them, handing back each outcome. No step is retried and
//! nothing is rolled back: a failure after allocation leaves the pending
//! registry record in place, on purpose, so that partially provisioned
//! instances stay observable.

use vstd::prelude::*;

use crate::args::{CreateIcrcIndexArgs, CreateIcrcLedgerArgs};
use crate::index::{create_default_index_init_args, IndexArgs};
use crate::ledger::{create_default_ledger_init_args, Account, InitArgs};
use crate::methods::SignerMethods;
use crate::principal::PrincipalId;
use crate::results::{CreateCanisterError, CreateCanisterResult};
use crate::state::{state_wf, State};
use crate::user_canister::{
    canisters_of, has_handle, recorded, upsert_user_canister, UserCanister, UserCanisterKind,
    MAX_USER_CANISTER_LIST_LENGTH,
};
use crate::wasm::{get_stored_index_wasm, get_stored_ledger_wasm};

verus! {

/// To create a compute instance, at least this many cycles are needed to
/// cover the base fee and one code installation.
pub const MIN_CYCLES_FOR_CANISTER_CREATION: u64 = 500_000_000_000;

/// The allocation a successful preflight asks the platform for: the
/// administrators of the new instance and the cycles to fund it with.
#[derive(Debug)]
pub struct CanisterCreatePlan {
    /// The controllers of the new instance: the service itself and the
    /// requesting client.
    pub controllers: Vec<PrincipalId>,
    /// The cycles the new instance is funded with.
    pub cycles: u64,
}

/// A well-formed allocation plan: the service identity and the client
/// are the administrators, and the funding covers the base amount plus
/// the fixed safety margin.
pub open spec fn create_plan_ok(p: CanisterCreatePlan, factory: Seq<u8>, caller: Seq<u8>) -> bool {
    &&& p.controllers@.len() == 2
    &&& p.controllers@[0]@ == factory
    &&& p.controllers@[1]@ == caller
    &&& p.cycles == MIN_CYCLES_FOR_CANISTER_CREATION + 400_000_000_000u64
}

fn build_create_plan(caller: &PrincipalId, factory_id: &PrincipalId, method: SignerMethods) -> (r:
    CanisterCreatePlan)
    ensures
        create_plan_ok(r, factory_id@, caller@),
{
    let cycles = method.fee();
    let controllers = vec![factory_id.clone(), caller.clone()];
    CanisterCreatePlan { controllers, cycles }
}

/// Preflight of a ledger provisioning request: reads the stored ledger
/// code module and, when one is present, hands back the module together
/// with the allocation to ask of the platform. An empty slot fails the
/// request before any remote call, and the state cannot change.
pub fn create_icrc_ledger(state: &State, caller: &PrincipalId, factory_id: &PrincipalId) -> (r:
    Result<(CanisterCreatePlan, Vec<u8>), CreateCanisterError>)
    ensures
        match r {
            Ok((plan, wasm)) => {
                &&& state.icrc_ledger_wasm.wasm@.len() > 0
                &&& wasm@ == state.icrc_ledger_wasm.wasm@
                &&& create_plan_ok(plan, factory_id@, caller@)
            },
            Err(e) => {
                &&& e is NoWasmStored
                &&& state.icrc_ledger_wasm.wasm@.len() == 0
            },
        },
{
    let ledger_wasm = get_stored_ledger_wasm(state);
    if ledger_wasm.len() == 0 {
        return Err(CreateCanisterError::NoWasmStored);
    }
    let plan = build_create_plan(caller, factory_id, SignerMethods::CreateIcrcLedger);
    Ok((plan, ledger_wasm))
}

/// Preflight of an index provisioning request, against the index slot.
pub fn create_icrc_index(state: &State, caller: &PrincipalId, factory_id: &PrincipalId) -> (r:
    Result<(CanisterCreatePlan, Vec<u8>), CreateCanisterError>)
    ensures
        match r {
            Ok((plan, wasm)) => {
                &&& state.icrc_index_wasm.wasm@.len() > 0
                &&& wasm@ == state.icrc_index_wasm.wasm@
                &&& create_plan_ok(plan, factory_id@, caller@)
            },
            Err(e) => {
                &&& e is NoWasmStored
                &&& state.icrc_index_wasm.wasm@.len() == 0
            },
        },
{
    let index_wasm = get_stored_index_wasm(state);
    if index_wasm.len() == 0 {
        return Err(CreateCanisterError::NoWasmStored);
    }
    let plan = build_create_plan(caller, factory_id, SignerMethods::CreateIcrcIndex);
    Ok((plan, index_wasm))
}

/// The initialization payload of a newly provisioned ledger, as decided
/// by the request: each override the client supplied, every omitted
/// field at its default — symbol `TKN`, name `ICRC Token`, a fee of
/// 10 000 minimal units, 8 decimals, and the client as minting account
/// with no sub-identity.
pub open spec fn merged_ledger_init(
    ia: InitArgs,
    args: CreateIcrcLedgerArgs,
    caller: Seq<u8>,
    factory: Seq<u8>,
) -> bool {
    &&& ia.token_symbol@ == (match args.symbol {
        Some(s) => s@,
        None => "TKN"@,
    })
    &&& ia.token_name@ == (match args.name {
        Some(n) => n@,
        None => "ICRC Token"@,
    })
    &&& ia.transfer_fee == (match args.transfer_fee {
        Some(f) => f,
        None => 10_000u64,
    })
    &&& ia.decimals == Some(
        (match args.decimals {
            Some(d) => d,
            None => 8u8,
        }),
    )
    &&& (match args.minting_account {
        Some(acc) => ia.minting_account == acc,
        None => ia.minting_account.owner@ == caller && ia.minting_account.subaccount is None,
    })
    &&& crate::ledger::pipeline_ledger_init_fixed(ia, factory)
}

/// Records an allocation outcome for a ledger request. A failed
/// allocation ends the pipeline with nothing written. A successful one
/// commits the pending registry record — observable even if the rest of
/// the pipeline fails — and hands back the instance handle with the
/// initialization payload to encode and install.
pub fn ledger_allocated(
    state: &mut State,
    args: CreateIcrcLedgerArgs,
    caller: &PrincipalId,
    factory_id: &PrincipalId,
    outcome: Result<PrincipalId, String>,
) -> (r: Result<(PrincipalId, InitArgs), CreateCanisterError>)
    requires
        state_wf(*old(state)),
    ensures
        state_wf(*final(state)),
        final(state).config == old(state).config,
        final(state).icrc_ledger_wasm == old(state).icrc_ledger_wasm,
        final(state).icrc_index_wasm == old(state).icrc_index_wasm,
        match outcome {
            Err(e) => {
                &&& r == Err::<(PrincipalId, InitArgs), _>(
                    CreateCanisterError::CanisterCreationFailed(e),
                )
                &&& *final(state) == *old(state)
            },
            Ok(id) => ({
                let old_list = canisters_of(old(state).user_canister.entries@, caller@);
                if has_handle(old_list, id@) || old_list.len() < MAX_USER_CANISTER_LIST_LENGTH {
                    &&& r matches Ok((rid, ia)) && rid@ == id@ && merged_ledger_init(
                        ia,
                        args,
                        caller@,
                        factory_id@,
                    )
                    &&& recorded(
                        old(state).user_canister.entries@,
                        final(state).user_canister.entries@,
                        caller@,
                        id@,
                        UserCanisterKind::IcrcLedger,
                        false,
                    )
                } else {
                    &&& r == Err::<(PrincipalId, InitArgs), _>(CreateCanisterError::RegistryFull)
                    &&& *final(state) == *old(state)
                }
            }),
        },
{
    let canister_id = match outcome {
        Ok(id) => id,
        Err(e) => {
            return Err(CreateCanisterError::CanisterCreationFailed(e));
        },
    };
    let entry = UserCanister {
        canister_id: canister_id.clone(),
        kind: UserCanisterKind::IcrcLedger,
        installed: false,
    };
    match upsert_user_canister(caller, &mut state.user_canister, entry) {
        Ok(()) => {},
        Err(e) => {
            return Err(e);
        },
    }
    let symbol = match args.symbol {
        Some(s) => s,
        None => "TKN".to_owned(),
    };
    let name = match args.name {
        Some(n) => n,
        None => "ICRC Token".to_owned(),
    };
    let transfer_fee = match args.transfer_fee {
        Some(f) => f,
        None => 10_000,
    };
    let decimals = match args.decimals {
        Some(d) => d,
        None => 8,
    };
    let minting_account = match args.minting_account {
        Some(acc) => acc,
        None => Account { owner: caller.clone(), subaccount: None },
    };
    let init_args = create_default_ledger_init_args(
        symbol,
        name,
        transfer_fee,
        decimals,
        minting_account,
        factory_id,
    );
    Ok((canister_id, init_args))
}

/// Records an allocation outcome for an index request, committing the
/// pending registry record and handing back the initialization payload.
pub fn index_allocated(
    state: &mut State,
    args: CreateIcrcIndexArgs,
    caller: &PrincipalId,
    outcome: Result<PrincipalId, String>,
) -> (r: Result<(PrincipalId, IndexArgs), CreateCanisterError>)
    requires
        state_wf(*old(state)),
    ensures
        state_wf(*final(state)),
        final(state).config == old(state).config,
        final(state).icrc_ledger_wasm == old(state).icrc_ledger_wasm,
        final(state).icrc_index_wasm == old(state).icrc_index_wasm,
        match outcome {
            Err(e) => {
                &&& r == Err::<(PrincipalId, IndexArgs), _>(
                    CreateCanisterError::CanisterCreationFailed(e),
                )
                &&& *final(state) == *old(state)
            },
            Ok(id) => ({
                let old_list = canisters_of(old(state).user_canister.entries@, caller@);
                if has_handle(old_list, id@) || old_list.len() < MAX_USER_CANISTER_LIST_LENGTH {
                    &&& r matches Ok((rid, ia)) && rid@ == id@ && (ia matches IndexArgs::Init(init)
                        && init.ledger_id@ == args.ledger_id@
                        && init.retrieve_blocks_from_ledger_interval_seconds is None)
                    &&& recorded(
                        old(state).user_canister.entries@,
                        final(state).user_canister.entries@,
                        caller@,
                        id@,
                        UserCanisterKind::IcrcIndex,
                        false,
                    )
                } else {
                    &&& r == Err::<(PrincipalId, IndexArgs), _>(CreateCanisterError::RegistryFull)
                    &&& *final(state) == *old(state)
                }
            }),
        },
{
    let canister_id = match outcome {
        Ok(id) => id,
        Err(e) => {
            return Err(CreateCanisterError::CanisterCreationFailed(e));
        },
    };
    let entry = UserCanister {
        canister_id: canister_id.clone(),
        kind: UserCanisterKind::IcrcIndex,
        installed: false,
    };
    match upsert_user_canister(caller, &mut state.user_canister, entry) {
        Ok(()) => {},
        Err(e) => {
            return Err(e);
        },
    }
    let init_args = create_default_index_init_args(args.ledger_id);
    Ok((canister_id, init_args))
}

/// Tags an encoding outcome: the encoded payload passes through; an
/// encoding failure ends the pipeline with its own distinguishable
/// error, and nothing is rolled back.
pub fn encoded_args(outcome: Result<Vec<u8>, String>) -> (r: Result<Vec<u8>, CreateCanisterError>)
    ensures
        match outcome {
            Ok(b) => r == Ok::<_, CreateCanisterError>(b),
            Err(e) => r == Err::<Vec<u8>, _>(CreateCanisterError::InitArgsEncodingFailed(e)),
        },
{
    match outcome {
        Ok(b) => Ok(b),
        Err(e) => Err(CreateCanisterError::InitArgsEncodingFailed(e)),
    }
}

/// Records an installation outcome, finishing a provisioning request. A
/// failed installation ends the pipeline with the pending record still
/// in place; a successful one commits the same record as installed and
/// returns the instance handle.
pub fn canister_installed(
    state: &mut State,
    caller: &PrincipalId,
    canister_id: PrincipalId,
    kind: UserCanisterKind,
    install_outcome: Result<(), String>,
) -> (r: CreateCanisterResult)
    requires
        state_wf(*old(state)),
    ensures
        state_wf(*final(state)),
        final(state).config == old(state).config,
        final(state).icrc_ledger_wasm == old(state).icrc_ledger_wasm,
        final(state).icrc_index_wasm == old(state).icrc_index_wasm,
        match install_outcome {
            Err(e) => {
                &&& r == CreateCanisterResult::Failed(
                    CreateCanisterError::WasmInstallationFailed(e),
                )
                &&& *final(state) == *old(state)
            },
            Ok(()) => ({
                let old_list = canisters_of(old(state).user_canister.entries@, caller@);
                if has_handle(old_list, canister_id@) || old_list.len()
                    < MAX_USER_CANISTER_LIST_LENGTH {
                    &&& r matches CreateCanisterResult::Created(rid) && rid@ == canister_id@
                    &&& recorded(
                        old(state).user_canister.entries@,
                        final(state).user_canister.entries@,
                        caller@,
                        canister_id@,
                        kind,
                        true,
                    )
                } else {
                    &&& r == CreateCanisterResult::Failed(CreateCanisterError::RegistryFull)
                    &&& *final(state) == *old(state)
                }
            }),
        },
{
    match install_outcome {
        Ok(()) => {},
        Err(e) => {
            return CreateCanisterResult::Failed(CreateCanisterError::WasmInstallationFailed(e));
        },
    }
    let entry = UserCanister { canister_id: canister_id.clone(), kind, installed: true };
    match upsert_user_canister(caller, &mut state.user_canister, entry) {
        Ok(()) => {},
        Err(e) => {
            return CreateCanisterResult::Failed(e);
        },
    }
    CreateCanisterResult::Created(canister_id)
}

} // verus!
