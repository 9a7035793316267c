use icrc_factory::args::{SetIndexCanisterArgs, SetNameArgs, SetSymbolArgs};
use icrc_factory::canister::{upgrade_finished, upgrade_ledger_canister};
use icrc_factory::generic::encoded_args;
use icrc_factory::guards::caller_is_controller;
use icrc_factory::ledger::{apply_ledger_upgrade, create_default_ledger_args, InitArgs, LedgerArg};
use icrc_factory::principal::PrincipalId;
use icrc_factory::results::{CreateCanisterError, SetIndexCanisterResult};
use icrc_factory::state::State;
use icrc_factory::wasm::set_ledger_wasm;
use icrc_factory::{set_index_canister, set_name, set_symbol};

fn ledger() -> PrincipalId {
    PrincipalId::from_bytes(vec![21])
}

fn owner() -> PrincipalId {
    PrincipalId::from_bytes(vec![9, 9, 9])
}

fn factory() -> PrincipalId {
    PrincipalId::from_bytes(vec![1, 1])
}

fn running_ledger_state() -> InitArgs {
    match create_default_ledger_args(owner(), &factory()) {
        LedgerArg::Init(ia) => ia,
        other => panic!("unexpected payload: {:?}", other),
    }
}

fn payload(args: icrc_factory::args::UpgradeLedgerCanisterArgs) -> icrc_factory::ledger::UpgradeArgs {
    match args.args {
        LedgerArg::Upgrade(Some(u)) => u,
        other => panic!("unexpected payload: {:?}", other),
    }
}

#[test]
fn test_set_symbol_round_trip() {
    let before = running_ledger_state();
    let request = set_symbol(SetSymbolArgs { ledger_id: ledger(), symbol: "ABC".to_string() });
    assert_eq!(request.ledger_id, ledger());

    let after = apply_ledger_upgrade(running_ledger_state(), payload(request));

    assert_eq!(after.token_symbol, "ABC");
    assert_eq!(after.token_name, before.token_name);
    assert_eq!(after.transfer_fee, before.transfer_fee);
    assert_eq!(after.decimals, before.decimals);
    assert_eq!(after.max_memo_length, before.max_memo_length);
    assert_eq!(after.minting_account.owner, before.minting_account.owner);
    assert_eq!(after.index_principal, before.index_principal);
    assert_eq!(
        after.archive_options.num_blocks_to_archive,
        before.archive_options.num_blocks_to_archive
    );
    assert_eq!(after.initial_balances.len(), before.initial_balances.len());
}

#[test]
fn test_set_symbol_twice_is_idempotent() {
    let request = set_symbol(SetSymbolArgs { ledger_id: ledger(), symbol: "ABC".to_string() });
    let once = apply_ledger_upgrade(running_ledger_state(), payload(request));

    let again = set_symbol(SetSymbolArgs { ledger_id: ledger(), symbol: "ABC".to_string() });
    let twice = apply_ledger_upgrade(once, payload(again));

    assert_eq!(twice.token_symbol, "ABC");
    assert_eq!(twice.token_name, running_ledger_state().token_name);
}

#[test]
fn test_set_name_round_trip() {
    let before = running_ledger_state();
    let request = set_name(SetNameArgs { ledger_id: ledger(), name: "Renamed Token".to_string() });

    let after = apply_ledger_upgrade(running_ledger_state(), payload(request));

    assert_eq!(after.token_name, "Renamed Token");
    assert_eq!(after.token_symbol, before.token_symbol);
    assert_eq!(after.transfer_fee, before.transfer_fee);
}

#[test]
fn test_set_index_round_trip() {
    let index = PrincipalId::from_bytes(vec![22]);
    let before = running_ledger_state();
    let request =
        set_index_canister(SetIndexCanisterArgs { ledger_id: ledger(), index_id: index.clone() });

    let after = apply_ledger_upgrade(running_ledger_state(), payload(request));

    assert_eq!(after.index_principal, Some(index));
    assert_eq!(after.token_symbol, before.token_symbol);
    assert_eq!(after.token_name, before.token_name);
}

#[test]
fn test_default_ledger_args_fund_the_owner() {
    let ia = running_ledger_state();

    assert_eq!(ia.token_symbol, "TKN");
    assert_eq!(ia.token_name, "Test Token");
    assert_eq!(ia.transfer_fee, 10_000);
    assert_eq!(ia.decimals, Some(8));
    assert_eq!(ia.minting_account.owner, owner());
    assert_eq!(ia.initial_balances.len(), 1);
    assert_eq!(ia.initial_balances[0].0.owner, owner());
    assert_eq!(ia.initial_balances[0].1, 1_000_000_000);
    assert_eq!(ia.archive_options.controller_id, factory());
}

#[test]
fn test_upgrade_preflight_requires_a_stored_module() {
    let state = State::new();
    let request = set_symbol(SetSymbolArgs { ledger_id: ledger(), symbol: "ABC".to_string() });

    let r = upgrade_ledger_canister(&state, &request);

    assert!(matches!(r, Err(CreateCanisterError::NoWasmStored)));
}

#[test]
fn test_upgrade_preflight_hands_back_the_module() {
    let mut state = State::new();
    set_ledger_wasm(&mut state, vec![0, 97]);
    let request = set_symbol(SetSymbolArgs { ledger_id: ledger(), symbol: "ABC".to_string() });

    let r = upgrade_ledger_canister(&state, &request);

    assert_eq!(r.unwrap(), vec![0, 97]);
}

#[test]
fn test_encoding_failure_is_its_own_error() {
    let r = encoded_args(Err("bad payload".to_string()));

    match r {
        Err(CreateCanisterError::InitArgsEncodingFailed(msg)) => {
            assert_eq!(msg, "bad payload");
        },
        other => panic!("unexpected result: {:?}", other),
    }
    assert_eq!(encoded_args(Ok(vec![1, 2])).unwrap(), vec![1, 2]);
}

#[test]
fn test_upgrade_finished_tags_outcomes() {
    assert!(matches!(upgrade_finished(Ok(())), SetIndexCanisterResult::Done));
    assert!(matches!(
        upgrade_finished(Err("refused".to_string())),
        SetIndexCanisterResult::Failed(CreateCanisterError::WasmInstallationFailed(_))
    ));
}

#[test]
fn test_controller_guard() {
    assert!(caller_is_controller(true).is_ok());
    assert!(caller_is_controller(false).is_err());
}
