use icrc_factory::args::{CreateIcrcIndexArgs, CreateIcrcLedgerArgs, SetIndexCanisterArgs};
use icrc_factory::config::{Args, InitArgs};
use icrc_factory::generic::{canister_installed, index_allocated, ledger_allocated};
use icrc_factory::ledger::LedgerArg;
use icrc_factory::methods::SignerMethods;
use icrc_factory::payment::{PaymentError, PaymentType, PaymentWithConfig};
use icrc_factory::principal::PrincipalId;
use icrc_factory::results::{CreateCanisterError, CreateCanisterResult};
use icrc_factory::state::State;
use icrc_factory::user_canister::UserCanisterKind;
use icrc_factory::wasm::{set_index_wasm, set_ledger_wasm};
use icrc_factory::{create_icrc_index, create_icrc_ledger, init, set_index_canister};

fn cycles_ledger_id() -> PrincipalId {
    PrincipalId::from_bytes(ic_papi_api::cycles::cycles_ledger_canister_id().as_slice().to_vec())
}

fn caller() -> PrincipalId {
    PrincipalId::from_bytes(vec![9, 9, 9])
}

fn factory() -> PrincipalId {
    PrincipalId::from_bytes(vec![1, 1])
}

fn installed_state() -> State {
    let mut state = State::new();
    init(&mut state, Args::Init(InitArgs { cycles_ledger: Some(cycles_ledger_id()) }))
        .expect("install should accept init args");
    state
}

#[test]
fn test_fee_covers_base_amount_and_margin() {
    assert_eq!(SignerMethods::CreateIcrcLedger.fee(), 900_000_000_000);
    assert_eq!(SignerMethods::CreateIcrcIndex.fee(), 900_000_000_000);
}

#[test]
fn test_provision_with_empty_store_is_refused_without_allocation() {
    let state = installed_state();

    let ledger = create_icrc_ledger(&state, Ok(()), &caller(), &factory());
    assert!(matches!(ledger, Err(CreateCanisterError::NoWasmStored)));

    let index = create_icrc_index(&state, Ok(()), &caller(), &factory());
    assert!(matches!(index, Err(CreateCanisterError::NoWasmStored)));

    // No allocation was planned and nothing was recorded.
    assert!(state.user_canister.canisters_for(&caller()).is_none());
}

#[test]
fn test_admission_denied_consumes_nothing() {
    let mut state = installed_state();
    set_ledger_wasm(&mut state, vec![0, 97, 115, 109]);

    let denied = PaymentError::InsufficientFunds { needed: 900_000_000_000, available: 17 };
    let r = create_icrc_ledger(&state, Err(denied), &caller(), &factory());

    assert!(matches!(
        r,
        Err(CreateCanisterError::PaymentError(PaymentError::InsufficientFunds {
            needed: 900_000_000_000,
            available: 17,
        }))
    ));
    assert!(state.user_canister.canisters_for(&caller()).is_none());
}

#[test]
fn test_allocation_failure_leaves_registry_unchanged() {
    let mut state = installed_state();
    set_ledger_wasm(&mut state, vec![0, 97, 115, 109]);

    let r = ledger_allocated(
        &mut state,
        CreateIcrcLedgerArgs::all_defaults(),
        &caller(),
        &factory(),
        Err("allocation refused".to_string()),
    );

    match r {
        Err(CreateCanisterError::CanisterCreationFailed(msg)) => {
            assert_eq!(msg, "allocation refused");
        },
        other => panic!("unexpected result: {:?}", other),
    }
    assert!(state.user_canister.canisters_for(&caller()).is_none());
}

#[test]
fn test_install_failure_leaves_pending_record() {
    let mut state = installed_state();
    set_ledger_wasm(&mut state, vec![0, 97, 115, 109]);
    let handle = PrincipalId::from_bytes(vec![42]);

    let (rid, _init) = ledger_allocated(
        &mut state,
        CreateIcrcLedgerArgs::all_defaults(),
        &caller(),
        &factory(),
        Ok(handle.clone()),
    )
    .expect("allocation outcome should be recorded");
    assert_eq!(rid, handle);

    let r = canister_installed(
        &mut state,
        &caller(),
        handle.clone(),
        UserCanisterKind::IcrcLedger,
        Err("install refused".to_string()),
    );
    assert!(matches!(
        r,
        CreateCanisterResult::Failed(CreateCanisterError::WasmInstallationFailed(_))
    ));

    let list = state.user_canister.canisters_for(&caller()).expect("pending record should stay");
    assert_eq!(list.len(), 1);
    assert_eq!(list[0].canister_id, handle);
    assert!(!list[0].installed);

    // A successful retry reuses the handle: no duplicate appears.
    let retry = canister_installed(
        &mut state,
        &caller(),
        handle.clone(),
        UserCanisterKind::IcrcLedger,
        Ok(()),
    );
    assert!(matches!(retry, CreateCanisterResult::Created(_)));
    let list = state.user_canister.canisters_for(&caller()).unwrap();
    assert_eq!(list.len(), 1);
    assert_eq!(list[0].canister_id, handle);
    assert!(list[0].installed);
}

#[test]
fn test_end_to_end_ledger_then_index() {
    let mut state = installed_state();
    set_ledger_wasm(&mut state, vec![0, 97, 115, 109, 1]);
    set_index_wasm(&mut state, vec![0, 97, 115, 109, 2]);
    let ledger_handle = PrincipalId::from_bytes(vec![21]);
    let index_handle = PrincipalId::from_bytes(vec![22]);

    // Ledger: admission, preflight, allocation, install.
    let (plan, wasm) = create_icrc_ledger(&state, Ok(()), &caller(), &factory())
        .expect("preflight should pass with a stored module");
    assert_eq!(plan.cycles, 900_000_000_000);
    assert_eq!(plan.controllers.len(), 2);
    assert_eq!(plan.controllers[0], factory());
    assert_eq!(plan.controllers[1], caller());
    assert_eq!(wasm, vec![0, 97, 115, 109, 1]);

    let (rid, init_args) = ledger_allocated(
        &mut state,
        CreateIcrcLedgerArgs::all_defaults(),
        &caller(),
        &factory(),
        Ok(ledger_handle.clone()),
    )
    .expect("allocation outcome should be recorded");
    assert_eq!(rid, ledger_handle);
    assert_eq!(init_args.token_symbol, "TKN");
    assert_eq!(init_args.token_name, "ICRC Token");
    assert_eq!(init_args.transfer_fee, 10_000);
    assert_eq!(init_args.decimals, Some(8));
    assert_eq!(init_args.minting_account.owner, caller());
    assert!(init_args.minting_account.subaccount.is_none());

    let done = canister_installed(
        &mut state,
        &caller(),
        ledger_handle.clone(),
        UserCanisterKind::IcrcLedger,
        Ok(()),
    );
    assert!(matches!(done, CreateCanisterResult::Created(ref h) if *h == ledger_handle));

    // Index over the new ledger.
    let (_plan, wasm) = create_icrc_index(&state, Ok(()), &caller(), &factory())
        .expect("preflight should pass with a stored module");
    assert_eq!(wasm, vec![0, 97, 115, 109, 2]);

    let (rid, _index_init) = index_allocated(
        &mut state,
        CreateIcrcIndexArgs { ledger_id: ledger_handle.clone() },
        &caller(),
        Ok(index_handle.clone()),
    )
    .expect("allocation outcome should be recorded");
    assert_eq!(rid, index_handle);

    let done = canister_installed(
        &mut state,
        &caller(),
        index_handle.clone(),
        UserCanisterKind::IcrcIndex,
        Ok(()),
    );
    assert!(matches!(done, CreateCanisterResult::Created(ref h) if *h == index_handle));

    // Associating the index with the ledger builds a one-field payload.
    let request = set_index_canister(SetIndexCanisterArgs {
        ledger_id: ledger_handle.clone(),
        index_id: index_handle.clone(),
    });
    assert_eq!(request.ledger_id, ledger_handle);
    match request.args {
        LedgerArg::Upgrade(Some(u)) => {
            assert_eq!(u.index_principal, Some(index_handle.clone()));
            assert!(u.token_symbol.is_none());
            assert!(u.token_name.is_none());
        },
        other => panic!("unexpected payload: {:?}", other),
    }

    // The registry lists both instances, in upsert order, installed.
    let list = state.user_canister.canisters_for(&caller()).expect("registry should list both");
    assert_eq!(list.len(), 2);
    assert_eq!(list[0].canister_id, ledger_handle);
    assert!(matches!(list[0].kind, UserCanisterKind::IcrcLedger));
    assert!(list[0].installed);
    assert_eq!(list[1].canister_id, index_handle);
    assert!(matches!(list[1].kind, UserCanisterKind::IcrcIndex));
    assert!(list[1].installed);
}

#[test]
fn test_ledger_overrides_reach_the_init_payload() {
    let mut state = installed_state();
    set_ledger_wasm(&mut state, vec![1]);
    let handle = PrincipalId::from_bytes(vec![5]);

    let args = CreateIcrcLedgerArgs {
        symbol: Some("ABC".to_string()),
        name: Some("Alphabet Coin".to_string()),
        transfer_fee: Some(77),
        decimals: Some(2),
        minting_account: None,
    };
    let (_rid, init_args) =
        ledger_allocated(&mut state, args, &caller(), &factory(), Ok(handle)).unwrap();

    assert_eq!(init_args.token_symbol, "ABC");
    assert_eq!(init_args.token_name, "Alphabet Coin");
    assert_eq!(init_args.transfer_fee, 77);
    assert_eq!(init_args.decimals, Some(2));
    assert_eq!(init_args.minting_account.owner, caller());
}

#[test]
fn test_payment_defaults_to_attached_balance() {
    let state = installed_state();
    let guard = icrc_factory::payment::payment_guard(&icrc_factory::config(&state));

    let plan = guard.deduct_plan(None, SignerMethods::CreateIcrcLedger.fee());

    match plan {
        Ok((cfg, fee)) => {
            assert!(matches!(cfg, PaymentWithConfig::AttachedCycles));
            assert_eq!(fee, 900_000_000_000);
        },
        Err(e) => panic!("unexpected denial: {:?}", e),
    }
}

#[test]
fn test_token_payment_must_name_the_trusted_ledger() {
    let state = installed_state();
    let guard = icrc_factory::payment::payment_guard(&icrc_factory::config(&state));

    let trusted = guard.deduct_plan(
        Some(PaymentType::CallerPaysIcrc2Tokens { ledger: cycles_ledger_id() }),
        900,
    );
    assert!(trusted.is_ok());

    let untrusted = guard.deduct_plan(
        Some(PaymentType::CallerPaysIcrc2Tokens { ledger: PrincipalId::from_bytes(vec![3]) }),
        900,
    );
    assert!(matches!(untrusted, Err(PaymentError::UnsupportedPaymentType)));
}
