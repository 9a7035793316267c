use icrc_factory::config::{Args, InitArgs};
use icrc_factory::guards::caller_is_not_anonymous;
use icrc_factory::principal::PrincipalId;
use icrc_factory::state::State;
use icrc_factory::{config, init, post_upgrade};

fn cycles_ledger_id() -> PrincipalId {
    PrincipalId::from_bytes(ic_papi_api::cycles::cycles_ledger_canister_id().as_slice().to_vec())
}

fn caller() -> PrincipalId {
    PrincipalId::from_bytes(vec![9, 9, 9])
}

fn installed_state() -> State {
    let mut state = State::new();
    init(&mut state, Args::Init(InitArgs { cycles_ledger: Some(cycles_ledger_id()) }))
        .expect("install should accept init args");
    state
}

#[test]
fn test_init_success() {
    let state = installed_state();

    let config = config(&state);

    assert_eq!(config.cycles_ledger, cycles_ledger_id());
}

#[test]
fn test_init_with_upgrade_args_traps() {
    let mut state = State::new();

    let result = init(&mut state, Args::Upgrade);

    assert!(result.is_err());
    assert!(state.config.is_none());
}

#[test]
fn test_init_defaults_to_well_known_cycles_ledger() {
    let mut state = State::new();
    init(&mut state, Args::Init(InitArgs { cycles_ledger: None }))
        .expect("install should accept init args");

    let config = config(&state);

    assert_eq!(
        config.cycles_ledger.as_bytes().as_slice(),
        ic_papi_api::cycles::cycles_ledger_canister_id().as_slice()
    );
    assert_eq!(
        config.cycles_ledger.as_bytes().as_slice(),
        &[0u8, 0, 0, 0, 2, 16, 0, 2, 1, 1]
    );
}

#[test]
fn test_config_query_with_generic_caller_succeds() {
    let state = installed_state();

    assert!(caller_is_not_anonymous(&caller()).is_ok());
    let config = config(&state);

    assert_eq!(config.cycles_ledger, cycles_ledger_id());
}

#[test]
fn test_config_query_with_anonymous_fails() {
    let _state = installed_state();

    let result = caller_is_not_anonymous(&PrincipalId::anonymous());

    assert!(result.is_err());
}

#[test]
fn test_upgrade_without_args_keeps_config() {
    let mut state = installed_state();
    let before = config(&state);

    post_upgrade(&mut state, None).expect("upgrade without args should keep the config");

    let after = config(&state);
    assert_eq!(after, before);
}

#[test]
fn test_upgrade_with_init_args_updates_config() {
    let mut state = installed_state();
    let new_ledger = PrincipalId::anonymous();

    post_upgrade(
        &mut state,
        Some(Args::Init(InitArgs { cycles_ledger: Some(new_ledger.clone()) })),
    )
    .expect("upgrade with init args should succeed");

    let after = config(&state);
    assert_eq!(after.cycles_ledger, new_ledger);
}

#[test]
fn test_upgrade_without_args_keeps_config_for_generic_caller() {
    let mut state = installed_state();
    assert!(caller_is_not_anonymous(&caller()).is_ok());
    let before = config(&state);

    post_upgrade(&mut state, None).expect("upgrade without args should keep the config");

    assert!(caller_is_not_anonymous(&caller()).is_ok());
    let after = config(&state);
    assert_eq!(after, before);
}

#[test]
fn test_upgrade_config_query_with_anonymous_fails_after_upgrade() {
    let mut state = installed_state();

    post_upgrade(&mut state, None).expect("upgrade without args should keep the config");

    let result = caller_is_not_anonymous(&PrincipalId::anonymous());
    assert!(result.is_err());
}

#[test]
fn test_upgrade_on_fresh_state_is_fatal() {
    let mut state = State::new();

    let result = post_upgrade(&mut state, None);

    assert!(result.is_err());
}
