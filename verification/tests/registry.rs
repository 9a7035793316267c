use icrc_factory::principal::PrincipalId;
use icrc_factory::results::CreateCanisterError;
use icrc_factory::user_canister::{
    upsert_user_canister, UserCanister, UserCanisterKind, UserCanisterMap,
};

fn id(n: u16) -> PrincipalId {
    PrincipalId::from_bytes(vec![(n >> 8) as u8, (n & 0xff) as u8])
}

fn client() -> PrincipalId {
    PrincipalId::from_bytes(vec![7])
}

fn record(n: u16, installed: bool) -> UserCanister {
    UserCanister { canister_id: id(n), kind: UserCanisterKind::IcrcLedger, installed }
}

#[test]
fn test_upsert_appends_new_handles_in_order() {
    let mut registry = UserCanisterMap::new();

    upsert_user_canister(&client(), &mut registry, record(1, false)).unwrap();
    upsert_user_canister(&client(), &mut registry, record(2, true)).unwrap();

    let list = registry.canisters_for(&client()).expect("client should have a list");
    assert_eq!(list.len(), 2);
    assert_eq!(list[0], record(1, false));
    assert_eq!(list[1], record(2, true));
}

#[test]
fn test_upsert_replaces_same_handle_in_place() {
    let mut registry = UserCanisterMap::new();

    upsert_user_canister(&client(), &mut registry, record(1, false)).unwrap();
    upsert_user_canister(&client(), &mut registry, record(2, false)).unwrap();
    upsert_user_canister(&client(), &mut registry, record(1, true)).unwrap();

    let list = registry.canisters_for(&client()).expect("client should have a list");
    assert_eq!(list.len(), 2);
    assert_eq!(list[0], record(1, true));
    assert_eq!(list[1], record(2, false));
}

#[test]
fn test_clients_have_independent_lists() {
    let mut registry = UserCanisterMap::new();
    let other = PrincipalId::from_bytes(vec![8]);

    upsert_user_canister(&client(), &mut registry, record(1, true)).unwrap();
    upsert_user_canister(&other, &mut registry, record(2, true)).unwrap();

    assert_eq!(registry.canisters_for(&client()).unwrap().len(), 1);
    assert_eq!(registry.canisters_for(&other).unwrap().len(), 1);
    assert_eq!(registry.canisters_for(&other).unwrap()[0], record(2, true));
}

#[test]
fn test_capacity_first_thousand_succeeds_then_fails() {
    let mut registry = UserCanisterMap::new();

    for n in 0..1000u16 {
        upsert_user_canister(&client(), &mut registry, record(n, false))
            .expect("writes below the bound should succeed");
    }
    let list = registry.canisters_for(&client()).expect("client should have a list");
    assert_eq!(list.len(), 1000);
    assert_eq!(list[0], record(0, false));
    assert_eq!(list[999], record(999, false));

    let refused = upsert_user_canister(&client(), &mut registry, record(1000, false));
    assert!(matches!(refused, Err(CreateCanisterError::RegistryFull)));
    assert_eq!(registry.canisters_for(&client()).unwrap().len(), 1000);

    // A write of an already-recorded handle still succeeds at capacity.
    upsert_user_canister(&client(), &mut registry, record(500, true))
        .expect("a replacement at capacity should succeed");
    let list = registry.canisters_for(&client()).unwrap();
    assert_eq!(list.len(), 1000);
    assert_eq!(list[500], record(500, true));
}

#[test]
fn test_unknown_client_has_no_list() {
    let registry = UserCanisterMap::new();

    assert!(registry.canisters_for(&client()).is_none());
}
