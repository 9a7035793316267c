use icrc_factory::results::SetWasmResult;
use icrc_factory::state::State;
use icrc_factory::wasm::{
    get_stored_index_wasm, get_stored_ledger_wasm, get_stored_wasm, set_index_wasm,
    set_index_wasm_from_url, set_ledger_wasm, set_ledger_wasm_from_url, set_wasm,
    transform_wasm_response, FetchError, HttpResponseData, WasmStorage,
};

fn response(status: u64, body: Vec<u8>) -> HttpResponseData {
    HttpResponseData {
        status,
        headers: vec![("date".to_string(), "yesterday".to_string())],
        body,
    }
}

#[test]
fn test_set_and_get_wasm() {
    let mut slot = WasmStorage::new();
    assert!(get_stored_wasm(&slot).is_empty());

    set_wasm(&mut slot, vec![1, 2, 3]);

    assert_eq!(get_stored_wasm(&slot), vec![1, 2, 3]);
}

#[test]
fn test_per_kind_slots_are_independent() {
    let mut state = State::new();

    set_ledger_wasm(&mut state, vec![1]);
    set_index_wasm(&mut state, vec![2]);

    assert_eq!(get_stored_ledger_wasm(&state), vec![1]);
    assert_eq!(get_stored_index_wasm(&state), vec![2]);
}

#[test]
fn test_transform_strips_headers() {
    let r = transform_wasm_response(response(200, vec![5, 6]));

    assert_eq!(r.status, 200);
    assert_eq!(r.body, vec![5, 6]);
    assert!(r.headers.is_empty());
}

#[test]
fn test_fetch_ok_stores_body_verbatim() {
    let mut state = State::new();

    let r = set_ledger_wasm_from_url(&mut state, Ok(response(200, vec![9, 8, 7])));

    assert_eq!(r, Ok(3));
    assert_eq!(get_stored_ledger_wasm(&state), vec![9, 8, 7]);
}

#[test]
fn test_fetch_non_200_leaves_store_unchanged() {
    let mut state = State::new();
    set_ledger_wasm(&mut state, vec![1, 2]);

    let r = set_ledger_wasm_from_url(&mut state, Ok(response(404, vec![9, 9, 9])));

    assert!(matches!(r, Err(FetchError::HttpStatus(404))));
    assert_eq!(get_stored_ledger_wasm(&state), vec![1, 2]);
}

#[test]
fn test_fetch_transport_error_leaves_store_unchanged() {
    let mut state = State::new();
    set_index_wasm(&mut state, vec![4]);

    let r = set_index_wasm_from_url(&mut state, Err("connection reset".to_string()));

    match r {
        Err(FetchError::Transport(msg)) => assert_eq!(msg, "connection reset"),
        other => panic!("unexpected result: {:?}", other),
    }
    assert_eq!(get_stored_index_wasm(&state), vec![4]);
}

#[test]
fn test_fetch_oversized_body_is_rejected() {
    let mut state = State::new();
    set_ledger_wasm(&mut state, vec![1]);
    let oversized = vec![0u8; 2_000_001];

    let r = set_ledger_wasm_from_url(&mut state, Ok(response(200, oversized)));

    assert!(matches!(r, Err(FetchError::TooLarge(2_000_001))));
    assert_eq!(get_stored_ledger_wasm(&state), vec![1]);
}

#[test]
fn test_fetch_at_the_bound_is_accepted() {
    let mut state = State::new();
    let body = vec![3u8; 2_000_000];

    let r = set_ledger_wasm_from_url(&mut state, Ok(response(200, body.clone())));

    assert_eq!(r, Ok(2_000_000));
    assert_eq!(get_stored_ledger_wasm(&state), body);
}

#[test]
fn test_set_wasm_result_tags_both_outcomes() {
    assert_eq!(SetWasmResult::from(Ok(17)), SetWasmResult::Stored(17));
    assert_eq!(
        SetWasmResult::from(Err("no".to_string())),
        SetWasmResult::Failed("no".to_string())
    );
}
