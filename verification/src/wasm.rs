//! The code module store and the rules for filling it from a fetched
//! response.
//!
//! A slot holds the raw bytes of one code module; empty means "not yet
//! configured". A slot is filled either directly or from the body of a
//! fetched response, and a fetched body is trusted only after the
//! sanitizing transform has stripped every response header, the status
//! is the success status, and the body is within the fetch bound.

use vstd::prelude::*;

use crate::state::State;

verus! {

/// Greatest number of bytes a single code module fetch may store.
pub const MAX_WASM_FETCH_BYTES: usize = 2_000_000;

/// The HTTP success status required of a code module fetch.
pub const FETCH_OK_STATUS: u64 = 200;

/// One code module slot.
#[derive(Debug)]
pub struct WasmStorage {
    pub wasm: Vec<u8>,
}

impl WasmStorage {
    /// An empty slot.
    pub fn new() -> (r: Self)
        ensures
            r.wasm@.len() == 0,
    {
        WasmStorage { wasm: Vec::new() }
    }
}

/// A fetched response, reduced to its plain parts.
#[derive(Debug)]
pub struct HttpResponseData {
    pub status: u64,
    pub headers: Vec<(String, String)>,
    pub body: Vec<u8>,
}

/// Why a fetch-and-store of a code module was refused.
#[derive(Debug, PartialEq, Eq)]
pub enum FetchError {
    /// The outbound call itself failed; the detail carries the report.
    Transport(String),
    /// The fetch completed with a status other than the success status.
    HttpStatus(u64),
    /// The fetched body exceeds the fetch bound.
    TooLarge(usize),
}

/// Returns a copy of the stored code module; empty means "not yet
/// configured".
pub fn get_stored_wasm(storage: &WasmStorage) -> (r: Vec<u8>)
    ensures
        r@ == storage.wasm@,
{
    let r = storage.wasm.clone();
    proof {
        assert(r@ =~= storage.wasm@);
    }
    r
}

/// Stores a code module directly, replacing the slot's contents.
pub fn set_wasm(storage: &mut WasmStorage, wasm: Vec<u8>)
    ensures
        final(storage).wasm@ == wasm@,
{
    storage.wasm = wasm;
}

/// Sanitizes a fetched response before its body is trusted: every
/// response header is stripped; status and body pass through unchanged.
pub fn transform_wasm_response(response: HttpResponseData) -> (r: HttpResponseData)
    ensures
        r.status == response.status,
        r.body@ == response.body@,
        r.headers@.len() == 0,
{
    HttpResponseData { status: response.status, headers: Vec::new(), body: response.body }
}

/// Decides a fetch-and-store: a transport failure, a non-success status,
/// or an oversized body is refused and leaves the slot unchanged; an
/// acceptable response has its body stored verbatim, and the byte count
/// stored is returned.
pub fn store_fetched_wasm(storage: &mut WasmStorage, outcome: Result<HttpResponseData, String>) -> (r:
    Result<usize, FetchError>)
    ensures
        match outcome {
            Err(e) => {
                &&& r == Err::<usize, FetchError>(FetchError::Transport(e))
                &&& *final(storage) == *old(storage)
            },
            Ok(resp) => {
                if resp.status != FETCH_OK_STATUS {
                    &&& r == Err::<usize, FetchError>(FetchError::HttpStatus(resp.status))
                    &&& *final(storage) == *old(storage)
                } else if resp.body@.len() > MAX_WASM_FETCH_BYTES {
                    &&& r matches Err(FetchError::TooLarge(n)) && n == resp.body@.len()
                    &&& *final(storage) == *old(storage)
                } else {
                    &&& final(storage).wasm@ == resp.body@
                    &&& r matches Ok(n) && n == resp.body@.len()
                }
            },
        },
{
    match outcome {
        Err(e) => Err(FetchError::Transport(e)),
        Ok(resp) => {
            if resp.status != FETCH_OK_STATUS {
                return Err(FetchError::HttpStatus(resp.status));
            }
            let n = resp.body.len();
            if n > MAX_WASM_FETCH_BYTES {
                return Err(FetchError::TooLarge(n));
            }
            storage.wasm = resp.body;
            Ok(n)
        },
    }
}

/// Returns a copy of the stored ledger code module.
pub fn get_stored_ledger_wasm(state: &State) -> (r: Vec<u8>)
    ensures
        r@ == state.icrc_ledger_wasm.wasm@,
{
    get_stored_wasm(&state.icrc_ledger_wasm)
}

/// Stores the ledger code module directly.
pub fn set_ledger_wasm(state: &mut State, wasm: Vec<u8>)
    ensures
        final(state).icrc_ledger_wasm.wasm@ == wasm@,
        final(state).icrc_index_wasm == old(state).icrc_index_wasm,
        final(state).config == old(state).config,
        final(state).user_canister == old(state).user_canister,
{
    set_wasm(&mut state.icrc_ledger_wasm, wasm);
}

/// Returns a copy of the stored index code module.
pub fn get_stored_index_wasm(state: &State) -> (r: Vec<u8>)
    ensures
        r@ == state.icrc_index_wasm.wasm@,
{
    get_stored_wasm(&state.icrc_index_wasm)
}

/// Stores the index code module directly.
pub fn set_index_wasm(state: &mut State, wasm: Vec<u8>)
    ensures
        final(state).icrc_index_wasm.wasm@ == wasm@,
        final(state).icrc_ledger_wasm == old(state).icrc_ledger_wasm,
        final(state).config == old(state).config,
        final(state).user_canister == old(state).user_canister,
{
    set_wasm(&mut state.icrc_index_wasm, wasm);
}

/// Decides a fetch-and-store of the ledger code module: a refused fetch
/// leaves the whole state unchanged.
pub fn set_ledger_wasm_from_url(state: &mut State, outcome: Result<HttpResponseData, String>) -> (r:
    Result<usize, FetchError>)
    ensures
        final(state).icrc_index_wasm == old(state).icrc_index_wasm,
        final(state).config == old(state).config,
        final(state).user_canister == old(state).user_canister,
        match outcome {
            Err(e) => {
                &&& r == Err::<usize, FetchError>(FetchError::Transport(e))
                &&& *final(state) == *old(state)
            },
            Ok(resp) => {
                if resp.status != FETCH_OK_STATUS {
                    &&& r == Err::<usize, FetchError>(FetchError::HttpStatus(resp.status))
                    &&& *final(state) == *old(state)
                } else if resp.body@.len() > MAX_WASM_FETCH_BYTES {
                    &&& r matches Err(FetchError::TooLarge(n)) && n == resp.body@.len()
                    &&& *final(state) == *old(state)
                } else {
                    &&& final(state).icrc_ledger_wasm.wasm@ == resp.body@
                    &&& r matches Ok(n) && n == resp.body@.len()
                }
            },
        },
{
    store_fetched_wasm(&mut state.icrc_ledger_wasm, outcome)
}

/// Decides a fetch-and-store of the index code module: a refused fetch
/// leaves the whole state unchanged.
pub fn set_index_wasm_from_url(state: &mut State, outcome: Result<HttpResponseData, String>) -> (r:
    Result<usize, FetchError>)
    ensures
        final(state).icrc_ledger_wasm == old(state).icrc_ledger_wasm,
        final(state).config == old(state).config,
        final(state).user_canister == old(state).user_canister,
        match outcome {
            Err(e) => {
                &&& r == Err::<usize, FetchError>(FetchError::Transport(e))
                &&& *final(state) == *old(state)
            },
            Ok(resp) => {
                if resp.status != FETCH_OK_STATUS {
                    &&& r == Err::<usize, FetchError>(FetchError::HttpStatus(resp.status))
                    &&& *final(state) == *old(state)
                } else if resp.body@.len() > MAX_WASM_FETCH_BYTES {
                    &&& r matches Err(FetchError::TooLarge(n)) && n == resp.body@.len()
                    &&& *final(state) == *old(state)
                } else {
                    &&& final(state).icrc_index_wasm.wasm@ == resp.body@
                    &&& r matches Ok(n) && n == resp.body@.len()
                }
            },
        },
{
    store_fetched_wasm(&mut state.icrc_index_wasm, outcome)
}

} // verus!
