//! Client-facing request payloads.

use vstd::prelude::*;

use crate::ledger::{Account, LedgerArg};
use crate::principal::PrincipalId;

verus! {

/// A request for a new ledger instance: every field optional; omitted
/// fields fall back to the ledger's defaults.
#[derive(Debug)]
pub struct CreateIcrcLedgerArgs {
    pub symbol: Option<String>,
    pub name: Option<String>,
    pub transfer_fee: Option<u64>,
    pub decimals: Option<u8>,
    pub minting_account: Option<Account>,
}

impl CreateIcrcLedgerArgs {
    /// A request that overrides nothing: every default applies.
    pub fn all_defaults() -> (r: Self)
        ensures
            r.symbol is None,
            r.name is None,
            r.transfer_fee is None,
            r.decimals is None,
            r.minting_account is None,
    {
        CreateIcrcLedgerArgs {
            symbol: None,
            name: None,
            transfer_fee: None,
            decimals: None,
            minting_account: None,
        }
    }
}

/// A request for a new index instance over an existing ledger.
#[derive(Debug)]
pub struct CreateIcrcIndexArgs {
    pub ledger_id: PrincipalId,
}

/// A request to associate an index instance with a running ledger.
#[derive(Debug)]
pub struct SetIndexCanisterArgs {
    pub ledger_id: PrincipalId,
    pub index_id: PrincipalId,
}

/// A request to change a running ledger's token symbol.
#[derive(Debug)]
pub struct SetSymbolArgs {
    pub ledger_id: PrincipalId,
    pub symbol: String,
}

/// A request to change a running ledger's token name.
#[derive(Debug)]
pub struct SetNameArgs {
    pub ledger_id: PrincipalId,
    pub name: String,
}

/// A reconfiguration request against a running ledger: the target handle
/// and the installation payload to push in upgrade mode.
#[derive(Debug)]
pub struct UpgradeLedgerCanisterArgs {
    pub ledger_id: PrincipalId,
    pub args: LedgerArg,
}

} // verus!
