//! Service configuration: which payment ledger to trust.
//!
//! A configuration value is created at install time from the install
//! arguments and is immutable afterwards except by an explicit
//! reinstall-with-init.

use vstd::prelude::*;

use crate::principal::PrincipalId;

verus! {

/// Install arguments: the payment ledger may be left out, in which case
/// the well-known cycles ledger is used.
#[derive(Debug)]
pub struct InitArgs {
    /// Payment ledger instance handle.
    pub cycles_ledger: Option<PrincipalId>,
}

/// Arguments accepted at install or upgrade of the service itself.
#[derive(Debug)]
pub enum Args {
    Init(InitArgs),
    Upgrade,
}

/// The persisted service configuration.
#[derive(Debug)]
pub struct Config {
    /// Payment ledger instance handle.
    pub cycles_ledger: PrincipalId,
}

/// The raw bytes of the principal `um5iw-rqaaa-aaaaq-qaaba-cai`, the
/// well-known cycles ledger.
pub open spec fn cycles_ledger_id_bytes() -> Seq<u8> {
    seq![0u8, 0u8, 0u8, 0u8, 2u8, 16u8, 0u8, 2u8, 1u8, 1u8]
}

/// Relies on `ic_papi_api::cycles::cycles_ledger_canister_id`: it returns the
/// principal parsed from the constant text `um5iw-rqaaa-aaaaq-qaaba-cai`,
/// whose body (after the checksum prefix of the text form is dropped) is the
/// ten bytes that `cycles_ledger_id_bytes` spells out.
#[verifier::external_body]
pub(crate) fn cycles_ledger_canister_id() -> (r: PrincipalId)
    ensures
        r@ == cycles_ledger_id_bytes(),
{
    PrincipalId::from_bytes(ic_papi_api::cycles::cycles_ledger_canister_id().as_slice().to_vec())
}

/// The payment ledger that a configuration built from `arg` trusts: the one
/// named in `arg`, or the well-known cycles ledger when none is named.
pub open spec fn spec_config_ledger(arg: InitArgs) -> Seq<u8> {
    match arg.cycles_ledger {
        Some(p) => p@,
        None => cycles_ledger_id_bytes(),
    }
}

impl Config {
    /// Creates a new `Config` from the provided `InitArgs`.
    pub fn from(arg: InitArgs) -> (r: Self)
        ensures
            r.cycles_ledger@ == spec_config_ledger(arg),
    {
        match arg.cycles_ledger {
            Some(p) => Config { cycles_ledger: p },
            None => Config { cycles_ledger: cycles_ledger_canister_id() },
        }
    }
}

impl Clone for Config {
    fn clone(&self) -> (r: Self)
        ensures
            r.cycles_ledger@ == self.cycles_ledger@,
    {
        Config { cycles_ledger: self.cycles_ledger.clone() }
    }
}

impl PartialEq for Config {
    fn eq(&self, other: &Self) -> (r: bool) {
        self.cycles_ledger == other.cycles_ledger
    }
}

impl vstd::std_specs::cmp::PartialEqSpecImpl for Config {
    open spec fn obeys_eq_spec() -> bool {
        true
    }

    open spec fn eq_spec(&self, other: &Self) -> bool {
        self.cycles_ledger@ == other.cycles_ledger@
    }
}

} // verus!
