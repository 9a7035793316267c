//! The paid service methods and their admission fees.

use vstd::prelude::*;

use crate::generic::MIN_CYCLES_FOR_CANISTER_CREATION;

verus! {

/// The paid API methods.
#[derive(Debug, Clone, Copy, PartialEq, Eq, Structural)]
pub enum SignerMethods {
    CreateIcrcLedger,
    CreateIcrcIndex,
}

impl SignerMethods {
    /// The cost, in cycles, of every paid API method: the base allocation
    /// amount plus a fixed safety margin.
    pub fn fee(&self) -> (r: u64)
        ensures
            r == MIN_CYCLES_FOR_CANISTER_CREATION + 400_000_000_000u64,
    {
        match self {
            SignerMethods::CreateIcrcLedger => MIN_CYCLES_FOR_CANISTER_CREATION + 400_000_000_000,
            SignerMethods::CreateIcrcIndex => MIN_CYCLES_FOR_CANISTER_CREATION + 400_000_000_000,
        }
    }
}

} // verus!
