//! Index instance initialization payloads.

use vstd::prelude::*;

use crate::principal::PrincipalId;

verus! {

/// The initialization payload of an index instance.
#[derive(Debug)]
pub struct InitArgs {
    /// The handle of the ledger instance to index.
    pub ledger_id: PrincipalId,
    /// How often, in seconds, the index pulls blocks from the ledger;
    /// unset leaves the index's own default in force.
    pub retrieve_blocks_from_ledger_interval_seconds: Option<u64>,
}

/// The installation payloads an index instance accepts.
#[derive(Debug)]
pub enum IndexArgs {
    Init(InitArgs),
}

/// Builds the default initialization payload for an index over the given
/// ledger: the pull interval is left at the index's own default.
pub fn create_default_index_init_args(ledger_id: PrincipalId) -> (r: IndexArgs)
    ensures
        r matches IndexArgs::Init(ia) && ia.ledger_id@ == ledger_id@
            && ia.retrieve_blocks_from_ledger_interval_seconds is None,
{
    IndexArgs::Init(InitArgs { ledger_id, retrieve_blocks_from_ledger_interval_seconds: None })
}

} // verus!
