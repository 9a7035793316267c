//! Ledger instance initialization and upgrade payloads.
//!
//! The initialization payload is built fresh per request from
//! client-supplied optional overrides merged over fixed defaults; the
//! upgrade payload is a partial update in which every field is optional
//! and unset fields leave the running instance untouched.

use vstd::prelude::*;

use crate::principal::PrincipalId;

verus! {

/// An account on a ledger: an owner and an optional sub-identity.
#[derive(Debug)]
pub struct Account {
    pub owner: PrincipalId,
    pub subaccount: Option<Vec<u8>>,
}

/// Optional ledger behaviours switched on at initialization.
#[derive(Debug, Clone, Copy, PartialEq, Eq, Structural)]
pub struct FeatureFlags {
    pub icrc2: bool,
}

/// Policy for archiving ledger blocks to dedicated archive instances.
#[derive(Debug)]
pub struct ArchiveOptions {
    pub num_blocks_to_archive: u64,
    pub max_transactions_per_response: Option<u64>,
    pub trigger_threshold: u64,
    pub max_message_size_bytes: Option<u64>,
    pub cycles_for_archive_creation: Option<u64>,
    pub node_max_memory_size_bytes: Option<u64>,
    pub controller_id: PrincipalId,
    pub more_controller_ids: Option<Vec<PrincipalId>>,
}

/// A metadata entry value attached to a ledger at initialization.
#[derive(Debug)]
pub enum MetadataValue {
    Nat(u64),
    Int(i128),
    Text(String),
    Blob(Vec<u8>),
}

/// The full initialization payload of a ledger instance.
#[derive(Debug)]
pub struct InitArgs {
    pub minting_account: Account,
    pub fee_collector_account: Option<Account>,
    pub transfer_fee: u64,
    pub decimals: Option<u8>,
    pub max_memo_length: Option<u16>,
    pub token_symbol: String,
    pub token_name: String,
    pub metadata: Vec<(String, MetadataValue)>,
    pub initial_balances: Vec<(Account, u64)>,
    pub feature_flags: Option<FeatureFlags>,
    pub archive_options: ArchiveOptions,
    pub index_principal: Option<PrincipalId>,
}

/// A change of the fee collector in an upgrade payload.
#[derive(Debug)]
pub enum ChangeFeeCollector {
    Unset,
    SetTo(Account),
}

/// A partial update of the archive policy.
#[derive(Debug)]
pub struct ChangeArchiveOptions {
    pub num_blocks_to_archive: Option<u64>,
    pub max_transactions_per_response: Option<u64>,
    pub trigger_threshold: Option<u64>,
    pub max_message_size_bytes: Option<u64>,
    pub cycles_for_archive_creation: Option<u64>,
    pub node_max_memory_size_bytes: Option<u64>,
    pub controller_id: Option<PrincipalId>,
    pub more_controller_ids: Option<Vec<PrincipalId>>,
}

/// The upgrade payload of a ledger instance: every field optional, unset
/// fields leave the running instance's state untouched.
#[derive(Debug)]
pub struct UpgradeArgs {
    pub metadata: Option<Vec<(String, MetadataValue)>>,
    pub token_symbol: Option<String>,
    pub token_name: Option<String>,
    pub transfer_fee: Option<u64>,
    pub change_fee_collector: Option<ChangeFeeCollector>,
    pub max_memo_length: Option<u16>,
    pub feature_flags: Option<FeatureFlags>,
    pub change_archive_options: Option<ChangeArchiveOptions>,
    pub index_principal: Option<PrincipalId>,
}

/// An upgrade payload in which no field is set: applied to a running
/// instance, it changes nothing.
pub open spec fn upgrade_args_all_unset(u: UpgradeArgs) -> bool {
    &&& u.metadata is None
    &&& u.token_symbol is None
    &&& u.token_name is None
    &&& u.transfer_fee is None
    &&& u.change_fee_collector is None
    &&& u.max_memo_length is None
    &&& u.feature_flags is None
    &&& u.change_archive_options is None
    &&& u.index_principal is None
}

impl UpgradeArgs {
    /// An upgrade payload with every field unset.
    pub fn unset() -> (r: Self)
        ensures
            upgrade_args_all_unset(r),
    {
        UpgradeArgs {
            metadata: None,
            token_symbol: None,
            token_name: None,
            transfer_fee: None,
            change_fee_collector: None,
            max_memo_length: None,
            feature_flags: None,
            change_archive_options: None,
            index_principal: None,
        }
    }
}

/// An upgrade payload that changes the associated index and nothing else.
pub open spec fn upgrade_sets_only_index(u: UpgradeArgs, index: Seq<u8>) -> bool {
    &&& u.index_principal matches Some(p) && p@ == index
    &&& u.metadata is None
    &&& u.token_symbol is None
    &&& u.token_name is None
    &&& u.transfer_fee is None
    &&& u.change_fee_collector is None
    &&& u.max_memo_length is None
    &&& u.feature_flags is None
    &&& u.change_archive_options is None
}

/// An upgrade payload that changes the token symbol and nothing else.
pub open spec fn upgrade_sets_only_symbol(u: UpgradeArgs, symbol: Seq<char>) -> bool {
    &&& u.token_symbol matches Some(s) && s@ == symbol
    &&& u.metadata is None
    &&& u.token_name is None
    &&& u.transfer_fee is None
    &&& u.change_fee_collector is None
    &&& u.max_memo_length is None
    &&& u.feature_flags is None
    &&& u.change_archive_options is None
    &&& u.index_principal is None
}

/// An upgrade payload that changes the token name and nothing else.
pub open spec fn upgrade_sets_only_name(u: UpgradeArgs, name: Seq<char>) -> bool {
    &&& u.token_name matches Some(n) && n@ == name
    &&& u.metadata is None
    &&& u.token_symbol is None
    &&& u.transfer_fee is None
    &&& u.change_fee_collector is None
    &&& u.max_memo_length is None
    &&& u.feature_flags is None
    &&& u.change_archive_options is None
    &&& u.index_principal is None
}

/// The two installation payloads a ledger instance accepts: a fresh
/// initialization, or a partial update in upgrade mode.
#[derive(Debug)]
pub enum LedgerArg {
    Init(InitArgs),
    Upgrade(Option<UpgradeArgs>),
}

/// How a running ledger applies a partial archive-policy update: each
/// set field overwrites the live value, each unset field leaves it.
pub open spec fn archive_change_applied(
    cur: ArchiveOptions,
    c: Option<ChangeArchiveOptions>,
    next: ArchiveOptions,
) -> bool {
    match c {
        None => next == cur,
        Some(c) => {
            &&& next.num_blocks_to_archive == (match c.num_blocks_to_archive {
                Some(x) => x,
                None => cur.num_blocks_to_archive,
            })
            &&& next.max_transactions_per_response == (match c.max_transactions_per_response {
                Some(x) => Some(x),
                None => cur.max_transactions_per_response,
            })
            &&& next.trigger_threshold == (match c.trigger_threshold {
                Some(x) => x,
                None => cur.trigger_threshold,
            })
            &&& next.max_message_size_bytes == (match c.max_message_size_bytes {
                Some(x) => Some(x),
                None => cur.max_message_size_bytes,
            })
            &&& next.cycles_for_archive_creation == (match c.cycles_for_archive_creation {
                Some(x) => Some(x),
                None => cur.cycles_for_archive_creation,
            })
            &&& next.node_max_memory_size_bytes == (match c.node_max_memory_size_bytes {
                Some(x) => Some(x),
                None => cur.node_max_memory_size_bytes,
            })
            &&& next.controller_id == (match c.controller_id {
                Some(x) => x,
                None => cur.controller_id,
            })
            &&& next.more_controller_ids == (match c.more_controller_ids {
                Some(x) => Some(x),
                None => cur.more_controller_ids,
            })
        },
    }
}

/// How a running ledger applies an upgrade payload: each set field
/// overwrites the corresponding live value, each unset field leaves it
/// untouched, and fields outside the payload cannot change.
pub open spec fn upgrade_applied(cur: InitArgs, u: UpgradeArgs, next: InitArgs) -> bool {
    &&& next.minting_account == cur.minting_account
    &&& next.initial_balances == cur.initial_balances
    &&& next.decimals == cur.decimals
    &&& next.token_symbol == (match u.token_symbol {
        Some(s) => s,
        None => cur.token_symbol,
    })
    &&& next.token_name == (match u.token_name {
        Some(n) => n,
        None => cur.token_name,
    })
    &&& next.transfer_fee == (match u.transfer_fee {
        Some(f) => f,
        None => cur.transfer_fee,
    })
    &&& next.metadata == (match u.metadata {
        Some(m) => m,
        None => cur.metadata,
    })
    &&& next.max_memo_length == (match u.max_memo_length {
        Some(x) => Some(x),
        None => cur.max_memo_length,
    })
    &&& next.feature_flags == (match u.feature_flags {
        Some(f) => Some(f),
        None => cur.feature_flags,
    })
    &&& next.fee_collector_account == (match u.change_fee_collector {
        Some(ChangeFeeCollector::Unset) => None::<Account>,
        Some(ChangeFeeCollector::SetTo(a)) => Some(a),
        None => cur.fee_collector_account,
    })
    &&& next.index_principal == (match u.index_principal {
        Some(p) => Some(p),
        None => cur.index_principal,
    })
    &&& archive_change_applied(cur.archive_options, u.change_archive_options, next.archive_options)
}

/// Applies a partial archive-policy update to the live policy.
#[verifier::rlimit(30)]
fn apply_archive_change(cur: ArchiveOptions, c: Option<ChangeArchiveOptions>) -> (r:
    ArchiveOptions)
    ensures
        archive_change_applied(cur, c, r),
{
    let mut next = cur;
    if let Some(c) = c {
        if let Some(x) = c.num_blocks_to_archive {
            next.num_blocks_to_archive = x;
        }
        if let Some(x) = c.max_transactions_per_response {
            next.max_transactions_per_response = Some(x);
        }
        if let Some(x) = c.trigger_threshold {
            next.trigger_threshold = x;
        }
        if let Some(x) = c.max_message_size_bytes {
            next.max_message_size_bytes = Some(x);
        }
        if let Some(x) = c.cycles_for_archive_creation {
            next.cycles_for_archive_creation = Some(x);
        }
        if let Some(x) = c.node_max_memory_size_bytes {
            next.node_max_memory_size_bytes = Some(x);
        }
        if let Some(x) = c.controller_id {
            next.controller_id = x;
        }
        if let Some(x) = c.more_controller_ids {
            next.more_controller_ids = Some(x);
        }
    }
    next
}

/// The state a running ledger reads back after taking an upgrade
/// payload: the partial-update semantics made executable.
#[verifier::rlimit(60)]
pub fn apply_ledger_upgrade(cur: InitArgs, u: UpgradeArgs) -> (r: InitArgs)
    ensures
        upgrade_applied(cur, u, r),
{
    let mut next = cur;
    if let Some(s) = u.token_symbol {
        next.token_symbol = s;
    }
    if let Some(n) = u.token_name {
        next.token_name = n;
    }
    if let Some(f) = u.transfer_fee {
        next.transfer_fee = f;
    }
    if let Some(m) = u.metadata {
        next.metadata = m;
    }
    if let Some(x) = u.max_memo_length {
        next.max_memo_length = Some(x);
    }
    if let Some(f) = u.feature_flags {
        next.feature_flags = Some(f);
    }
    match u.change_fee_collector {
        Some(ChangeFeeCollector::Unset) => {
            next.fee_collector_account = None;
        },
        Some(ChangeFeeCollector::SetTo(a)) => {
            next.fee_collector_account = Some(a);
        },
        None => {},
    }
    if let Some(p) = u.index_principal {
        next.index_principal = Some(p);
    }
    next.archive_options = apply_archive_change(next.archive_options, u.change_archive_options);
    next
}

/// Law (round trip of a one-field update): a payload that sets only the
/// token symbol, applied to a running ledger, reads back exactly that
/// symbol, and every other field reads back unchanged.
pub proof fn lemma_symbol_round_trip(
    cur: InitArgs,
    u: UpgradeArgs,
    next: InitArgs,
    symbol: Seq<char>,
)
    requires
        upgrade_sets_only_symbol(u, symbol),
        upgrade_applied(cur, u, next),
    ensures
        next.token_symbol@ == symbol,
        next.token_name == cur.token_name,
        next.transfer_fee == cur.transfer_fee,
        next.minting_account == cur.minting_account,
        next.initial_balances == cur.initial_balances,
        next.decimals == cur.decimals,
        next.metadata == cur.metadata,
        next.max_memo_length == cur.max_memo_length,
        next.feature_flags == cur.feature_flags,
        next.fee_collector_account == cur.fee_collector_account,
        next.index_principal == cur.index_principal,
        next.archive_options == cur.archive_options,
{
}

/// Law: a payload that sets only the token name, applied to a running
/// ledger, reads back exactly that name, with every other field
/// unchanged.
pub proof fn lemma_name_round_trip(cur: InitArgs, u: UpgradeArgs, next: InitArgs, name: Seq<char>)
    requires
        upgrade_sets_only_name(u, name),
        upgrade_applied(cur, u, next),
    ensures
        next.token_name@ == name,
        next.token_symbol == cur.token_symbol,
        next.transfer_fee == cur.transfer_fee,
        next.minting_account == cur.minting_account,
        next.initial_balances == cur.initial_balances,
        next.decimals == cur.decimals,
        next.metadata == cur.metadata,
        next.max_memo_length == cur.max_memo_length,
        next.feature_flags == cur.feature_flags,
        next.fee_collector_account == cur.fee_collector_account,
        next.index_principal == cur.index_principal,
        next.archive_options == cur.archive_options,
{
}

/// Law: a payload that sets only the associated index, applied to a
/// running ledger, reads back exactly that index handle, with every
/// other field unchanged.
pub proof fn lemma_index_round_trip(cur: InitArgs, u: UpgradeArgs, next: InitArgs, index: Seq<u8>)
    requires
        upgrade_sets_only_index(u, index),
        upgrade_applied(cur, u, next),
    ensures
        next.index_principal matches Some(p) && p@ == index,
        next.token_symbol == cur.token_symbol,
        next.token_name == cur.token_name,
        next.transfer_fee == cur.transfer_fee,
        next.minting_account == cur.minting_account,
        next.initial_balances == cur.initial_balances,
        next.decimals == cur.decimals,
        next.metadata == cur.metadata,
        next.max_memo_length == cur.max_memo_length,
        next.feature_flags == cur.feature_flags,
        next.fee_collector_account == cur.fee_collector_account,
        next.archive_options == cur.archive_options,
{
}

/// The fixed archive policy every new ledger instance starts with:
/// archiving is triggered at 500 blocks, archives 1000 blocks at a time,
/// and the archive instances are controlled by the service itself.
pub open spec fn default_archive_options(a: ArchiveOptions, factory: Seq<u8>) -> bool {
    &&& a.num_blocks_to_archive == 1000
    &&& a.max_transactions_per_response == Some(100u64)
    &&& a.trigger_threshold == 500
    &&& a.max_message_size_bytes == Some(1048576u64)
    &&& a.cycles_for_archive_creation == Some(10_000_000_000u64)
    &&& a.node_max_memory_size_bytes == Some(1073741824u64)
    &&& a.controller_id@ == factory
    &&& a.more_controller_ids is None
}

fn build_default_archive_options(factory_id: &PrincipalId) -> (r: ArchiveOptions)
    ensures
        default_archive_options(r, factory_id@),
{
    ArchiveOptions {
        num_blocks_to_archive: 1000,
        max_transactions_per_response: Some(100),
        trigger_threshold: 500,
        max_message_size_bytes: Some(1024 * 1024),
        cycles_for_archive_creation: Some(10_000_000_000),
        node_max_memory_size_bytes: Some(1024 * 1024 * 1024),
        controller_id: factory_id.clone(),
        more_controller_ids: None,
    }
}

/// The fully-defaulted initialization payload for an owner-operated test
/// ledger: fixed symbol and name, the owner as minting account, and the
/// owner funded with an initial balance.
pub open spec fn default_ledger_init(ia: InitArgs, owner: Seq<u8>, factory: Seq<u8>) -> bool {
    &&& ia.minting_account.owner@ == owner
    &&& ia.minting_account.subaccount is None
    &&& ia.fee_collector_account is None
    &&& ia.transfer_fee == 10_000
    &&& ia.decimals == Some(8u8)
    &&& ia.max_memo_length == Some(128u16)
    &&& ia.token_symbol@ == "TKN"@
    &&& ia.token_name@ == "Test Token"@
    &&& ia.metadata@.len() == 0
    &&& ia.initial_balances@.len() == 1
    &&& ia.initial_balances@[0].0.owner@ == owner
    &&& ia.initial_balances@[0].0.subaccount is None
    &&& ia.initial_balances@[0].1 == 1_000_000_000
    &&& ia.feature_flags == Some(FeatureFlags { icrc2: true })
    &&& default_archive_options(ia.archive_options, factory)
    &&& ia.index_principal is None
}

/// Builds the fully-defaulted initialization payload for a new ledger
/// owned and funded by `owner`, with archive instances controlled by the
/// service identity `factory_id`.
pub fn create_default_ledger_args(owner: PrincipalId, factory_id: &PrincipalId) -> (r: LedgerArg)
    ensures
        r matches LedgerArg::Init(ia) && default_ledger_init(ia, owner@, factory_id@),
{
    let funded = Account { owner: owner.clone(), subaccount: None };
    LedgerArg::Init(InitArgs {
        minting_account: Account { owner, subaccount: None },
        fee_collector_account: None,
        transfer_fee: 10_000,
        decimals: Some(8),
        max_memo_length: Some(128),
        token_symbol: "TKN".to_owned(),
        token_name: "Test Token".to_owned(),
        metadata: Vec::new(),
        initial_balances: vec![(funded, 1_000_000_000u64)],
        feature_flags: Some(FeatureFlags { icrc2: true }),
        archive_options: build_default_archive_options(factory_id),
        index_principal: None,
    })
}

/// The initialization payload the provisioning pipeline hands to a new
/// ledger instance: the caller's overrides already merged in, every other
/// field at its fixed default.
pub open spec fn pipeline_ledger_init(
    ia: InitArgs,
    symbol: Seq<char>,
    name: Seq<char>,
    transfer_fee: u64,
    decimals: u8,
    minting_account: Account,
    factory: Seq<u8>,
) -> bool {
    &&& ia.minting_account == minting_account
    &&& ia.transfer_fee == transfer_fee
    &&& ia.decimals == Some(decimals)
    &&& ia.token_symbol@ == symbol
    &&& ia.token_name@ == name
    &&& pipeline_ledger_init_fixed(ia, factory)
}

/// The fields of a pipeline-built initialization payload that no
/// override reaches: no fee collector, no metadata, no initial balances,
/// the default memo bound, transfer approvals switched on, the default
/// archive policy, and no index associated yet.
pub open spec fn pipeline_ledger_init_fixed(ia: InitArgs, factory: Seq<u8>) -> bool {
    &&& ia.fee_collector_account is None
    &&& ia.max_memo_length == Some(128u16)
    &&& ia.metadata@.len() == 0
    &&& ia.initial_balances@.len() == 0
    &&& ia.feature_flags == Some(FeatureFlags { icrc2: true })
    &&& default_archive_options(ia.archive_options, factory)
    &&& ia.index_principal is None
}

/// Builds the initialization payload for a newly provisioned ledger from
/// the merged request values, with archive instances controlled by the
/// service identity `factory_id`.
pub fn create_default_ledger_init_args(
    symbol: String,
    name: String,
    transfer_fee: u64,
    decimals: u8,
    minting_account: Account,
    factory_id: &PrincipalId,
) -> (r: InitArgs)
    ensures
        pipeline_ledger_init(r, symbol@, name@, transfer_fee, decimals, minting_account, factory_id@),
{
    InitArgs {
        minting_account,
        fee_collector_account: None,
        transfer_fee,
        decimals: Some(decimals),
        max_memo_length: Some(128),
        token_symbol: symbol,
        token_name: name,
        metadata: Vec::new(),
        initial_balances: Vec::new(),
        feature_flags: Some(FeatureFlags { icrc2: true }),
        archive_options: build_default_archive_options(factory_id),
        index_principal: None,
    }
}

} // verus!
