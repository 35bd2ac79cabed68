//! The ledger's initialization arguments and their derivation from a token
//! request.
use vstd::prelude::*;
use vstd::string::StringExecFns;
use candid::{Nat, Principal};
use icrc_ledger_types::icrc1::account::Account;

verus! {

/// Largest memo, in bytes, that a new ledger accepts.
pub const MAX_MEMO_LENGTH: u16 = 256;

/// Ceiling on the number of accounts a new ledger keeps.
pub const MAXIMUM_NUMBER_OF_ACCOUNTS: u64 = 100_000;

/// How many accounts a ledger trims once it passes the ceiling.
pub const ACCOUNTS_OVERFLOW_TRIM_QUANTITY: u64 = 1_000;

/// Number of blocks that makes the ledger spawn an archive.
pub const ARCHIVE_TRIGGER_THRESHOLD: usize = 2_000;

/// Number of blocks moved to the archive at a time.
pub const ARCHIVE_NUM_BLOCKS: usize = 1_000;

/// Largest number of transactions one archive query returns.
pub const ARCHIVE_MAX_TRANSACTIONS_PER_RESPONSE: u64 = 200;

/// Largest message, in bytes, sent to an archive.
pub const ARCHIVE_MAX_MESSAGE_SIZE_BYTES: u64 = 2_000_000;

/// Cycles with which the ledger funds each archive it creates.
pub const ARCHIVE_CREATION_CYCLES: u64 = 10_000_000_000_000;

/// Memory ceiling, in bytes, of one archive node.
pub const ARCHIVE_NODE_MAX_MEMORY_SIZE_BYTES: u64 = 3_000_000_000;

/// Optional ledger features; `icrc2` enables the approve / transfer-from
/// extension.
#[derive(Debug, Clone, Copy, PartialEq, Eq, Structural)]
pub struct FeatureFlags {
    pub icrc2: bool,
}

/// Settings of the ledger's block archiving.
#[derive(Debug)]
pub struct ArchiveOptions {
    pub trigger_threshold: usize,
    pub num_blocks_to_archive: usize,
    pub node_max_memory_size_bytes: Option<u64>,
    pub max_message_size_bytes: Option<u64>,
    pub controller_id: Principal,
    pub more_controller_ids: Option<Vec<Principal>>,
    pub cycles_for_archive_creation: Option<u64>,
    pub max_transactions_per_response: Option<u64>,
}

/// A value of the ledger's metadata. The factory records text entries only.
#[derive(Debug, Clone, PartialEq, Eq)]
pub enum MetadataValue {
    Text(String),
}

/// The arguments with which a fresh ledger initializes itself.
#[derive(Debug)]
pub struct InitArgs {
    pub minting_account: Account,
    pub fee_collector_account: Option<Account>,
    pub initial_balances: Vec<(Account, Nat)>,
    pub transfer_fee: Nat,
    pub decimals: Option<u8>,
    pub token_name: String,
    pub token_symbol: String,
    pub metadata: Vec<(String, MetadataValue)>,
    pub archive_options: ArchiveOptions,
    pub max_memo_length: Option<u16>,
    pub feature_flags: Option<FeatureFlags>,
    pub maximum_number_of_accounts: Option<u64>,
    pub accounts_overflow_trim_quantity: Option<u64>,
}

/// Arguments of a ledger upgrade; the factory never upgrades, so it sets none.
#[derive(Debug, Clone, Copy, PartialEq, Eq, Structural)]
pub struct UpgradeArgs {}

/// The argument handed to the ledger when its code is installed.
#[derive(Debug)]
pub enum LedgerArg {
    Init(InitArgs),
    Upgrade(Option<UpgradeArgs>),
}

/// What a caller asks for when creating a token.
#[derive(Debug)]
pub struct CreateTokenParams {
    pub token_name: String,
    pub token_symbol: String,
    pub token_logo: Option<String>,
    pub decimals: u8,
    pub total_supply: Nat,
    pub transfer_fee: Nat,
    pub minting_account_owner: Principal,
}

/// The fixed configuration that every ledger made by the factory receives.
#[derive(Debug, Clone, Copy, PartialEq, Eq, Structural)]
pub struct LedgerPolicy {
    pub max_memo_length: u16,
    pub feature_flags: FeatureFlags,
    pub maximum_number_of_accounts: u64,
    pub accounts_overflow_trim_quantity: u64,
    pub archive_trigger_threshold: usize,
    pub archive_num_blocks: usize,
    pub archive_node_max_memory_size_bytes: u64,
    pub archive_max_message_size_bytes: u64,
    pub archive_creation_cycles: u64,
    pub archive_max_transactions_per_response: u64,
}

/// The policy built from the named constants of this module.
pub open spec fn standard_policy() -> LedgerPolicy {
    LedgerPolicy {
        max_memo_length: MAX_MEMO_LENGTH,
        feature_flags: FeatureFlags { icrc2: true },
        maximum_number_of_accounts: MAXIMUM_NUMBER_OF_ACCOUNTS,
        accounts_overflow_trim_quantity: ACCOUNTS_OVERFLOW_TRIM_QUANTITY,
        archive_trigger_threshold: ARCHIVE_TRIGGER_THRESHOLD,
        archive_num_blocks: ARCHIVE_NUM_BLOCKS,
        archive_node_max_memory_size_bytes: ARCHIVE_NODE_MAX_MEMORY_SIZE_BYTES,
        archive_max_message_size_bytes: ARCHIVE_MAX_MESSAGE_SIZE_BYTES,
        archive_creation_cycles: ARCHIVE_CREATION_CYCLES,
        archive_max_transactions_per_response: ARCHIVE_MAX_TRANSACTIONS_PER_RESPONSE,
    }
}

impl LedgerPolicy {
    /// The factory's policy: ICRC-2 enabled, 256-byte memos, at most 100 000
    /// accounts trimmed by 1 000, and the archive settings above.
    pub fn standard() -> (r: LedgerPolicy)
        ensures
            r == standard_policy(),
    {
        LedgerPolicy {
            max_memo_length: MAX_MEMO_LENGTH,
            feature_flags: FeatureFlags { icrc2: true },
            maximum_number_of_accounts: MAXIMUM_NUMBER_OF_ACCOUNTS,
            accounts_overflow_trim_quantity: ACCOUNTS_OVERFLOW_TRIM_QUANTITY,
            archive_trigger_threshold: ARCHIVE_TRIGGER_THRESHOLD,
            archive_num_blocks: ARCHIVE_NUM_BLOCKS,
            archive_node_max_memory_size_bytes: ARCHIVE_NODE_MAX_MEMORY_SIZE_BYTES,
            archive_max_message_size_bytes: ARCHIVE_MAX_MESSAGE_SIZE_BYTES,
            archive_creation_cycles: ARCHIVE_CREATION_CYCLES,
            archive_max_transactions_per_response: ARCHIVE_MAX_TRANSACTIONS_PER_RESPONSE,
        }
    }
}

/// The account with the given owner and no subaccount.
pub open spec fn default_account(owner: Principal) -> Account {
    Account { owner, subaccount: None }
}

/// The metadata key under which a token's logo is published.
pub open spec fn logo_key() -> Seq<char> {
    "icrc1:logo"@
}

/// The metadata derived from an optional logo: nothing without one, else the
/// single entry `("icrc1:logo", Text(logo))`.
pub open spec fn logo_metadata(
    metadata: Seq<(String, MetadataValue)>,
    logo: Option<String>,
) -> bool {
    match logo {
        None => metadata.len() == 0,
        Some(l) => {
            &&& metadata.len() == 1
            &&& metadata[0].0@ == logo_key()
            &&& metadata[0].1 == MetadataValue::Text(l)
        },
    }
}

/// Every principal that controls the archives: the main controller first,
/// then the others.
pub open spec fn archive_controllers(o: ArchiveOptions) -> Seq<Principal> {
    match o.more_controller_ids {
        Some(more) => seq![o.controller_id] + more@,
        None => seq![o.controller_id],
    }
}

/// The archive options of a ledger made for `owner` by the factory
/// `factory_id` under `policy`.
pub open spec fn archive_options_of(
    o: ArchiveOptions,
    factory_id: Principal,
    owner: Principal,
    policy: LedgerPolicy,
) -> bool {
    &&& o.trigger_threshold == policy.archive_trigger_threshold
    &&& o.num_blocks_to_archive == policy.archive_num_blocks
    &&& o.node_max_memory_size_bytes == Some(policy.archive_node_max_memory_size_bytes)
    &&& o.max_message_size_bytes == Some(policy.archive_max_message_size_bytes)
    &&& o.cycles_for_archive_creation == Some(policy.archive_creation_cycles)
    &&& o.max_transactions_per_response == Some(policy.archive_max_transactions_per_response)
    &&& o.controller_id == factory_id
    &&& archive_controllers(o) == seq![factory_id, owner]
}

/// `r` is the configuration derived from the request `p` by the factory
/// `factory_id` under `policy`.
pub open spec fn derived_init_args(
    r: InitArgs,
    p: CreateTokenParams,
    factory_id: Principal,
    policy: LedgerPolicy,
) -> bool {
    let owner = p.minting_account_owner;
    &&& r.minting_account == default_account(owner)
    &&& r.fee_collector_account == Some(default_account(owner))
    &&& r.initial_balances@ == seq![(default_account(owner), p.total_supply)]
    &&& r.transfer_fee == p.transfer_fee
    &&& r.decimals == Some(p.decimals)
    &&& r.token_name@ == p.token_name@
    &&& r.token_symbol@ == p.token_symbol@
    &&& logo_metadata(r.metadata@, p.token_logo)
    &&& archive_options_of(r.archive_options, factory_id, owner, policy)
    &&& r.max_memo_length == Some(policy.max_memo_length)
    &&& r.feature_flags == Some(policy.feature_flags)
    &&& r.maximum_number_of_accounts == Some(policy.maximum_number_of_accounts)
    &&& r.accounts_overflow_trim_quantity == Some(policy.accounts_overflow_trim_quantity)
}

/// The account of `owner` with no subaccount.
fn account_of(owner: Principal) -> (r: Account)
    ensures
        r == default_account(owner),
{
    Account { owner, subaccount: None }
}

/// Derives the initialization arguments of a ledger from a token request,
/// under the given policy. The whole supply is minted to the owner's
/// account, which also collects fees; the factory and the owner control the
/// archives. Nothing in the request is rejected here: the ledger checks its
/// own arguments when it starts.
pub fn build_init_args_with(
    params: CreateTokenParams,
    factory_id: Principal,
    policy: &LedgerPolicy,
) -> (r: InitArgs)
    ensures
        derived_init_args(r, params, factory_id, *policy),
{
    let owner = params.minting_account_owner;
    let mut metadata: Vec<(String, MetadataValue)> = Vec::new();
    match params.token_logo {
        Some(logo) => {
            metadata.push((String::from_str("icrc1:logo"), MetadataValue::Text(logo)));
        },
        None => {},
    }
    let mut initial_balances: Vec<(Account, Nat)> = Vec::new();
    initial_balances.push((account_of(owner), params.total_supply));
    let mut more_controller_ids: Vec<Principal> = Vec::new();
    more_controller_ids.push(owner);
    let archive_options = ArchiveOptions {
        trigger_threshold: policy.archive_trigger_threshold,
        num_blocks_to_archive: policy.archive_num_blocks,
        node_max_memory_size_bytes: Some(policy.archive_node_max_memory_size_bytes),
        max_message_size_bytes: Some(policy.archive_max_message_size_bytes),
        controller_id: factory_id,
        more_controller_ids: Some(more_controller_ids),
        cycles_for_archive_creation: Some(policy.archive_creation_cycles),
        max_transactions_per_response: Some(policy.archive_max_transactions_per_response),
    };
    proof {
        assert(initial_balances@ =~= seq![(default_account(owner), params.total_supply)]);
        assert(archive_controllers(archive_options) =~= seq![factory_id, owner]);
    }
    InitArgs {
        minting_account: account_of(owner),
        fee_collector_account: Some(account_of(owner)),
        initial_balances,
        transfer_fee: params.transfer_fee,
        decimals: Some(params.decimals),
        token_name: params.token_name,
        token_symbol: params.token_symbol,
        metadata,
        archive_options,
        max_memo_length: Some(policy.max_memo_length),
        feature_flags: Some(policy.feature_flags),
        maximum_number_of_accounts: Some(policy.maximum_number_of_accounts),
        accounts_overflow_trim_quantity: Some(policy.accounts_overflow_trim_quantity),
    }
}

/// Derives the initialization arguments of a ledger under the factory's
/// standard policy: the whole supply goes to the owner's default account,
/// which also collects fees, ICRC-2 is on, memos are capped at 256 bytes,
/// accounts at 100 000 (trimmed by 1 000), and the archives are controlled by
/// the factory and the owner.
pub fn build_init_args(params: CreateTokenParams, factory_id: Principal) -> (r: InitArgs)
    ensures
        derived_init_args(r, params, factory_id, standard_policy()),
        r.initial_balances@ == seq![
            (Account { owner: params.minting_account_owner, subaccount: None }, params.total_supply),
        ],
        r.fee_collector_account == Some(r.minting_account),
        r.feature_flags == Some(FeatureFlags { icrc2: true }),
        r.max_memo_length == Some(256u16),
        r.maximum_number_of_accounts == Some(100_000u64),
        r.accounts_overflow_trim_quantity == Some(1_000u64),
        params.token_logo is None <==> r.metadata@.len() == 0,
        archive_controllers(r.archive_options) == seq![factory_id, params.minting_account_owner],
{
    let policy = LedgerPolicy::standard();
    build_init_args_with(params, factory_id, &policy)
}

} // verus!
