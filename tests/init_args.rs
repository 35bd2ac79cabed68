use candid::{Nat, Principal};
use icrc_ledger_types::icrc1::account::Account;
use token_factory::ledger_args::{
    build_init_args, build_init_args_with, CreateTokenParams, FeatureFlags, LedgerPolicy,
    MetadataValue,
};

fn owner() -> Principal {
    Principal::from_slice(&[7, 7, 7, 1])
}

fn factory() -> Principal {
    Principal::from_slice(&[1, 2, 3, 4, 5])
}

fn farm_coin(logo: Option<&str>) -> CreateTokenParams {
    CreateTokenParams {
        token_name: "FarmCoin".to_string(),
        token_symbol: "FARM".to_string(),
        token_logo: logo.map(|l| l.to_string()),
        decimals: 8,
        total_supply: Nat::from(1_000_000_00000000u64),
        transfer_fee: Nat::from(10000u64),
        minting_account_owner: owner(),
    }
}

fn plain_account(p: Principal) -> Account {
    Account { owner: p, subaccount: None }
}

#[test]
fn farm_coin_scenario() {
    let r = build_init_args(farm_coin(None), factory());
    assert_eq!(r.initial_balances.len(), 1);
    assert_eq!(r.initial_balances[0].0, plain_account(owner()));
    assert_eq!(r.initial_balances[0].0.subaccount, None);
    assert_eq!(r.initial_balances[0].1, Nat::from(100_000_000_000_000u64));
    assert_eq!(r.transfer_fee, Nat::from(10000u64));
    assert_eq!(r.decimals, Some(8));
    assert_eq!(r.token_name, "FarmCoin");
    assert_eq!(r.token_symbol, "FARM");
}

#[test]
fn whole_supply_minted_to_owner() {
    let mut p = farm_coin(None);
    p.total_supply = Nat::from(0u64);
    let r = build_init_args(p, factory());
    assert_eq!(r.initial_balances.len(), 1);
    assert_eq!(r.initial_balances[0].0.owner, owner());
    assert_eq!(r.initial_balances[0].0.subaccount, None);
    assert_eq!(r.initial_balances[0].1, Nat::from(0u64));
}

#[test]
fn fee_collector_is_minting_account() {
    let r = build_init_args(farm_coin(Some("logo")), factory());
    assert_eq!(r.minting_account.owner, owner());
    assert_eq!(r.minting_account.subaccount, None);
    let fee = r.fee_collector_account.expect("fee collector");
    assert_eq!(fee.owner, r.minting_account.owner);
    assert_eq!(fee.subaccount, r.minting_account.subaccount);
}

#[test]
fn fixed_limits_and_features() {
    let mut p = farm_coin(None);
    p.token_name = String::new();
    p.token_symbol = String::new();
    p.decimals = 0;
    let r = build_init_args(p, factory());
    assert_eq!(r.feature_flags, Some(FeatureFlags { icrc2: true }));
    assert_eq!(r.max_memo_length, Some(256));
    assert_eq!(r.maximum_number_of_accounts, Some(100_000));
    assert_eq!(r.accounts_overflow_trim_quantity, Some(1_000));
    assert_eq!(r.decimals, Some(0));
    assert_eq!(r.token_name, "");
}

#[test]
fn archive_defaults() {
    let o = build_init_args(farm_coin(None), factory()).archive_options;
    assert_eq!(o.num_blocks_to_archive, 1000);
    assert_eq!(o.trigger_threshold, 2000);
    assert_eq!(o.max_transactions_per_response, Some(200));
    assert_eq!(o.max_message_size_bytes, Some(2_000_000));
    assert_eq!(o.cycles_for_archive_creation, Some(10_000_000_000_000));
    assert_eq!(o.node_max_memory_size_bytes, Some(3_000_000_000));
}

#[test]
fn archive_controllers_are_factory_and_owner() {
    let o = build_init_args(farm_coin(None), factory()).archive_options;
    assert_eq!(o.controller_id, factory());
    assert_eq!(o.more_controller_ids, Some(vec![owner()]));
}

#[test]
fn no_logo_no_metadata() {
    let r = build_init_args(farm_coin(None), factory());
    assert!(r.metadata.is_empty());
}

#[test]
fn logo_becomes_single_metadata_entry() {
    let r = build_init_args(farm_coin(Some("data:image/png;base64,AAAA")), factory());
    assert_eq!(r.metadata.len(), 1);
    assert_eq!(r.metadata[0].0, "icrc1:logo");
    assert_eq!(
        r.metadata[0].1,
        MetadataValue::Text("data:image/png;base64,AAAA".to_string())
    );
}

#[test]
fn empty_logo_is_still_published() {
    let r = build_init_args(farm_coin(Some("")), factory());
    assert_eq!(r.metadata.len(), 1);
    assert_eq!(r.metadata[0].1, MetadataValue::Text(String::new()));
}

#[test]
fn standard_policy_values() {
    let p = LedgerPolicy::standard();
    assert_eq!(p.max_memo_length, 256);
    assert!(p.feature_flags.icrc2);
    assert_eq!(p.maximum_number_of_accounts, 100_000);
    assert_eq!(p.accounts_overflow_trim_quantity, 1_000);
    assert_eq!(p.archive_trigger_threshold, 2_000);
    assert_eq!(p.archive_num_blocks, 1_000);
}

#[test]
fn custom_policy_is_applied() {
    let mut policy = LedgerPolicy::standard();
    policy.max_memo_length = 32;
    policy.feature_flags = FeatureFlags { icrc2: false };
    policy.archive_num_blocks = 5;
    let r = build_init_args_with(farm_coin(None), factory(), &policy);
    assert_eq!(r.max_memo_length, Some(32));
    assert_eq!(r.feature_flags, Some(FeatureFlags { icrc2: false }));
    assert_eq!(r.archive_options.num_blocks_to_archive, 5);
    assert_eq!(r.maximum_number_of_accounts, Some(100_000));
}

#[test]
fn large_supply_and_fee_are_kept() {
    let mut p = farm_coin(None);
    let big = Nat::from(u128::MAX) * Nat::from(u128::MAX);
    p.total_supply = big.clone();
    p.transfer_fee = big.clone();
    p.decimals = 255;
    let r = build_init_args(p, factory());
    assert_eq!(r.initial_balances[0].1, big);
    assert_eq!(r.transfer_fee, big);
    assert_eq!(r.decimals, Some(255));
}
