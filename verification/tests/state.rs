use transition_check::env::build_base_env;
use transition_check::error::CheckError;
use transition_check::fork::SpecId;
use transition_check::model::{
    AccessListItem, AccountState, BlockEnv, PreAccount, StorageSlot, TransactionTemplate,
    TxPartIndices,
};
use transition_check::primitives::{Address, B256, U256};
use transition_check::state::StateModel;
use transition_check::env::overlay_variant;
use transition_check::variant::select_variant;

fn address(last: u8) -> Address {
    let mut bytes = [0u8; 20];
    bytes[19] = last;
    Address::new(bytes)
}

fn account(balance: u64, code: Vec<u8>) -> AccountState {
    AccountState {
        balance: U256::from_u64(balance),
        nonce: 3,
        code,
        storage: vec![
            StorageSlot { key: U256::from_u64(1), value: U256::from_u64(11) },
            StorageSlot { key: U256::from_u64(2), value: U256::from_u64(22) },
        ],
    }
}

fn pre() -> Vec<PreAccount> {
    vec![
        PreAccount { address: address(1), state: account(100, vec![]) },
        PreAccount { address: address(2), state: account(200, vec![0x60, 0x00]) },
        PreAccount { address: address(1), state: account(300, vec![0x00]) },
    ]
}

#[test]
fn state_model_new_is_empty() {
    let s = StateModel::new(true);
    assert!(s.has_state_clear());
    assert_eq!(s.load(&address(1)), None);
    assert!(!StateModel::new(false).has_state_clear());
}

#[test]
fn state_model_loads_what_was_put_in() {
    let s = StateModel::from_pre(&pre()).ok().unwrap();
    assert!(!s.has_state_clear());
    assert_eq!(s.load(&address(2)), Some(account(200, vec![0x60, 0x00])));
    assert_eq!(s.load(&address(3)), None);
}

#[test]
fn state_model_later_account_replaces_earlier() {
    let s = StateModel::from_pre(&pre()).ok().unwrap();
    assert_eq!(s.load(&address(1)), Some(account(300, vec![0x00])));
}

#[test]
fn state_model_snapshot_is_equal_and_independent() {
    let s = StateModel::from_pre(&pre()).ok().unwrap();
    let mut copy = s.snapshot();
    assert_eq!(copy.load(&address(1)), s.load(&address(1)));
    assert_eq!(copy.load(&address(2)), s.load(&address(2)));
    copy.set_state_clear_flag(true);
    assert!(copy.has_state_clear());
    assert!(!s.has_state_clear());
}

#[test]
fn state_model_refuses_malformed_code() {
    let mut accounts = pre();
    accounts.push(PreAccount { address: address(9), state: account(1, vec![0xef, 0x00]) });
    assert_eq!(StateModel::from_pre(&accounts).err(), Some(CheckError::Decode));
    let mut accounts = pre();
    accounts.push(PreAccount { address: address(9), state: account(1, vec![0xef, 0x01, 0x02]) });
    assert_eq!(StateModel::from_pre(&accounts).err(), Some(CheckError::Decode));
}

#[test]
fn state_model_takes_code_without_a_format_mark() {
    let mut accounts = pre();
    accounts.push(PreAccount { address: address(9), state: account(1, vec![0xef]) });
    accounts.push(PreAccount { address: address(10), state: account(1, vec![0xef, 0x02, 0x00]) });
    accounts.push(PreAccount { address: address(11), state: account(1, vec![0xfe, 0x00]) });
    assert!(StateModel::from_pre(&accounts).is_ok());
}

fn block() -> BlockEnv {
    BlockEnv {
        current_number: U256::from_u64(1),
        current_coinbase: address(0xcc),
        current_timestamp: U256::from_u64(1000),
        current_gas_limit: U256::from_u64(30_000_000),
        current_base_fee: None,
        current_difficulty: U256::zero(),
        current_random: Some(B256::new([0u8; 32])),
        parent_blob_gas_used: None,
        parent_excess_blob_gas: None,
    }
}

fn transfer(value: u64) -> TransactionTemplate {
    TransactionTemplate {
        sender: Some(address(1)),
        secret_key: None,
        gas_price: None,
        max_fee_per_gas: None,
        max_priority_fee_per_gas: None,
        to: Some(address(0xbb)),
        gas_limit: vec![U256::from_u64(21000)],
        data: vec![vec![]],
        value: vec![U256::from_u64(value)],
        access_lists: vec![],
        blob_versioned_hashes: vec![],
        max_fee_per_blob_gas: None,
    }
}

#[test]
fn transact_leaves_the_state_as_it_was() {
    let accounts = vec![PreAccount { address: address(1), state: account(100, vec![]) }];
    let s = StateModel::from_pre(&accounts).ok().unwrap();
    let tx = transfer(60);
    let base = build_base_env(&block(), &tx, address(1));
    let variant = select_variant(&tx, &TxPartIndices { data: 0, gas: 0, value: 0 }).unwrap();
    let env = overlay_variant(&base, variant);
    assert_eq!(s.transact(&env, SpecId::Merge), Ok(()));
    assert_eq!(s.load(&address(1)), Some(account(100, vec![])));
    assert_eq!(s.load(&address(0xbb)), None);
    assert_eq!(s.transact(&env, SpecId::Merge), Ok(()));
}

#[test]
fn transact_reports_the_engine_text() {
    let accounts = vec![PreAccount { address: address(1), state: account(100, vec![]) }];
    let s = StateModel::from_pre(&accounts).ok().unwrap();
    let tx = transfer(101);
    let base = build_base_env(&block(), &tx, address(1));
    let variant = select_variant(&tx, &TxPartIndices { data: 0, gas: 0, value: 0 }).unwrap();
    let env = overlay_variant(&base, variant);
    let r = s.transact(&env, SpecId::Merge);
    assert!(r.is_err());
    assert!(r.unwrap_err().contains("lack of funds"));
}

#[test]
fn transact_rejects_a_sender_with_code() {
    let accounts = vec![PreAccount { address: address(1), state: account(100, vec![0x00]) }];
    let s = StateModel::from_pre(&accounts).ok().unwrap();
    let tx = transfer(1);
    let base = build_base_env(&block(), &tx, address(1));
    let variant = select_variant(&tx, &TxPartIndices { data: 0, gas: 0, value: 0 }).unwrap();
    let env = overlay_variant(&base, variant);
    assert_eq!(
        s.transact(&env, SpecId::London),
        Err("transaction validation error: reject transactions from senders with deployed code"
            .to_string())
    );
}

#[test]
fn transact_runs_under_the_rule_set_it_is_given() {
    let accounts = vec![PreAccount { address: address(1), state: account(100, vec![]) }];
    let s = StateModel::from_pre(&accounts).ok().unwrap();
    let mut tx = transfer(1);
    tx.gas_limit = vec![U256::from_u64(60_000)];
    tx.access_lists = vec![Some(vec![AccessListItem {
        address: address(0xbb),
        storage_keys: vec![B256::new([0u8; 32])],
    }])];
    let base = build_base_env(&block(), &tx, address(1));
    let variant = select_variant(&tx, &TxPartIndices { data: 0, gas: 0, value: 0 }).unwrap();
    let env = overlay_variant(&base, variant);
    assert_eq!(s.transact(&env, SpecId::Berlin), Ok(()));
    let before = s.transact(&env, SpecId::Istanbul);
    assert!(before.is_err());
    assert!(before.unwrap_err().contains("access list"));
}
