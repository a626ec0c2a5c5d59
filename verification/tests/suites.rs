use transition_check::error::CheckError;
use transition_check::model::{
    AccountState, BlockEnv, ForkExpectations, PostExpectation, PreAccount, SpecName, TestUnit,
    TransactionTemplate, TxPartIndices,
};
use transition_check::primitives::{Address, B256, U256};
use transition_check::suite::{execute_test_suite, TestSuite};

fn address(last: u8) -> Address {
    let mut bytes = [0u8; 20];
    bytes[19] = last;
    Address::new(bytes)
}

fn unit(gas_limit: u64, gas_index: usize, parent_excess: Option<u64>) -> TestUnit {
    TestUnit {
        pre: vec![PreAccount {
            address: address(0xaa),
            state: AccountState { balance: U256::from_u64(100), nonce: 0, code: vec![], storage: vec![] },
        }],
        env: BlockEnv {
            current_number: U256::from_u64(1),
            current_coinbase: address(0xcc),
            current_timestamp: U256::from_u64(1000),
            current_gas_limit: U256::from_u64(30_000_000),
            current_base_fee: None,
            current_difficulty: U256::zero(),
            current_random: Some(B256::new([0u8; 32])),
            parent_blob_gas_used: parent_excess.map(|_| U256::zero()),
            parent_excess_blob_gas: parent_excess.map(U256::from_u64),
        },
        transaction: TransactionTemplate {
            sender: Some(address(0xaa)),
            secret_key: None,
            gas_price: None,
            max_fee_per_gas: None,
            max_priority_fee_per_gas: None,
            to: Some(address(0xbb)),
            gas_limit: vec![U256::from_u64(gas_limit)],
            data: vec![vec![]],
            value: vec![U256::from_u64(10)],
            access_lists: vec![],
            blob_versioned_hashes: vec![],
            max_fee_per_blob_gas: None,
        },
        post: vec![ForkExpectations {
            fork: SpecName::Merge,
            tests: vec![PostExpectation {
                indexes: TxPartIndices { data: 0, gas: gas_index, value: 0 },
                expect_exception: None,
            }],
        }],
    }
}

fn good() -> TestUnit {
    unit(21000, 0, None)
}

#[test]
fn suite_new_is_empty() {
    let s = TestSuite::new();
    assert_eq!(s.len(), 0);
    assert!(s.blob_gas_in_range());
    assert_eq!(execute_test_suite(&s), Ok(()));
}

#[test]
fn suite_keeps_insertion_order() {
    let s = TestSuite::new()
        .insert("b".to_string(), good())
        .insert("a".to_string(), unit(100, 0, None))
        .insert("c".to_string(), unit(21000, 4, None));
    assert_eq!(s.len(), 3);
    assert_eq!(s.get(0).name, "b");
    assert_eq!(s.get(1).name, "a");
    assert_eq!(s.get(2).name, "c");
    assert_eq!(s.get(1).unit, unit(100, 0, None));
}

#[test]
fn suite_replaces_a_unit_with_the_same_name_in_place() {
    let s = TestSuite::new()
        .insert("first".to_string(), good())
        .insert("second".to_string(), good())
        .insert("first".to_string(), unit(100, 0, None));
    assert_eq!(s.len(), 2);
    assert_eq!(s.get(0).name, "first");
    assert_eq!(s.get(0).unit, unit(100, 0, None));
    assert_eq!(s.get(1).name, "second");
    assert_eq!(s.get(1).unit, good());
}

#[test]
fn suite_passes_when_every_unit_passes() {
    let s = TestSuite::new().insert("one".to_string(), good()).insert("two".to_string(), good());
    assert!(s.blob_gas_in_range());
    assert_eq!(execute_test_suite(&s), Ok(()));
}

#[test]
fn suite_returns_the_first_failure_in_order() {
    let s = TestSuite::new()
        .insert("z-passes".to_string(), good())
        .insert("m-index".to_string(), unit(21000, 3, None))
        .insert("a-gas".to_string(), unit(100, 0, None));
    assert_eq!(execute_test_suite(&s), Err(CheckError::IndexOutOfRange));
    let s = TestSuite::new()
        .insert("z-passes".to_string(), good())
        .insert("a-gas".to_string(), unit(100, 0, None))
        .insert("m-index".to_string(), unit(21000, 3, None));
    assert_eq!(
        execute_test_suite(&s),
        Err(CheckError::ExecutionMismatch(
            "transaction validation error: call gas cost exceeds the gas limit".to_string()
        ))
    );
}

#[test]
fn suite_knows_when_blob_gas_is_out_of_range() {
    let s = TestSuite::new()
        .insert("fine".to_string(), unit(21000, 0, Some(1000)))
        .insert("too-much".to_string(), unit(21000, 0, Some(u64::MAX)));
    assert!(!s.blob_gas_in_range());
    let s = TestSuite::new().insert("fine".to_string(), unit(21000, 0, Some(1000)));
    assert!(s.blob_gas_in_range());
    assert_eq!(execute_test_suite(&s), Ok(()));
}
