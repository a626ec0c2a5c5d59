use transition_check::error::CheckError;
use transition_check::executor::{execute_test_unit, run_test_unit};
use transition_check::model::{
    AccountState, BlockEnv, ForkExpectations, PostExpectation, PreAccount, SpecName, TestUnit,
    TransactionTemplate, TxPartIndices,
};
use transition_check::primitives::{Address, B256, U256};

fn address(last: u8) -> Address {
    let mut bytes = [0u8; 20];
    bytes[19] = last;
    Address::new(bytes)
}

fn block() -> BlockEnv {
    BlockEnv {
        current_number: U256::from_u64(1),
        current_coinbase: address(0xcc),
        current_timestamp: U256::from_u64(1000),
        current_gas_limit: U256::from_u64(30_000_000),
        current_base_fee: None,
        current_difficulty: U256::zero(),
        current_random: Some(B256::new([0u8; 32])),
        parent_blob_gas_used: None,
        parent_excess_blob_gas: None,
    }
}

fn transfer(gas_limit: u64) -> TransactionTemplate {
    TransactionTemplate {
        sender: Some(address(0xaa)),
        secret_key: None,
        gas_price: None,
        max_fee_per_gas: None,
        max_priority_fee_per_gas: None,
        to: Some(address(0xbb)),
        gas_limit: vec![U256::from_u64(gas_limit)],
        data: vec![vec![]],
        value: vec![U256::from_u64(10)],
        access_lists: vec![],
        blob_versioned_hashes: vec![],
        max_fee_per_blob_gas: None,
    }
}

fn expectation(data: usize, gas: usize, value: usize, exception: Option<&str>) -> PostExpectation {
    PostExpectation {
        indexes: TxPartIndices { data, gas, value },
        expect_exception: exception.map(|s| s.to_string()),
    }
}

fn unit(transaction: TransactionTemplate, post: Vec<ForkExpectations>) -> TestUnit {
    TestUnit {
        pre: vec![PreAccount {
            address: address(0xaa),
            state: AccountState {
                balance: U256::from_u64(100),
                nonce: 0,
                code: vec![],
                storage: vec![],
            },
        }],
        env: block(),
        transaction,
        post,
    }
}

fn under(fork: SpecName, tests: Vec<PostExpectation>) -> Vec<ForkExpectations> {
    vec![ForkExpectations { fork, tests }]
}

#[test]
fn value_transfer_passes_under_merge() {
    let u = unit(transfer(21000), under(SpecName::Merge, vec![expectation(0, 0, 0, None)]));
    assert!(u.env.blob_gas_in_range());
    assert_eq!(execute_test_unit(&u), Ok(()));
    let report = run_test_unit(&u);
    assert_eq!(report.evaluated, 1);
    assert_eq!(report.verdict, Ok(()));
}

#[test]
fn gas_below_intrinsic_cost_passes_when_failure_is_expected() {
    let u = unit(
        transfer(100),
        under(SpecName::Merge, vec![expectation(0, 0, 0, Some("TR_IntrinsicGas"))]),
    );
    assert_eq!(execute_test_unit(&u), Ok(()));
}

#[test]
fn gas_below_intrinsic_cost_fails_when_success_is_expected() {
    let u = unit(transfer(100), under(SpecName::Merge, vec![expectation(0, 0, 0, None)]));
    match execute_test_unit(&u) {
        Err(CheckError::ExecutionMismatch(text)) => {
            assert!(text.contains("gas"), "engine text: {}", text);
            assert_eq!(text, "transaction validation error: call gas cost exceeds the gas limit");
        }
        other => panic!("expected a mismatch, got {:?}", other),
    }
}

#[test]
fn unexpected_success_is_a_mismatch() {
    let u = unit(
        transfer(21000),
        under(SpecName::Merge, vec![expectation(0, 0, 0, Some("TR_IntrinsicGas"))]),
    );
    let r = execute_test_unit(&u);
    assert_eq!(r, Err(CheckError::unexpected_success()));
    assert_eq!(
        r.unwrap_err().message(),
        "execution unexpectedly succeeded: an exception was expected"
    );
}

#[test]
fn missing_sender_and_key_fails_before_execution() {
    let mut tx = transfer(21000);
    tx.sender = None;
    tx.secret_key = None;
    let u = unit(tx, under(SpecName::Merge, vec![expectation(0, 0, 0, None)]));
    let report = run_test_unit(&u);
    assert_eq!(report.verdict, Err(CheckError::SenderResolution));
    assert_eq!(report.evaluated, 0);
}

#[test]
fn only_constantinople_evaluates_nothing() {
    let u = unit(
        transfer(100),
        under(SpecName::Constantinople, vec![expectation(0, 0, 0, None), expectation(5, 5, 5, None)]),
    );
    let report = run_test_unit(&u);
    assert_eq!(report.verdict, Ok(()));
    assert_eq!(report.evaluated, 0);
}

#[test]
fn only_excluded_names_pass() {
    let post = vec![
        ForkExpectations { fork: SpecName::ByzantiumToConstantinopleAt5, tests: vec![expectation(9, 9, 9, None)] },
        ForkExpectations { fork: SpecName::Unknown, tests: vec![expectation(0, 0, 0, Some("x"))] },
        ForkExpectations { fork: SpecName::Constantinople, tests: vec![] },
    ];
    let report = run_test_unit(&unit(transfer(100), post));
    assert_eq!(report.verdict, Ok(()));
    assert_eq!(report.evaluated, 0);
}

#[test]
fn gas_index_out_of_range_is_an_error() {
    let u = unit(transfer(21000), under(SpecName::Merge, vec![expectation(0, 1, 0, None)]));
    assert_eq!(execute_test_unit(&u), Err(CheckError::IndexOutOfRange));
    let u = unit(
        transfer(21000),
        under(SpecName::Merge, vec![expectation(0, 1, 0, Some("anything"))]),
    );
    assert_eq!(execute_test_unit(&u), Err(CheckError::IndexOutOfRange));
}

#[test]
fn data_and_value_index_out_of_range_are_errors() {
    let u = unit(transfer(21000), under(SpecName::Merge, vec![expectation(1, 0, 0, None)]));
    assert_eq!(execute_test_unit(&u), Err(CheckError::IndexOutOfRange));
    let u = unit(transfer(21000), under(SpecName::Merge, vec![expectation(0, 0, 1, None)]));
    assert_eq!(execute_test_unit(&u), Err(CheckError::IndexOutOfRange));
}

#[test]
fn first_failure_stops_the_unit() {
    let post = vec![
        ForkExpectations {
            fork: SpecName::London,
            tests: vec![expectation(0, 0, 0, None), expectation(0, 0, 0, None)],
        },
        ForkExpectations {
            fork: SpecName::Merge,
            tests: vec![
                expectation(0, 0, 0, None),
                expectation(0, 7, 0, None),
                expectation(0, 0, 0, None),
            ],
        },
        ForkExpectations { fork: SpecName::Shanghai, tests: vec![expectation(0, 0, 0, None)] },
    ];
    let report = run_test_unit(&unit(transfer(21000), post));
    assert_eq!(report.verdict, Err(CheckError::IndexOutOfRange));
    assert_eq!(report.evaluated, 4);
}

#[test]
fn every_checked_name_runs_the_transfer() {
    let names = [
        SpecName::Frontier,
        SpecName::FrontierToHomesteadAt5,
        SpecName::Homestead,
        SpecName::HomesteadToDaoAt5,
        SpecName::HomesteadToEIP150At5,
        SpecName::EIP150,
        SpecName::EIP158,
        SpecName::EIP158ToByzantiumAt5,
        SpecName::Byzantium,
        SpecName::ByzantiumToConstantinopleFixAt5,
        SpecName::ConstantinopleFix,
        SpecName::Istanbul,
        SpecName::Berlin,
        SpecName::BerlinToLondonAt5,
        SpecName::London,
        SpecName::Merge,
        SpecName::Shanghai,
        SpecName::Cancun,
    ];
    let post: Vec<ForkExpectations> = names
        .iter()
        .map(|n| ForkExpectations { fork: *n, tests: vec![expectation(0, 0, 0, None)] })
        .collect();
    let report = run_test_unit(&unit(transfer(21000), post));
    assert_eq!(report.verdict, Ok(()));
    assert_eq!(report.evaluated, 18);
}

#[test]
fn expectations_do_not_see_each_other() {
    // The sender holds 100 and each transfer moves 10: on a shared state
    // the eleventh transfer would fail for lack of funds.
    let tests: Vec<PostExpectation> = (0..12).map(|_| expectation(0, 0, 0, None)).collect();
    let report = run_test_unit(&unit(transfer(21000), under(SpecName::Merge, tests)));
    assert_eq!(report.verdict, Ok(()));
    assert_eq!(report.evaluated, 12);

    let mut tx = transfer(21000);
    tx.value = vec![U256::from_u64(60)];
    let alone = run_test_unit(&unit(tx.clone(), under(SpecName::Merge, vec![expectation(0, 0, 0, None)])));
    let after = run_test_unit(&unit(
        tx,
        under(SpecName::Merge, vec![expectation(0, 0, 0, None), expectation(0, 0, 0, None)]),
    ));
    assert_eq!(alone.verdict, Ok(()));
    assert_eq!(after.verdict, alone.verdict);
}

#[test]
fn same_unit_gives_same_verdict_and_text() {
    let u = unit(transfer(100), under(SpecName::Merge, vec![expectation(0, 0, 0, None)]));
    let first = execute_test_unit(&u);
    let second = execute_test_unit(&u);
    assert!(first.is_err());
    assert_eq!(first, second);
    let copy = u.clone();
    assert_eq!(execute_test_unit(&copy), first);
}

#[test]
fn transfer_beyond_balance_is_rejected_by_the_engine() {
    let mut tx = transfer(21000);
    tx.value = vec![U256::from_u64(10), U256::from_u64(101)];
    let post = under(
        SpecName::Cancun,
        vec![expectation(0, 0, 0, None), expectation(0, 0, 1, Some("TR_NoFunds"))],
    );
    let report = run_test_unit(&unit(tx.clone(), post));
    assert_eq!(report.verdict, Ok(()));
    assert_eq!(report.evaluated, 2);
    let post = under(SpecName::Cancun, vec![expectation(0, 0, 1, None)]);
    match execute_test_unit(&unit(tx, post)) {
        Err(CheckError::ExecutionMismatch(text)) => assert!(text.contains("lack of funds"), "{}", text),
        other => panic!("expected a mismatch, got {:?}", other),
    }
}

#[test]
fn contract_creation_runs_when_no_destination_is_given() {
    let mut tx = transfer(100_000);
    tx.to = None;
    tx.value = vec![U256::zero()];
    tx.data = vec![vec![0x60, 0x00, 0x60, 0x00, 0xf3]];
    let report = run_test_unit(&unit(tx, under(SpecName::Shanghai, vec![expectation(0, 0, 0, None)])));
    assert_eq!(report.verdict, Ok(()));
}

#[test]
fn gas_limit_beyond_64_bits_is_clamped_and_rejected_against_the_block() {
    let mut tx = transfer(21000);
    tx.gas_limit = vec![U256::from_limbs([0, 1, 0, 0])];
    let post = under(SpecName::Merge, vec![expectation(0, 0, 0, Some("TR_GasLimitReached"))]);
    assert_eq!(execute_test_unit(&unit(tx, post)), Ok(()));
}

#[test]
fn malformed_code_in_the_pre_state_is_a_decode_error() {
    let mut u = unit(transfer(21000), under(SpecName::Merge, vec![expectation(0, 0, 0, None)]));
    u.pre.push(PreAccount {
        address: address(0xdd),
        state: AccountState {
            balance: U256::zero(),
            nonce: 0,
            code: vec![0xef, 0x00, 0x01],
            storage: vec![],
        },
    });
    let report = run_test_unit(&u);
    assert_eq!(report.verdict, Err(CheckError::Decode));
    assert_eq!(report.evaluated, 0);
}
