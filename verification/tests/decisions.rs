use transition_check::pipeline::{
    after_proof, decide_block, should_prove, Acquisition, BlockAction, BlockDecision, ProofAction,
    ProofResult, ACQUISITION_RETRY_SECONDS,
};
use transition_check::primitives::Address;
use transition_check::relay::{
    after_fetch, default_max_response_size, default_request_timeout_seconds, default_rpc_addr,
    fee_for_gas, forwards, get_gas_limit_for_bytes, select_forwarded, Fetched, ScanStep,
    ShareGeometry, BLOCK_RETRY_SECONDS,
};

#[test]
fn acquired_block_with_units_is_proved() {
    assert_eq!(
        decide_block(7, Acquisition::Acquired { units: 2 }, true),
        BlockDecision { action: BlockAction::Prove, next_block_no: 8, repeat: true }
    );
}

#[test]
fn acquired_block_without_units_is_skipped() {
    assert_eq!(
        decide_block(7, Acquisition::Acquired { units: 0 }, false),
        BlockDecision { action: BlockAction::Skip, next_block_no: 8, repeat: false }
    );
}

#[test]
fn failed_acquisition_waits_and_asks_again() {
    assert_eq!(ACQUISITION_RETRY_SECONDS, 10);
    assert_eq!(
        decide_block(7, Acquisition::Failed, true),
        BlockDecision { action: BlockAction::Wait { seconds: 10 }, next_block_no: 7, repeat: true }
    );
    assert_eq!(
        decide_block(u64::MAX, Acquisition::Failed, false),
        BlockDecision { action: BlockAction::Wait { seconds: 10 }, next_block_no: u64::MAX, repeat: false }
    );
}

#[test]
fn proving_needs_a_program() {
    assert!(!should_prove(""));
    assert!(should_prove("program.elf"));
}

#[test]
fn proof_is_saved_unless_only_execution_was_asked() {
    assert_eq!(
        after_proof(ProofResult::Proved { proof_len: 10 }, false, 65536),
        ProofAction::Save { advise_seg_size: None }
    );
    assert_eq!(
        after_proof(ProofResult::Proved { proof_len: 0 }, false, 65536),
        ProofAction::Save { advise_seg_size: Some(32768) }
    );
    assert_eq!(after_proof(ProofResult::Proved { proof_len: 0 }, true, 65536), ProofAction::Discard);
    assert_eq!(after_proof(ProofResult::Proved { proof_len: 9 }, true, 65536), ProofAction::Discard);
    assert_eq!(after_proof(ProofResult::Nothing, false, 1), ProofAction::ReportNothing);
    assert_eq!(after_proof(ProofResult::Failed, true, 1), ProofAction::ReportError);
}

#[test]
fn every_transaction_is_forwarded_without_a_target() {
    let a = Some(Address::new([1; 20]));
    assert!(forwards(&None, &a));
    assert!(forwards(&None, &None));
}

#[test]
fn only_transactions_to_the_target_are_forwarded() {
    let target = Some(Address::new([1; 20]));
    assert!(forwards(&target, &Some(Address::new([1; 20]))));
    assert!(!forwards(&target, &Some(Address::new([2; 20]))));
    assert!(!forwards(&target, &None));
}

#[test]
fn forwarded_positions_keep_block_order() {
    let one = Some(Address::new([1; 20]));
    let two = Some(Address::new([2; 20]));
    let tos = vec![two, one, None, one, two, one];
    assert_eq!(select_forwarded(&one, &tos), vec![1, 3, 5]);
    assert_eq!(select_forwarded(&two, &tos), vec![0, 4]);
    assert_eq!(select_forwarded(&None, &tos), vec![0, 1, 2, 3, 4, 5]);
    assert_eq!(select_forwarded(&one, &vec![]), Vec::<usize>::new());
    assert_eq!(select_forwarded(&Some(Address::new([3; 20])), &tos), Vec::<usize>::new());
}

#[test]
fn found_block_moves_on_at_once() {
    assert_eq!(after_fetch(41, Fetched::Found), ScanStep { next_height: 42, wait_seconds: 0 });
}

#[test]
fn missing_or_unread_block_is_read_again_after_a_wait() {
    assert_eq!(BLOCK_RETRY_SECONDS, 5);
    assert_eq!(after_fetch(41, Fetched::Missing), ScanStep { next_height: 41, wait_seconds: 5 });
    assert_eq!(after_fetch(41, Fetched::Failed), ScanStep { next_height: 41, wait_seconds: 5 });
    assert_eq!(
        after_fetch(u64::MAX, Fetched::Missing),
        ScanStep { next_height: u64::MAX, wait_seconds: 5 }
    );
}

fn geometry() -> ShareGeometry {
    ShareGeometry { first_share_content: 478, continuation_share_content: 482, share_size: 512 }
}

#[test]
fn gas_limit_counts_two_shares_for_a_small_blob() {
    assert_eq!(get_gas_limit_for_bytes(0, &geometry()), Some(75000 + 2 * 512 * 20));
    assert_eq!(get_gas_limit_for_bytes(478, &geometry()), Some(75000 + 2 * 512 * 20));
    assert_eq!(get_gas_limit_for_bytes(478 + 481, &geometry()), Some(95480));
}

#[test]
fn gas_limit_grows_by_a_share_per_continuation() {
    assert_eq!(get_gas_limit_for_bytes(478 + 482, &geometry()), Some(75000 + 3 * 512 * 20));
    assert_eq!(get_gas_limit_for_bytes(478 + 10 * 482 + 5, &geometry()), Some(75000 + 12 * 512 * 20));
}

#[test]
fn gas_limit_that_does_not_fit_is_nothing() {
    let wide = ShareGeometry { first_share_content: 0, continuation_share_content: 1, share_size: usize::MAX };
    assert_eq!(get_gas_limit_for_bytes(10, &wide), None);
    let flat = ShareGeometry { first_share_content: 0, continuation_share_content: 1, share_size: 0 };
    assert_eq!(get_gas_limit_for_bytes(usize::MAX, &flat), Some(75000));
    let unit = ShareGeometry { first_share_content: 0, continuation_share_content: 1, share_size: 1 };
    assert_eq!(get_gas_limit_for_bytes(usize::MAX, &unit), None);
}

#[test]
fn fee_is_gas_at_price_one() {
    assert_eq!(fee_for_gas(95480), Some(95480));
    assert_eq!(fee_for_gas(0), Some(0));
    assert_eq!(fee_for_gas(u64::MAX), Some(u64::MAX));
}

#[test]
fn service_defaults() {
    assert_eq!(default_rpc_addr(), "http://localhost:11111/");
    assert_eq!(default_max_response_size(), 100 * 1024 * 1024);
    assert_eq!(default_request_timeout_seconds(), 60);
}
