//! The decisions of the loop that acquires blocks, checks them and hands
//! them on for proving. The loop itself, with its waiting and its calls to
//! the block source and the prover, is the caller's; what to do next is
//! decided here.

use vstd::prelude::*;

verus! {

/// The seconds to wait after a block could not be acquired.
pub const ACQUISITION_RETRY_SECONDS: u64 = 10;

/// What asking the block source for a block gave.
#[derive(Clone, Copy, Debug, PartialEq, Eq)]
pub enum Acquisition {
    /// A suite with so many units.
    Acquired { units: usize },
    /// The block could not be had.
    Failed,
}

/// What to do with the block that was asked for.
#[derive(Clone, Copy, Debug, PartialEq, Eq)]
pub enum BlockAction {
    /// Check the suite and hand it on for proving.
    Prove,
    /// Nothing: the block holds no transaction.
    Skip,
    /// Wait for so many seconds.
    Wait { seconds: u64 },
}

/// What follows the acquisition of a block.
#[derive(Clone, Copy, Debug, PartialEq, Eq)]
pub struct BlockDecision {
    pub action: BlockAction,
    /// The block to ask for next.
    pub next_block_no: u64,
    /// Whether to go round the loop again.
    pub repeat: bool,
}

/// A block that was acquired is proved where it holds a unit and passed
/// over where it holds none, and the next block follows. A block that was
/// not acquired is asked for again after a wait. The loop goes on only
/// where it was asked to.
pub open spec fn spec_decide_block(
    block_no: u64,
    acquisition: Acquisition,
    prove_loop: bool,
) -> BlockDecision {
    match acquisition {
        Acquisition::Acquired { units } => BlockDecision {
            action: if units > 0 {
                BlockAction::Prove
            } else {
                BlockAction::Skip
            },
            next_block_no: (block_no + 1) as u64,
            repeat: prove_loop,
        },
        Acquisition::Failed => BlockDecision {
            action: BlockAction::Wait { seconds: ACQUISITION_RETRY_SECONDS },
            next_block_no: block_no,
            repeat: prove_loop,
        },
    }
}

/// Decides what follows the acquisition of a block.
pub fn decide_block(block_no: u64, acquisition: Acquisition, prove_loop: bool) -> (r: BlockDecision)
    requires
        acquisition is Acquired ==> block_no < u64::MAX,
    ensures
        r == spec_decide_block(block_no, acquisition, prove_loop),
        acquisition is Acquired ==> r.next_block_no == block_no + 1,
{
    match acquisition {
        Acquisition::Acquired { units } => BlockDecision {
            action: if units > 0 {
                BlockAction::Prove
            } else {
                BlockAction::Skip
            },
            next_block_no: block_no + 1,
            repeat: prove_loop,
        },
        Acquisition::Failed => BlockDecision {
            action: BlockAction::Wait { seconds: ACQUISITION_RETRY_SECONDS },
            next_block_no: block_no,
            repeat: prove_loop,
        },
    }
}

/// Whether a checked suite is handed to the prover: only where a program
/// to prove is named.
pub fn should_prove(elf_path: &str) -> (r: bool)
    ensures
        r == (elf_path@.len() > 0),
{
    elf_path.unicode_len() > 0
}

/// What the prover gave.
#[derive(Clone, Copy, Debug, PartialEq, Eq)]
pub enum ProofResult {
    /// A result, with a proof of so many bytes.
    Proved { proof_len: usize },
    /// No result.
    Nothing,
    /// An error.
    Failed,
}

/// What to do with what the prover gave.
#[derive(Clone, Copy, Debug, PartialEq, Eq)]
pub enum ProofAction {
    /// Write the proof out. Where the proof is empty, a smaller segment
    /// size is advised.
    Save { advise_seg_size: Option<u32> },
    /// Keep nothing: only execution was asked for.
    Discard,
    /// Report that there is no result.
    ReportNothing,
    /// Report the error.
    ReportError,
}

/// A proof is written out unless only execution was asked for; an empty
/// proof is written out too, with the advice to halve the segment size.
pub open spec fn spec_after_proof(result: ProofResult, execute_only: bool, seg_size: u32) -> ProofAction {
    match result {
        ProofResult::Proved { proof_len } => if execute_only {
            ProofAction::Discard
        } else {
            ProofAction::Save {
                advise_seg_size: if proof_len == 0 {
                    Some(seg_size / 2)
                } else {
                    None
                },
            }
        },
        ProofResult::Nothing => ProofAction::ReportNothing,
        ProofResult::Failed => ProofAction::ReportError,
    }
}

/// Decides what to do with what the prover gave.
pub fn after_proof(result: ProofResult, execute_only: bool, seg_size: u32) -> (r: ProofAction)
    ensures
        r == spec_after_proof(result, execute_only, seg_size),
{
    match result {
        ProofResult::Proved { proof_len } => if execute_only {
            ProofAction::Discard
        } else {
            ProofAction::Save {
                advise_seg_size: if proof_len == 0 {
                    Some(seg_size / 2)
                } else {
                    None
                },
            }
        },
        ProofResult::Nothing => ProofAction::ReportNothing,
        ProofResult::Failed => ProofAction::ReportError,
    }
}

} // verus!
