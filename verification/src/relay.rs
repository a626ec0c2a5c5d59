//! The decisions of the relay that reads transactions from a chain and
//! forwards them as blobs: which transactions go on, which block is read
//! next, and how much gas a blob is given.

use crate::primitives::Address;
use vstd::prelude::*;
use vstd::string::StringExecFns;

verus! {

/// The seconds to wait when a block is not there yet or cannot be read.
pub const BLOCK_RETRY_SECONDS: u64 = 5;

/// The gas that every blob costs, whatever its size.
pub const FIXED_GAS_COST: usize = 75000;

/// The gas that each byte of a share costs.
pub const GAS_PER_BYTE: usize = 20;

/// The price of a unit of gas.
pub const GAS_PRICE: u64 = 1;

/// Whether a transaction to `to` is forwarded: every transaction where no
/// destination is asked for, else those that go to that destination.
pub open spec fn spec_forwards(target: Option<Seq<u8>>, to: Option<Seq<u8>>) -> bool {
    match target {
        Some(wanted) => to == Some(wanted),
        None => true,
    }
}

/// Whether a transaction to `to` is forwarded.
pub fn forwards(target: &Option<Address>, to: &Option<Address>) -> (r: bool)
    ensures
        r == spec_forwards(target.deep_view(), to.deep_view()),
{
    match target {
        Some(wanted) => match to {
            Some(address) => address.same_as(wanted),
            None => false,
        },
        None => true,
    }
}

/// The positions of the transactions of a block that are forwarded, in
/// the order of the block.
pub open spec fn spec_forwarded(target: Option<Seq<u8>>, tos: Seq<Option<Seq<u8>>>) -> Seq<int>
    decreases tos.len(),
{
    if tos.len() == 0 {
        Seq::empty()
    } else {
        let before = spec_forwarded(target, tos.drop_last());
        if spec_forwards(target, tos.last()) {
            before.push(tos.len() - 1)
        } else {
            before
        }
    }
}

/// Selects the transactions of a block that are forwarded, by position
/// and in the order of the block.
pub fn select_forwarded(target: &Option<Address>, tos: &Vec<Option<Address>>) -> (r: Vec<usize>)
    ensures
        r@.len() == spec_forwarded(target.deep_view(), tos.deep_view()).len(),
        forall|k: int|
            0 <= k < r@.len() ==> r@[k] as int == spec_forwarded(
                target.deep_view(),
                tos.deep_view(),
            )[k],
{
    let mut r: Vec<usize> = Vec::new();
    let mut i: usize = 0;
    while i < tos.len()
        invariant
            i <= tos.len(),
            r@.len() == spec_forwarded(target.deep_view(), tos.deep_view().take(i as int)).len(),
            forall|k: int|
                0 <= k < r@.len() ==> r@[k] as int == spec_forwarded(
                    target.deep_view(),
                    tos.deep_view().take(i as int),
                )[k],
        decreases tos.len() - i,
    {
        proof {
            let prefix = tos.deep_view().take(i + 1);
            assert(prefix.drop_last() =~= tos.deep_view().take(i as int));
            assert(prefix.last() == tos[i as int].deep_view());
        }
        if forwards(target, &tos[i]) {
            r.push(i);
        }
        i = i + 1;
    }
    assert(tos.deep_view().take(i as int) =~= tos.deep_view());
    r
}

/// What reading a block gave.
#[derive(Clone, Copy, Debug, PartialEq, Eq)]
pub enum Fetched {
    /// The block is there.
    Found,
    /// The block is not there yet.
    Missing,
    /// The block could not be read.
    Failed,
}

/// What follows the reading of a block.
#[derive(Clone, Copy, Debug, PartialEq, Eq)]
pub struct ScanStep {
    /// The height to read next.
    pub next_height: u64,
    /// The seconds to wait before reading.
    pub wait_seconds: u64,
}

/// After a block that was found comes the next one, at once. A block that
/// was not found or not read is read again after a wait.
pub open spec fn spec_after_fetch(height: u64, fetched: Fetched) -> ScanStep {
    match fetched {
        Fetched::Found => ScanStep { next_height: (height + 1) as u64, wait_seconds: 0 },
        _ => ScanStep { next_height: height, wait_seconds: BLOCK_RETRY_SECONDS },
    }
}

/// Decides which height is read next, and after what wait.
pub fn after_fetch(height: u64, fetched: Fetched) -> (r: ScanStep)
    requires
        fetched is Found ==> height < u64::MAX,
    ensures
        r == spec_after_fetch(height, fetched),
        fetched is Found ==> r.next_height == height + 1,
{
    match fetched {
        Fetched::Found => ScanStep { next_height: height + 1, wait_seconds: 0 },
        _ => ScanStep { next_height: height, wait_seconds: BLOCK_RETRY_SECONDS },
    }
}

/// How a blob is cut into shares.
#[derive(Clone, Copy, Debug, PartialEq, Eq)]
pub struct ShareGeometry {
    /// The bytes of a blob that its first share holds.
    pub first_share_content: usize,
    /// The bytes of a blob that each further share holds.
    pub continuation_share_content: usize,
    /// The size of a share.
    pub share_size: usize,
}

/// The shares that are paid for a blob of `n` bytes: the first, those
/// that the rest of the blob fills, and one more.
pub open spec fn spec_shares_needed(n: nat, geometry: ShareGeometry) -> nat {
    let rest: nat = if n > geometry.first_share_content {
        (n - geometry.first_share_content) as nat
    } else {
        0
    };
    1 + rest / (geometry.continuation_share_content as nat) + 1
}

/// The gas limit for a blob of `n` bytes: the fixed cost, and the cost of
/// every byte of every share that is paid for.
pub open spec fn spec_gas_limit_for_bytes(n: nat, geometry: ShareGeometry) -> nat {
    FIXED_GAS_COST as nat + spec_shares_needed(n, geometry) * (geometry.share_size as nat) * (
    GAS_PER_BYTE as nat)
}

/// Computes the gas limit for a blob of `n` bytes. Nothing is returned
/// where the limit does not fit the machine's word.
pub fn get_gas_limit_for_bytes(n: usize, geometry: &ShareGeometry) -> (r: Option<usize>)
    requires
        geometry.continuation_share_content > 0,
    ensures
        match r {
            Some(limit) => limit == spec_gas_limit_for_bytes(n as nat, *geometry),
            None => spec_gas_limit_for_bytes(n as nat, *geometry) > usize::MAX,
        },
{
    let rest: usize = if n > geometry.first_share_content {
        n - geometry.first_share_content
    } else {
        0
    };
    let continuation: usize = rest / geometry.continuation_share_content;
    let ghost shares: nat = spec_shares_needed(n as nat, *geometry);
    let ghost size: nat = geometry.share_size as nat;
    assert(shares == continuation + 2);
    proof {
        lemma_share_gas(shares, size);
    }
    if geometry.share_size == 0 {
        return Some(FIXED_GAS_COST);
    }
    let shares_needed: usize = match continuation.checked_add(2) {
        Some(s) => s,
        None => {
            return None;
        },
    };
    let share_bytes: usize = match shares_needed.checked_mul(geometry.share_size) {
        Some(b) => b,
        None => {
            return None;
        },
    };
    let share_gas: usize = match share_bytes.checked_mul(GAS_PER_BYTE) {
        Some(g) => g,
        None => {
            return None;
        },
    };
    FIXED_GAS_COST.checked_add(share_gas)
}

/// The gas of the shares is nothing where a share has no byte, and
/// otherwise at least the number of shares and at least their bytes.
proof fn lemma_share_gas(shares: nat, size: nat)
    ensures
        size == 0 ==> shares * size * (GAS_PER_BYTE as nat) == 0,
        size >= 1 ==> shares * size * (GAS_PER_BYTE as nat) >= shares * size,
        size >= 1 ==> shares * size >= shares,
        shares * size * (GAS_PER_BYTE as nat) == (shares * size) * (GAS_PER_BYTE as nat),
{
    assert(size == 0 ==> shares * size * 20 == 0) by (nonlinear_arith);
    assert(size >= 1 ==> shares * size * 20 >= shares * size) by (nonlinear_arith);
    assert(size >= 1 ==> shares * size >= shares) by (nonlinear_arith);
}

/// The fee for a gas limit at the fixed price. Nothing is returned where
/// the fee does not fit in 64 bits.
pub fn fee_for_gas(gas_limit: u64) -> (r: Option<u64>)
    ensures
        match r {
            Some(fee) => fee == gas_limit * GAS_PRICE,
            None => gas_limit * GAS_PRICE > u64::MAX,
        },
{
    gas_limit.checked_mul(GAS_PRICE)
}

/// The address at which the blob network's service is looked for where
/// none is configured.
pub fn default_rpc_addr() -> (r: String)
    ensures
        r@ == "http://localhost:11111/"@,
{
    String::from_str("http://localhost:11111/")
}

/// The largest answer that is taken from the blob network's service where
/// no size is configured: 100 MiB, in bytes.
pub fn default_max_response_size() -> (r: u32)
    ensures
        r == 104857600,
{
    1024 * 1024 * 100
}

/// The seconds that a request to the blob network's service may take
/// where no time is configured.
pub fn default_request_timeout_seconds() -> (r: u64)
    ensures
        r == 60,
{
    60
}

} // verus!
