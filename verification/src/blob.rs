//! The blob-gas fee market: the excess blob gas of a block and the price
//! that follows from it.

use vstd::prelude::*;

verus! {

/// The blob gas that a block is meant to use.
pub const TARGET_BLOB_GAS_PER_BLOCK: u64 = 393216;

/// The largest excess blob gas for which the price is computed. The price
/// is a truncated series in 128-bit arithmetic; up to this excess every
/// sum and product in it fits, and at the next excess, 192,204,553, a
/// product passes `2^128`.
pub const MAX_EXCESS_BLOB_GAS: u64 = 192204552;

/// The excess blob gas of a block whose parent had the given excess and
/// used the given blob gas: what the two exceed the target by.
pub open spec fn spec_calc_excess_blob_gas(parent_excess: nat, parent_used: nat) -> nat {
    if parent_excess + parent_used >= TARGET_BLOB_GAS_PER_BLOCK {
        (parent_excess + parent_used - TARGET_BLOB_GAS_PER_BLOCK) as nat
    } else {
        0
    }
}

/// Whether the excess blob gas that follows from a parent is one for which
/// a price is computed.
pub open spec fn spec_blob_gas_in_range(parent_excess: nat, parent_used: nat) -> bool {
    parent_excess + parent_used <= MAX_EXCESS_BLOB_GAS + TARGET_BLOB_GAS_PER_BLOCK
}

/// The price of blob gas in a block with the given excess blob gas.
pub uninterp spec fn blob_gasprice(excess_blob_gas: u64) -> u128;

/// Calls `revm::primitives::calc_excess_blob_gas`.
///
/// Trusted: the result is the sum of the two arguments less the target,
/// and zero where the sum is below the target. The sum is required to fit
/// in 64 bits.
#[verifier::external_body]
pub(crate) fn calc_excess_blob_gas(parent_excess: u64, parent_used: u64) -> (r: u64)
    requires
        parent_excess + parent_used <= u64::MAX,
    ensures
        r == spec_calc_excess_blob_gas(parent_excess as nat, parent_used as nat),
{
    revm::primitives::calc_excess_blob_gas(parent_excess, parent_used)
}

/// Calls `revm::primitives::calc_blob_gasprice`.
///
/// Trusted: the result is the price that the engine derives from the
/// excess blob gas. The excess is required to stay within
/// [`MAX_EXCESS_BLOB_GAS`], where the computation cannot overflow.
#[verifier::external_body]
pub(crate) fn calc_blob_gasprice(excess_blob_gas: u64) -> (r: u128)
    requires
        excess_blob_gas <= MAX_EXCESS_BLOB_GAS,
    ensures
        r == blob_gasprice(excess_blob_gas),
{
    revm::primitives::calc_blob_gasprice(excess_blob_gas)
}

/// Whether a price is computed for the block that follows a parent with
/// the given excess and use.
pub fn blob_gas_in_range(parent_excess: u64, parent_used: u64) -> (r: bool)
    ensures
        r == spec_blob_gas_in_range(parent_excess as nat, parent_used as nat),
{
    let limit: u64 = MAX_EXCESS_BLOB_GAS + TARGET_BLOB_GAS_PER_BLOCK;
    parent_excess <= limit && parent_used <= limit - parent_excess
}

/// The excess blob gas of the block that follows a parent, and its price.
pub fn excess_blob_gas_and_price(parent_excess: u64, parent_used: u64) -> (r: (u64, u128))
    requires
        spec_blob_gas_in_range(parent_excess as nat, parent_used as nat),
    ensures
        r.0 == spec_calc_excess_blob_gas(parent_excess as nat, parent_used as nat),
        r.1 == blob_gasprice(r.0),
{
    let excess = calc_excess_blob_gas(parent_excess, parent_used);
    (excess, calc_blob_gasprice(excess))
}

} // verus!
