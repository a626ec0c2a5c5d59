//! The environment that the engine runs a transaction in: the chain, the
//! block and the transaction.

use crate::blob::{
    blob_gas_in_range, blob_gasprice, calc_blob_gasprice, excess_blob_gas_and_price,
    spec_blob_gas_in_range, spec_calc_excess_blob_gas,
};
use crate::model::{
    AccessListItem, AccessListItemView, BlockEnv, BlockEnvView, TransactionTemplate,
    TransactionTemplateView,
};
use crate::primitives::{Address, B256, U256};
use crate::variant::{TransactTo, TransactToView, TxVariant, TxVariantView};
use vstd::prelude::*;

verus! {

/// The chain that units are checked for.
pub const CHAIN_ID: u64 = 1;

/// How the engine is configured.
#[derive(Clone, Copy, Debug, PartialEq, Eq)]
pub struct CfgContext {
    pub chain_id: u64,
    /// Whether the check of a transaction's fee against the base fee is
    /// switched off.
    pub disable_base_fee: bool,
}

/// The block, as the engine takes it.
#[derive(Clone, Copy, Debug, PartialEq, Eq)]
pub struct BlockContext {
    pub number: U256,
    pub coinbase: Address,
    pub timestamp: U256,
    pub gas_limit: U256,
    pub basefee: U256,
    pub difficulty: U256,
    pub prevrandao: Option<B256>,
    pub excess_blob_gas: u64,
    pub blob_gasprice: u128,
}

pub struct BlockContextView {
    pub number: nat,
    pub coinbase: Seq<u8>,
    pub timestamp: nat,
    pub gas_limit: nat,
    pub basefee: nat,
    pub difficulty: nat,
    pub prevrandao: Option<Seq<u8>>,
    pub excess_blob_gas: u64,
    pub blob_gasprice: u128,
}

impl View for BlockContext {
    type V = BlockContextView;

    open spec fn view(&self) -> BlockContextView {
        BlockContextView {
            number: self.number@,
            coinbase: self.coinbase@,
            timestamp: self.timestamp@,
            gas_limit: self.gas_limit@,
            basefee: self.basefee@,
            difficulty: self.difficulty@,
            prevrandao: self.prevrandao.deep_view(),
            excess_blob_gas: self.excess_blob_gas,
            blob_gasprice: self.blob_gasprice,
        }
    }
}

/// The transaction, as the engine takes it. The engine checks no nonce and
/// no chain id of the transaction, and no authorization list goes with it.
#[derive(Clone, Debug, PartialEq, Eq)]
pub struct TxContext {
    pub caller: Address,
    pub gas_limit: u64,
    pub gas_price: U256,
    pub transact_to: TransactTo,
    pub value: U256,
    pub data: Vec<u8>,
    pub access_list: Vec<AccessListItem>,
    pub gas_priority_fee: Option<U256>,
    pub blob_hashes: Vec<B256>,
    pub max_fee_per_blob_gas: Option<U256>,
}

pub struct TxContextView {
    pub caller: Seq<u8>,
    pub gas_limit: u64,
    pub gas_price: nat,
    pub transact_to: TransactToView,
    pub value: nat,
    pub data: Seq<u8>,
    pub access_list: Seq<AccessListItemView>,
    pub gas_priority_fee: Option<nat>,
    pub blob_hashes: Seq<Seq<u8>>,
    pub max_fee_per_blob_gas: Option<nat>,
}

impl View for TxContext {
    type V = TxContextView;

    open spec fn view(&self) -> TxContextView {
        TxContextView {
            caller: self.caller@,
            gas_limit: self.gas_limit,
            gas_price: self.gas_price@,
            transact_to: self.transact_to@,
            value: self.value@,
            data: self.data@,
            access_list: self.access_list.deep_view(),
            gas_priority_fee: self.gas_priority_fee.deep_view(),
            blob_hashes: self.blob_hashes.deep_view(),
            max_fee_per_blob_gas: self.max_fee_per_blob_gas.deep_view(),
        }
    }
}

/// All that the engine is told before it runs one transaction.
#[derive(Clone, Debug, PartialEq, Eq)]
pub struct ExecEnv {
    pub cfg: CfgContext,
    pub block: BlockContext,
    pub tx: TxContext,
}

pub struct ExecEnvView {
    pub cfg: CfgContext,
    pub block: BlockContextView,
    pub tx: TxContextView,
}

impl View for ExecEnv {
    type V = ExecEnvView;

    open spec fn view(&self) -> ExecEnvView {
        ExecEnvView { cfg: self.cfg, block: self.block@, tx: self.tx@ }
    }
}

/// The configuration that every unit is checked under: chain 1, with the
/// base-fee check switched off.
pub open spec fn spec_cfg() -> CfgContext {
    CfgContext { chain_id: CHAIN_ID, disable_base_fee: true }
}

impl BlockEnvView {
    /// Whether the parent's blob gas, where the block gives both of its
    /// parts, leads to an excess for which a price is computed. Both
    /// parts then fit in 64 bits.
    pub open spec fn blob_gas_in_range(self) -> bool {
        match (self.parent_blob_gas_used, self.parent_excess_blob_gas) {
            (Some(used), Some(excess)) => spec_blob_gas_in_range(excess, used),
            _ => true,
        }
    }

    /// The excess blob gas of the block: computed from the parent where
    /// both of its parts are given, zero otherwise.
    pub open spec fn excess_blob_gas(self) -> u64 {
        match (self.parent_blob_gas_used, self.parent_excess_blob_gas) {
            (Some(used), Some(excess)) => spec_calc_excess_blob_gas(excess, used) as u64,
            _ => 0,
        }
    }
}

/// The value of an optional integer, zero where it is absent.
pub open spec fn or_zero(value: Option<nat>) -> nat {
    match value {
        Some(v) => v,
        None => 0,
    }
}

/// The block that the engine is given for a unit's block.
pub open spec fn spec_block_context(env: BlockEnvView) -> BlockContextView {
    BlockContextView {
        number: env.current_number,
        coinbase: env.current_coinbase,
        timestamp: env.current_timestamp,
        gas_limit: env.current_gas_limit,
        basefee: or_zero(env.current_base_fee),
        difficulty: env.current_difficulty,
        prevrandao: env.current_random,
        excess_blob_gas: env.excess_blob_gas(),
        blob_gasprice: blob_gasprice(env.excess_blob_gas()),
    }
}

/// The gas price of a transaction: its gas price where it has one, else
/// its maximal fee per gas, else zero.
pub open spec fn spec_gas_price(tx: TransactionTemplateView) -> nat {
    match tx.gas_price {
        Some(price) => price,
        None => or_zero(tx.max_fee_per_gas),
    }
}

/// The transaction that the engine is given for a template, its sender
/// and one of its variants.
pub open spec fn spec_tx_context(
    tx: TransactionTemplateView,
    caller: Seq<u8>,
    variant: TxVariantView,
) -> TxContextView {
    TxContextView {
        caller,
        gas_limit: variant.gas_limit,
        gas_price: spec_gas_price(tx),
        transact_to: variant.transact_to,
        value: variant.value,
        data: variant.data,
        access_list: variant.access_list,
        gas_priority_fee: tx.max_priority_fee_per_gas,
        blob_hashes: tx.blob_versioned_hashes,
        max_fee_per_blob_gas: tx.max_fee_per_blob_gas,
    }
}

/// The variant that stands in an environment before an expectation has
/// selected one: a call to the zero address that moves nothing.
pub open spec fn spec_idle_variant() -> TxVariantView {
    TxVariantView {
        data: Seq::empty(),
        gas_limit: u64::MAX,
        value: 0,
        access_list: Seq::empty(),
        transact_to: TransactToView::Call(Seq::new(20, |i: int| 0u8)),
    }
}

/// The environment of a unit before an expectation has selected a
/// variant.
pub open spec fn spec_base_env(
    env: BlockEnvView,
    tx: TransactionTemplateView,
    caller: Seq<u8>,
) -> ExecEnvView {
    ExecEnvView {
        cfg: spec_cfg(),
        block: spec_block_context(env),
        tx: spec_tx_context(tx, caller, spec_idle_variant()),
    }
}

/// An environment with the fields of a variant laid over it.
pub open spec fn spec_overlay(base: ExecEnvView, variant: TxVariantView) -> ExecEnvView {
    ExecEnvView {
        cfg: base.cfg,
        block: base.block,
        tx: TxContextView {
            gas_limit: variant.gas_limit,
            transact_to: variant.transact_to,
            value: variant.value,
            data: variant.data,
            access_list: variant.access_list,
            ..base.tx
        },
    }
}

impl BlockEnv {
    /// Whether the parent's blob gas is in the range for which a price is
    /// computed. True where the block does not give both of its parts.
    pub fn blob_gas_in_range(&self) -> (r: bool)
        ensures
            r == self@.blob_gas_in_range(),
    {
        match (self.parent_blob_gas_used, self.parent_excess_blob_gas) {
            (Some(used), Some(excess)) => match (used.to_u64(), excess.to_u64()) {
                (Some(used), Some(excess)) => blob_gas_in_range(excess, used),
                _ => false,
            },
            _ => true,
        }
    }
}

/// Builds the block that the engine is given. The blob-gas fields are
/// computed only where the block gives both the blob gas that its parent
/// used and the parent's excess; with one of them or none they are those of
/// an excess of zero.
pub fn build_block_context(env: &BlockEnv) -> (r: BlockContext)
    requires
        env@.blob_gas_in_range(),
    ensures
        r@ == spec_block_context(env@),
        (env.parent_blob_gas_used is None || env.parent_excess_blob_gas is None) ==> (
        r.excess_blob_gas == 0 && r.blob_gasprice == blob_gasprice(0)),
{
    let basefee = match env.current_base_fee {
        Some(fee) => fee,
        None => U256::zero(),
    };
    let (excess_blob_gas, blob_gasprice) = match (
        env.parent_blob_gas_used,
        env.parent_excess_blob_gas,
    ) {
        (Some(used), Some(excess)) => excess_blob_gas_and_price(
            excess.saturating_to_u64(),
            used.saturating_to_u64(),
        ),
        _ => (0, calc_blob_gasprice(0)),
    };
    BlockContext {
        number: env.current_number,
        coinbase: env.current_coinbase,
        timestamp: env.current_timestamp,
        gas_limit: env.current_gas_limit,
        basefee,
        difficulty: env.current_difficulty,
        prevrandao: env.current_random,
        excess_blob_gas,
        blob_gasprice,
    }
}

/// The gas price of a transaction.
pub fn gas_price(tx: &TransactionTemplate) -> (r: U256)
    ensures
        r@ == spec_gas_price(tx@),
{
    match tx.gas_price {
        Some(price) => price,
        None => match tx.max_fee_per_gas {
            Some(fee) => fee,
            None => U256::zero(),
        },
    }
}

/// Builds the environment of a unit, with no variant selected yet.
pub fn build_base_env(env: &BlockEnv, tx: &TransactionTemplate, caller: Address) -> (r: ExecEnv)
    requires
        env@.blob_gas_in_range(),
    ensures
        r@ == spec_base_env(env@, tx@, caller@),
{
    let blob_hashes = tx.blob_versioned_hashes.clone();
    let zero = Address { bytes: [0u8; 20] };
    let r = ExecEnv {
        cfg: CfgContext { chain_id: CHAIN_ID, disable_base_fee: true },
        block: build_block_context(env),
        tx: TxContext {
            caller,
            gas_limit: u64::MAX,
            gas_price: gas_price(tx),
            transact_to: TransactTo::Call(zero),
            value: U256::zero(),
            data: Vec::new(),
            access_list: Vec::new(),
            gas_priority_fee: tx.max_priority_fee_per_gas,
            blob_hashes,
            max_fee_per_blob_gas: tx.max_fee_per_blob_gas,
        },
    };
    proof {
        assert(zero@ =~= Seq::new(20, |i: int| 0u8));
        assert(r.tx.blob_hashes.deep_view() =~= tx.blob_versioned_hashes.deep_view());
        assert(r.tx.access_list.deep_view() =~= Seq::<AccessListItemView>::empty());
        assert(r.tx.data@ =~= Seq::<u8>::empty());
    }
    r
}

/// Lays the fields of a variant over a copy of an environment.
pub fn overlay_variant(base: &ExecEnv, variant: TxVariant) -> (r: ExecEnv)
    ensures
        r@ == spec_overlay(base@, variant@),
{
    let blob_hashes = base.tx.blob_hashes.clone();
    let r = ExecEnv {
        cfg: base.cfg,
        block: base.block,
        tx: TxContext {
            caller: base.tx.caller,
            gas_limit: variant.gas_limit,
            gas_price: base.tx.gas_price,
            transact_to: variant.transact_to,
            value: variant.value,
            data: variant.data,
            access_list: variant.access_list,
            gas_priority_fee: base.tx.gas_priority_fee,
            blob_hashes,
            max_fee_per_blob_gas: base.tx.max_fee_per_blob_gas,
        },
    };
    proof {
        assert(r.tx.blob_hashes.deep_view() =~= base.tx.blob_hashes.deep_view());
    }
    r
}

} // verus!
