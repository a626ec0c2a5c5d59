//! From the index triple of an expectation to the variant of the
//! transaction that it selects.

use crate::error::{CheckError, CheckErrorView};
use crate::model::{
    duplicate_access_list, AccessListItem, AccessListItemView, TransactionTemplate,
    TransactionTemplateView, TxPartIndices,
};
use crate::primitives::{saturate_u64, Address, U256};
use vstd::prelude::*;

verus! {

/// Where a transaction goes: to an account, or into the creation of a
/// contract.
#[derive(Clone, Copy, Debug, PartialEq, Eq)]
pub enum TransactTo {
    Call(Address),
    Create,
}

pub enum TransactToView {
    Call(Seq<u8>),
    Create,
}

impl View for TransactTo {
    type V = TransactToView;

    open spec fn view(&self) -> TransactToView {
        match *self {
            TransactTo::Call(address) => TransactToView::Call(address@),
            TransactTo::Create => TransactToView::Create,
        }
    }
}

/// The fields of a transaction that an expectation selects.
#[derive(Clone, Debug, PartialEq, Eq)]
pub struct TxVariant {
    pub data: Vec<u8>,
    pub gas_limit: u64,
    pub value: U256,
    pub access_list: Vec<AccessListItem>,
    pub transact_to: TransactTo,
}

pub struct TxVariantView {
    pub data: Seq<u8>,
    pub gas_limit: u64,
    pub value: nat,
    pub access_list: Seq<AccessListItemView>,
    pub transact_to: TransactToView,
}

impl View for TxVariant {
    type V = TxVariantView;

    open spec fn view(&self) -> TxVariantView {
        TxVariantView {
            data: self.data@,
            gas_limit: self.gas_limit,
            value: self.value@,
            access_list: self.access_list.deep_view(),
            transact_to: self.transact_to@,
        }
    }
}

/// Whether each index of the triple selects a candidate that exists.
pub open spec fn spec_indices_in_range(tx: TransactionTemplateView, indexes: TxPartIndices) -> bool {
    indexes.data < tx.data.len() && indexes.gas < tx.gas_limit.len() && indexes.value
        < tx.value.len()
}

/// The access list that goes with the payload at `data`: the one at the
/// same index where there is one, else the empty list.
pub open spec fn spec_access_list(tx: TransactionTemplateView, data: int) -> Seq<AccessListItemView> {
    if 0 <= data < tx.access_lists.len() {
        match tx.access_lists[data] {
            Some(list) => list,
            None => Seq::empty(),
        }
    } else {
        Seq::empty()
    }
}

/// The destination of a transaction: a call where `to` is given, else the
/// creation of a contract.
pub open spec fn spec_transact_to(to: Option<Seq<u8>>) -> TransactToView {
    match to {
        Some(address) => TransactToView::Call(address),
        None => TransactToView::Create,
    }
}

/// The variant that an index triple selects. The gas limit is clamped to
/// 64 bits.
pub open spec fn spec_select_variant(
    tx: TransactionTemplateView,
    indexes: TxPartIndices,
) -> Result<TxVariantView, CheckErrorView> {
    if spec_indices_in_range(tx, indexes) {
        Ok(
            TxVariantView {
                data: tx.data[indexes.data as int],
                gas_limit: saturate_u64(tx.gas_limit[indexes.gas as int]),
                value: tx.value[indexes.value as int],
                access_list: spec_access_list(tx, indexes.data as int),
                transact_to: spec_transact_to(tx.to),
            },
        )
    } else {
        Err(CheckErrorView::IndexOutOfRange)
    }
}

/// The access list that goes with the payload at `data`.
pub fn select_access_list(tx: &TransactionTemplate, data: usize) -> (r: Vec<AccessListItem>)
    ensures
        r.deep_view() == spec_access_list(tx@, data as int),
{
    if data < tx.access_lists.len() {
        match &tx.access_lists[data] {
            Some(list) => duplicate_access_list(list),
            None => {
                let r: Vec<AccessListItem> = Vec::new();
                assert(r.deep_view() =~= Seq::<AccessListItemView>::empty());
                r
            },
        }
    } else {
        let r: Vec<AccessListItem> = Vec::new();
        assert(r.deep_view() =~= Seq::<AccessListItemView>::empty());
        r
    }
}

/// Selects the variant of the transaction that an expectation applies to.
/// An index beyond its sequence is an error, never a default.
pub fn select_variant(tx: &TransactionTemplate, indexes: &TxPartIndices) -> (r: Result<
    TxVariant,
    CheckError,
>)
    ensures
        match r {
            Ok(variant) => spec_select_variant(tx@, *indexes) == Ok::<TxVariantView, CheckErrorView>(
                variant@,
            ),
            Err(e) => spec_select_variant(tx@, *indexes) == Err::<TxVariantView, CheckErrorView>(e@),
        },
        r is Ok <==> spec_indices_in_range(tx@, *indexes),
        r matches Err(e) ==> e == CheckError::IndexOutOfRange,
        indexes.gas >= tx.gas_limit.len() ==> r == Err::<TxVariant, CheckError>(
            CheckError::IndexOutOfRange,
        ),
{
    if indexes.gas >= tx.gas_limit.len() || indexes.data >= tx.data.len() || indexes.value
        >= tx.value.len() {
        return Err(CheckError::IndexOutOfRange);
    }
    let gas_limit = tx.gas_limit[indexes.gas].saturating_to_u64();
    let data = tx.data[indexes.data].clone();
    let value = tx.value[indexes.value];
    let access_list = select_access_list(tx, indexes.data);
    let transact_to = match tx.to {
        Some(address) => TransactTo::Call(address),
        None => TransactTo::Create,
    };
    Ok(TxVariant { data, gas_limit, value, access_list, transact_to })
}

} // verus!
