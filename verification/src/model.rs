//! The data that a check works on: units, accounts, the block, the
//! transaction template and the expectations, each with its mathematical
//! view. In a view an integer is a `nat`, an address or a hash is its
//! sequence of bytes, and a list is a `Seq`.

use crate::primitives::{Address, B256, U256};
use vstd::prelude::*;

verus! {

/// One storage cell of an account.
#[derive(Clone, Copy, Debug, PartialEq, Eq)]
pub struct StorageSlot {
    pub key: U256,
    pub value: U256,
}

pub struct StorageSlotView {
    pub key: nat,
    pub value: nat,
}

impl View for StorageSlot {
    type V = StorageSlotView;

    open spec fn view(&self) -> StorageSlotView {
        StorageSlotView { key: self.key@, value: self.value@ }
    }
}

impl DeepView for StorageSlot {
    type V = StorageSlotView;

    open spec fn deep_view(&self) -> StorageSlotView {
        self@
    }
}

/// The mapping that a list of storage cells stands for: a later cell
/// replaces an earlier one with the same key. Keys that are absent read as
/// zero.
pub open spec fn storage_map(slots: Seq<StorageSlotView>) -> Map<nat, nat>
    decreases slots.len(),
{
    if slots.len() == 0 {
        Map::empty()
    } else {
        storage_map(slots.drop_last()).insert(slots.last().key, slots.last().value)
    }
}

/// The state of one account.
#[derive(Clone, Debug, PartialEq, Eq)]
pub struct AccountState {
    pub balance: U256,
    pub nonce: u64,
    pub code: Vec<u8>,
    pub storage: Vec<StorageSlot>,
}

pub struct AccountStateView {
    pub balance: nat,
    pub nonce: u64,
    pub code: Seq<u8>,
    pub storage: Map<nat, nat>,
}

impl View for AccountState {
    type V = AccountStateView;

    open spec fn view(&self) -> AccountStateView {
        AccountStateView {
            balance: self.balance@,
            nonce: self.nonce,
            code: self.code@,
            storage: storage_map(self.storage.deep_view()),
        }
    }
}

impl DeepView for AccountState {
    type V = AccountStateView;

    open spec fn deep_view(&self) -> AccountStateView {
        self@
    }
}

impl AccountState {
    /// A copy that shares no storage with this value.
    pub fn duplicate(&self) -> (r: AccountState)
        ensures
            r@ == self@,
            r.code@ == self.code@,
    {
        let code = self.code.clone();
        let storage = self.storage.clone();
        assert(storage.deep_view() =~= self.storage.deep_view());
        assert(code@ =~= self.code@);
        AccountState { balance: self.balance, nonce: self.nonce, code, storage }
    }
}

/// An account of the pre-state with its address.
#[derive(Clone, Debug, PartialEq, Eq)]
pub struct PreAccount {
    pub address: Address,
    pub state: AccountState,
}

pub struct PreAccountView {
    pub address: Seq<u8>,
    pub state: AccountStateView,
}

impl View for PreAccount {
    type V = PreAccountView;

    open spec fn view(&self) -> PreAccountView {
        PreAccountView { address: self.address@, state: self.state@ }
    }
}

impl DeepView for PreAccount {
    type V = PreAccountView;

    open spec fn deep_view(&self) -> PreAccountView {
        self@
    }
}

/// The mapping from address to account that a list of accounts stands for:
/// a later account replaces an earlier one with the same address.
pub open spec fn accounts_map(accounts: Seq<PreAccountView>) -> Map<Seq<u8>, AccountStateView>
    decreases accounts.len(),
{
    if accounts.len() == 0 {
        Map::empty()
    } else {
        accounts_map(accounts.drop_last()).insert(accounts.last().address, accounts.last().state)
    }
}

/// An address that no account of the list has is no key of the mapping.
pub proof fn lemma_accounts_map_absent(accounts: Seq<PreAccountView>, address: Seq<u8>)
    requires
        forall|j: int| 0 <= j < accounts.len() ==> accounts[j].address != address,
    ensures
        !accounts_map(accounts).contains_key(address),
    decreases accounts.len(),
{
    if accounts.len() > 0 {
        lemma_accounts_map_absent(accounts.drop_last(), address);
    }
}

/// The mapping gives an address the state of the last account of the list
/// that has it.
pub proof fn lemma_accounts_map_last(accounts: Seq<PreAccountView>, address: Seq<u8>, i: int)
    requires
        0 <= i < accounts.len(),
        accounts[i].address == address,
        forall|j: int| i < j < accounts.len() ==> accounts[j].address != address,
    ensures
        accounts_map(accounts).contains_key(address),
        accounts_map(accounts)[address] == accounts[i].state,
    decreases accounts.len(),
{
    if i < accounts.len() - 1 {
        lemma_accounts_map_last(accounts.drop_last(), address, i);
    }
}

/// The block that the transaction is placed in.
#[derive(Clone, Copy, Debug, PartialEq, Eq)]
pub struct BlockEnv {
    pub current_number: U256,
    pub current_coinbase: Address,
    pub current_timestamp: U256,
    pub current_gas_limit: U256,
    pub current_base_fee: Option<U256>,
    /// Difficulty before the merge.
    pub current_difficulty: U256,
    /// Output of the randomness beacon after the merge.
    pub current_random: Option<B256>,
    pub parent_blob_gas_used: Option<U256>,
    pub parent_excess_blob_gas: Option<U256>,
}

pub struct BlockEnvView {
    pub current_number: nat,
    pub current_coinbase: Seq<u8>,
    pub current_timestamp: nat,
    pub current_gas_limit: nat,
    pub current_base_fee: Option<nat>,
    pub current_difficulty: nat,
    pub current_random: Option<Seq<u8>>,
    pub parent_blob_gas_used: Option<nat>,
    pub parent_excess_blob_gas: Option<nat>,
}

impl View for BlockEnv {
    type V = BlockEnvView;

    open spec fn view(&self) -> BlockEnvView {
        BlockEnvView {
            current_number: self.current_number@,
            current_coinbase: self.current_coinbase@,
            current_timestamp: self.current_timestamp@,
            current_gas_limit: self.current_gas_limit@,
            current_base_fee: self.current_base_fee.deep_view(),
            current_difficulty: self.current_difficulty@,
            current_random: self.current_random.deep_view(),
            parent_blob_gas_used: self.parent_blob_gas_used.deep_view(),
            parent_excess_blob_gas: self.parent_excess_blob_gas.deep_view(),
        }
    }
}

/// One entry of an access list: an address and the storage keys declared
/// for it.
#[derive(Clone, Debug, PartialEq, Eq)]
pub struct AccessListItem {
    pub address: Address,
    pub storage_keys: Vec<B256>,
}

pub struct AccessListItemView {
    pub address: Seq<u8>,
    pub storage_keys: Seq<Seq<u8>>,
}

impl View for AccessListItem {
    type V = AccessListItemView;

    open spec fn view(&self) -> AccessListItemView {
        AccessListItemView {
            address: self.address@,
            storage_keys: self.storage_keys.deep_view(),
        }
    }
}

impl DeepView for AccessListItem {
    type V = AccessListItemView;

    open spec fn deep_view(&self) -> AccessListItemView {
        self@
    }
}

impl AccessListItem {
    /// A copy that shares no storage with this value.
    pub fn duplicate(&self) -> (r: AccessListItem)
        ensures
            r@ == self@,
    {
        let storage_keys = self.storage_keys.clone();
        assert(storage_keys.deep_view() =~= self.storage_keys.deep_view());
        AccessListItem { address: self.address, storage_keys }
    }
}

/// A copy of an access list that shares no storage with it.
pub fn duplicate_access_list(list: &Vec<AccessListItem>) -> (r: Vec<AccessListItem>)
    ensures
        r.deep_view() == list.deep_view(),
{
    let mut r: Vec<AccessListItem> = Vec::new();
    let mut i: usize = 0;
    while i < list.len()
        invariant
            i <= list.len(),
            r.len() == i,
            forall|j: int| 0 <= j < i ==> r[j]@ == list[j]@,
        decreases list.len() - i,
    {
        r.push(list[i].duplicate());
        i = i + 1;
    }
    assert(r.deep_view() =~= list.deep_view());
    r
}

/// One transaction with the candidate values that expectations select
/// from.
#[derive(Clone, Debug, PartialEq, Eq)]
pub struct TransactionTemplate {
    pub sender: Option<Address>,
    pub secret_key: Option<B256>,
    pub gas_price: Option<U256>,
    pub max_fee_per_gas: Option<U256>,
    pub max_priority_fee_per_gas: Option<U256>,
    /// Absent for a transaction that creates a contract.
    pub to: Option<Address>,
    pub gas_limit: Vec<U256>,
    pub data: Vec<Vec<u8>>,
    pub value: Vec<U256>,
    /// Aligned with `data` by index.
    pub access_lists: Vec<Option<Vec<AccessListItem>>>,
    pub blob_versioned_hashes: Vec<B256>,
    pub max_fee_per_blob_gas: Option<U256>,
}

pub struct TransactionTemplateView {
    pub sender: Option<Seq<u8>>,
    pub secret_key: Option<Seq<u8>>,
    pub gas_price: Option<nat>,
    pub max_fee_per_gas: Option<nat>,
    pub max_priority_fee_per_gas: Option<nat>,
    pub to: Option<Seq<u8>>,
    pub gas_limit: Seq<nat>,
    pub data: Seq<Seq<u8>>,
    pub value: Seq<nat>,
    pub access_lists: Seq<Option<Seq<AccessListItemView>>>,
    pub blob_versioned_hashes: Seq<Seq<u8>>,
    pub max_fee_per_blob_gas: Option<nat>,
}

impl View for TransactionTemplate {
    type V = TransactionTemplateView;

    open spec fn view(&self) -> TransactionTemplateView {
        TransactionTemplateView {
            sender: self.sender.deep_view(),
            secret_key: self.secret_key.deep_view(),
            gas_price: self.gas_price.deep_view(),
            max_fee_per_gas: self.max_fee_per_gas.deep_view(),
            max_priority_fee_per_gas: self.max_priority_fee_per_gas.deep_view(),
            to: self.to.deep_view(),
            gas_limit: self.gas_limit.deep_view(),
            data: Seq::new(self.data@.len(), |i: int| self.data@[i]@),
            value: self.value.deep_view(),
            access_lists: self.access_lists.deep_view(),
            blob_versioned_hashes: self.blob_versioned_hashes.deep_view(),
            max_fee_per_blob_gas: self.max_fee_per_blob_gas.deep_view(),
        }
    }
}

/// Which candidate payload, gas limit and value an expectation applies to.
#[derive(Clone, Copy, Debug, PartialEq, Eq)]
pub struct TxPartIndices {
    pub data: usize,
    pub gas: usize,
    pub value: usize,
}

/// What is expected of one variant of the transaction.
#[derive(Clone, Debug, PartialEq, Eq)]
pub struct PostExpectation {
    pub indexes: TxPartIndices,
    /// The category of failure that is expected. Absent where the
    /// transaction is expected to succeed.
    pub expect_exception: Option<String>,
}

pub struct PostExpectationView {
    pub indexes: TxPartIndices,
    pub expect_exception: Option<Seq<char>>,
}

impl View for PostExpectation {
    type V = PostExpectationView;

    open spec fn view(&self) -> PostExpectationView {
        PostExpectationView {
            indexes: self.indexes,
            expect_exception: match self.expect_exception {
                Some(s) => Some(s@),
                None => None,
            },
        }
    }
}

impl DeepView for PostExpectation {
    type V = PostExpectationView;

    open spec fn deep_view(&self) -> PostExpectationView {
        self@
    }
}

/// The name of a protocol version, as the units spell it. The names are
/// ordered as they are listed.
#[derive(Clone, Copy, Debug, PartialEq, Eq, PartialOrd, Ord, Hash)]
pub enum SpecName {
    Frontier,
    FrontierToHomesteadAt5,
    Homestead,
    HomesteadToDaoAt5,
    HomesteadToEIP150At5,
    EIP150,
    EIP158,
    EIP158ToByzantiumAt5,
    Byzantium,
    ByzantiumToConstantinopleAt5,
    ByzantiumToConstantinopleFixAt5,
    Constantinople,
    ConstantinopleFix,
    Istanbul,
    Berlin,
    BerlinToLondonAt5,
    London,
    Merge,
    Shanghai,
    Cancun,
    /// Any name that is not known.
    Unknown,
}

/// The expectations declared for one protocol version, in order.
#[derive(Clone, Debug, PartialEq, Eq)]
pub struct ForkExpectations {
    pub fork: SpecName,
    pub tests: Vec<PostExpectation>,
}

pub struct ForkExpectationsView {
    pub fork: SpecName,
    pub tests: Seq<PostExpectationView>,
}

impl View for ForkExpectations {
    type V = ForkExpectationsView;

    open spec fn view(&self) -> ForkExpectationsView {
        ForkExpectationsView { fork: self.fork, tests: self.tests.deep_view() }
    }
}

impl DeepView for ForkExpectations {
    type V = ForkExpectationsView;

    open spec fn deep_view(&self) -> ForkExpectationsView {
        self@
    }
}

/// A pre-state, a block, a transaction template and what is expected of
/// the transaction under each protocol version.
#[derive(Clone, Debug, PartialEq, Eq)]
pub struct TestUnit {
    pub pre: Vec<PreAccount>,
    pub env: BlockEnv,
    pub transaction: TransactionTemplate,
    pub post: Vec<ForkExpectations>,
}

pub struct TestUnitView {
    pub pre: Seq<PreAccountView>,
    pub env: BlockEnvView,
    pub transaction: TransactionTemplateView,
    pub post: Seq<ForkExpectationsView>,
}

impl View for TestUnit {
    type V = TestUnitView;

    open spec fn view(&self) -> TestUnitView {
        TestUnitView {
            pre: self.pre.deep_view(),
            env: self.env@,
            transaction: self.transaction@,
            post: self.post.deep_view(),
        }
    }
}

impl DeepView for TestUnit {
    type V = TestUnitView;

    open spec fn deep_view(&self) -> TestUnitView {
        self@
    }
}

} // verus!
