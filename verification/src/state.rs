//! The accounts that a transaction runs on, and the rule on clearing
//! emptied accounts that goes with them.

use crate::engine::{bytecode_accepted, engine_outcome, execute, is_bytecode_accepted, outcome_of};
use crate::env::ExecEnv;
use crate::error::CheckError;
use crate::fork::SpecId;
use crate::model::{
    accounts_map, lemma_accounts_map_absent, lemma_accounts_map_last, AccountState,
    AccountStateView, PreAccount, PreAccountView,
};
use crate::primitives::Address;
use vstd::prelude::*;

verus! {

/// A mapping from address to account, with the flag that says whether
/// accounts left empty by a transaction are removed. Every account in it
/// has code that the engine's decoder takes.
pub struct StateModel {
    accounts: Vec<PreAccount>,
    state_clear: bool,
}

pub struct StateModelView {
    pub accounts: Map<Seq<u8>, AccountStateView>,
    pub state_clear: bool,
}

impl View for StateModel {
    type V = StateModelView;

    closed spec fn view(&self) -> StateModelView {
        StateModelView {
            accounts: accounts_map(self.accounts.deep_view()),
            state_clear: self.state_clear,
        }
    }
}

/// Whether the engine's decoder takes the code of every account of a list.
pub open spec fn all_code_accepted(accounts: Seq<PreAccountView>) -> bool {
    forall|i: int| 0 <= i < accounts.len() ==> bytecode_accepted(#[trigger] accounts[i].state.code)
}

impl StateModel {
    #[verifier::type_invariant]
    spec fn code_is_accepted(self) -> bool {
        forall|i: int|
            0 <= i < self.accounts.len() ==> bytecode_accepted(
                #[trigger] self.accounts[i].state.code@,
            )
    }

    /// A state without accounts.
    pub fn new(state_clear: bool) -> (r: StateModel)
        ensures
            r@.accounts == Map::<Seq<u8>, AccountStateView>::empty(),
            r@.state_clear == state_clear,
    {
        let r = StateModel { accounts: Vec::new(), state_clear };
        assert(r.accounts.deep_view() =~= Seq::<PreAccountView>::empty());
        r
    }

    /// The state that holds the accounts of a list, a later account in
    /// place of an earlier one with the same address. Accounts are never
    /// cleared in it until the flag is set. A list with an account whose
    /// code the engine's decoder does not take is refused.
    pub fn from_pre(pre: &Vec<PreAccount>) -> (r: Result<StateModel, CheckError>)
        ensures
            r is Ok <==> all_code_accepted(pre.deep_view()),
            r matches Ok(state) ==> state@ == (StateModelView {
                accounts: accounts_map(pre.deep_view()),
                state_clear: false,
            }),
            r matches Err(e) ==> e == CheckError::Decode,
    {
        let mut accounts: Vec<PreAccount> = Vec::new();
        let mut i: usize = 0;
        while i < pre.len()
            invariant
                i <= pre.len(),
                accounts.len() == i,
                forall|j: int| 0 <= j < i ==> accounts[j]@ == pre[j]@,
                forall|j: int| 0 <= j < i ==> bytecode_accepted(#[trigger] accounts[j].state.code@),
            decreases pre.len() - i,
        {
            let account = &pre[i];
            if !is_bytecode_accepted(account.state.code.as_slice()) {
                assert(!bytecode_accepted(pre.deep_view()[i as int].state.code));
                return Err(CheckError::Decode);
            }
            accounts.push(PreAccount { address: account.address, state: account.state.duplicate() });
            i = i + 1;
        }
        assert(accounts.deep_view() =~= pre.deep_view());
        assert forall|j: int| 0 <= j < pre.len() implies bytecode_accepted(
            #[trigger] pre.deep_view()[j].state.code,
        ) by {
            assert(accounts[j]@ == pre[j]@);
        }
        Ok(StateModel { accounts, state_clear: false })
    }

    /// The account under an address, if there is one.
    pub fn load(&self, address: &Address) -> (r: Option<AccountState>)
        ensures
            r is Some <==> self@.accounts.contains_key(address@),
            r matches Some(account) ==> account@ == self@.accounts[address@],
    {
        let mut i: usize = self.accounts.len();
        while i > 0
            invariant
                i <= self.accounts.len(),
                forall|j: int| i <= j < self.accounts.len() ==> self.accounts[j].address@ != address@,
            decreases i,
        {
            i = i - 1;
            if self.accounts[i].address.same_as(address) {
                proof {
                    lemma_accounts_map_last(self.accounts.deep_view(), address@, i as int);
                }
                return Some(self.accounts[i].state.duplicate());
            }
        }
        proof {
            lemma_accounts_map_absent(self.accounts.deep_view(), address@);
        }
        None
    }

    /// An independent copy: what is done to the copy leaves this state as
    /// it is.
    pub fn snapshot(&self) -> (r: StateModel)
        ensures
            r@ == self@,
    {
        proof {
            use_type_invariant(self);
        }
        let mut accounts: Vec<PreAccount> = Vec::new();
        let mut i: usize = 0;
        while i < self.accounts.len()
            invariant
                i <= self.accounts.len(),
                accounts.len() == i,
                forall|j: int| 0 <= j < i ==> accounts[j]@ == self.accounts[j]@,
                forall|j: int| 0 <= j < i ==> bytecode_accepted(#[trigger] accounts[j].state.code@),
                forall|j: int|
                    0 <= j < self.accounts.len() ==> bytecode_accepted(
                        #[trigger] self.accounts[j].state.code@,
                    ),
            decreases self.accounts.len() - i,
        {
            let account = &self.accounts[i];
            accounts.push(PreAccount { address: account.address, state: account.state.duplicate() });
            i = i + 1;
        }
        assert(accounts.deep_view() =~= self.accounts.deep_view());
        StateModel { accounts, state_clear: self.state_clear }
    }

    /// Whether accounts left empty by a transaction are removed.
    pub fn has_state_clear(&self) -> (r: bool)
        ensures
            r == self@.state_clear,
    {
        self.state_clear
    }

    /// Sets whether accounts left empty by a transaction are removed.
    pub fn set_state_clear_flag(&mut self, state_clear: bool)
        ensures
            final(self)@ == (StateModelView { accounts: old(self)@.accounts, state_clear }),
    {
        proof {
            use_type_invariant(&*self);
        }
        self.state_clear = state_clear;
    }

    /// Runs the transaction of `env` on a copy of the accounts, under the
    /// rule set `spec`, and lets the engine commit what the transaction
    /// changed to that copy. This state stays as it is.
    pub fn transact(&self, env: &ExecEnv, spec: SpecId) -> (r: Result<(), String>)
        ensures
            outcome_of(r) == engine_outcome(
                self@.accounts,
                self@.state_clear,
                env@,
                spec.spec_number(),
            ),
    {
        proof {
            use_type_invariant(self);
        }
        execute(&self.accounts, self.state_clear, env, spec)
    }
}

} // verus!
