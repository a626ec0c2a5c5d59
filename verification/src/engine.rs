//! The execution engine. It runs one transaction on one state under one
//! rule set; the library drives it and knows its outcome only by name.
//!
//! The engine's own values pass through this module unopened. What each
//! holds is known from the call that made it.

use crate::crypto::{keccak256, keccak256_digest};
use crate::env::{BlockContext, CfgContext, ExecEnv, ExecEnvView, TxContext, TxContextView};
use crate::fork::{known_spec_number, SpecId};
use crate::model::{accounts_map, AccountState, AccountStateView, PreAccount};
use crate::primitives::{Address, B256};
use crate::variant::TransactTo;
use revm::primitives as evm;
use vstd::prelude::*;

verus! {

/// The engine's table of accounts.
#[verifier::external_type_specification]
#[verifier::external_body]
pub struct ExCacheState(revm::db::CacheState);

/// The engine's record of the chain, the block and the transaction.
#[verifier::external_type_specification]
#[verifier::external_body]
pub struct ExEnv(revm::primitives::Env);

/// What the engine reports of a transaction: that it was carried out, or
/// why it was rejected.
pub type EngineOutcome = Result<(), Seq<char>>;

/// The outcome that an executable result stands for.
pub open spec fn outcome_of(r: Result<(), String>) -> EngineOutcome {
    match r {
        Ok(_) => Ok(()),
        Err(text) => Err(text@),
    }
}

/// Whether the engine's decoder can parse code that bears the mark of one
/// of the two formats that it parses.
pub uninterp spec fn marked_code_decodes(code: Seq<u8>) -> bool;

/// Whether code bears the mark of a format that the engine's decoder
/// parses: the byte `0xEF` and then `0x00` or `0x01`.
pub open spec fn has_format_mark(code: Seq<u8>) -> bool {
    code.len() >= 2 && code[0] == 0xEF && (code[1] == 0x00 || code[1] == 0x01)
}

/// Whether the engine's decoder takes the bytes as the code of an account.
/// It takes all code without a format mark as it is.
pub open spec fn bytecode_accepted(code: Seq<u8>) -> bool {
    has_format_mark(code) ==> marked_code_decodes(code)
}

/// The accounts that a table was filled with, by address.
pub uninterp spec fn cache_accounts(cache: revm::db::CacheState) -> Map<Seq<u8>, AccountStateView>;

/// Whether a table removes the accounts that a transaction leaves empty.
pub uninterp spec fn cache_state_clear(cache: revm::db::CacheState) -> bool;

/// The fields of an environment record. Those that the library never
/// sets are as the engine makes them by default.
pub uninterp spec fn env_fields(env: revm::primitives::Env) -> ExecEnvView;

/// The outcome of the transaction of `env`, run in the block of `env` on
/// the accounts `accounts` under the rule set numbered `spec`.
pub uninterp spec fn engine_outcome(
    accounts: Map<Seq<u8>, AccountStateView>,
    state_clear: bool,
    env: ExecEnvView,
    spec: u8,
) -> EngineOutcome;

/// Calls `revm::primitives::Bytecode::new_raw_checked` and keeps whether
/// it succeeded.
///
/// Trusted: the result says whether the decoder takes the bytes. The
/// decoder parses bytes that begin with `0xEF00` or `0xEF01` and may refuse
/// them; all other bytes it takes as they are.
#[verifier::external_body]
pub(crate) fn is_bytecode_accepted(code: &[u8]) -> (r: bool)
    ensures
        r == (has_format_mark(code@) ==> marked_code_decodes(code@)),
{
    evm::Bytecode::new_raw_checked(evm::Bytes::copy_from_slice(code)).is_ok()
}

/// Calls `revm::db::CacheState::new`.
///
/// Trusted: the new table holds no account and has the given flag.
#[verifier::external_body]
fn cache_new(state_clear: bool) -> (r: revm::db::CacheState)
    ensures
        cache_accounts(r) == accounts_map(Seq::empty()),
        cache_state_clear(r) == state_clear,
{
    revm::db::CacheState::new(state_clear)
}

/// Calls `revm::db::CacheState::insert_account_with_storage` with the
/// account's balance, nonce, code hash, code and storage cells.
///
/// Trusted: the table then holds the account under the address, in place
/// of any that it held there; other addresses and the flag stay. The code
/// is decoded with `Bytecode::new_raw`, which is why it must be accepted.
#[verifier::external_body]
fn cache_insert(
    cache: &mut revm::db::CacheState,
    address: &Address,
    account: &AccountState,
    code_hash: &B256,
)
    requires
        bytecode_accepted(account.code@),
        code_hash@ == keccak256_digest(account.code@),
    ensures
        cache_accounts(*final(cache)) == cache_accounts(*old(cache)).insert(address@, account@),
        cache_state_clear(*final(cache)) == cache_state_clear(*old(cache)),
{
    let info = evm::AccountInfo {
        balance: evm::U256::from_limbs(account.balance.limbs),
        nonce: account.nonce,
        code_hash: evm::B256::new(code_hash.bytes),
        code: Some(evm::Bytecode::new_raw(evm::Bytes::copy_from_slice(&account.code))),
    };
    let cells = account.storage.iter().map(
        |s| (evm::U256::from_limbs(s.key.limbs), evm::U256::from_limbs(s.value.limbs)),
    );
    cache.insert_account_with_storage(evm::Address::new(address.bytes), info, cells.collect());
}

/// Builds a `revm::primitives::Env` whose block is made field by field.
///
/// Trusted: the block of the record holds the fields of `block`, the
/// excess blob gas and its price as one pair.
#[verifier::external_body]
fn env_with_block(block: &BlockContext) -> (r: revm::primitives::Env)
    ensures
        env_fields(r).block == block@,
{
    let mut env = revm::primitives::Env::default();
    env.block.number = evm::U256::from_limbs(block.number.limbs);
    env.block.coinbase = evm::Address::new(block.coinbase.bytes);
    env.block.timestamp = evm::U256::from_limbs(block.timestamp.limbs);
    env.block.gas_limit = evm::U256::from_limbs(block.gas_limit.limbs);
    env.block.basefee = evm::U256::from_limbs(block.basefee.limbs);
    env.block.difficulty = evm::U256::from_limbs(block.difficulty.limbs);
    env.block.prevrandao = block.prevrandao.map(|h| evm::B256::new(h.bytes));
    env.block.blob_excess_gas_and_price = Some(
        evm::BlobExcessGasAndPrice {
            excess_blob_gas: block.excess_blob_gas,
            blob_gasprice: block.blob_gasprice,
        },
    );
    env
}

/// Sets, in a `revm::primitives::Env`, the configuration and the fields
/// of the transaction that are the same for every variant.
///
/// Trusted: the record holds the configuration, and the sender, the gas
/// price, the two fee caps and the blob hashes of `tx`; its block stays.
#[verifier::external_body]
fn env_with_sender(env: revm::primitives::Env, cfg: CfgContext, tx: &TxContext) -> (r:
    revm::primitives::Env)
    ensures
        env_fields(r).cfg == cfg,
        env_fields(r).block == env_fields(env).block,
        env_fields(r).tx.caller == tx@.caller,
        env_fields(r).tx.gas_price == tx@.gas_price,
        env_fields(r).tx.gas_priority_fee == tx@.gas_priority_fee,
        env_fields(r).tx.max_fee_per_blob_gas == tx@.max_fee_per_blob_gas,
        env_fields(r).tx.blob_hashes == tx@.blob_hashes,
{
    let mut env = env;
    env.cfg.chain_id = cfg.chain_id;
    env.cfg.disable_base_fee = cfg.disable_base_fee;
    env.tx.caller = evm::Address::new(tx.caller.bytes);
    env.tx.gas_price = evm::U256::from_limbs(tx.gas_price.limbs);
    env.tx.gas_priority_fee = tx.gas_priority_fee.map(|f| evm::U256::from_limbs(f.limbs));
    env.tx.max_fee_per_blob_gas = tx.max_fee_per_blob_gas.map(|f| evm::U256::from_limbs(f.limbs));
    env.tx.blob_hashes = tx.blob_hashes.iter().map(|h| evm::B256::new(h.bytes)).collect();
    env
}

/// Sets, in a `revm::primitives::Env`, the fields of the transaction that
/// a variant decides.
///
/// Trusted: the record holds the gas limit, the destination, the value,
/// the payload and the access list of `tx`, and all else stays.
#[verifier::external_body]
fn env_with_variant(env: revm::primitives::Env, tx: &TxContext) -> (r: revm::primitives::Env)
    ensures
        env_fields(r) == (ExecEnvView {
            tx: TxContextView {
                gas_limit: tx@.gas_limit,
                transact_to: tx@.transact_to,
                value: tx@.value,
                data: tx@.data,
                access_list: tx@.access_list,
                ..env_fields(env).tx
            },
            ..env_fields(env)
        }),
{
    let mut env = env;
    env.tx.gas_limit = tx.gas_limit;
    env.tx.transact_to = match tx.transact_to {
        TransactTo::Call(to) => evm::TxKind::Call(evm::Address::new(to.bytes)),
        TransactTo::Create => evm::TxKind::Create,
    };
    env.tx.value = evm::U256::from_limbs(tx.value.limbs);
    env.tx.data = evm::Bytes::copy_from_slice(&tx.data);
    env.tx.access_list = tx.access_list.iter().map(
        |item| evm::AccessListItem {
            address: evm::Address::new(item.address.bytes),
            storage_keys: item.storage_keys.iter().map(|k| evm::B256::new(k.bytes)).collect(),
        },
    ).collect();
    env
}

/// Builds the engine on the table with `revm::db::State::builder` and
/// `revm::Evm::builder`, and calls `revm::Evm::transact_commit`.
///
/// Trusted: the result is the engine's outcome for what the table and the
/// record hold: success where the engine carried the transaction out, and
/// the text of its error where it rejected it. The outcome depends on
/// nothing else.
#[verifier::external_body]
fn transact(cache: revm::db::CacheState, env: revm::primitives::Env, spec: u8) -> (r: Result<
    (),
    String,
>)
    requires
        known_spec_number(spec),
    ensures
        outcome_of(r) == engine_outcome(
            cache_accounts(cache),
            cache_state_clear(cache),
            env_fields(env),
            spec,
        ),
{
    let mut state = revm::db::State::builder().with_cached_prestate(cache).with_bundle_update().build();
    let spec_id = evm::SpecId::try_from_u8(spec).unwrap();
    let builder = revm::Evm::builder().with_db(&mut state).with_env(Box::new(env));
    let mut evm = builder.with_spec_id(spec_id).build();
    evm.transact_commit().map(|_| ()).map_err(|e| e.to_string())
}

/// The engine's record of an environment.
fn build_env(env: &ExecEnv) -> (r: revm::primitives::Env)
    ensures
        env_fields(r) == env@,
{
    env_with_variant(env_with_sender(env_with_block(&env.block), env.cfg, &env.tx), &env.tx)
}

/// Runs the transaction of `env` on a fresh table filled with `accounts`,
/// under the rule set `spec`. A later account replaces an earlier one with
/// the same address.
pub(crate) fn execute(
    accounts: &Vec<PreAccount>,
    state_clear: bool,
    env: &ExecEnv,
    spec: SpecId,
) -> (r: Result<(), String>)
    requires
        forall|i: int| 0 <= i < accounts.len() ==> bytecode_accepted(#[trigger] accounts[i].state.code@),
    ensures
        outcome_of(r) == engine_outcome(
            accounts_map(accounts.deep_view()),
            state_clear,
            env@,
            spec.spec_number(),
        ),
{
    let mut cache = cache_new(state_clear);
    let mut i: usize = 0;
    while i < accounts.len()
        invariant
            i <= accounts.len(),
            forall|j: int|
                0 <= j < accounts.len() ==> bytecode_accepted(#[trigger] accounts[j].state.code@),
            cache_accounts(cache) == accounts_map(accounts.deep_view().take(i as int)),
            cache_state_clear(cache) == state_clear,
        decreases accounts.len() - i,
    {
        let account = &accounts[i];
        let code_hash = keccak256(account.state.code.as_slice());
        cache_insert(&mut cache, &account.address, &account.state, &code_hash);
        proof {
            let prefix = accounts.deep_view().take(i + 1);
            assert(prefix.drop_last() =~= accounts.deep_view().take(i as int));
            assert(prefix.last() == account@);
        }
        i = i + 1;
    }
    assert(accounts.deep_view().take(i as int) =~= accounts.deep_view());
    transact(cache, build_env(env), spec.number())
}

} // verus!
