//! The chain as the executive sees it.

use vstd::prelude::*;
use crate::contract::{AliveContractInfo, Event};
use crate::error::HostError;
use crate::primitives::{
    AccountId,
    Balance,
    BlockNumber,
    CodeHash,
    ExistenceRequirement,
    Moment,
    Perbill,
    Seed,
    StorageKey,
    Topic,
    TrieId,
    Weight,
};

verus! {

/// Everything the executive consumes from the chain that hosts it.
///
/// No method carries a contract: the executive is verified for every answer
/// a host may give. Queries take `&self`, so a function that only asks
/// provably leaves the host as it was.
pub trait Host: Sized {
    /// The weight and limit table that code is loaded against.
    type Schedule;

    /// The deepest a call stack may grow.
    fn max_depth(&self) -> u32;

    /// The largest value a storage cell may hold, in bytes.
    fn max_value_size(&self) -> u32;

    /// The balance below which a contract cannot stay alive.
    fn subsistence_threshold(&self) -> Balance;

    /// The balance below which an account ceases to exist.
    fn minimum_balance(&self) -> Balance;

    /// The deposit that keeps a tombstone when a contract is evicted.
    fn tombstone_deposit(&self) -> Balance;

    /// The deposit that spares a contract from rent, per contract.
    fn deposit_per_contract(&self) -> Balance;

    /// The deposit that spares a contract from rent, per byte stored.
    fn deposit_per_storage_byte(&self) -> Balance;

    /// The deposit that spares a contract from rent, per cell stored.
    fn deposit_per_storage_item(&self) -> Balance;

    /// The share of the missing deposit that is charged as rent per block.
    fn rent_fraction(&self) -> Perbill;

    /// The price of an amount of gas.
    fn weight_price(&self, weight: Weight) -> Balance;

    /// The timestamp of the current block.
    fn now(&self) -> Moment;

    /// The height of the current block.
    fn block_number(&self) -> BlockNumber;

    /// A random seed for the given subject, and the block since which it has
    /// been known.
    fn random(&self, subject: &[u8]) -> (Seed, BlockNumber);

    /// The number of contracts instantiated so far, as the chain has stored it.
    fn account_counter(&self) -> u64;

    /// Free and reserved balance of an account together.
    fn total_balance(&self, who: &AccountId) -> Balance;

    /// The balance an account may spend.
    fn free_balance(&self, who: &AccountId) -> Balance;

    /// Moves `value` between two accounts.
    fn currency_transfer(
        &mut self,
        from: &AccountId,
        to: &AccountId,
        value: Balance,
        existence: ExistenceRequirement,
    ) -> Result<(), HostError>;

    /// The record of the contract at `account`, if it is a live contract.
    fn alive_contract(&self, account: &AccountId) -> Option<AliveContractInfo>;

    /// The record of a contract that has a frame on the call stack. The chain
    /// keeps the record of such a contract for as long as the frame lives, so
    /// the answer is unconditional: an implementation that finds no record
    /// has lost its state and must not return.
    fn contract_on_stack(&self, account: &AccountId) -> AliveContractInfo;

    /// Stores `info` as the record of the live contract at `account`.
    fn store_contract(&mut self, account: &AccountId, info: AliveContractInfo);

    /// Removes the record of the contract at `account`.
    fn remove_contract(&mut self, account: &AccountId);

    /// The address of a contract that `deployer` instantiates from the code
    /// `code_hash` with `salt`.
    fn contract_address(
        &self,
        deployer: &AccountId,
        code_hash: &CodeHash,
        salt: &[u8],
    ) -> AccountId;

    /// The storage namespace of a new contract.
    fn generate_trie_id(&self, account: &AccountId, seed: u64) -> TrieId;

    /// Creates the record of a new contract.
    fn new_contract(
        &mut self,
        account: &AccountId,
        trie_id: TrieId,
        code_hash: CodeHash,
    ) -> Result<AliveContractInfo, HostError>;

    /// Schedules the storage of a contract for deletion.
    fn queue_trie_for_deletion(&mut self, info: &AliveContractInfo) -> Result<(), HostError>;

    /// Reads one cell of a contract's storage.
    fn read_storage(&self, trie_id: &TrieId, key: &StorageKey) -> Option<Vec<u8>>;

    /// Writes one cell of a contract's storage, or deletes it where `value`
    /// is `None`; the size bookkeeping of `info` follows the write.
    fn write_storage(
        &mut self,
        block_number: BlockNumber,
        info: &mut AliveContractInfo,
        key: &StorageKey,
        value: Option<Vec<u8>>,
    ) -> Result<(), HostError>;

    /// Collects the rent that the contract owes. `Ok(None)` says that the
    /// contract cannot pay and is due for eviction.
    fn charge_rent(
        &mut self,
        account: &AccountId,
        info: AliveContractInfo,
        occupied_storage: u32,
    ) -> Result<Option<AliveContractInfo>, HostError>;

    /// Restores the tombstone at `dest` from the storage of `origin`, which is
    /// given up. Yields the code sizes of both, on success and on failure.
    fn restore_to(
        &mut self,
        origin: AccountId,
        dest: AccountId,
        code_hash: CodeHash,
        rent_allowance: Balance,
        delta: Vec<StorageKey>,
    ) -> Result<(u32, u32), (HostError, u32, u32)>;

    /// Opens a storage transaction inside the current one.
    fn start_transaction(&mut self);

    /// Keeps what the innermost open transaction changed.
    fn commit_transaction(&mut self);

    /// Undoes what the innermost open transaction changed.
    fn rollback_transaction(&mut self);

    /// Reports an event under the given topics.
    fn deposit_event(&mut self, topics: Vec<Topic>, event: Event);
}

} // verus!
