//! Contract records and the events of a contract's life.

use vstd::prelude::*;
use crate::primitives::{AccountId, Balance, BlockNumber, CodeHash, TrieId};

verus! {

/// The record the chain keeps of a live contract.
#[derive(Clone, Copy, Debug, PartialEq, Eq)]
pub struct AliveContractInfo {
    /// Namespace of the contract's storage.
    pub trie_id: TrieId,
    /// Bytes the contract's storage occupies.
    pub storage_size: u32,
    /// Number of cells in the contract's storage.
    pub pair_count: u32,
    /// The code the contract runs.
    pub code_hash: CodeHash,
    /// The most the contract is willing to pay in rent.
    pub rent_allowance: Balance,
    /// Rent paid since the contract was born.
    pub rent_payed: Balance,
    /// The block up to which rent has been collected.
    pub deduct_block: BlockNumber,
    /// The block of the last write to the contract's storage.
    pub last_write: Option<BlockNumber>,
}

/// What the executive reports to the chain.
#[derive(Clone, Debug, PartialEq, Eq)]
pub enum Event {
    /// A constructor committed: `(deployer, contract)`.
    Instantiated(AccountId, AccountId),
    /// A contract removed itself: `(contract, beneficiary)`.
    Terminated(AccountId, AccountId),
    /// A contract gave itself up to restore another:
    /// `(donor, dest, code_hash, rent_allowance)`.
    Restored(AccountId, AccountId, CodeHash, Balance),
    /// A contract emitted data of its own: `(contract, data)`.
    ContractEmitted(AccountId, Vec<u8>),
}

} // verus!
