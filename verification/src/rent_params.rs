//! The figures that rent is computed from, as a contract may ask for them.

use vstd::prelude::*;
use crate::contract::AliveContractInfo;
use crate::executable::Executable;
use crate::host::Host;
use crate::primitives::{AccountId, Balance, Perbill};

verus! {

/// A snapshot of everything that decides the rent of a contract.
///
/// It is taken once, when the frame of an invocation is made, and stays as
/// it is for the life of that frame, whatever the contract does meanwhile.
#[derive(Clone, Copy, Debug, PartialEq, Eq)]
pub struct RentParams {
    /// Total balance of the contract, the value sent along not yet included.
    pub total_balance: Balance,
    /// Free balance of the contract, the value sent along not yet included.
    pub free_balance: Balance,
    /// The balance below which the contract cannot stay alive.
    pub subsistence_threshold: Balance,
    /// The deposit that spares a contract from rent, per contract.
    pub deposit_per_contract: Balance,
    /// The deposit that spares a contract from rent, per byte stored.
    pub deposit_per_storage_byte: Balance,
    /// The deposit that spares a contract from rent, per cell stored.
    pub deposit_per_storage_item: Balance,
    /// The most the contract is willing to pay in rent.
    pub rent_allowance: Balance,
    /// The share of the missing deposit that is charged per block.
    pub rent_fraction: Perbill,
    /// Bytes the contract's storage occupies.
    pub storage_size: u32,
    /// Size of the instrumented and of the pristine code together.
    pub code_size: u32,
    /// The number of contracts that use the code.
    pub code_refcount: u32,
}

/// Whether `params` is a snapshot that may be taken of the contract at
/// `account` with the record `contract` and the code `executable`: the
/// allowance and the storage size are the record's, every other figure is
/// an answer that the chain or the executable may give.
pub open spec fn snapshot_of<H: Host, E: Executable<H>>(
    host: &H,
    account: AccountId,
    contract: AliveContractInfo,
    executable: &E,
    params: RentParams,
) -> bool {
    &&& params.rent_allowance == contract.rent_allowance
    &&& params.storage_size == contract.storage_size
    &&& call_ensures(H::total_balance, (host, &account), params.total_balance)
    &&& call_ensures(H::free_balance, (host, &account), params.free_balance)
    &&& call_ensures(H::subsistence_threshold, (host,), params.subsistence_threshold)
    &&& call_ensures(H::deposit_per_contract, (host,), params.deposit_per_contract)
    &&& call_ensures(H::deposit_per_storage_byte, (host,), params.deposit_per_storage_byte)
    &&& call_ensures(H::deposit_per_storage_item, (host,), params.deposit_per_storage_item)
    &&& call_ensures(H::rent_fraction, (host,), params.rent_fraction)
    &&& call_ensures(E::aggregate_code_len, (executable,), params.code_size)
    &&& call_ensures(E::refcount, (executable,), params.code_refcount)
}

impl RentParams {
    /// Takes the snapshot for the contract at `account_id`: the allowance and
    /// the storage size are those of `contract`, the rest is what the host and
    /// the executable answer.
    pub fn new<H: Host, E: Executable<H>>(
        host: &H,
        account_id: &AccountId,
        contract: &AliveContractInfo,
        executable: &E,
    ) -> (params: RentParams)
        ensures
            params.rent_allowance == contract.rent_allowance,
            params.storage_size == contract.storage_size,
            snapshot_of(host, *account_id, *contract, executable, params),
            call_ensures(H::total_balance, (host, account_id), params.total_balance),
            call_ensures(H::free_balance, (host, account_id), params.free_balance),
            call_ensures(H::subsistence_threshold, (host,), params.subsistence_threshold),
            call_ensures(H::deposit_per_contract, (host,), params.deposit_per_contract),
            call_ensures(H::deposit_per_storage_byte, (host,), params.deposit_per_storage_byte),
            call_ensures(H::deposit_per_storage_item, (host,), params.deposit_per_storage_item),
            call_ensures(H::rent_fraction, (host,), params.rent_fraction),
            call_ensures(E::aggregate_code_len, (executable,), params.code_size),
            call_ensures(E::refcount, (executable,), params.code_refcount),
    {
        RentParams {
            total_balance: host.total_balance(account_id),
            free_balance: host.free_balance(account_id),
            subsistence_threshold: host.subsistence_threshold(),
            deposit_per_contract: host.deposit_per_contract(),
            deposit_per_storage_byte: host.deposit_per_storage_byte(),
            deposit_per_storage_item: host.deposit_per_storage_item(),
            rent_allowance: contract.rent_allowance,
            rent_fraction: host.rent_fraction(),
            storage_size: contract.storage_size,
            code_size: executable.aggregate_code_len(),
            code_refcount: executable.refcount(),
        }
    }
}

impl Default for RentParams {
    fn default() -> (params: RentParams)
        ensures
            params == (RentParams {
                total_balance: 0,
                free_balance: 0,
                subsistence_threshold: 0,
                deposit_per_contract: 0,
                deposit_per_storage_byte: 0,
                deposit_per_storage_item: 0,
                rent_allowance: 0,
                rent_fraction: Perbill { parts: 0 },
                storage_size: 0,
                code_size: 0,
                code_refcount: 0,
            }),
    {
        RentParams {
            total_balance: 0,
            free_balance: 0,
            subsistence_threshold: 0,
            deposit_per_contract: 0,
            deposit_per_storage_byte: 0,
            deposit_per_storage_item: 0,
            rent_allowance: 0,
            rent_fraction: Perbill { parts: 0 },
            storage_size: 0,
            code_size: 0,
            code_refcount: 0,
        }
    }
}

} // verus!
