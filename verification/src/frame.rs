//! One activation record of the call stack.

use vstd::prelude::*;
use crate::cache::{loaded_record, CachedContract};
use crate::contract::AliveContractInfo;
use crate::executable::ExportedFunction;
use crate::gas::GasMeter;
use crate::host::Host;
use crate::primitives::{AccountId, Balance};
use crate::rent_params::RentParams;

verus! {

/// The state of one invocation.
///
/// The account, the entry point, the value sent along and the rent snapshot
/// are fixed when the frame is made; the cached record and the gas meter
/// change while the frame runs.
#[derive(Clone, Copy, Debug, PartialEq, Eq)]
pub struct Frame {
    /// The contract the frame runs.
    pub account_id: AccountId,
    /// The frame's view of the contract's record.
    pub contract_info: CachedContract,
    /// The value the caller sent along.
    pub value_transferred: Balance,
    /// The rent figures as they stood when the frame was made.
    pub rent_params: RentParams,
    /// Whether the frame runs the constructor or a call.
    pub entry_point: ExportedFunction,
    /// The gas the frame may spend, carved out of its parent's meter.
    pub nested_meter: GasMeter,
}

impl Frame {
    /// Whether `other` is this frame but for its cached record and its gas
    /// meter: the parts that may change while a frame lives.
    pub open spec fn same_invocation(self, other: Frame) -> bool {
        &&& self.account_id == other.account_id
        &&& self.value_transferred == other.value_transferred
        &&& self.rent_params == other.rent_params
        &&& self.entry_point == other.entry_point
    }

    /// This frame with another view of the record.
    pub open spec fn with_cache(self, contract_info: CachedContract) -> Frame {
        Frame { contract_info, ..self }
    }

    /// This frame with another gas meter.
    pub open spec fn with_meter(self, nested_meter: GasMeter) -> Frame {
        Frame { nested_meter, ..self }
    }

    /// The live record of the frame's contract, for reading and writing. It
    /// is read anew from the chain first where the frame's view of it is
    /// invalidated.
    pub fn contract_info<H: Host>(&mut self, host: &H) -> (info: &mut AliveContractInfo)
        requires
            !(old(self).contract_info is Terminated),
        ensures
            *final(self) == old(self).with_cache(CachedContract::Cached(*final(info))),
            old(self).contract_info is Cached ==> *info == old(self).contract_info->Cached_0,
            loaded_record(old(self).contract_info, host, old(self).account_id, *info),
    {
        self.contract_info.as_alive(host, &self.account_id)
    }

    /// Gives the record up: the frame's view is invalidated and the record
    /// it held, read anew if need be, is handed out.
    pub fn invalidate<H: Host>(&mut self, host: &H) -> (info: AliveContractInfo)
        requires
            !(old(self).contract_info is Terminated),
        ensures
            *final(self) == old(self).with_cache(CachedContract::Invalidated),
            old(self).contract_info is Cached ==> info == old(self).contract_info->Cached_0,
            loaded_record(old(self).contract_info, host, old(self).account_id, info),
    {
        self.contract_info.invalidate(host, &self.account_id)
    }

    /// Marks the contract as removed and hands out the record it had, read
    /// anew if need be.
    pub fn terminate<H: Host>(&mut self, host: &H) -> (info: AliveContractInfo)
        requires
            !(old(self).contract_info is Terminated),
        ensures
            *final(self) == old(self).with_cache(CachedContract::Terminated),
            old(self).contract_info is Cached ==> info == old(self).contract_info->Cached_0,
            loaded_record(old(self).contract_info, host, old(self).account_id, info),
    {
        self.contract_info.terminate(host, &self.account_id)
    }

    /// The frame's gas meter, for the running contract to charge.
    pub fn meter_mut(&mut self) -> (meter: &mut GasMeter)
        ensures
            *meter == old(self).nested_meter,
            *final(self) == old(self).with_meter(*final(meter)),
        no_unwind
    {
        &mut self.nested_meter
    }
}

/// The frame of a new invocation: the record is cached as it is handed in.
pub open spec fn made_frame(
    account_id: AccountId,
    contract: AliveContractInfo,
    value_transferred: Balance,
    rent_params: RentParams,
    entry_point: ExportedFunction,
    nested_meter: GasMeter,
) -> Frame {
    Frame {
        account_id,
        contract_info: CachedContract::Cached(contract),
        value_transferred,
        rent_params,
        entry_point,
        nested_meter,
    }
}

/// What a new frame is made from.
pub enum FrameArgs<'a, E> {
    /// A call of the contract at the account. Where the caller has found the
    /// contract's record cached on the stack it hands the record along.
    Call(AccountId, Option<AliveContractInfo>),
    /// An instantiation by the account, with the seed of the new account,
    /// the code to run and the salt of the address.
    Instantiate(AccountId, u64, E, &'a [u8]),
}

impl<'a, E> FrameArgs<'a, E> {
    /// The entry point of the frame that is made from these arguments.
    pub open spec fn entry_point(&self) -> ExportedFunction {
        match self {
            FrameArgs::Call(_, _) => ExportedFunction::Call,
            FrameArgs::Instantiate(_, _, _, _) => ExportedFunction::Constructor,
        }
    }
}

} // verus!
