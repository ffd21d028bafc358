//! The view a frame holds of its contract's record.

use vstd::prelude::*;
use crate::contract::AliveContractInfo;
use crate::host::Host;
use crate::primitives::AccountId;

verus! {

/// The record of a frame's contract, as the frame sees it.
///
/// While a contract is on the stack its record lives in the frames, not in
/// the chain's storage: the topmost frame that holds it `Cached` holds the
/// truth.
#[derive(Clone, Copy, Debug, PartialEq, Eq)]
pub enum CachedContract {
    /// The frame holds the record; changes made here are the truth.
    Cached(AliveContractInfo),
    /// A frame higher up held the record and has written it to storage: it
    /// must be read again before it is used.
    Invalidated,
    /// The contract was removed in this frame: the record is gone.
    Terminated,
}

/// Whether `record` is the record that a view of the contract at `account`
/// holds once it is loaded: the record it holds cached, or, for an
/// invalidated view, a record that the chain may answer with for a contract
/// on the stack.
pub open spec fn loaded_record<H: Host>(
    view: CachedContract,
    host: &H,
    account: AccountId,
    record: AliveContractInfo,
) -> bool {
    match view {
        CachedContract::Cached(held) => record == held,
        CachedContract::Invalidated => call_ensures(
            H::contract_on_stack,
            (host, &account),
            record,
        ),
        CachedContract::Terminated => false,
    }
}

impl CachedContract {
    /// The state after the record read from storage has been taken in: only
    /// an invalidated view changes.
    pub open spec fn refreshed(self, stored: AliveContractInfo) -> CachedContract {
        match self {
            CachedContract::Invalidated => CachedContract::Cached(stored),
            _ => self,
        }
    }

    /// Takes in the record read from storage, where the view is invalidated.
    pub fn refresh(&mut self, stored: AliveContractInfo)
        ensures
            *final(self) == old(self).refreshed(stored),
        no_unwind
    {
        match self {
            CachedContract::Invalidated => {
                *self = CachedContract::Cached(stored);
            },
            _ => {},
        }
    }

    /// Reads the record again where the view is invalidated, and only then.
    pub fn load<H: Host>(&mut self, host: &H, account_id: &AccountId)
        ensures
            !(*old(self) is Invalidated) ==> *final(self) == *old(self),
            *old(self) is Invalidated ==> *final(self) is Cached,
            !(*old(self) is Terminated) ==> *final(self) is Cached && loaded_record(
                *old(self),
                host,
                *account_id,
                (*final(self))->Cached_0,
            ),
    {
        if let CachedContract::Invalidated = self {
            let stored = host.contract_on_stack(account_id);
            self.refresh(stored);
        }
    }

    /// The live record, for reading and writing.
    pub fn as_alive<H: Host>(&mut self, host: &H, account_id: &AccountId) -> (info:
        &mut AliveContractInfo)
        requires
            !(*old(self) is Terminated),
        ensures
            *final(self) == CachedContract::Cached(*final(info)),
            *old(self) is Cached ==> *info == (*old(self))->Cached_0,
            loaded_record(*old(self), host, *account_id, *info),
    {
        self.load(host, account_id);
        match self {
            CachedContract::Cached(info) => info,
            _ => vstd::pervasive::unreached(),
        }
    }

    /// Gives the record up: the view is invalidated and the record it held is
    /// handed out.
    pub fn invalidate<H: Host>(&mut self, host: &H, account_id: &AccountId) -> (info:
        AliveContractInfo)
        requires
            !(*old(self) is Terminated),
        ensures
            *final(self) == CachedContract::Invalidated,
            *old(self) is Cached ==> info == (*old(self))->Cached_0,
            loaded_record(*old(self), host, *account_id, info),
    {
        self.load(host, account_id);
        let held = *self;
        *self = CachedContract::Invalidated;
        match held {
            CachedContract::Cached(info) => info,
            _ => vstd::pervasive::unreached(),
        }
    }

    /// Marks the contract as removed and hands out the record it had.
    pub fn terminate<H: Host>(&mut self, host: &H, account_id: &AccountId) -> (info:
        AliveContractInfo)
        requires
            !(*old(self) is Terminated),
        ensures
            *final(self) == CachedContract::Terminated,
            *old(self) is Cached ==> info == (*old(self))->Cached_0,
            loaded_record(*old(self), host, *account_id, info),
    {
        self.load(host, account_id);
        let held = *self;
        *self = CachedContract::Terminated;
        match held {
            CachedContract::Cached(info) => info,
            _ => vstd::pervasive::unreached(),
        }
    }
}

} // verus!
