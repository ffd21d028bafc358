//! The call stack as a mathematical value, and what pushing, popping and
//! searching mean on it.

use vstd::prelude::*;
use crate::cache::CachedContract;
use crate::contract::AliveContractInfo;
use crate::executable::ExportedFunction;
use crate::frame::Frame;
use crate::gas::GasMeter;
use crate::primitives::{AccountId, BlockNumber, Moment};

verus! {

/// The index of the nearest frame under `below` that runs `account`.
pub open spec fn nearest_below(frames: Seq<Frame>, account: AccountId, below: int) -> Option<int>
    decreases below,
{
    if below <= 0 {
        None
    } else if frames[below - 1].account_id == account {
        Some(below - 1)
    } else {
        nearest_below(frames, account, below - 1)
    }
}

/// Whether a frame is a call of `account`.
pub open spec fn is_call_of(frame: Frame, account: AccountId) -> bool {
    frame.entry_point == ExportedFunction::Call && frame.account_id == account
}

/// The record that the nearest call of `account` under `below` holds cached.
/// Where that frame holds none, or there is no such frame, there is no
/// record: frames further down are not looked at, for what they hold may be
/// stale.
pub open spec fn nearest_record_below(frames: Seq<Frame>, account: AccountId, below: int) -> Option<
    AliveContractInfo,
>
    decreases below,
{
    if below <= 0 {
        None
    } else if is_call_of(frames[below - 1], account) {
        match frames[below - 1].contract_info {
            CachedContract::Cached(record) => Some(record),
            _ => None,
        }
    } else {
        nearest_record_below(frames, account, below - 1)
    }
}

/// Where [`nearest_below`] finds a frame, it is the highest one under
/// `below` that runs `account`; where it finds none, there is none.
pub proof fn lemma_nearest_below(frames: Seq<Frame>, account: AccountId, below: int)
    requires
        0 <= below <= frames.len(),
    ensures
        match nearest_below(frames, account, below) {
            Some(i) => 0 <= i < below && frames[i].account_id == account && forall|j: int|
                i < j < below ==> frames[j].account_id != account,
            None => forall|j: int| 0 <= j < below ==> frames[j].account_id != account,
        },
    decreases below,
{
    if below > 0 && frames[below - 1].account_id != account {
        lemma_nearest_below(frames, account, below - 1);
    }
}

/// The call stack as a value: the bottom frame first, the running frame last.
pub struct StackView {
    /// The account that began the outermost invocation.
    pub origin: AccountId,
    /// The timestamp of the block the stack runs in.
    pub timestamp: Moment,
    /// The height of the block the stack runs in.
    pub block_number: BlockNumber,
    /// The seed of the last account that was derived, once one was.
    pub account_counter: Option<u64>,
    /// The deepest the stack may grow.
    pub max_depth: u32,
    /// The frames, the first frame at index 0.
    pub frames: Seq<Frame>,
}

/// The stack of an outermost invocation when its first frame is made.
pub open spec fn first_stack(
    origin: AccountId,
    timestamp: Moment,
    block_number: BlockNumber,
    max_depth: u32,
    frame: Frame,
) -> StackView {
    StackView {
        origin,
        timestamp,
        block_number,
        account_counter: None,
        max_depth,
        frames: seq![frame],
    }
}

impl StackView {
    /// A stack holds at least its first frame and never more than
    /// `max_depth` frames.
    pub open spec fn wf(self) -> bool {
        1 <= self.frames.len() <= self.max_depth
    }

    /// The number of frames.
    pub open spec fn depth(self) -> nat {
        self.frames.len()
    }

    /// The running frame.
    pub open spec fn top(self) -> Frame {
        self.frames.last()
    }

    /// Who called the running frame: the account of the frame below it, or
    /// the origin for the first frame.
    pub open spec fn caller(self) -> AccountId {
        if self.frames.len() >= 2 {
            self.frames[self.frames.len() - 2].account_id
        } else {
            self.origin
        }
    }

    /// Whether the running frame was called by a contract and not by the
    /// origin.
    pub open spec fn caller_is_contract(self) -> bool {
        self.frames.len() > 1
    }

    /// Whether the running contract also runs in a frame further down.
    pub open spec fn is_recursive(self) -> bool {
        nearest_below(self.frames, self.top().account_id, self.frames.len() - 1) is Some
    }

    /// The record that a call of `to` can take over from the stack: the one
    /// that the nearest call of `to` under the running frame holds cached.
    pub open spec fn existing_record(self, to: AccountId) -> Option<AliveContractInfo> {
        nearest_record_below(self.frames, to, self.frames.len() - 1)
    }

    /// This stack with other frames.
    pub open spec fn with_frames(self, frames: Seq<Frame>) -> StackView {
        StackView { frames, ..self }
    }

    /// This stack with another cached record in the running frame.
    pub open spec fn with_top_cache(self, contract_info: CachedContract) -> StackView {
        self.with_frames(
            self.frames.update(self.frames.len() - 1, self.top().with_cache(contract_info)),
        )
    }

    /// This stack with another gas meter in the running frame.
    pub open spec fn with_top_meter(self, nested_meter: GasMeter) -> StackView {
        self.with_frames(
            self.frames.update(self.frames.len() - 1, self.top().with_meter(nested_meter)),
        )
    }

    /// This stack with another seed drawn last.
    pub open spec fn with_counter(self, account_counter: Option<u64>) -> StackView {
        StackView { account_counter, ..self }
    }

    /// The stack with `frame` on top.
    pub open spec fn after_push(self, frame: Frame) -> StackView {
        self.with_frames(self.frames.push(frame))
    }

    /// The record that is written to storage when the running frame ends:
    /// the cached record of a frame that persists, unless the frame below
    /// runs the same contract and takes the record over.
    pub open spec fn write_back(self, persist: bool) -> Option<(AccountId, AliveContractInfo)> {
        let top = self.top();
        if persist && top.contract_info is Cached && self.caller_frame_differs() {
            Some((top.account_id, top.contract_info->Cached_0))
        } else {
            None
        }
    }

    /// Whether the running frame is the first frame, or the frame below it
    /// runs another contract.
    pub open spec fn caller_frame_differs(self) -> bool {
        self.frames.len() < 2 || self.frames[self.frames.len() - 2].account_id
            != self.top().account_id
    }

    /// The frames that remain when the running frame has ended.
    ///
    /// The first frame is never removed. Any other frame leaves, and what it
    /// has not spent of its gas returns to the frame below. Where it
    /// persists with a cached record, the frame below takes the record over
    /// if it runs the same contract; otherwise the nearest frame further
    /// down that runs the same contract is invalidated.
    pub open spec fn frames_after_pop(self, persist: bool) -> Seq<Frame> {
        let n = self.frames.len() as int;
        let top = self.top();
        if n < 2 {
            self.frames
        } else {
            let parent = self.frames[n - 2];
            let refunded = parent.with_meter(parent.nested_meter.absorbing(top.nested_meter));
            let rest = self.frames.drop_last().update(n - 2, refunded);
            if persist && top.contract_info is Cached {
                if parent.account_id == top.account_id {
                    rest.update(n - 2, refunded.with_cache(top.contract_info))
                } else {
                    match nearest_below(rest, top.account_id, n - 2) {
                        Some(i) => rest.update(i, rest[i].with_cache(CachedContract::Invalidated)),
                        None => rest,
                    }
                }
            } else {
                rest
            }
        }
    }

    /// The stack when the running frame has ended.
    pub open spec fn after_pop(self, persist: bool) -> StackView {
        self.with_frames(self.frames_after_pop(persist))
    }

    /// The stack when the invocation of the running frame is known to have
    /// failed or not: the failure of a constructor gives its seed back.
    pub open spec fn after_failure_of(self, failed: bool) -> StackView {
        if failed && self.top().entry_point == ExportedFunction::Constructor {
            StackView { account_counter: counter_after_failure(self.account_counter), ..self }
        } else {
            self
        }
    }

    /// Whether `later` is this stack after its running frame has ended: the
    /// frames below run the same invocations, and the first frame stays.
    pub open spec fn returned_to(self, later: StackView) -> bool {
        &&& later.origin == self.origin
        &&& later.timestamp == self.timestamp
        &&& later.block_number == self.block_number
        &&& later.max_depth == self.max_depth
        &&& later.frames.len() == (if self.frames.len() > 1 {
            self.frames.len() - 1
        } else {
            self.frames.len() as int
        })
        &&& forall|i: int|
            0 <= i < later.frames.len() ==> (#[trigger] self.frames[i]).same_invocation(
                later.frames[i],
            )
    }

    /// Whether `later` is this stack with nothing changed but cached records
    /// and gas meters: the same frames run the same invocations.
    pub open spec fn same_invocations(self, later: StackView) -> bool {
        &&& later.origin == self.origin
        &&& later.timestamp == self.timestamp
        &&& later.block_number == self.block_number
        &&& later.max_depth == self.max_depth
        &&& later.frames.len() == self.frames.len()
        &&& forall|i: int|
            0 <= i < self.frames.len() ==> (#[trigger] self.frames[i]).same_invocation(
                later.frames[i],
            )
    }
}

/// Putting into the running frame the view of the record that it already
/// holds changes nothing.
pub proof fn lemma_same_top_cache(stack: StackView)
    requires
        stack.wf(),
    ensures
        stack.with_top_cache(stack.top().contract_info) == stack,
{
    assert(stack.frames.update(
        stack.frames.len() - 1,
        stack.top().with_cache(stack.top().contract_info),
    ) =~= stack.frames);
}

/// The seed after `seed`; the count wraps around.
pub open spec fn seed_after(seed: u64) -> u64 {
    if seed == u64::MAX {
        0
    } else {
        (seed + 1) as u64
    }
}

/// The seed before `seed`; the count wraps around.
pub open spec fn seed_before(seed: u64) -> u64 {
    if seed == 0 {
        u64::MAX
    } else {
        (seed - 1) as u64
    }
}

/// The seed of the next account: one more than the last, or, where none was
/// derived yet, one more than the count the chain has stored.
pub open spec fn next_seed(account_counter: Option<u64>, stored: u64) -> u64 {
    match account_counter {
        Some(current) => seed_after(current),
        None => seed_after(stored),
    }
}

/// The counter after a constructor has failed: the seed it was given is free
/// again.
pub open spec fn counter_after_failure(account_counter: Option<u64>) -> Option<u64> {
    match account_counter {
        Some(current) => Some(seed_before(current)),
        None => None,
    }
}

} // verus!
