//! What holds of every stack, stated over the model of [`crate::model`].
//!
//! The functions of the executive say in their contracts how the model
//! changes; the lemmas here say what those changes preserve.

use vstd::prelude::*;
use crate::cache::CachedContract;
use crate::contract::AliveContractInfo;
use crate::frame::Frame;
use crate::gas::GasMeter;
use crate::model::{
    counter_after_failure,
    lemma_nearest_below,
    next_seed,
    seed_after,
    seed_before,
    StackView,
};
use crate::primitives::AccountId;

verus! {

/// Every frame that holds a record cached is the topmost frame of its
/// contract: no frame above it runs the same contract.
pub open spec fn caches_authoritative(frames: Seq<Frame>) -> bool {
    forall|i: int, j: int|
        0 <= i < j < frames.len() && (#[trigger] frames[i]).contract_info is Cached ==> (
        #[trigger] frames[j]).account_id != frames[i].account_id
}

/// No two frames hold the record of the same contract cached.
pub open spec fn caches_unique(frames: Seq<Frame>) -> bool {
    forall|i: int, j: int|
        0 <= i < frames.len() && 0 <= j < frames.len() && i != j && (
        #[trigger] frames[i]).contract_info is Cached && (#[trigger] frames[j]).contract_info
            is Cached ==> frames[i].account_id != frames[j].account_id
}

/// Whether some frame holds the record of `account` cached.
pub open spec fn holds_cached(frames: Seq<Frame>, account: AccountId) -> bool {
    exists|i: int|
        0 <= i < frames.len() && (#[trigger] frames[i]).account_id == account
            && frames[i].contract_info is Cached
}

/// Where every cached record sits in the topmost frame of its contract, no
/// contract has its record cached twice.
pub proof fn lemma_authoritative_caches_are_unique(frames: Seq<Frame>)
    requires
        caches_authoritative(frames),
    ensures
        caches_unique(frames),
{
    assert forall|i: int, j: int|
        0 <= i < frames.len() && 0 <= j < frames.len() && i != j && (
        #[trigger] frames[i]).contract_info is Cached && (#[trigger] frames[j]).contract_info
            is Cached implies frames[i].account_id != frames[j].account_id by {
        if i < j {
            assert(frames[j].account_id != frames[i].account_id);
        } else {
            assert(frames[i].account_id != frames[j].account_id);
        }
    }
}

/// What ending the running frame does to the frames that stay: none of them
/// changes but in its cached record and its gas meter, and none but the new
/// running frame comes to hold a record that it did not hold.
proof fn lemma_frames_after_pop(stack: StackView, persist: bool)
    requires
        stack.wf(),
        stack.depth() > 1,
    ensures
        stack.frames_after_pop(persist).len() == stack.depth() - 1,
        forall|i: int|
            0 <= i < stack.depth() - 1 ==> (#[trigger] stack.frames[i]).same_invocation(
                stack.frames_after_pop(persist)[i],
            ),
        forall|i: int|
            0 <= i < stack.depth() - 2 && (#[trigger] stack.frames_after_pop(
                persist,
            )[i]).contract_info is Cached ==> stack.frames[i].contract_info is Cached,
{
    let n = stack.frames.len() as int;
    let top = stack.top();
    let parent = stack.frames[n - 2];
    let refunded = parent.with_meter(parent.nested_meter.absorbing(top.nested_meter));
    let rest = stack.frames.drop_last().update(n - 2, refunded);
    lemma_nearest_below(rest, top.account_id, n - 2);
}

/// A stack of one frame holds no record twice.
pub proof fn lemma_first_frame_is_authoritative(frame: Frame)
    ensures
        caches_authoritative(seq![frame]),
{
}

/// Ending the running frame, persisting or not, keeps every cached record
/// in the topmost frame of its contract.
pub proof fn lemma_pop_keeps_caches_authoritative(stack: StackView, persist: bool)
    requires
        stack.wf(),
        caches_authoritative(stack.frames),
    ensures
        caches_authoritative(stack.after_pop(persist).frames),
{
    let n = stack.frames.len() as int;
    let after = stack.frames_after_pop(persist);
    if n >= 2 {
        lemma_frames_after_pop(stack, persist);
        assert forall|i: int, j: int|
            0 <= i < j < after.len() && (#[trigger] after[i]).contract_info is Cached implies (
            #[trigger] after[j]).account_id != after[i].account_id by {
            assert(stack.frames[j].same_invocation(after[j]));
            assert(stack.frames[i].same_invocation(after[i]));
            assert(stack.frames[i].contract_info is Cached);
            assert(stack.frames[j].account_id != stack.frames[i].account_id);
        }
    }
}

/// A new frame keeps every cached record in the topmost frame of its
/// contract, provided that no frame holds the record of the new frame's
/// contract cached.
pub proof fn lemma_push_keeps_caches_authoritative(stack: StackView, frame: Frame)
    requires
        caches_authoritative(stack.frames),
        !holds_cached(stack.frames, frame.account_id),
    ensures
        caches_authoritative(stack.after_push(frame).frames),
{
    let after = stack.after_push(frame).frames;
    assert forall|i: int, j: int|
        0 <= i < j < after.len() && (#[trigger] after[i]).contract_info is Cached implies (
        #[trigger] after[j]).account_id != after[i].account_id by {
        if j == stack.frames.len() {
            assert(stack.frames[i].contract_info is Cached);
            if frame.account_id == stack.frames[i].account_id {
                assert(holds_cached(stack.frames, frame.account_id));
            }
        } else {
            assert(after[i] == stack.frames[i]);
            assert(after[j] == stack.frames[j]);
        }
    }
}

/// Whatever the running frame does to its own view of its record, every
/// cached record stays in the topmost frame of its contract.
pub proof fn lemma_top_cache_keeps_caches_authoritative(
    stack: StackView,
    contract_info: CachedContract,
)
    requires
        stack.wf(),
        caches_authoritative(stack.frames),
    ensures
        caches_authoritative(stack.with_top_cache(contract_info).frames),
{
    let after = stack.with_top_cache(contract_info).frames;
    assert forall|i: int, j: int|
        0 <= i < j < after.len() && (#[trigger] after[i]).contract_info is Cached implies (
        #[trigger] after[j]).account_id != after[i].account_id by {
        assert(after[i] == stack.frames[i]);
        assert(after[j].account_id == stack.frames[j].account_id);
    }
}

/// Gas that enters or leaves the running frame's meter moves no record.
pub proof fn lemma_top_meter_keeps_caches_authoritative(stack: StackView, meter: GasMeter)
    requires
        stack.wf(),
        caches_authoritative(stack.frames),
    ensures
        caches_authoritative(
            stack.frames.update(stack.depth() - 1, stack.top().with_meter(meter)),
        ),
{
    let after = stack.frames.update(stack.depth() - 1, stack.top().with_meter(meter));
    assert forall|i: int, j: int|
        0 <= i < j < after.len() && (#[trigger] after[i]).contract_info is Cached implies (
        #[trigger] after[j]).account_id != after[i].account_id by {
        assert(after[i].contract_info == stack.frames[i].contract_info);
        assert(after[i].account_id == stack.frames[i].account_id);
        assert(after[j].account_id == stack.frames[j].account_id);
    }
}

/// The record cached in a frame that persists is the record written to
/// storage when the frame ends, unless the frame below runs the same
/// contract: then no record is written, for that frame takes it over.
pub proof fn lemma_persisted_record_is_written_back(stack: StackView, info: AliveContractInfo)
    requires
        stack.wf(),
        stack.top().contract_info == CachedContract::Cached(info),
    ensures
        stack.caller_frame_differs() ==> stack.write_back(true) == Some(
            (stack.top().account_id, info),
        ),
        !stack.caller_frame_differs() ==> stack.write_back(true) is None && stack.after_pop(
            true,
        ).top().contract_info == CachedContract::Cached(info),
        stack.write_back(false) is None,
{
}

/// A frame that does not persist, or that holds no record, writes nothing.
pub proof fn lemma_nothing_else_is_written_back(stack: StackView, persist: bool)
    requires
        stack.wf(),
        !persist || !(stack.top().contract_info is Cached),
    ensures
        stack.write_back(persist) is None,
{
}

/// The first frame never leaves; any other frame leaves alone. The depth
/// stays within its limit.
pub proof fn lemma_pop_depth(stack: StackView, persist: bool)
    requires
        stack.wf(),
    ensures
        stack.after_pop(persist).wf(),
        stack.depth() == 1 ==> stack.after_pop(persist) == stack,
        stack.depth() > 1 ==> stack.after_pop(persist).depth() == stack.depth() - 1,
{
    if stack.depth() > 1 {
        lemma_frames_after_pop(stack, persist);
    }
}

/// A frame pushed under the depth limit keeps the stack within it.
pub proof fn lemma_push_depth(stack: StackView, frame: Frame)
    requires
        stack.wf(),
        stack.depth() < stack.max_depth,
    ensures
        stack.after_push(frame).wf(),
        stack.after_push(frame).depth() == stack.depth() + 1,
{
}

/// The caller of a frame is the contract of the frame it was pushed onto;
/// the caller of the first frame is the origin.
pub proof fn lemma_caller(stack: StackView, frame: Frame)
    requires
        stack.wf(),
    ensures
        stack.after_push(frame).caller() == stack.top().account_id,
        stack.depth() == 1 ==> stack.caller() == stack.origin,
        stack.depth() > 1 ==> stack.caller() == stack.frames[stack.depth() - 2].account_id,
{
}

/// Frames that stay on the stack keep the account, the entry point, the
/// value and the rent figures they were made with when a frame is pushed.
pub proof fn lemma_push_keeps_invocations(stack: StackView, frame: Frame)
    requires
        stack.wf(),
    ensures
        forall|i: int|
            0 <= i < stack.depth() ==> (#[trigger] stack.after_push(frame).frames[i])
                == stack.frames[i],
{
}

/// Frames that stay on the stack keep the account, the entry point, the
/// value and the rent figures they were made with when the running frame
/// ends: only cached records and gas meters change.
pub proof fn lemma_pop_keeps_invocations(stack: StackView, persist: bool)
    requires
        stack.wf(),
    ensures
        forall|i: int|
            0 <= i < stack.after_pop(persist).depth() ==> (#[trigger] stack.frames[i])
                .same_invocation(stack.after_pop(persist).frames[i]),
{
    if stack.depth() > 1 {
        lemma_frames_after_pop(stack, persist);
    }
}

/// A change to the running frame's view of its record changes nothing else.
pub proof fn lemma_top_cache_keeps_invocations(stack: StackView, contract_info: CachedContract)
    requires
        stack.wf(),
    ensures
        stack.same_invocations(stack.with_top_cache(contract_info)),
{
}

/// A stack runs the same invocations as itself, and running the same
/// invocations carries over from stack to stack.
pub proof fn lemma_same_invocations_compose(first: StackView, second: StackView, third: StackView)
    requires
        first.same_invocations(second),
        second.same_invocations(third),
    ensures
        first.same_invocations(first),
        first.same_invocations(third),
{
    assert forall|i: int| 0 <= i < first.frames.len() implies (#[trigger] first.frames[i])
        .same_invocation(third.frames[i]) by {
        assert(first.frames[i].same_invocation(second.frames[i]));
        assert(second.frames[i].same_invocation(third.frames[i]));
    }
}

/// An invocation that begins and ends, whether it persists or not, leaves
/// every frame below it with the account, the entry point, the value and
/// the rent figures it was made with.
pub proof fn lemma_nested_invocation_keeps_invocations(
    stack: StackView,
    frame: Frame,
    persist: bool,
)
    requires
        stack.wf(),
        stack.depth() < stack.max_depth,
    ensures
        stack.same_invocations(stack.after_push(frame).after_pop(persist)),
{
    let pushed = stack.after_push(frame);
    lemma_push_depth(stack, frame);
    lemma_pop_depth(pushed, persist);
    lemma_pop_keeps_invocations(pushed, persist);
    let after = pushed.after_pop(persist);
    assert forall|i: int| 0 <= i < stack.frames.len() implies (#[trigger] stack.frames[i])
        .same_invocation(after.frames[i]) by {
        assert(pushed.frames[i] == stack.frames[i]);
        assert(pushed.frames[i].same_invocation(after.frames[i]));
    }
}

/// When the running frame ends, the frames below it run what they ran.
pub proof fn lemma_pop_returns(stack: StackView, ran: StackView, failed: bool, persist: bool)
    requires
        stack.wf(),
        stack.same_invocations(ran),
    ensures
        stack.returned_to(ran.after_failure_of(failed).after_pop(persist)),
{
    let closed = ran.after_failure_of(failed);
    assert(closed.wf());
    lemma_pop_depth(closed, persist);
    lemma_pop_keeps_invocations(closed, persist);
    let later = closed.after_pop(persist);
    assert forall|i: int| 0 <= i < later.frames.len() implies (#[trigger] stack.frames[i])
        .same_invocation(later.frames[i]) by {
        assert(stack.frames[i].same_invocation(ran.frames[i]));
        assert(closed.frames[i].same_invocation(later.frames[i]));
    }
}

/// A change to the gas meter of the running frame, or a seed drawn, changes
/// no invocation.
pub proof fn lemma_meter_and_seed_keep_invocations(
    stack: StackView,
    nested_meter: GasMeter,
    account_counter: Option<u64>,
)
    requires
        stack.wf(),
    ensures
        stack.same_invocations(stack.with_top_meter(nested_meter)),
        stack.same_invocations(stack.with_counter(account_counter)),
        stack.same_invocations(stack.with_top_meter(nested_meter).with_counter(account_counter)),
{
}

/// An invocation that was pushed onto `base` and has ended leaves `base`
/// running what it ran.
pub proof fn lemma_invocation_returns(base: StackView, frame: Frame, later: StackView)
    requires
        base.wf(),
        base.after_push(frame).returned_to(later),
    ensures
        base.same_invocations(later),
{
    let pushed = base.after_push(frame);
    assert forall|i: int| 0 <= i < base.frames.len() implies (#[trigger] base.frames[i])
        .same_invocation(later.frames[i]) by {
        assert(pushed.frames[i] == base.frames[i]);
        assert(pushed.frames[i].same_invocation(later.frames[i]));
    }
}

/// The seed that a failed constructor gives back is the seed that the next
/// instantiation draws.
pub proof fn lemma_released_seed_is_drawn_again(account_counter: Option<u64>, stored: u64)
    ensures
        next_seed(counter_after_failure(Some(next_seed(account_counter, stored))), stored)
            == next_seed(account_counter, stored),
        seed_before(seed_after(stored)) == stored,
{
}

} // verus!
