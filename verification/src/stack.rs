//! The call stack: frames, their order, and what enters and leaves.

use vstd::prelude::*;
use core::marker::PhantomData;
use crate::cache::CachedContract;
use crate::contract::AliveContractInfo;
use crate::executable::ExportedFunction;
use crate::frame::Frame;
use crate::gas::GasMeter;
use crate::host::Host;
use crate::model::{
    counter_after_failure,
    lemma_nearest_below,
    nearest_below,
    nearest_record_below,
    seed_after,
    seed_before,
    StackView,
};
use crate::primitives::{AccountId, BlockNumber, Moment};

verus! {

/// The stack of frames of one outermost invocation.
///
/// The first frame is held apart from the frames above it: it is made with
/// the stack and stays for as long as the stack lives. The running frame is
/// the last of `frames`, or the first frame where `frames` is empty.
pub struct Stack<'a, H: Host, E> {
    origin: AccountId,
    schedule: &'a H::Schedule,
    timestamp: Moment,
    block_number: BlockNumber,
    account_counter: Option<u64>,
    max_depth: u32,
    first_frame: Frame,
    frames: Vec<Frame>,
    _phantom: PhantomData<E>,
}

impl<'a, H: Host, E> View for Stack<'a, H, E> {
    type V = StackView;

    closed spec fn view(&self) -> StackView {
        StackView {
            origin: self.origin,
            timestamp: self.timestamp,
            block_number: self.block_number,
            account_counter: self.account_counter,
            max_depth: self.max_depth,
            frames: stacked(self.first_frame, self.frames@),
        }
    }
}

/// Computes [`seed_after`].
pub fn following_seed(seed: u64) -> (next: u64)
    ensures
        next == seed_after(seed),
{
    seed.wrapping_add(1)
}

/// Computes [`seed_before`].
pub fn preceding_seed(seed: u64) -> (previous: u64)
    ensures
        previous == seed_before(seed),
{
    seed.wrapping_sub(1)
}

/// The frames of a stack whose first frame is `first` and whose other frames
/// are `above`.
pub open spec fn stacked(first: Frame, above: Seq<Frame>) -> Seq<Frame> {
    seq![first] + above
}

/// Replacing a frame of a stack replaces it in the first frame or in the
/// frames above, whichever holds it.
proof fn lemma_stacked_update(first: Frame, above: Seq<Frame>)
    ensures
        forall|frame: Frame| #[trigger]
            stacked(frame, above) == stacked(first, above).update(0, frame),
        forall|i: int, frame: Frame|
            0 <= i < above.len() ==> #[trigger] stacked(first, above.update(i, frame)) == stacked(
                first,
                above,
            ).update(i + 1, frame),
{
    assert forall|frame: Frame| #[trigger]
        stacked(frame, above) == stacked(first, above).update(0, frame) by {
        assert(stacked(frame, above) =~= stacked(first, above).update(0, frame));
    }
    assert forall|i: int, frame: Frame| 0 <= i < above.len() implies #[trigger] stacked(
        first,
        above.update(i, frame),
    ) == stacked(first, above).update(i + 1, frame) by {
        assert(stacked(first, above.update(i, frame)) =~= stacked(first, above).update(
            i + 1,
            frame,
        ));
    }
}

/// The index of the nearest frame under `below` that runs `account`, in the
/// stack made of `first` and `above`.
fn find_below(first: &Frame, above: &Vec<Frame>, account: &AccountId, below: usize) -> (found:
    Option<usize>)
    requires
        below <= above.len() + 1,
    ensures
        match found {
            Some(i) => nearest_below(stacked(*first, above@), *account, below as int) == Some(
                i as int,
            ),
            None => nearest_below(stacked(*first, above@), *account, below as int) is None,
        },
{
    let mut under: usize = below;
    while under > 0
        invariant
            under <= below <= above.len() + 1,
            nearest_below(stacked(*first, above@), *account, below as int) == nearest_below(
                stacked(*first, above@),
                *account,
                under as int,
            ),
        decreases under,
    {
        let candidate = if under == 1 {
            first.account_id
        } else {
            above[under - 2].account_id
        };
        if candidate == *account {
            return Some(under - 1);
        }
        under = under - 1;
    }
    None
}

impl<'a, H: Host, E> Stack<'a, H, E> {
    /// The stack never grows beyond its maximal depth.
    #[verifier::type_invariant]
    pub(crate) closed spec fn within_depth(self) -> bool {
        self.frames.len() < self.max_depth
    }

    /// A stack within its depth holds between one frame and `max_depth`
    /// frames.
    pub(crate) proof fn lemma_within_depth(&self)
        requires
            self.within_depth(),
        ensures
            self@.wf(),
    {
    }

    /// A stack of one frame.
    pub(crate) fn with_first_frame(
        origin: AccountId,
        schedule: &'a H::Schedule,
        timestamp: Moment,
        block_number: BlockNumber,
        max_depth: u32,
        first_frame: Frame,
    ) -> (stack: Self)
        requires
            max_depth >= 1,
        ensures
            stack@ == (StackView {
                origin,
                timestamp,
                block_number,
                account_counter: None,
                max_depth,
                frames: seq![first_frame],
            }),
            stack.schedule_of() == schedule,
    {
        let stack = Stack {
            origin,
            schedule,
            timestamp,
            block_number,
            account_counter: None,
            max_depth,
            first_frame,
            frames: Vec::new(),
            _phantom: PhantomData,
        };
        assert(stack@.frames =~= seq![first_frame]);
        stack
    }

    /// The schedule the stack loads code against.
    pub closed spec fn schedule_of(&self) -> &'a H::Schedule {
        self.schedule
    }

    /// The number of frames on the stack.
    pub fn depth(&self) -> (depth: u32)
        ensures
            depth == self@.depth(),
            1 <= depth <= self@.max_depth,
            self@.wf(),
    {
        proof {
            use_type_invariant(self);
        }
        (self.frames.len() + 1) as u32
    }

    /// Whether the running frame was called by a contract and not by the
    /// origin.
    pub fn caller_is_contract(&self) -> (by_contract: bool)
        ensures
            by_contract == self@.caller_is_contract(),
            by_contract == (self@.depth() > 1),
    {
        self.depth() > 1
    }

    /// The running frame.
    pub fn frame(&self) -> (top: &Frame)
        ensures
            *top == self@.top(),
            self@.wf(),
    {
        proof {
            use_type_invariant(self);
        }
        let n = self.frames.len();
        if n == 0 {
            &self.first_frame
        } else {
            &self.frames[n - 1]
        }
    }

    /// The frame at `index`, counted from the first frame, if the stack is
    /// that deep.
    pub fn frame_at(&self, index: usize) -> (frame: Option<&Frame>)
        ensures
            index < self@.depth() ==> frame == Some(&self@.frames[index as int]),
            index >= self@.depth() ==> frame is None,
    {
        if index == 0 {
            Some(&self.first_frame)
        } else if index - 1 < self.frames.len() {
            Some(&self.frames[index - 1])
        } else {
            None
        }
    }

    /// Puts another view of the record into the running frame.
    pub(crate) fn set_top_cache(&mut self, contract_info: CachedContract)
        ensures
            final(self)@ == old(self)@.with_top_cache(contract_info),
            final(self)@.top() == old(self)@.top().with_cache(contract_info),
            final(self)@.wf(),
            final(self).schedule_of() == old(self).schedule_of(),
    {
        proof {
            use_type_invariant(&*self);
        }
        let n = self.frames.len();
        if n == 0 {
            self.first_frame.contract_info = contract_info;
        } else {
            self.frames[n - 1].contract_info = contract_info;
        }
        assert(final(self)@.frames =~= old(self)@.with_top_cache(contract_info).frames);
    }

    /// Whether the running contract also runs in a frame further down.
    pub fn is_recursive(&self) -> (recursive: bool)
        ensures
            recursive == self@.is_recursive(),
    {
        let account_id = self.frame().account_id;
        find_below(&self.first_frame, &self.frames, &account_id, self.frames.len()).is_some()
    }

    /// Who called the running frame.
    pub fn caller_account(&self) -> (caller: &AccountId)
        ensures
            *caller == self@.caller(),
    {
        let n = self.frames.len();
        if n == 0 {
            &self.origin
        } else if n == 1 {
            &self.first_frame.account_id
        } else {
            &self.frames[n - 2].account_id
        }
    }

    /// The gas meter of the running frame.
    pub(crate) fn top_meter(&self) -> (meter: GasMeter)
        ensures
            meter == self@.top().nested_meter,
    {
        self.frame().nested_meter
    }

    /// The gas meter of the first frame.
    pub(crate) fn first_meter(&self) -> (meter: GasMeter)
        ensures
            meter == self@.frames[0].nested_meter,
    {
        self.first_frame.nested_meter
    }

    /// Puts a gas meter into the running frame.
    pub(crate) fn set_top_meter(&mut self, meter: GasMeter)
        ensures
            final(self)@ == old(self)@.with_frames(
                old(self)@.frames.update(
                    old(self)@.frames.len() - 1,
                    old(self)@.top().with_meter(meter),
                ),
            ),
            final(self).schedule_of() == old(self).schedule_of(),
            final(self)@.wf(),
    {
        proof {
            use_type_invariant(&*self);
        }
        let n = self.frames.len();
        if n == 0 {
            self.first_frame.nested_meter = meter;
        } else {
            self.frames[n - 1].nested_meter = meter;
        }
        assert(final(self)@.frames =~= old(self)@.frames.update(
            old(self)@.frames.len() - 1,
            old(self)@.top().with_meter(meter),
        ));
    }

    /// The seed of the first account of an outermost instantiation: the one
    /// after the count that the chain answers to have stored.
    pub(crate) fn initial_account_seed(host: &H) -> (seed: u64)
        ensures
            exists|stored: u64| #[trigger]
                call_ensures(H::account_counter, (host,), stored) && seed == seed_after(stored),
    {
        following_seed(host.account_counter())
    }

    /// Draws the seed of the next account. The first draw starts from the
    /// count the chain has stored; every later one follows the one before.
    pub(crate) fn next_account_seed(&mut self, host: &H) -> (seed: u64)
        ensures
            final(self)@ == old(self)@.with_counter(Some(seed)),
            old(self)@.account_counter is Some ==> seed == seed_after(
                old(self)@.account_counter->0,
            ),
            old(self)@.account_counter is None ==> exists|stored: u64| #[trigger]
                call_ensures(H::account_counter, (host,), stored) && seed == seed_after(stored),
            final(self).schedule_of() == old(self).schedule_of(),
            final(self)@.wf(),
    {
        proof {
            use_type_invariant(&*self);
        }
        let next = match self.account_counter {
            Some(current) => following_seed(current),
            None => Self::initial_account_seed(host),
        };
        self.account_counter = Some(next);
        next
    }

    /// Gives back the seed that a failed constructor was given, so that the
    /// next instantiation draws it again.
    pub(crate) fn release_seed(&mut self)
        ensures
            final(self)@ == (StackView {
                account_counter: counter_after_failure(old(self)@.account_counter),
                ..old(self)@
            }),
            final(self).schedule_of() == old(self).schedule_of(),
            final(self)@.wf(),
    {
        proof {
            use_type_invariant(&*self);
        }
        match self.account_counter {
            Some(current) => {
                self.account_counter = Some(preceding_seed(current));
            },
            None => {},
        }
    }

    /// The gas meter of the running frame, for the running contract to
    /// charge.
    pub(crate) fn top_meter_mut(&mut self) -> (meter: &mut GasMeter)
        ensures
            *meter == old(self)@.top().nested_meter,
            final(self)@ == old(self)@.with_frames(
                old(self)@.frames.update(
                    old(self)@.frames.len() - 1,
                    old(self)@.top().with_meter(*final(meter)),
                ),
            ),
            final(self).schedule_of() == old(self).schedule_of(),
            final(self)@.wf(),
    {
        proof {
            use_type_invariant(&*self);
        }
        let n = self.frames.len();
        proof {
            lemma_stacked_update(self.first_frame, self.frames@);
        }
        if n == 0 {
            Frame::meter_mut(&mut self.first_frame)
        } else {
            Frame::meter_mut(&mut self.frames[n - 1])
        }
    }

    /// The schedule the stack loads code against.
    pub(crate) fn schedule_ref(&self) -> (schedule: &'a H::Schedule)
        ensures
            schedule == self.schedule_of(),
    {
        self.schedule
    }

    /// The timestamp of the block the stack runs in.
    pub(crate) fn timestamp_ref(&self) -> (timestamp: &Moment)
        ensures
            *timestamp == self@.timestamp,
    {
        &self.timestamp
    }

    /// The height of the block the stack runs in.
    pub(crate) fn block_height(&self) -> (block_number: BlockNumber)
        ensures
            block_number == self@.block_number,
    {
        self.block_number
    }

    /// The deepest the stack may grow.
    pub(crate) fn depth_limit(&self) -> (max_depth: u32)
        ensures
            max_depth == self@.max_depth,
    {
        self.max_depth
    }

    /// Puts `frame` on top of the stack.
    pub(crate) fn push(&mut self, frame: Frame)
        requires
            old(self)@.depth() < old(self)@.max_depth,
        ensures
            final(self)@ == old(self)@.after_push(frame),
            final(self).schedule_of() == old(self).schedule_of(),
            final(self)@.wf(),
    {
        proof {
            use_type_invariant(&*self);
        }
        let mut frames: Vec<Frame> = Vec::new();
        core::mem::swap(&mut frames, &mut self.frames);
        frames.push(frame);
        self.frames = frames;
        assert(final(self)@.frames =~= old(self)@.frames.push(frame));
    }

    /// Ends the running frame and says which record is to be written to
    /// storage. The first frame ends without leaving the stack.
    pub(crate) fn retire_frame(&mut self, persist: bool) -> (write_back: Option<
        (AccountId, AliveContractInfo),
    >)
        ensures
            final(self)@ == old(self)@.after_pop(persist),
            write_back == old(self)@.write_back(persist),
            final(self).schedule_of() == old(self).schedule_of(),
            final(self)@.wf(),
    {
        proof {
            use_type_invariant(&*self);
        }
        let ghost before = self@;
        let mut frames: Vec<Frame> = Vec::new();
        core::mem::swap(&mut frames, &mut self.frames);
        assert(before.frames =~= stacked(self.first_frame, frames@));
        match frames.pop() {
            None => {
                self.frames = frames;
                assert(self@.frames =~= before.frames);
                if persist {
                    if let CachedContract::Cached(contract) = self.first_frame.contract_info {
                        return Some((self.first_frame.account_id, contract));
                    }
                }
                None
            },
            Some(popped) => {
                let m: usize = frames.len();
                assert(popped == before.top());
                let ghost parent = before.frames[m as int];
                let ghost refunded = parent.with_meter(
                    parent.nested_meter.absorbing(popped.nested_meter),
                );
                let ghost rest = before.frames.drop_last().update(m as int, refunded);
                if m == 0 {
                    self.first_frame.nested_meter.absorb_nested(popped.nested_meter);
                } else {
                    let mut meter = frames[m - 1].nested_meter;
                    meter.absorb_nested(popped.nested_meter);
                    frames[m - 1].nested_meter = meter;
                }
                assert(stacked(self.first_frame, frames@) =~= rest);
                let mut write_back: Option<(AccountId, AliveContractInfo)> = None;
                if persist {
                    if let CachedContract::Cached(contract) = popped.contract_info {
                        let parent_account = if m == 0 {
                            self.first_frame.account_id
                        } else {
                            frames[m - 1].account_id
                        };
                        if parent_account == popped.account_id {
                            if m == 0 {
                                self.first_frame.contract_info = popped.contract_info;
                            } else {
                                frames[m - 1].contract_info = popped.contract_info;
                            }
                            assert(stacked(self.first_frame, frames@) =~= rest.update(
                                m as int,
                                refunded.with_cache(popped.contract_info),
                            ));
                        } else {
                            match find_below(&self.first_frame, &frames, &popped.account_id, m) {
                                Some(i) => {
                                    proof {
                                        lemma_nearest_below(rest, popped.account_id, m as int);
                                    }
                                    if i == 0 {
                                        self.first_frame.contract_info = CachedContract::Invalidated;
                                    } else {
                                        frames[i - 1].contract_info = CachedContract::Invalidated;
                                    }
                                    assert(stacked(self.first_frame, frames@) =~= rest.update(
                                        i as int,
                                        rest[i as int].with_cache(CachedContract::Invalidated),
                                    ));
                                },
                                None => {},
                            }
                            write_back = Some((popped.account_id, contract));
                        }
                    }
                }
                self.frames = frames;
                assert(self@.frames =~= stacked(self.first_frame, frames@));
                write_back
            },
        }
    }

    /// The record that a call of `to` can take over from the stack.
    pub fn existing_record(&self, to: &AccountId) -> (record: Option<AliveContractInfo>)
        ensures
            record == self@.existing_record(*to),
    {
        let top: usize = self.frames.len();
        let mut below: usize = top;
        while below > 0
            invariant
                below <= top,
                top == self@.frames.len() - 1,
                nearest_record_below(self@.frames, *to, top as int) == nearest_record_below(
                    self@.frames,
                    *to,
                    below as int,
                ),
            decreases below,
        {
            let frame = if below == 1 {
                &self.first_frame
            } else {
                &self.frames[below - 2]
            };
            if frame.entry_point == ExportedFunction::Call && frame.account_id == *to {
                return match frame.contract_info {
                    CachedContract::Cached(record) => Some(record),
                    _ => None,
                };
            }
            below = below - 1;
        }
        None
    }
}

} // verus!
