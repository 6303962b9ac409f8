use vstd::prelude::*;

use crate::renderers::{RendererError, RendererResult};

verus! {

/// The bookkeeping of frame synchronization by a timeline semaphore: the value
/// each frame last signaled and the value of the next submission.
#[derive(Debug, Clone)]
pub struct TimelineValues {
    frame_values: Vec<u64>,
    new_value: u64,
}

impl View for TimelineValues {
    type V = (Seq<u64>, u64);

    closed spec fn view(&self) -> (Seq<u64>, u64) {
        (self.frame_values@, self.new_value)
    }
}

impl TimelineValues {
    /// Every signaled value is below the value of the next submission, which is positive.
    pub open spec fn wf(self) -> bool {
        &&& self@.1 >= 1
        &&& forall|i: int| 0 <= i < self@.0.len() ==> #[trigger] self@.0[i] < self@.1
    }

    /// No frame submitted yet, the first submission signals `1`.
    pub fn new(frames_in_flight: usize) -> (t: Self)
        ensures
            t.wf(),
            t@.0 == Seq::new(frames_in_flight as nat, |i: int| 0u64),
            t@.1 == 1,
    {
        let mut frame_values: Vec<u64> = Vec::new();
        let mut i: usize = 0;
        while i < frames_in_flight
            invariant
                i <= frames_in_flight,
                frame_values@ == Seq::new(i as nat, |k: int| 0u64),
            decreases frames_in_flight - i,
        {
            frame_values.push(0);
            i = i + 1;
            assert(frame_values@ =~= Seq::new(i as nat, |k: int| 0u64));
        }
        TimelineValues { frame_values, new_value: 1 }
    }

    /// The number of frames tracked.
    pub fn frame_count(&self) -> (n: usize)
        ensures
            n == self@.0.len(),
    {
        self.frame_values.len()
    }

    /// The value the next submission signals, or an error when the counter
    /// cannot advance past it.
    pub fn next_signal_value(&self) -> (r: RendererResult<u64>)
        ensures
            r is Err <==> self@.1 == u64::MAX,
            r is Err ==> (r matches Err(RendererError::Fail(m)) && m@
                == "Timeline semaphore counter exhausted."@),
            r matches Ok(v) ==> v == self@.1,
    {
        match self.new_value.checked_add(1) {
            Some(_) => Ok(self.new_value),
            None => Err(RendererError::fail("Timeline semaphore counter exhausted.")),
        }
    }

    /// Records that frame `frame_index` was submitted signaling the current value.
    pub fn record_submit(&mut self, frame_index: usize)
        requires
            old(self).wf(),
            frame_index < old(self)@.0.len(),
            old(self)@.1 < u64::MAX,
        ensures
            final(self).wf(),
            final(self)@.0 == old(self)@.0.update(frame_index as int, old(self)@.1),
            final(self)@.1 == old(self)@.1 + 1,
    {
        let value = self.new_value;
        self.frame_values.set(frame_index, value);
        self.new_value = value + 1;
    }

    /// The value to wait for before reusing frame `frame_index`, or `None`
    /// when the frame was never submitted.
    pub fn wait_value(&self, frame_index: usize) -> (r: Option<u64>)
        requires
            frame_index < self@.0.len(),
        ensures
            r == if self@.0[frame_index as int] == 0 {
                None
            } else {
                Some(self@.0[frame_index as int])
            },
    {
        let value = self.frame_values[frame_index];
        if value == 0 {
            None
        } else {
            Some(value)
        }
    }
}

/// Waiting on a frame right after it was submitted waits for exactly the value
/// that submission signaled, and later submissions signal larger values.
pub proof fn lemma_timeline_wait_after_submit(before: TimelineValues, after: TimelineValues, frame_index: int)
    requires
        before.wf(),
        0 <= frame_index < before@.0.len(),
        before@.1 < u64::MAX,
        after@.0 == before@.0.update(frame_index, before@.1),
        after@.1 == before@.1 + 1,
    ensures
        after@.0[frame_index] == before@.1,
        after@.0[frame_index] != 0,
        forall|i: int| 0 <= i < after@.0.len() ==> #[trigger] after@.0[i] < after@.1,
{
}

/// The bookkeeping of frame synchronization by fences: whether each frame's
/// fence has a submission in flight.
#[derive(Debug, Clone)]
pub struct FenceStates {
    in_flight: Vec<bool>,
}

impl View for FenceStates {
    type V = Seq<bool>;

    closed spec fn view(&self) -> Seq<bool> {
        self.in_flight@
    }
}

impl FenceStates {
    /// No frame in flight.
    pub fn new(frames_in_flight: usize) -> (s: Self)
        ensures
            s@ == Seq::new(frames_in_flight as nat, |i: int| false),
    {
        let mut in_flight: Vec<bool> = Vec::new();
        let mut i: usize = 0;
        while i < frames_in_flight
            invariant
                i <= frames_in_flight,
                in_flight@ == Seq::new(i as nat, |k: int| false),
            decreases frames_in_flight - i,
        {
            in_flight.push(false);
            i = i + 1;
            assert(in_flight@ =~= Seq::new(i as nat, |k: int| false));
        }
        FenceStates { in_flight }
    }

    /// The number of frames tracked.
    pub fn frame_count(&self) -> (n: usize)
        ensures
            n == self@.len(),
    {
        self.in_flight.len()
    }

    /// Records that frame `frame_index` was submitted with its fence.
    pub fn record_submit(&mut self, frame_index: usize)
        requires
            frame_index < old(self)@.len(),
        ensures
            final(self)@ == old(self)@.update(frame_index as int, true),
    {
        self.in_flight.set(frame_index, true);
    }

    /// Records that the wait for frame `frame_index` finished: the frame is no
    /// longer in flight.
    pub fn record_wait_done(&mut self, frame_index: usize)
        requires
            frame_index < old(self)@.len(),
        ensures
            final(self)@ == old(self)@.update(frame_index as int, false),
    {
        self.in_flight.set(frame_index, false);
    }

    /// Whether the fence of frame `frame_index` must be waited for.
    pub fn needs_wait(&self, frame_index: usize) -> (b: bool)
        requires
            frame_index < self@.len(),
        ensures
            b == self@[frame_index as int],
    {
        self.in_flight[frame_index]
    }
}

/// A frame whose submission has been waited for is no longer in flight: after
/// `record_submit` and then `record_wait_done` for the same frame, a second
/// wait for it has nothing to wait for, and the other frames keep their flags.
pub proof fn lemma_fence_wait_clears(states: Seq<bool>, frame_index: int)
    requires
        0 <= frame_index < states.len(),
    ensures
        !states.update(frame_index, true).update(frame_index, false)[frame_index],
        forall|i: int|
            0 <= i < states.len() && i != frame_index ==> #[trigger] states.update(
                frame_index,
                true,
            ).update(frame_index, false)[i] == states[i],
{
}

} // verus!
