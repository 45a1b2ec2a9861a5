//! The reducer: a pool of frames that is folded pairwise until one is left.
//!
//! The reducer itself holds no thread and no lock. A worker asks it for its
//! next step, merges the pair it was handed outside the reducer, and hands the
//! result back; whoever shares a reducer between threads guards it with one
//! lock and takes that lock around each of these calls.

use vstd::prelude::*;
use crate::image::{Frame, Image};
use crate::queue::{admits, frames_agree, rasters, size_of, MergeQueue, Size};
use crate::reduction::{
    any_order_is_left_to_right, combined, combined_of_one, fold_left, fold_left_is_combined,
    merge_pair, pair_step, pair_step_keeps_combined, run_schedule, uniform, valid_schedule,
};

verus! {

/// The rule by which two frames become one.
#[derive(Clone, Copy, Debug, PartialEq, Eq, Structural)]
pub enum MergeAction {
    /// Per-pixel saturating sum.
    Add,
    /// Per-pixel brightest.
    Max,
}

/// Where a reducer stands between its first frame and its result.
#[derive(Clone, Copy, Debug, PartialEq, Eq, Structural)]
pub enum Phase {
    /// Frames may still arrive.
    Accepting,
    /// No frame will arrive any more, and work is left or workers are.
    Draining,
    /// No frame will arrive, every worker has left and at most one frame is
    /// in the pool.
    Finished,
}

/// What a worker is to do next.
pub enum WorkerStep {
    /// Merge these two frames, the first with the second, and hand the result
    /// back.
    Merge(Image, Image),
    /// Nothing to merge yet, but frames may still arrive: ask again shortly.
    Wait,
    /// Nothing to merge and nothing to come: leave.
    Exit,
}

/// A reducer as a mathematical value.
pub struct MergerState {
    pub mode: MergeAction,
    /// No frame will arrive any more.
    pub done: bool,
    pub queue: Seq<Frame>,
    /// Width and height of every frame that the pool has held.
    pub size: Size,
    /// Workers that have been started and have not left.
    pub workers: nat,
    /// Merges whose result has been handed back.
    pub merged: nat,
}

impl MergerState {
    /// The frames in the pool are well formed and of the size of the pool.
    pub open spec fn wf(self) -> bool {
        frames_agree(self.queue, self.size)
    }

    /// A reducer that has seen nothing yet.
    pub open spec fn fresh(mode: MergeAction) -> MergerState {
        MergerState { mode, done: false, queue: Seq::empty(), size: None, workers: 0, merged: 0 }
    }

    /// The reducer with one more frame in its pool.
    pub open spec fn push(self, frame: Frame) -> MergerState {
        MergerState { queue: self.queue.push(frame), size: size_of(frame), ..self }
    }

    /// The reducer once it has been told that no frame will arrive any more.
    pub open spec fn finish(self) -> MergerState {
        MergerState { done: true, ..self }
    }

    /// The reducer with `count` more workers; the number of workers stops at
    /// the largest that can be counted.
    pub open spec fn spawn(self, count: nat) -> MergerState {
        MergerState {
            workers: vstd::math::min(self.workers + count as int, usize::MAX as int) as nat,
            ..self
        }
    }

    /// The reducer without the last two frames of its pool, which a worker has
    /// taken out.
    pub open spec fn take_pair(self) -> MergerState
        recommends
            self.queue.len() >= 2,
    {
        MergerState { queue: self.queue.take(self.queue.len() - 2), ..self }
    }

    /// The reducer after a worker has handed back the result of a merge; the
    /// number of merges stops at the largest that can be counted.
    pub open spec fn complete(self, result: Frame) -> MergerState {
        MergerState {
            queue: self.queue.push(result),
            size: size_of(result),
            merged: vstd::math::min(self.merged + 1 as int, u64::MAX as int) as nat,
            ..self
        }
    }

    /// The reducer after a worker has left.
    pub open spec fn leave(self) -> MergerState {
        MergerState {
            workers: if self.workers > 0 {
                (self.workers - 1) as nat
            } else {
                0
            },
            ..self
        }
    }

    /// The reducer after a worker has taken the last two frames of the pool,
    /// merged the last with the one before it and handed the result back.
    pub open spec fn after_merge(self) -> MergerState
        recommends
            self.queue.len() >= 2,
    {
        let n = self.queue.len() as int;
        self.take_pair().complete(merge_frames(self.mode, self.queue[n - 1], self.queue[n - 2]))
    }

    /// Where the reducer stands: see `Phase`.
    pub open spec fn phase(self) -> Phase {
        if !self.done {
            Phase::Accepting
        } else if self.workers > 0 || self.queue.len() > 1 {
            Phase::Draining
        } else {
            Phase::Finished
        }
    }

    /// The pool after all its frames have been merged into one: unchanged if
    /// it holds at most one frame; else one frame, which has the size and the
    /// attributes of the last frame of the pool, the weight one, and in each
    /// pixel the brightest value or the saturated sum of that pixel over the
    /// pool.
    pub open spec fn drained(self) -> Seq<Frame> {
        if self.queue.len() <= 1 {
            self.queue
        } else {
            seq![
                self.queue.last().merged(
                    combined(self.mode, rasters(self.queue), self.queue[0].samples.len()),
                ),
            ]
        }
    }

    /// The frame that the reducer ends with, if any.
    pub open spec fn outcome(self) -> Option<Frame> {
        if self.queue.len() == 0 {
            None
        } else {
            Some(self.drained()[0])
        }
    }
}

/// Two frames merged under a rule; the result keeps the attributes of the
/// first.
pub open spec fn merge_frames(mode: MergeAction, first: Frame, second: Frame) -> Frame {
    first.merged(merge_pair(mode, first.samples, second.samples))
}

/// A pool of frames that workers fold pairwise under one rule.
pub struct Merger {
    mode: MergeAction,
    done: bool,
    queue: MergeQueue,
    workers: usize,
    merged: u64,
}

impl View for Merger {
    type V = MergerState;

    closed spec fn view(&self) -> MergerState {
        MergerState {
            mode: self.mode,
            done: self.done,
            queue: self.queue@,
            size: self.queue.size(),
            workers: self.workers as nat,
            merged: self.merged as nat,
        }
    }
}

impl Merger {
    /// The frames in the pool are well formed and of one size.
    pub open spec fn wf(&self) -> bool {
        self@.wf()
    }

    /// A reducer with an empty pool, which accepts frames.
    pub fn new(action: MergeAction) -> (m: Merger)
        ensures
            m@ == MergerState::fresh(action),
            m.wf(),
    {
        Merger { mode: action, done: false, queue: MergeQueue::new(), workers: 0, merged: 0 }
    }

    /// The pool.
    pub fn get_queue(&self) -> (q: &MergeQueue)
        ensures
            q@ == self@.queue,
            q.size() == self@.size,
    {
        &self.queue
    }

    /// The rule of this reducer.
    pub fn action(&self) -> (a: MergeAction)
        ensures
            a == self@.mode,
    {
        self.mode
    }

    /// The number of merges whose result has been handed back.
    pub fn progress(&self) -> (n: u64)
        ensures
            n == self@.merged,
    {
        self.merged
    }

    /// The number of workers that have been started and have not left.
    pub fn active_workers(&self) -> (n: usize)
        ensures
            n == self@.workers,
    {
        self.workers
    }

    /// Where the reducer stands.
    pub fn phase(&self) -> (p: Phase)
        ensures
            p == self@.phase(),
    {
        if !self.done {
            Phase::Accepting
        } else if self.workers > 0 || self.queue.len() > 1 {
            Phase::Draining
        } else {
            Phase::Finished
        }
    }

    /// Whether `push` may be called with the frame: frames may still arrive,
    /// and the frame is well formed and of the size of the frames in the pool.
    pub fn accepts(&self, frame: &Image) -> (b: bool)
        ensures
            b == (!self@.done && admits(self@.size, frame@)),
    {
        !self.done && self.queue.accepts(frame)
    }

    /// Puts a new frame into the pool.
    pub fn push(&mut self, frame: Image)
        requires
            old(self).wf(),
            !old(self)@.done,
            admits(old(self)@.size, frame@),
        ensures
            final(self)@ == old(self)@.push(frame@),
            final(self).wf(),
    {
        self.queue.push(frame);
    }

    /// Counts `num_threads` more workers as started. The count stops at the
    /// largest number it can hold.
    pub fn spawn_workers(&mut self, num_threads: usize)
        ensures
            final(self)@ == old(self)@.spawn(num_threads as nat),
    {
        self.workers = self.workers.saturating_add(num_threads);
    }

    /// Tells the reducer that no frame will arrive any more. There is no way
    /// back.
    pub fn finish(&mut self)
        ensures
            final(self)@ == old(self)@.finish(),
    {
        self.done = true;
    }

    /// What the worker that asks is to do next. With two frames or more in
    /// the pool, the last two leave it and are handed out. With fewer, the
    /// worker waits while frames may still arrive, and else leaves: it is then
    /// no longer counted.
    pub fn next_step(&mut self) -> (step: WorkerStep)
        requires
            old(self).wf(),
        ensures
            final(self).wf(),
            match step {
                WorkerStep::Merge(first, second) => {
                    let n = old(self)@.queue.len();
                    &&& n >= 2
                    &&& first@ == old(self)@.queue[n - 1]
                    &&& second@ == old(self)@.queue[n - 2]
                    &&& final(self)@ == old(self)@.take_pair()
                },
                WorkerStep::Wait => {
                    &&& old(self)@.queue.len() < 2
                    &&& !old(self)@.done
                    &&& final(self)@ == old(self)@
                },
                WorkerStep::Exit => {
                    &&& old(self)@.queue.len() < 2
                    &&& old(self)@.done
                    &&& final(self)@ == old(self)@.leave()
                },
            },
    {
        match self.queue.try_take_pair() {
            Some((first, second)) => WorkerStep::Merge(first, second),
            None => {
                if self.done {
                    if self.workers > 0 {
                        self.workers = self.workers - 1;
                    }
                    WorkerStep::Exit
                } else {
                    WorkerStep::Wait
                }
            },
        }
    }

    /// Takes back the result of a merge and counts it. The count stops at the
    /// largest number it can hold.
    pub fn complete(&mut self, result: Image)
        requires
            old(self).wf(),
            admits(old(self)@.size, result@),
        ensures
            final(self)@ == old(self)@.complete(result@),
            final(self).wf(),
    {
        self.queue.push(result);
        self.merged = self.merged.saturating_add(1);
    }

    /// Ends the reducer: no frame will arrive any more, what is in the pool is
    /// merged into one frame, and that frame is handed out. A reducer that
    /// never got a frame hands out none; one that got a single frame hands it
    /// out as it came.
    pub fn finish_and_join(self) -> (res: Option<Image>)
        requires
            self.wf(),
        ensures
            match res {
                None => self@.outcome() is None,
                Some(frame) => self@.outcome() == Some(frame@) && frame.wf(),
            },
    {
        let mut merger = self;
        merger.finish();
        let _ = queue_worker(&mut merger);
        merger.queue.take_last()
    }
}

/// Merges two frames of one size under a rule; the result keeps the
/// attributes of the first.
pub fn merge(action: MergeAction, first: &Image, second: Image) -> (res: Image)
    requires
        first.wf(),
        second.wf(),
        first@.same_size(second@),
    ensures
        res@ == merge_frames(action, first@, second@),
        res.wf(),
{
    match action {
        MergeAction::Add => first.merge_add(second),
        MergeAction::Max => first.merge_max(second),
    }
}

/// A reducer that never got a frame ends without one.
pub proof fn nothing_in_nothing_out(mode: MergeAction)
    ensures
        MergerState::fresh(mode).outcome() is None,
        MergerState::fresh(mode).finish().outcome() is None,
{
}

/// A reducer that got a single frame ends with that frame, unchanged.
pub proof fn single_frame_unchanged(mode: MergeAction, frame: Frame)
    ensures
        MergerState::fresh(mode).push(frame).outcome() == Some(frame),
        MergerState::fresh(mode).push(frame).finish().outcome() == Some(frame),
{
}

/// The raster that a reducer ends with is the one that merging its frames
/// one after the other, from the first to the last, gives.
pub proof fn outcome_is_left_to_right(state: MergerState)
    requires
        state.wf(),
        state.queue.len() > 0,
    ensures
        state.outcome() is Some,
        state.outcome().unwrap().samples == fold_left(state.mode, rasters(state.queue)),
{
    agreeing_frames_are_uniform(state.queue, state.size);
    fold_left_is_combined(state.mode, rasters(state.queue), state.queue[0].samples.len());
}

/// The raster that a reducer ends with is the one that every valid schedule
/// of pairwise merges of its frames ends with.
pub proof fn outcome_of_any_order(state: MergerState, schedule: Seq<(int, int)>)
    requires
        state.wf(),
        valid_schedule(state.queue.len(), schedule),
        schedule.len() + 1 == state.queue.len(),
    ensures
        state.outcome() is Some,
        run_schedule(state.mode, rasters(state.queue), schedule) == seq![
            state.outcome().unwrap().samples,
        ],
{
    let pool = rasters(state.queue);
    agreeing_frames_are_uniform(state.queue, state.size);
    any_order_is_left_to_right(state.mode, pool, state.queue[0].samples.len(), schedule);
    outcome_is_left_to_right(state);
    let end = run_schedule(state.mode, pool, schedule);
    assert(end =~= seq![end[0]]);
}

/// Frames that agree are rasters of one length.
proof fn agreeing_frames_are_uniform(frames: Seq<Frame>, size: Size)
    requires
        frames_agree(frames, size),
        frames.len() > 0,
    ensures
        uniform(rasters(frames), frames[0].samples.len()),
{
    assert forall|k: int| 0 <= k < rasters(frames).len() implies (#[trigger] rasters(
        frames,
    )[k]).len() == frames[0].samples.len() by {
        assert(frames[k].wf());
        assert(frames[0].wf());
    }
}

/// A merge of the last two frames of the pool loses nothing: the pool stays
/// well formed, holds one frame less, and the reducer ends with the same
/// frame as it would have before.
pub proof fn merge_keeps_outcome(state: MergerState)
    requires
        state.wf(),
        state.queue.len() >= 2,
    ensures
        state.after_merge().wf(),
        state.after_merge().queue.len() == state.queue.len() - 1,
        state.after_merge().outcome() == state.outcome(),
{
    let queue = state.queue;
    let n = queue.len() as int;
    let size = queue[0].samples.len();
    let result = merge_frames(state.mode, queue[n - 1], queue[n - 2]);
    let after = state.after_merge().queue;
    assert(queue[n - 1].wf() && size_of(queue[n - 1]) == state.size);
    assert(queue[n - 2].wf() && size_of(queue[n - 2]) == state.size);
    assert(queue[0].wf() && size_of(queue[0]) == state.size);
    assert(result.wf());
    assert(frames_agree(after, state.size)) by {
        assert forall|k: int| 0 <= k < after.len() implies (#[trigger] after[k]).wf() && size_of(
            after[k],
        ) == state.size by {
            if k < n - 2 {
                assert(after[k] == queue[k]);
            }
        }
    }
    assert(after[0].samples.len() == size);
    agreeing_frames_are_uniform(queue, state.size);
    pair_step_keeps_combined(state.mode, rasters(queue), size, n - 1, n - 2);
    assert(rasters(after) =~= pair_step(state.mode, rasters(queue), n - 1, n - 2));
    if n == 2 {
        assert(rasters(after) =~= seq![result.samples]);
        combined_of_one(state.mode, result.samples);
    }
}

/// Runs one worker for as long as it finds two frames to merge: the pool is
/// then merged into one frame. Hands back the step that ended the run, which
/// is `Exit` where no frame will arrive any more, and `Wait` otherwise.
pub fn queue_worker(merger: &mut Merger) -> (step: WorkerStep)
    requires
        old(merger).wf(),
    ensures
        final(merger).wf(),
        old(merger)@.done ==> step is Exit,
        !old(merger)@.done ==> step is Wait,
        final(merger)@ == (MergerState {
            queue: old(merger)@.drained(),
            merged: vstd::math::min(
                old(merger)@.merged + old(merger)@.queue.len() - old(merger)@.drained().len(),
                u64::MAX as int,
            ) as nat,
            workers: if old(merger)@.done && old(merger)@.workers > 0 {
                (old(merger)@.workers - 1) as nat
            } else {
                old(merger)@.workers
            },
            ..old(merger)@
        }),
{
    let ghost start = merger@;
    let action = merger.action();
    loop
        invariant
            merger.wf(),
            start == old(merger)@,
            action == start.mode,
            merger@ == (MergerState { queue: merger@.queue, merged: merger@.merged, ..start }),
            merger@.queue.len() <= start.queue.len(),
            merger@.queue.len() == start.queue.len() ==> merger@.queue == start.queue,
            merger@.merged == vstd::math::min(
                start.merged + start.queue.len() - merger@.queue.len(),
                u64::MAX as int,
            ),
            merger@.outcome() == start.outcome(),
        decreases merger@.queue.len(),
    {
        let ghost before = merger@;
        match merger.next_step() {
            WorkerStep::Merge(first, second) => {
                proof {
                    merge_keeps_outcome(before);
                }
                let result = merge(action, &first, second);
                merger.complete(result);
                assert(merger@ == before.after_merge());
            },
            other => {
                assert(merger@.queue =~= start.drained());
                return other;
            },
        }
    }
}

} // verus!
