//! One reducer in the hands of producers and workers at once.
//!
//! Between the moment a worker takes a pair out of the pool and the moment it
//! hands the merge back, the two frames are in nobody's pool. This file
//! follows every frame through any interleaving of the steps that producers,
//! workers and the driver take, and shows that none is lost and that the
//! reducer is not left before the work is done.

use vstd::prelude::*;
use crate::image::Frame;
use crate::kernel::SAMPLE_MAX;
use crate::merger::{merge_frames, MergeAction, MergerState, Phase};
use crate::queue::{admits, frames_agree, rasters, size_of};
use crate::reduction::{
    brightest, brightest_in_range, combined, combined_sample, fold_left, fold_left_is_combined,
    put_in, total, total_not_negative, uniform,
};

verus! {

/// A reducer in use.
pub struct Floor {
    pub reducer: MergerState,
    /// The pairs that workers have taken out of the pool and not handed back.
    pub held: Seq<(Frame, Frame)>,
    /// Every frame that a producer has handed in, in the order of arrival.
    pub pushed: Seq<Frame>,
}

/// One step of a producer, of a worker or of the driver.
pub enum Event {
    /// A producer hands in a frame.
    Push(Frame),
    /// The driver starts more workers.
    Spawn(nat),
    /// The driver says that no frame will arrive any more.
    Finish,
    /// A worker that holds no pair asks for its next step and is given the
    /// last two frames of the pool.
    Take,
    /// The worker that holds the pair at this place hands back its merge.
    HandBack(int),
    /// A worker that holds no pair asks for its next step and is told to
    /// leave.
    Leave,
}

/// The sum of pixel `p` over the frames of all pairs.
pub open spec fn held_total(held: Seq<(Frame, Frame)>, p: int) -> int
    decreases held.len(),
{
    if held.len() == 0 {
        0
    } else {
        held_total(held.drop_last(), p) + held.last().0.samples[p] + held.last().1.samples[p]
    }
}

/// The brightest value of pixel `p` over the frames of all pairs; zero where
/// there is no pair.
pub open spec fn held_brightest(held: Seq<(Frame, Frame)>, p: int) -> int
    decreases held.len(),
{
    if held.len() == 0 {
        0
    } else {
        vstd::math::max(
            held_brightest(held.drop_last(), p),
            vstd::math::max(held.last().0.samples[p] as int, held.last().1.samples[p] as int),
        )
    }
}

impl Floor {
    /// A reducer that nobody has touched yet.
    pub open spec fn start(mode: MergeAction) -> Floor {
        Floor { reducer: MergerState::fresh(mode), held: Seq::empty(), pushed: Seq::empty() }
    }

    /// Whether the step can be taken: a producer hands in only while frames
    /// are accepted, and only a frame that fits; a worker takes a pair only
    /// where there are two frames; it leaves only when no frame will arrive
    /// and fewer than two are in the pool; and a worker that asks holds no
    /// pair.
    pub open spec fn enabled(self, event: Event) -> bool {
        match event {
            Event::Push(frame) => !self.reducer.done && admits(self.reducer.size, frame),
            Event::Spawn(_) => true,
            Event::Finish => true,
            Event::Take => self.reducer.queue.len() >= 2 && self.held.len() < self.reducer.workers,
            Event::HandBack(k) => 0 <= k < self.held.len(),
            Event::Leave => self.reducer.done && self.reducer.queue.len() < 2 && self.held.len()
                < self.reducer.workers,
        }
    }

    /// The reducer in use after a step.
    pub open spec fn step(self, event: Event) -> Floor {
        match event {
            Event::Push(frame) => Floor {
                reducer: self.reducer.push(frame),
                pushed: self.pushed.push(frame),
                ..self
            },
            Event::Spawn(count) => Floor { reducer: self.reducer.spawn(count), ..self },
            Event::Finish => Floor { reducer: self.reducer.finish(), ..self },
            Event::Take => {
                let n = self.reducer.queue.len() as int;
                Floor {
                    reducer: self.reducer.take_pair(),
                    held: self.held.push((self.reducer.queue[n - 1], self.reducer.queue[n - 2])),
                    ..self
                }
            },
            Event::HandBack(k) => Floor {
                reducer: self.reducer.complete(
                    merge_frames(self.reducer.mode, self.held[k].0, self.held[k].1),
                ),
                held: self.held.remove(k),
                ..self
            },
            Event::Leave => Floor { reducer: self.reducer.leave(), ..self },
        }
    }

    /// Every step of the sequence can be taken when its turn comes.
    pub open spec fn can_run(self, events: Seq<Event>) -> bool
        decreases events.len(),
    {
        if events.len() == 0 {
            true
        } else {
            self.enabled(events[0]) && self.step(events[0]).can_run(events.drop_first())
        }
    }

    /// The reducer in use after every step of the sequence.
    pub open spec fn run(self, events: Seq<Event>) -> Floor
        decreases events.len(),
    {
        if events.len() == 0 {
            self
        } else {
            self.step(events[0]).run(events.drop_first())
        }
    }

    /// The number of samples of the frames handed in; zero before the first.
    pub open spec fn raster_len(self) -> nat {
        if self.pushed.len() == 0 {
            0
        } else {
            self.pushed[0].samples.len()
        }
    }

    /// Pixel `p` of the frames in the pool and in the workers' hands, taken
    /// together, is pixel `p` of all frames handed in, taken together.
    pub open spec fn accounted(self, p: int) -> bool {
        match self.reducer.mode {
            MergeAction::Add => vstd::math::min(
                total(rasters(self.reducer.queue), p) + held_total(self.held, p),
                SAMPLE_MAX as int,
            ) == vstd::math::min(total(rasters(self.pushed), p), SAMPLE_MAX as int),
            MergeAction::Max => vstd::math::max(
                brightest(rasters(self.reducer.queue), p),
                held_brightest(self.held, p),
            ) == brightest(rasters(self.pushed), p),
        }
    }

    /// What holds of a reducer in use at every moment: all frames anywhere
    /// are well formed and of one size; no more pairs are out than there are
    /// workers, whose number can be counted; frames are in the pool or in a
    /// worker's hands exactly if some were handed in; and every pixel is
    /// accounted for.
    pub open spec fn inv(self) -> bool {
        &&& self.reducer.wf()
        &&& frames_agree(self.pushed, self.reducer.size)
        &&& self.held.len() <= self.reducer.workers <= usize::MAX
        &&& forall|k: int|
            0 <= k < self.held.len() ==> {
                &&& (#[trigger] self.held[k]).0.wf()
                &&& self.held[k].1.wf()
                &&& size_of(self.held[k].0) == self.reducer.size
                &&& size_of(self.held[k].1) == self.reducer.size
            }
        &&& self.pushed.len() == 0 <==> self.reducer.queue.len() == 0 && self.held.len() == 0
        &&& forall|p: int| 0 <= p < self.raster_len() ==> #[trigger] self.accounted(p)
    }
}

/// The sum and the brightest value of a pixel over the pairs are not
/// negative, and the brightest is a sample value.
proof fn held_in_range(held: Seq<(Frame, Frame)>, p: int)
    ensures
        0 <= held_total(held, p),
        0 <= held_brightest(held, p) <= SAMPLE_MAX,
    decreases held.len(),
{
    if held.len() > 0 {
        held_in_range(held.drop_last(), p);
    }
}

/// Taking one pair away: the sum and the brightest value over the pairs are
/// those over the rest, joined with the pair taken away.
proof fn held_take_out(held: Seq<(Frame, Frame)>, k: int, p: int)
    requires
        0 <= k < held.len(),
    ensures
        held_total(held, p) == held_total(held.remove(k), p) + held[k].0.samples[p]
            + held[k].1.samples[p],
        held_brightest(held, p) == vstd::math::max(
            held_brightest(held.remove(k), p),
            vstd::math::max(held[k].0.samples[p] as int, held[k].1.samples[p] as int),
        ),
    decreases held.len(),
{
    if k == held.len() - 1 {
        assert(held.remove(k) =~= held.drop_last());
    } else {
        held_take_out(held.drop_last(), k, p);
        assert(held.remove(k).drop_last() =~= held.drop_last().remove(k));
        assert(held.remove(k).last() == held.last());
    }
}

/// Adding one pair.
proof fn held_put_in(held: Seq<(Frame, Frame)>, pair: (Frame, Frame), p: int)
    ensures
        held_total(held.push(pair), p) == held_total(held, p) + pair.0.samples[p]
            + pair.1.samples[p],
        held_brightest(held.push(pair), p) == vstd::math::max(
            held_brightest(held, p),
            vstd::math::max(pair.0.samples[p] as int, pair.1.samples[p] as int),
        ),
{
    assert(held.push(pair).drop_last() =~= held);
}

/// The pool without its last two frames.
proof fn pool_without_last_two(queue: Seq<Frame>, p: int)
    requires
        queue.len() >= 2,
    ensures
        total(rasters(queue), p) == total(rasters(queue.take(queue.len() - 2)), p)
            + queue[queue.len() - 2].samples[p] + queue[queue.len() - 1].samples[p],
        brightest(rasters(queue), p) == vstd::math::max(
            brightest(rasters(queue.take(queue.len() - 2)), p),
            vstd::math::max(
                queue[queue.len() - 1].samples[p] as int,
                queue[queue.len() - 2].samples[p] as int,
            ),
        ),
{
    let n = queue.len() as int;
    let short = rasters(queue.take(n - 2));
    let middle = short.push(queue[n - 2].samples);
    put_in(short, queue[n - 2].samples, p);
    put_in(middle, queue[n - 1].samples, p);
    assert(middle.push(queue[n - 1].samples) =~= rasters(queue));
}

/// The pool with one more frame.
proof fn pool_with_one_more(queue: Seq<Frame>, frame: Frame, p: int)
    ensures
        total(rasters(queue.push(frame)), p) == total(rasters(queue), p) + frame.samples[p],
        brightest(rasters(queue.push(frame)), p) == vstd::math::max(
            brightest(rasters(queue), p),
            frame.samples[p] as int,
        ),
{
    put_in(rasters(queue), frame.samples, p);
    assert(rasters(queue).push(frame.samples) =~= rasters(queue.push(frame)));
}

/// A reducer that nobody has touched yet is in order.
pub proof fn start_is_in_order(mode: MergeAction)
    ensures
        Floor::start(mode).inv(),
{
}

/// No step that can be taken puts a reducer in use out of order: whatever
/// producers, workers and the driver do, and in whatever order, no frame is
/// lost.
pub proof fn step_keeps_order(floor: Floor, event: Event)
    requires
        floor.inv(),
        floor.enabled(event),
    ensures
        floor.step(event).inv(),
{
    let after = floor.step(event);
    let mode = floor.reducer.mode;
    let queue = floor.reducer.queue;
    let size = floor.reducer.size;
    match event {
        Event::Push(frame) => {
            assert(frames_agree(after.pushed, after.reducer.size)) by {
                assert forall|k: int| 0 <= k < after.pushed.len() implies (
                #[trigger] after.pushed[k]).wf() && size_of(after.pushed[k])
                    == after.reducer.size by {
                    if k < floor.pushed.len() {
                        assert(after.pushed[k] == floor.pushed[k]);
                    }
                }
            }
            assert(after.reducer.wf()) by {
                assert forall|k: int| 0 <= k < after.reducer.queue.len() implies (
                #[trigger] after.reducer.queue[k]).wf() && size_of(after.reducer.queue[k])
                    == after.reducer.size by {
                    if k < queue.len() {
                        assert(after.reducer.queue[k] == queue[k]);
                    }
                }
            }
            assert forall|p: int| 0 <= p < after.raster_len() implies #[trigger] after.accounted(
                p,
            ) by {
                pool_with_one_more(queue, frame, p);
                pool_with_one_more(floor.pushed, frame, p);
                total_not_negative(rasters(queue), p);
                total_not_negative(rasters(floor.pushed), p);
                held_in_range(floor.held, p);
                if floor.pushed.len() > 0 {
                    assert(floor.pushed[0].wf() && after.pushed[0] == floor.pushed[0]);
                    assert(floor.accounted(p));
                } else {
                    assert(rasters(queue) =~= Seq::<Seq<u16>>::empty());
                    assert(rasters(floor.pushed) =~= Seq::<Seq<u16>>::empty());
                }
            }
        },
        Event::Spawn(_) => {
            assert forall|p: int| 0 <= p < after.raster_len() implies #[trigger] after.accounted(
                p,
            ) by {
                assert(floor.accounted(p));
            }
        },
        Event::Finish => {
            assert forall|p: int| 0 <= p < after.raster_len() implies #[trigger] after.accounted(
                p,
            ) by {
                assert(floor.accounted(p));
            }
        },
        Event::Take => {
            let n = queue.len() as int;
            assert(queue[n - 1].wf() && size_of(queue[n - 1]) == size);
            assert(queue[n - 2].wf() && size_of(queue[n - 2]) == size);
            assert(after.reducer.wf()) by {
                assert forall|k: int| 0 <= k < after.reducer.queue.len() implies (
                #[trigger] after.reducer.queue[k]).wf() && size_of(after.reducer.queue[k])
                    == after.reducer.size by {
                    assert(after.reducer.queue[k] == queue[k]);
                }
            }
            assert forall|k: int| 0 <= k < after.held.len() implies {
                &&& (#[trigger] after.held[k]).0.wf()
                &&& after.held[k].1.wf()
                &&& size_of(after.held[k].0) == after.reducer.size
                &&& size_of(after.held[k].1) == after.reducer.size
            } by {
                if k < floor.held.len() {
                    assert(after.held[k] == floor.held[k]);
                }
            }
            assert forall|p: int| 0 <= p < after.raster_len() implies #[trigger] after.accounted(
                p,
            ) by {
                assert(floor.accounted(p));
                pool_without_last_two(queue, p);
                held_put_in(floor.held, (queue[n - 1], queue[n - 2]), p);
            }
        },
        Event::HandBack(k) => {
            let pair = floor.held[k];
            let result = merge_frames(mode, pair.0, pair.1);
            assert(pair.0.wf() && pair.1.wf());
            assert(size_of(pair.0) == size && size_of(pair.1) == size);
            assert(result.wf() && size_of(result) == size);
            assert(floor.pushed.len() > 0);
            assert(floor.pushed[0].wf() && size_of(floor.pushed[0]) == size);
            assert(after.reducer.wf()) by {
                assert forall|j: int| 0 <= j < after.reducer.queue.len() implies (
                #[trigger] after.reducer.queue[j]).wf() && size_of(after.reducer.queue[j])
                    == after.reducer.size by {
                    if j < queue.len() {
                        assert(after.reducer.queue[j] == queue[j]);
                    }
                }
            }
            assert forall|j: int| 0 <= j < after.held.len() implies {
                &&& (#[trigger] after.held[j]).0.wf()
                &&& after.held[j].1.wf()
                &&& size_of(after.held[j].0) == after.reducer.size
                &&& size_of(after.held[j].1) == after.reducer.size
            } by {
                if j < k {
                    assert(after.held[j] == floor.held[j]);
                } else {
                    assert(after.held[j] == floor.held[j + 1]);
                }
            }
            assert forall|p: int| 0 <= p < after.raster_len() implies #[trigger] after.accounted(
                p,
            ) by {
                assert(floor.accounted(p));
                held_take_out(floor.held, k, p);
                pool_with_one_more(queue, result, p);
                total_not_negative(rasters(queue), p);
                brightest_in_range(rasters(queue), p);
                held_in_range(after.held, p);
            }
        },
        Event::Leave => {
            assert forall|p: int| 0 <= p < after.raster_len() implies #[trigger] after.accounted(
                p,
            ) by {
                assert(floor.accounted(p));
            }
        },
    }
}

/// No sequence of steps that can be taken puts a reducer in use out of order.
pub proof fn run_keeps_order(floor: Floor, events: Seq<Event>)
    requires
        floor.inv(),
        floor.can_run(events),
    ensures
        floor.run(events).inv(),
    decreases events.len(),
{
    if events.len() > 0 {
        step_keeps_order(floor, events[0]);
        run_keeps_order(floor.step(events[0]), events.drop_first());
    }
}

/// When the last worker leaves, the reducer is finished: no worker leaves
/// while two frames wait in the pool or while frames may still arrive, and
/// none leaves with a pair in its hands.
pub proof fn last_worker_leaves_it_finished(floor: Floor)
    requires
        floor.inv(),
        floor.enabled(Event::Leave),
        floor.reducer.workers == 1,
    ensures
        floor.step(Event::Leave).reducer.phase() == Phase::Finished,
        floor.step(Event::Leave).held.len() == 0,
{
}

/// A finished reducer stays as it is: nobody can hand in a frame, and no
/// worker is left to take a pair, to hand one back or to leave.
pub proof fn finished_is_final(floor: Floor, event: Event)
    requires
        floor.inv(),
        floor.reducer.phase() == Phase::Finished,
        floor.enabled(event),
    ensures
        event is Spawn || event is Finish,
        floor.step(event).reducer.queue == floor.reducer.queue,
        floor.step(event).pushed == floor.pushed,
{
}

/// A finished reducer holds what was handed in, merged: nothing if nothing
/// was handed in, and else one frame whose raster is the one that merging
/// all frames handed in, from the first to the last, gives.
pub proof fn finished_holds_everything(floor: Floor)
    requires
        floor.inv(),
        floor.reducer.phase() == Phase::Finished,
    ensures
        floor.held.len() == 0,
        floor.pushed.len() == 0 ==> floor.reducer.outcome() is None,
        floor.pushed.len() > 0 ==> floor.reducer.outcome() is Some
            && floor.reducer.outcome().unwrap().samples == fold_left(
            floor.reducer.mode,
            rasters(floor.pushed),
        ),
{
    if floor.pushed.len() > 0 {
        let mode = floor.reducer.mode;
        let queue = floor.reducer.queue;
        let n = floor.raster_len();
        let pool = rasters(floor.pushed);
        assert(queue.len() == 1);
        assert(queue[0].wf() && size_of(queue[0]) == floor.reducer.size);
        assert(floor.pushed[0].wf() && size_of(floor.pushed[0]) == floor.reducer.size);
        assert(uniform(pool, n)) by {
            assert forall|k: int| 0 <= k < pool.len() implies (#[trigger] pool[k]).len() == n by {
                assert(floor.pushed[k].wf());
            }
        }
        fold_left_is_combined(mode, pool, n);
        assert(rasters(queue).drop_last() =~= Seq::<Seq<u16>>::empty());
        assert forall|p: int| 0 <= p < n implies queue[0].samples[p] == combined_sample(
            mode,
            pool,
            p,
        ) by {
            assert(floor.accounted(p));
            assert(rasters(queue).last() == queue[0].samples);
            assert(total(rasters(queue).drop_last(), p) == 0);
            assert(brightest(rasters(queue).drop_last(), p) == 0);
            brightest_in_range(pool, p);
            total_not_negative(pool, p);
        }
        assert(queue[0].samples =~= combined(mode, pool, n));
    }
}

} // verus!
