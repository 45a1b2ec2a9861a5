//! Why the order of the pairwise merges does not matter.
//!
//! A pool is a sequence of rasters of one length. Whatever pairs are merged,
//! and in whatever order, each pixel of the last raster standing is the
//! brightest, or the saturated sum, of that pixel over the whole pool.

use vstd::prelude::*;
use crate::kernel::{additive, lighten, SAMPLE_MAX};
use crate::merger::MergeAction;

verus! {

/// Every raster of the pool has `n` samples.
pub open spec fn uniform(pool: Seq<Seq<u16>>, n: nat) -> bool {
    forall|k: int| 0 <= k < pool.len() ==> (#[trigger] pool[k]).len() == n
}

/// Two rasters merged under a rule.
pub open spec fn merge_pair(mode: MergeAction, a: Seq<u16>, b: Seq<u16>) -> Seq<u16> {
    match mode {
        MergeAction::Add => additive(a, b),
        MergeAction::Max => lighten(a, b),
    }
}

/// The brightest value of pixel `p` over the pool; zero for an empty pool.
pub open spec fn brightest(pool: Seq<Seq<u16>>, p: int) -> int
    decreases pool.len(),
{
    if pool.len() == 0 {
        0
    } else {
        vstd::math::max(brightest(pool.drop_last(), p), pool.last()[p] as int)
    }
}

/// The sum of pixel `p` over the pool, without any limit.
pub open spec fn total(pool: Seq<Seq<u16>>, p: int) -> int
    decreases pool.len(),
{
    if pool.len() == 0 {
        0
    } else {
        total(pool.drop_last(), p) + pool.last()[p]
    }
}

/// Pixel `p` of the whole pool merged under a rule.
pub open spec fn combined_sample(mode: MergeAction, pool: Seq<Seq<u16>>, p: int) -> u16 {
    match mode {
        MergeAction::Add => vstd::math::min(total(pool, p), SAMPLE_MAX as int) as u16,
        MergeAction::Max => brightest(pool, p) as u16,
    }
}

/// The whole pool merged under a rule: a raster of `n` samples.
pub open spec fn combined(mode: MergeAction, pool: Seq<Seq<u16>>, n: nat) -> Seq<u16> {
    Seq::new(n, |p: int| combined_sample(mode, pool, p))
}

/// The pool merged one raster after the other, from the first to the last.
pub open spec fn fold_left(mode: MergeAction, pool: Seq<Seq<u16>>) -> Seq<u16>
    recommends
        pool.len() > 0,
    decreases pool.len(),
{
    if pool.len() <= 1 {
        pool[0]
    } else {
        merge_pair(mode, fold_left(mode, pool.drop_last()), pool.last())
    }
}

/// The pool after the rasters at `i` and `j` have been taken out and their
/// merge has been put back at the end.
pub open spec fn pair_step(mode: MergeAction, pool: Seq<Seq<u16>>, i: int, j: int) -> Seq<
    Seq<u16>,
> {
    let rest = if j < i {
        pool.remove(i).remove(j)
    } else {
        pool.remove(i).remove(j - 1)
    };
    rest.push(merge_pair(mode, pool[i], pool[j]))
}

/// Each step of the schedule names two different rasters of the pool as it
/// stands at that step; `len` is the size of the pool at the first step.
pub open spec fn valid_schedule(len: nat, schedule: Seq<(int, int)>) -> bool
    decreases schedule.len(),
{
    if schedule.len() == 0 {
        true
    } else {
        let (i, j) = schedule[0];
        &&& 0 <= i < len
        &&& 0 <= j < len
        &&& i != j
        &&& valid_schedule((len - 1) as nat, schedule.drop_first())
    }
}

/// The pool after every step of the schedule.
pub open spec fn run_schedule(
    mode: MergeAction,
    pool: Seq<Seq<u16>>,
    schedule: Seq<(int, int)>,
) -> Seq<Seq<u16>>
    decreases schedule.len(),
{
    if schedule.len() == 0 {
        pool
    } else {
        run_schedule(
            mode,
            pair_step(mode, pool, schedule[0].0, schedule[0].1),
            schedule.drop_first(),
        )
    }
}

/// The brightest value of a pixel is a sample value.
pub proof fn brightest_in_range(pool: Seq<Seq<u16>>, p: int)
    ensures
        0 <= brightest(pool, p) <= SAMPLE_MAX,
    decreases pool.len(),
{
    if pool.len() > 0 {
        brightest_in_range(pool.drop_last(), p);
    }
}

/// The sum of a pixel is not negative.
pub proof fn total_not_negative(pool: Seq<Seq<u16>>, p: int)
    ensures
        0 <= total(pool, p),
    decreases pool.len(),
{
    if pool.len() > 0 {
        total_not_negative(pool.drop_last(), p);
    }
}

/// Taking one raster out of the pool: the brightest and the sum of a pixel
/// over the pool are those over the rest, joined with the raster taken out.
pub proof fn take_out(pool: Seq<Seq<u16>>, i: int, p: int)
    requires
        0 <= i < pool.len(),
    ensures
        pool.remove(i).len() == pool.len() - 1,
        brightest(pool, p) == vstd::math::max(brightest(pool.remove(i), p), pool[i][p] as int),
        total(pool, p) == total(pool.remove(i), p) + pool[i][p],
    decreases pool.len(),
{
    if i == pool.len() - 1 {
        assert(pool.remove(i) =~= pool.drop_last());
    } else {
        take_out(pool.drop_last(), i, p);
        assert(pool.remove(i).drop_last() =~= pool.drop_last().remove(i));
        assert(pool.remove(i).last() == pool.last());
    }
}

/// Putting one raster into the pool.
pub proof fn put_in(pool: Seq<Seq<u16>>, f: Seq<u16>, p: int)
    ensures
        brightest(pool.push(f), p) == vstd::math::max(brightest(pool, p), f[p] as int),
        total(pool.push(f), p) == total(pool, p) + f[p],
{
    assert(pool.push(f).drop_last() =~= pool);
}

/// One pairwise merge leaves the pool one raster smaller, keeps it uniform,
/// and changes no pixel of the whole pool merged.
pub proof fn pair_step_keeps_combined(
    mode: MergeAction,
    pool: Seq<Seq<u16>>,
    n: nat,
    i: int,
    j: int,
)
    requires
        uniform(pool, n),
        0 <= i < pool.len(),
        0 <= j < pool.len(),
        i != j,
    ensures
        pair_step(mode, pool, i, j).len() == pool.len() - 1,
        uniform(pair_step(mode, pool, i, j), n),
        combined(mode, pair_step(mode, pool, i, j), n) == combined(mode, pool, n),
{
    let once = pool.remove(i);
    let jj = if j < i {
        j
    } else {
        j - 1
    };
    let rest = once.remove(jj);
    let m = merge_pair(mode, pool[i], pool[j]);
    let after = pair_step(mode, pool, i, j);
    assert(once[jj] == pool[j]);
    assert(after == rest.push(m));
    assert(m.len() == n);
    assert(uniform(after, n)) by {
        assert forall|k: int| 0 <= k < after.len() implies (#[trigger] after[k]).len() == n by {
            if k < rest.len() {
                let k1 = if k < jj {
                    k
                } else {
                    k + 1
                };
                assert(rest[k] == once[k1]);
                let k2 = if k1 < i {
                    k1
                } else {
                    k1 + 1
                };
                assert(once[k1] == pool[k2]);
            }
        }
    }
    assert forall|p: int| 0 <= p < n implies combined_sample(mode, after, p) == combined_sample(
        mode,
        pool,
        p,
    ) by {
        take_out(pool, i, p);
        take_out(once, jj, p);
        put_in(rest, m, p);
        brightest_in_range(rest, p);
        total_not_negative(rest, p);
    }
    assert(combined(mode, after, n) =~= combined(mode, pool, n));
}

/// A pool of one raster merged is that raster.
pub proof fn combined_of_one(mode: MergeAction, f: Seq<u16>)
    ensures
        combined(mode, seq![f], f.len()) == f,
{
    let pool = seq![f];
    assert(pool.drop_last() =~= Seq::<Seq<u16>>::empty());
    assert(pool.last() == f);
    assert forall|p: int| 0 <= p < f.len() implies combined_sample(mode, pool, p) == f[p] by {
        assert(brightest(pool.drop_last(), p) == 0);
        assert(total(pool.drop_last(), p) == 0);
    }
    assert(combined(mode, pool, f.len()) =~= f);
}

/// Merging the pool from the first raster to the last gives the whole pool
/// merged.
pub proof fn fold_left_is_combined(mode: MergeAction, pool: Seq<Seq<u16>>, n: nat)
    requires
        pool.len() > 0,
        uniform(pool, n),
    ensures
        fold_left(mode, pool) == combined(mode, pool, n),
    decreases pool.len(),
{
    if pool.len() == 1 {
        assert(pool =~= seq![pool[0]]);
        combined_of_one(mode, pool[0]);
    } else {
        let front = pool.drop_last();
        fold_left_is_combined(mode, front, n);
        let merged = merge_pair(mode, combined(mode, front, n), pool.last());
        assert forall|p: int| 0 <= p < n implies merged[p] == combined_sample(mode, pool, p) by {
            brightest_in_range(front, p);
            total_not_negative(front, p);
        }
        assert(merged =~= combined(mode, pool, n));
    }
}

/// Every valid schedule of pairwise merges leaves one raster less per step
/// and changes no pixel of the whole pool merged.
pub proof fn schedule_keeps_combined(
    mode: MergeAction,
    pool: Seq<Seq<u16>>,
    n: nat,
    schedule: Seq<(int, int)>,
)
    requires
        uniform(pool, n),
        valid_schedule(pool.len(), schedule),
    ensures
        run_schedule(mode, pool, schedule).len() == pool.len() - schedule.len(),
        uniform(run_schedule(mode, pool, schedule), n),
        combined(mode, run_schedule(mode, pool, schedule), n) == combined(mode, pool, n),
    decreases schedule.len(),
{
    if schedule.len() > 0 {
        let (i, j) = schedule[0];
        pair_step_keeps_combined(mode, pool, n, i, j);
        schedule_keeps_combined(mode, pair_step(mode, pool, i, j), n, schedule.drop_first());
    }
}

/// Reducing a pool to one raster by any valid schedule of pairwise merges
/// gives, bit for bit, what merging it from the first raster to the last gives.
pub proof fn any_order_is_left_to_right(
    mode: MergeAction,
    pool: Seq<Seq<u16>>,
    n: nat,
    schedule: Seq<(int, int)>,
)
    requires
        uniform(pool, n),
        valid_schedule(pool.len(), schedule),
        schedule.len() + 1 == pool.len(),
    ensures
        run_schedule(mode, pool, schedule).len() == 1,
        run_schedule(mode, pool, schedule)[0] == fold_left(mode, pool),
{
    schedule_keeps_combined(mode, pool, n, schedule);
    fold_left_is_combined(mode, pool, n);
    let end = run_schedule(mode, pool, schedule);
    assert(end =~= seq![end[0]]);
    combined_of_one(mode, end[0]);
}

} // verus!
