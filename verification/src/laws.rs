//! Proved properties of the segment state machine, stated over whole runs of
//! the tick-by-tick model in `tracker`.

use vstd::prelude::*;
use crate::tracker::closed_segment;
use crate::tracker::run_segments;
use crate::tracker::run_state;
use crate::tracker::tick_result;
use crate::tracker::wall_sorted;
use crate::tracker::ActivityTracker;
use crate::tracker::TickInput;
use crate::tracker::UsageSegment;

verus! {

/// A paused machine closes nothing on any tick, whatever the tick carries:
/// the only thing a tick can do while paused is resume.
pub proof fn lemma_paused_tick_closes_nothing(t: ActivityTracker, i: TickInput)
    requires
        t.phase is Paused,
    ensures
        tick_result(t, i).1 is None,
{
}

/// While the screen stays locked, a paused machine stays paused and produces
/// no segments, however many ticks elapse.
pub proof fn lemma_paused_produces_nothing(t: ActivityTracker, inputs: Seq<TickInput>)
    requires
        t.phase is Paused,
        forall|k: int| 0 <= k < inputs.len() ==> inputs[k].locked,
    ensures
        run_segments(t, inputs).len() == 0,
        run_state(t, inputs).phase is Paused,
    decreases inputs.len(),
{
    if inputs.len() > 0 {
        assert(forall|k: int|
            0 <= k < inputs.drop_first().len() ==> inputs.drop_first()[k] == inputs[k + 1]);
        lemma_paused_produces_nothing(t, inputs.drop_first());
    }
}

/// Every segment a tick closes records the open segment's app and start
/// clocks, ends at the tick's wall clock, and measures the elapsed monotonic
/// time between its open and its close event. The wall clock has no part in
/// the duration.
pub proof fn lemma_closed_segment_shape(t: ActivityTracker, i: TickInput)
    requires
        tick_result(t, i).1 is Some,
        t.segment_start_mono <= i.mono,
    ensures
        tick_result(t, i).1->Some_0 == closed_segment(t, i),
        tick_result(t, i).1->Some_0.duration_seconds == i.mono - t.segment_start_mono,
        tick_result(t, i).1->Some_0.app_name == t.current_app,
        tick_result(t, i).1->Some_0.start_wall == t.segment_start_wall,
        tick_result(t, i).1->Some_0.end_wall == i.wall,
{
}

/// A lock/unlock pair always forces a segment boundary. The locking tick
/// closes exactly the open segment and pauses the machine; the unlocking
/// tick closes nothing and opens a fresh segment at its own clocks. So each
/// such pair adds exactly one close and one open — independent of whether
/// the app after the unlock equals the app that was tracked before the lock.
pub proof fn lemma_lock_pair_forces_boundary(
    t: ActivityTracker,
    lock_tick: TickInput,
    unlock_tick: TickInput,
)
    requires
        t.phase is Tracking,
        lock_tick.locked,
        !unlock_tick.locked,
    ensures
        ({
            let paused = tick_result(t, lock_tick).0;
            let resumed = tick_result(paused, unlock_tick).0;
            &&& tick_result(t, lock_tick).1 == Some(closed_segment(t, lock_tick))
            &&& paused.phase is Paused
            &&& tick_result(paused, unlock_tick).1 is None
            &&& resumed.phase is Tracking
            &&& resumed.current_app == unlock_tick.app
            &&& resumed.segment_start_wall == unlock_tick.wall
            &&& resumed.segment_start_mono == unlock_tick.mono
        }),
        run_segments(t, seq![lock_tick, unlock_tick]) == seq![closed_segment(t, lock_tick)],
{
    let pair = seq![lock_tick, unlock_tick];
    let paused = tick_result(t, lock_tick).0;
    assert(pair[0] == lock_tick);
    assert(seq![unlock_tick][0] == unlock_tick);
    assert(pair.drop_first() =~= seq![unlock_tick]);
    assert(seq![unlock_tick].drop_first() =~= Seq::<TickInput>::empty());
    let resumed = tick_result(paused, unlock_tick).0;
    assert(run_segments(resumed, Seq::<TickInput>::empty()).len() == 0);
    assert(run_segments(paused, seq![unlock_tick]) == run_segments(
        resumed,
        seq![unlock_tick].drop_first(),
    ));
    assert(run_segments(paused, seq![unlock_tick]).len() == 0);
    assert(run_segments(t, pair) =~= seq![closed_segment(t, lock_tick)]);
}

/// Stopping a run early persists nothing extra: the closed segments of the
/// whole run are those of any prefix, followed by those of the remainder
/// run from the prefix's final state. So a loop that exits after completing
/// tick `n`'s bookkeeping has handed on exactly the closes of the ticks it
/// completed — the segment still open in its final state was never among
/// them, and ticks never taken add nothing.
pub proof fn lemma_run_prefix(t: ActivityTracker, inputs: Seq<TickInput>, n: int)
    requires
        0 <= n <= inputs.len(),
    ensures
        run_segments(t, inputs) == run_segments(t, inputs.take(n)) + run_segments(
            run_state(t, inputs.take(n)),
            inputs.skip(n),
        ),
        run_state(t, inputs) == run_state(run_state(t, inputs.take(n)), inputs.skip(n)),
    decreases n,
{
    if n == 0 {
        assert(inputs.take(0) =~= Seq::<TickInput>::empty());
        assert(inputs.skip(0) =~= inputs);
        assert(Seq::<UsageSegment>::empty() + run_segments(t, inputs) =~= run_segments(t, inputs));
    } else {
        let step = tick_result(t, inputs[0]);
        let rest = inputs.drop_first();
        lemma_run_prefix(step.0, rest, n - 1);
        assert(inputs.take(n)[0] == inputs[0]);
        assert(inputs.take(n).drop_first() =~= rest.take(n - 1));
        assert(inputs.skip(n) =~= rest.skip(n - 1));
        match step.1 {
            Some(seg) => {
                assert(seq![seg] + (run_segments(step.0, rest.take(n - 1)) + run_segments(
                    run_state(step.0, rest.take(n - 1)),
                    rest.skip(n - 1),
                )) =~= (seq![seg] + run_segments(step.0, rest.take(n - 1))) + run_segments(
                    run_state(step.0, rest.take(n - 1)),
                    rest.skip(n - 1),
                ));
            },
            None => {},
        }
    }
}

/// Two ticks that agree on everything the measurement may depend on: lock
/// state, sampled app, monotonic clock. Only their wall clocks may differ.
pub open spec fn agree_except_wall(a: TickInput, b: TickInput) -> bool {
    a.locked == b.locked && a.app@ == b.app@ && a.mono == b.mono
}

/// Pointwise `agree_except_wall` over two runs of samples.
pub open spec fn inputs_agree_except_wall(a: Seq<TickInput>, b: Seq<TickInput>) -> bool {
    a.len() == b.len() && forall|k: int| 0 <= k < a.len() ==> agree_except_wall(a[k], b[k])
}

/// Two tracker states that agree on everything but wall-clock bookkeeping.
pub open spec fn states_agree_except_wall(t: ActivityTracker, u: ActivityTracker) -> bool {
    t.phase == u.phase && t.current_app@ == u.current_app@ && t.segment_start_mono
        == u.segment_start_mono
}

/// Wall-clock jumps cannot change what is measured: two runs whose samples
/// agree on lock state, app and monotonic clock close the same number of
/// segments, attributing the same apps and the same durations, whatever
/// their wall clocks read.
pub proof fn lemma_duration_ignores_wall_clock(
    t: ActivityTracker,
    u: ActivityTracker,
    a: Seq<TickInput>,
    b: Seq<TickInput>,
)
    requires
        states_agree_except_wall(t, u),
        inputs_agree_except_wall(a, b),
    ensures
        run_segments(t, a).len() == run_segments(u, b).len(),
        forall|k: int|
            0 <= k < run_segments(t, a).len() ==> run_segments(t, a)[k].duration_seconds
                == run_segments(u, b)[k].duration_seconds && run_segments(t, a)[k].app_name@
                == run_segments(u, b)[k].app_name@,
    decreases a.len(),
{
    if a.len() > 0 {
        assert(agree_except_wall(a[0], b[0]));
        let step_a = tick_result(t, a[0]);
        let step_b = tick_result(u, b[0]);
        assert(states_agree_except_wall(step_a.0, step_b.0));
        assert(forall|k: int|
            0 <= k < a.drop_first().len() ==> a.drop_first()[k] == a[k + 1] && b.drop_first()[k]
                == b[k + 1]);
        lemma_duration_ignores_wall_clock(step_a.0, step_b.0, a.drop_first(), b.drop_first());
        let rest_a = run_segments(step_a.0, a.drop_first());
        let rest_b = run_segments(step_b.0, b.drop_first());
        if step_a.1 is Some {
            assert(step_b.1 is Some);
            assert(run_segments(t, a) == seq![step_a.1->Some_0] + rest_a);
            assert(run_segments(u, b) == seq![step_b.1->Some_0] + rest_b);
            assert(forall|k: int|
                0 <= k < rest_a.len() ==> (seq![step_a.1->Some_0] + rest_a)[k + 1] == rest_a[k]
                    && (seq![step_b.1->Some_0] + rest_b)[k + 1] == rest_b[k]);
        } else {
            assert(step_b.1 is None);
        }
    }
}

/// Closed segments read against a lower bound `lo`: each opens no earlier
/// than `lo`, closes no earlier than it opens, and each later segment opens
/// no earlier than its predecessor closed.
pub open spec fn chained_from(segs: Seq<UsageSegment>, lo: int) -> bool
    decreases segs.len(),
{
    if segs.len() == 0 {
        true
    } else {
        lo <= segs[0].start_wall && segs[0].start_wall <= segs[0].end_wall && chained_from(
            segs.drop_first(),
            segs[0].end_wall as int,
        )
    }
}

/// The chained form of segment ordering: when the sampled wall clock never
/// goes backward and the open segment did not start after the first sample,
/// the closed segments of a run form a chain above `lo`.
pub proof fn lemma_run_segments_chained(t: ActivityTracker, inputs: Seq<TickInput>, lo: int)
    requires
        wall_sorted(inputs),
        t.phase is Tracking ==> lo <= t.segment_start_wall,
        t.phase is Tracking && inputs.len() > 0 ==> t.segment_start_wall <= inputs[0].wall,
        t.phase is Paused && inputs.len() > 0 ==> lo <= inputs[0].wall,
    ensures
        chained_from(run_segments(t, inputs), lo),
    decreases inputs.len(),
{
    if inputs.len() > 0 {
        let rest = inputs.drop_first();
        assert(forall|k: int| 0 <= k < rest.len() ==> rest[k] == inputs[k + 1]);
        let step = tick_result(t, inputs[0]);
        match step.1 {
            Some(seg) => {
                lemma_run_segments_chained(step.0, rest, seg.end_wall as int);
                let tail = run_segments(step.0, rest);
                assert((seq![seg] + tail).drop_first() =~= tail);
                assert(chained_from(seq![seg] + tail, lo));
            },
            None => {
                lemma_run_segments_chained(step.0, rest, lo);
            },
        }
    }
}

/// Flat reading of `chained_from`: every segment closes no earlier than it
/// opens, start times are non-decreasing along the list, and no two
/// consecutive segments overlap.
pub proof fn lemma_chained_flat(segs: Seq<UsageSegment>, lo: int)
    requires
        chained_from(segs, lo),
    ensures
        forall|j: int| 0 <= j < segs.len() ==> lo <= segs[j].start_wall,
        forall|j: int| 0 <= j < segs.len() ==> segs[j].start_wall <= segs[j].end_wall,
        forall|j: int, k: int|
            0 <= j <= k < segs.len() ==> segs[j].start_wall <= segs[k].start_wall,
        forall|j: int| 0 <= j < segs.len() - 1 ==> segs[j].end_wall <= segs[j + 1].start_wall,
    decreases segs.len(),
{
    if segs.len() > 0 {
        let rest = segs.drop_first();
        assert(forall|k: int| 0 <= k < rest.len() ==> rest[k] == segs[k + 1]);
        lemma_chained_flat(rest, segs[0].end_wall as int);
        assert forall|j: int| 0 <= j < segs.len() implies lo <= segs[j].start_wall && segs[j].start_wall
            <= segs[j].end_wall by {
            if j > 0 {
                assert(rest[j - 1] == segs[j]);
            }
        }
        assert forall|j: int, k: int| 0 <= j <= k < segs.len() implies segs[j].start_wall
            <= segs[k].start_wall by {
            if j > 0 {
                assert(rest[j - 1] == segs[j]);
            }
            if k > 0 {
                assert(rest[k - 1] == segs[k]);
            }
        }
        assert forall|j: int| 0 <= j < segs.len() - 1 implies segs[j].end_wall <= segs[j
            + 1].start_wall by {
            if j > 0 {
                assert(rest[j - 1] == segs[j]);
            }
            assert(rest[j] == segs[j + 1]);
        }
    }
}

/// Segment ordering over a run: the closed segments have non-decreasing
/// start times, each closes no earlier than it opens, and no two consecutive
/// segments overlap in wall-clock time.
///
/// The premises exclude exactly the samples on which no ordering can hold:
/// a wall clock read lower than an earlier read (segment times are wall
/// reads, so a backward jump between two closes reverses them), and an open
/// segment that started after the first sample. The sampling loop meets both
/// by clamping each wall read to at least the previous one.
pub proof fn lemma_run_segments_ordered(t: ActivityTracker, inputs: Seq<TickInput>)
    requires
        wall_sorted(inputs),
        t.phase is Tracking && inputs.len() > 0 ==> t.segment_start_wall <= inputs[0].wall,
    ensures
        forall|j: int|
            0 <= j < run_segments(t, inputs).len() ==> run_segments(t, inputs)[j].start_wall
                <= run_segments(t, inputs)[j].end_wall,
        forall|j: int, k: int|
            0 <= j <= k < run_segments(t, inputs).len() ==> run_segments(t, inputs)[j].start_wall
                <= run_segments(t, inputs)[k].start_wall,
        forall|j: int|
            0 <= j < run_segments(t, inputs).len() - 1 ==> run_segments(t, inputs)[j].end_wall
                <= run_segments(t, inputs)[j + 1].start_wall,
{
    let lo = if t.phase is Tracking {
        t.segment_start_wall as int
    } else if inputs.len() > 0 {
        inputs[0].wall as int
    } else {
        0
    };
    lemma_run_segments_chained(t, inputs, lo);
    lemma_chained_flat(run_segments(t, inputs), lo);
}

} // verus!
