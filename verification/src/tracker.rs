//! The segment state machine.
//!
//! At every sampling tick the machine is handed the current lock state, the
//! sampled foreground application, a wall-clock reading (seconds) and a
//! monotonic-clock reading (seconds). It decides whether the open segment
//! closes, whether a new one opens, and what the closed record holds.

use vstd::prelude::*;

verus! {

/// A closed, immutable record of one continuous period during which a single
/// application held the foreground.
#[derive(Debug, PartialEq, Eq)]
pub struct UsageSegment {
    /// Display identifier of the owning application, or the sentinel "Unknown".
    pub app_name: String,
    /// Wall-clock reading when the segment opened, in seconds.
    pub start_wall: i64,
    /// Wall-clock reading when the segment closed, in seconds.
    pub end_wall: i64,
    /// Elapsed monotonic time between the open and the close event, in seconds.
    pub duration_seconds: u64,
}

/// The two logical states of the machine: tracking a foreground application,
/// or paused because the screen is locked.
#[derive(Clone, Copy, Debug, PartialEq, Eq)]
pub enum TrackerPhase {
    Tracking,
    Paused,
}

/// The in-memory tracker state: the phase and, while tracking, the identity
/// and the two start clocks of the one open segment.
#[derive(Debug)]
pub struct ActivityTracker {
    pub phase: TrackerPhase,
    pub current_app: String,
    pub segment_start_wall: i64,
    pub segment_start_mono: u64,
}

/// Everything one sampling tick hands to the machine.
#[derive(Debug)]
pub struct TickInput {
    /// The published screen-lock state read at this tick.
    pub locked: bool,
    /// The sampled foreground application. Consulted only while unlocked;
    /// the probe substitutes "Unknown" when it cannot resolve a name.
    pub app: String,
    /// Wall-clock reading at this tick, in seconds.
    pub wall: i64,
    /// Monotonic-clock reading at this tick, in seconds.
    pub mono: u64,
}

/// The record that closes when the open segment of `t` ends at tick `i`:
/// it keeps the app and the start clocks of the open segment, ends at the
/// tick's wall clock, and its duration is the elapsed monotonic time.
pub open spec fn closed_segment(t: ActivityTracker, i: TickInput) -> UsageSegment {
    UsageSegment {
        app_name: t.current_app,
        start_wall: t.segment_start_wall,
        end_wall: i.wall,
        duration_seconds: (i.mono - t.segment_start_mono) as u64,
    }
}

/// The state after tick `i` and the segment, if any, that the tick closed.
///
/// Transition rules, in the order they are evaluated:
/// - locked while tracking: close the open segment, pause;
/// - locked while paused: nothing;
/// - unlocked while paused: resume, opening a fresh segment for the sampled
///   app at the tick's clocks (a lock always forces a segment boundary, even
///   if the app is unchanged);
/// - unlocked while tracking: if the sampled app differs from the open
///   segment's app, close it and open a new one; otherwise nothing.
pub open spec fn tick_result(t: ActivityTracker, i: TickInput) -> (ActivityTracker, Option<
    UsageSegment,
>) {
    if i.locked {
        match t.phase {
            TrackerPhase::Tracking => (
                ActivityTracker {
                    phase: TrackerPhase::Paused,
                    current_app: t.current_app,
                    segment_start_wall: t.segment_start_wall,
                    segment_start_mono: t.segment_start_mono,
                },
                Some(closed_segment(t, i)),
            ),
            TrackerPhase::Paused => (t, None),
        }
    } else {
        match t.phase {
            TrackerPhase::Paused => (
                ActivityTracker {
                    phase: TrackerPhase::Tracking,
                    current_app: i.app,
                    segment_start_wall: i.wall,
                    segment_start_mono: i.mono,
                },
                None,
            ),
            TrackerPhase::Tracking => {
                if i.app@ != t.current_app@ {
                    (
                        ActivityTracker {
                            phase: TrackerPhase::Tracking,
                            current_app: i.app,
                            segment_start_wall: i.wall,
                            segment_start_mono: i.mono,
                        },
                        Some(closed_segment(t, i)),
                    )
                } else {
                    (t, None)
                }
            },
        }
    }
}

/// The state after feeding `inputs` to the machine tick by tick.
pub open spec fn run_state(t: ActivityTracker, inputs: Seq<TickInput>) -> ActivityTracker
    decreases inputs.len(),
{
    if inputs.len() == 0 {
        t
    } else {
        run_state(tick_result(t, inputs[0]).0, inputs.drop_first())
    }
}

/// The closed segments a run produces, in the order they close.
pub open spec fn run_segments(t: ActivityTracker, inputs: Seq<TickInput>) -> Seq<UsageSegment>
    decreases inputs.len(),
{
    if inputs.len() == 0 {
        Seq::empty()
    } else {
        let step = tick_result(t, inputs[0]);
        match step.1 {
            Some(seg) => seq![seg] + run_segments(step.0, inputs.drop_first()),
            None => run_segments(step.0, inputs.drop_first()),
        }
    }
}

/// The sampled wall clock never goes backward within the run.
pub open spec fn wall_sorted(inputs: Seq<TickInput>) -> bool {
    forall|j: int, k: int| 0 <= j <= k < inputs.len() ==> inputs[j].wall <= inputs[k].wall
}

/// The sampled monotonic clock never goes backward within the run.
pub open spec fn mono_sorted(inputs: Seq<TickInput>) -> bool {
    forall|j: int, k: int| 0 <= j <= k < inputs.len() ==> inputs[j].mono <= inputs[k].mono
}

/// Every tick taken while unlocked carries a resolved app name (the probe
/// substitutes "Unknown" rather than answering with an empty name).
pub open spec fn apps_resolved(inputs: Seq<TickInput>) -> bool {
    forall|k: int| 0 <= k < inputs.len() && !inputs[k].locked ==> inputs[k].app@.len() > 0
}

/// The clocks of `t`'s open segment, if any, do not lie after the first tick
/// of `inputs`: what holds of any state the sampling loop ever reaches.
pub open spec fn clocks_admit(t: ActivityTracker, inputs: Seq<TickInput>) -> bool {
    t.phase is Tracking && inputs.len() > 0 ==> t.segment_start_mono <= inputs[0].mono
        && t.segment_start_wall <= inputs[0].wall
}

/// The probe-indeterminacy policy: a sample the probe could not resolve into
/// a name — an empty one — becomes the sentinel "Unknown"; any resolved name
/// passes through unchanged. The result always names an app, as the tick
/// contract asks.
pub fn resolve_app_name(sampled: String) -> (r: String)
    ensures
        sampled@.len() > 0 ==> r == sampled,
        sampled@.len() == 0 ==> r@ == "Unknown"@,
        r@.len() > 0,
{
    if sampled.as_str().is_empty() {
        proof {
            reveal_strlit("Unknown");
        }
        String::from_str("Unknown")
    } else {
        sampled
    }
}

impl ActivityTracker {
    /// Begin tracking `initial_app`, opening the first segment at the given
    /// clock readings.
    pub fn new(initial_app: String, wall_now: i64, mono_now: u64) -> (t: ActivityTracker)
        requires
            initial_app@.len() > 0,
        ensures
            t == (ActivityTracker {
                phase: TrackerPhase::Tracking,
                current_app: initial_app,
                segment_start_wall: wall_now,
                segment_start_mono: mono_now,
            }),
    {
        ActivityTracker {
            phase: TrackerPhase::Tracking,
            current_app: initial_app,
            segment_start_wall: wall_now,
            segment_start_mono: mono_now,
        }
    }

    /// Advance the machine by one sampling tick. The returned segment, if
    /// any, is the one this tick closed; it is the caller's to persist.
    ///
    /// The clock requirements state what the two clocks guarantee anyway: the
    /// monotonic clock never goes backward, and a closed segment never ends
    /// before it started. `sampled_app` is consulted only while unlocked.
    pub fn tick(&mut self, locked: bool, sampled_app: String, wall_now: i64, mono_now: u64) -> (closed:
        Option<UsageSegment>)
        requires
            old(self).phase is Tracking ==> old(self).segment_start_mono <= mono_now,
            old(self).phase is Tracking ==> old(self).segment_start_wall <= wall_now,
            !locked ==> sampled_app@.len() > 0,
        ensures
            ({
                let step = tick_result(
                    *old(self),
                    (TickInput { locked, app: sampled_app, wall: wall_now, mono: mono_now }),
                );
                *final(self) == step.0 && closed == step.1
            }),
    {
        if locked {
            match self.phase {
                TrackerPhase::Tracking => {
                    let seg = UsageSegment {
                        app_name: self.current_app.clone(),
                        start_wall: self.segment_start_wall,
                        end_wall: wall_now,
                        duration_seconds: mono_now - self.segment_start_mono,
                    };
                    self.phase = TrackerPhase::Paused;
                    Some(seg)
                },
                TrackerPhase::Paused => None,
            }
        } else {
            match self.phase {
                TrackerPhase::Paused => {
                    self.phase = TrackerPhase::Tracking;
                    self.current_app = sampled_app;
                    self.segment_start_wall = wall_now;
                    self.segment_start_mono = mono_now;
                    None
                },
                TrackerPhase::Tracking => {
                    if sampled_app != self.current_app {
                        let seg = UsageSegment {
                            app_name: self.current_app.clone(),
                            start_wall: self.segment_start_wall,
                            end_wall: wall_now,
                            duration_seconds: mono_now - self.segment_start_mono,
                        };
                        self.current_app = sampled_app;
                        self.segment_start_wall = wall_now;
                        self.segment_start_mono = mono_now;
                        Some(seg)
                    } else {
                        None
                    }
                },
            }
        }
    }

    /// Feed a whole scripted sample sequence to the machine, collecting the
    /// segments it closes along the way. This is how a run of the sampling
    /// loop is replayed without a clock: the result is exactly what the
    /// tick-by-tick model says.
    pub fn run_ticks(&mut self, inputs: &Vec<TickInput>) -> (closed: Vec<UsageSegment>)
        requires
            wall_sorted(inputs@),
            mono_sorted(inputs@),
            apps_resolved(inputs@),
            clocks_admit(*old(self), inputs@),
        ensures
            *final(self) == run_state(*old(self), inputs@),
            closed@ == run_segments(*old(self), inputs@),
    {
        let ghost t0 = *self;
        let mut out: Vec<UsageSegment> = Vec::new();
        let mut idx: usize = 0;
        proof {
            assert(inputs@.skip(0) =~= inputs@);
            assert(out@ + run_segments(t0, inputs@) =~= run_segments(t0, inputs@));
        }
        while idx < inputs.len()
            invariant
                idx <= inputs@.len(),
                wall_sorted(inputs@),
                mono_sorted(inputs@),
                apps_resolved(inputs@),
                clocks_admit(*self, inputs@.skip(idx as int)),
                run_state(t0, inputs@) == run_state(*self, inputs@.skip(idx as int)),
                run_segments(t0, inputs@) == out@ + run_segments(*self, inputs@.skip(idx as int)),
            decreases inputs@.len() - idx,
        {
            let ghost before = *self;
            let ghost rest = inputs@.skip(idx as int);
            proof {
                assert(rest[0] == inputs@[idx as int]);
                assert(rest.drop_first() =~= inputs@.skip(idx as int + 1));
            }
            let input = &inputs[idx];
            let closed_now = self.tick(input.locked, input.app.clone(), input.wall, input.mono);
            proof {
                let i = (TickInput {
                    locked: input.locked,
                    app: input.app,
                    wall: input.wall,
                    mono: input.mono,
                });
                assert(i == inputs@[idx as int]);
            }
            match closed_now {
                Some(seg) => {
                    proof {
                        assert(seq![seg] + run_segments(*self, rest.drop_first())
                            == run_segments(before, rest));
                        assert(out@ + (seq![seg] + run_segments(*self, rest.drop_first()))
                            =~= (out@ + seq![seg]) + run_segments(*self, rest.drop_first()));
                    }
                    out.push(seg);
                },
                None => {},
            }
            idx = idx + 1;
        }
        proof {
            assert(inputs@.skip(idx as int) =~= Seq::<TickInput>::empty());
            assert(out@ + Seq::<UsageSegment>::empty() =~= out@);
        }
        out
    }
}

} // verus!
