use app_monitor::tracker::resolve_app_name;
use app_monitor::tracker::ActivityTracker;
use app_monitor::tracker::TickInput;
use app_monitor::tracker::TrackerPhase;
use app_monitor::tracker::UsageSegment;

fn tick_input(locked: bool, app: &str, wall: i64, mono: u64) -> TickInput {
    TickInput { locked, app: app.to_string(), wall, mono }
}

#[test]
fn scenario_same_app_then_switch() {
    // App sequence [A, A, B] at ticks 0, 1, 2 with no locks: one closed
    // segment for A with duration 2, and the tracker stays open on B.
    let mut t = ActivityTracker::new("A".to_string(), 1000, 0);
    assert_eq!(t.tick(false, "A".to_string(), 1001, 1), None);
    let closed = t.tick(false, "B".to_string(), 1002, 2);
    let seg = closed.expect("the app switch must close a segment");
    assert_eq!(seg.app_name, "A");
    assert_eq!(seg.start_wall, 1000);
    assert_eq!(seg.end_wall, 1002);
    assert_eq!(seg.duration_seconds, 2);
    assert_eq!(t.phase, TrackerPhase::Tracking);
    assert_eq!(t.current_app, "B");
    assert_eq!(t.segment_start_wall, 1002);
    assert_eq!(t.segment_start_mono, 2);
}

#[test]
fn scenario_lock_closes_segment() {
    // Lock becomes true at tick 3 while tracking A since tick 0: one closed
    // segment for A, started at tick 0's wall clock, duration 3; paused.
    let mut t = ActivityTracker::new("A".to_string(), 2000, 0);
    assert_eq!(t.tick(false, "A".to_string(), 2001, 1), None);
    assert_eq!(t.tick(false, "A".to_string(), 2002, 2), None);
    let seg = t.tick(true, String::new(), 2003, 3).expect("the lock must close a segment");
    assert_eq!(seg.app_name, "A");
    assert_eq!(seg.start_wall, 2000);
    assert_eq!(seg.end_wall, 2003);
    assert_eq!(seg.duration_seconds, 3);
    assert_eq!(t.phase, TrackerPhase::Paused);
}

#[test]
fn scenario_unlock_opens_segment() {
    // After the lock of the previous scenario, unlock at tick 5 with the
    // foreground app resolving to C: a new segment opens at tick 5's wall
    // clock, attributed to C, and nothing closes at the unlock itself.
    let mut t = ActivityTracker::new("A".to_string(), 2000, 0);
    t.tick(true, String::new(), 2003, 3).expect("the lock must close a segment");
    assert_eq!(t.tick(true, String::new(), 2004, 4), None);
    assert_eq!(t.tick(false, "C".to_string(), 2005, 5), None);
    assert_eq!(t.phase, TrackerPhase::Tracking);
    assert_eq!(t.current_app, "C");
    assert_eq!(t.segment_start_wall, 2005);
    assert_eq!(t.segment_start_mono, 5);
}

#[test]
fn scenario_unresolved_app_uses_sentinel() {
    // The probe never resolves an app: every tick samples "Unknown". The
    // machine runs without trouble and every closed segment carries the
    // sentinel.
    let mut t = ActivityTracker::new("Unknown".to_string(), 3000, 0);
    let inputs = vec![
        tick_input(false, "Unknown", 3001, 1),
        tick_input(false, "Unknown", 3002, 2),
        tick_input(true, "", 3003, 3),
        tick_input(false, "Unknown", 3004, 4),
        tick_input(true, "", 3005, 5),
    ];
    let closed = t.run_ticks(&inputs);
    assert_eq!(closed.len(), 2);
    for seg in &closed {
        assert_eq!(seg.app_name, "Unknown");
    }
}

#[test]
fn lock_pair_forces_boundary_with_same_app() {
    // A lock/unlock pair forces a segment boundary even though the app
    // before and after the lock is the same: exactly one close at the lock,
    // one open at the unlock, none of it depending on app identity.
    let mut t = ActivityTracker::new("A".to_string(), 1000, 0);
    let closed = t.tick(true, String::new(), 1005, 5).expect("the lock must close a segment");
    assert_eq!(closed.app_name, "A");
    assert_eq!(closed.end_wall, 1005);
    assert_eq!(t.phase, TrackerPhase::Paused);
    assert_eq!(t.tick(false, "A".to_string(), 1010, 10), None);
    assert_eq!(t.phase, TrackerPhase::Tracking);
    assert_eq!(t.current_app, "A");
    assert_eq!(t.segment_start_wall, 1010);
    // The next close shows the boundary: the new segment starts at the
    // unlock tick, not at the original segment's start.
    let second = t.tick(true, String::new(), 1020, 20).expect("the lock must close a segment");
    assert_eq!(second.app_name, "A");
    assert_eq!(second.start_wall, 1010);
    assert_eq!(second.duration_seconds, 10);
}

#[test]
fn paused_ticks_produce_nothing() {
    // While paused, no segments are produced regardless of how many ticks
    // elapse.
    let mut t = ActivityTracker::new("A".to_string(), 1000, 0);
    t.tick(true, String::new(), 1001, 1).expect("the lock must close a segment");
    for k in 2..50u64 {
        assert_eq!(t.tick(true, String::new(), 1000 + k as i64, k), None);
        assert_eq!(t.phase, TrackerPhase::Paused);
    }
}

#[test]
fn duration_follows_monotonic_clock_not_wall_clock() {
    // The wall clock jumps far ahead mid-segment; the duration still equals
    // the elapsed monotonic time.
    let mut t = ActivityTracker::new("A".to_string(), 1000, 100);
    assert_eq!(t.tick(false, "A".to_string(), 500000, 101), None);
    let seg = t.tick(false, "B".to_string(), 500001, 103).expect("the app switch must close a segment");
    assert_eq!(seg.duration_seconds, 3);
    assert_eq!(seg.start_wall, 1000);
    assert_eq!(seg.end_wall, 500001);
}

#[test]
fn run_segments_are_ordered_and_disjoint() {
    // A longer mixed script: starts are non-decreasing and consecutive
    // segments never overlap in wall-clock time.
    let mut t = ActivityTracker::new("A".to_string(), 100, 0);
    let inputs = vec![
        tick_input(false, "A", 101, 1),
        tick_input(false, "B", 102, 2),
        tick_input(false, "B", 103, 3),
        tick_input(true, "", 104, 4),
        tick_input(true, "", 105, 5),
        tick_input(false, "A", 106, 6),
        tick_input(false, "C", 107, 7),
        tick_input(true, "", 108, 8),
    ];
    let closed = t.run_ticks(&inputs);
    assert_eq!(closed.len(), 4);
    for seg in &closed {
        assert!(seg.start_wall <= seg.end_wall);
    }
    for pair in closed.windows(2) {
        assert!(pair[0].start_wall <= pair[1].start_wall);
        assert!(pair[0].end_wall <= pair[1].start_wall);
    }
}

#[test]
fn run_ticks_matches_single_ticks() {
    let inputs = vec![
        tick_input(false, "A", 11, 1),
        tick_input(true, "", 12, 2),
        tick_input(false, "B", 13, 3),
        tick_input(false, "C", 14, 4),
    ];
    let mut by_run = ActivityTracker::new("A".to_string(), 10, 0);
    let mut by_tick = ActivityTracker::new("A".to_string(), 10, 0);
    let collected = by_run.run_ticks(&inputs);
    let mut singles: Vec<UsageSegment> = Vec::new();
    for input in &inputs {
        if let Some(seg) = by_tick.tick(input.locked, input.app.clone(), input.wall, input.mono) {
            singles.push(seg);
        }
    }
    assert_eq!(collected, singles);
    assert_eq!(by_run.phase, by_tick.phase);
    assert_eq!(by_run.current_app, by_tick.current_app);
    assert_eq!(by_run.segment_start_wall, by_tick.segment_start_wall);
    assert_eq!(by_run.segment_start_mono, by_tick.segment_start_mono);
}

#[test]
fn empty_probe_sample_resolves_to_sentinel() {
    assert_eq!(resolve_app_name(String::new()), "Unknown");
    assert_eq!(resolve_app_name("A".to_string()), "A");
    assert_eq!(resolve_app_name("Unknown".to_string()), "Unknown");
}

#[test]
fn run_ticks_with_no_inputs_produces_nothing() {
    let mut t = ActivityTracker::new("A".to_string(), 10, 0);
    let closed = t.run_ticks(&Vec::new());
    assert!(closed.is_empty());
    assert_eq!(t.phase, TrackerPhase::Tracking);
    assert_eq!(t.current_app, "A");
}
