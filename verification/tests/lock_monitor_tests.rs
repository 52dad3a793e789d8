use app_monitor::lock_monitor::LockMonitor;

#[test]
fn publishes_only_on_edges() {
    let mut m = LockMonitor::new();
    assert_eq!(m.step(Some(false)), None);
    assert_eq!(m.step(Some(true)), Some(true));
    assert_eq!(m.step(Some(true)), None);
    assert_eq!(m.step(Some(false)), Some(false));
    assert_eq!(m.step(Some(false)), None);
}

#[test]
fn indeterminate_counts_as_unlocked() {
    let mut m = LockMonitor::new();
    // An indeterminate first sample is no edge: the screen already counted
    // as unlocked.
    assert_eq!(m.step(None), None);
    assert_eq!(m.step(Some(true)), Some(true));
    // An indeterminate sample while locked publishes an unlock edge.
    assert_eq!(m.step(None), Some(false));
    assert_eq!(m.step(None), None);
    assert!(!m.last_observed);
}
