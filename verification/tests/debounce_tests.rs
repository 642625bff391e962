use supi::debounce::RestartGate;

#[test]
fn debounce_disabled_allows_every_trigger() {
    let mut g = RestartGate::new(0);
    assert_eq!(g.should_allow(0), (true, 0));
    assert_eq!(g.should_allow(1), (true, 0));
    assert_eq!(g.should_allow(2), (true, 0));
    // Disabled mode records nothing.
    assert_eq!(g.last_restart_ms, None);
}

#[test]
fn debounce_first_trigger_always_allowed() {
    let mut g = RestartGate::new(1000);
    assert_eq!(g.should_allow(123_456), (true, 0));
    assert_eq!(g.last_restart_ms, Some(123_456));
}

#[test]
fn debounce_denies_within_interval_and_reports_remaining() {
    let mut g = RestartGate::new(1000);
    assert_eq!(g.should_allow(0), (true, 0));
    // 400 ms later: denied, 600 ms remaining.
    assert_eq!(g.should_allow(400), (false, 600));
    // A denial records nothing, so the next check still counts from 0.
    assert_eq!(g.last_restart_ms, Some(0));
    assert_eq!(g.should_allow(999), (false, 1));
}

#[test]
fn debounce_allows_after_window_expires() {
    let mut g = RestartGate::new(1000);
    assert_eq!(g.should_allow(0), (true, 0));
    assert_eq!(g.should_allow(1000), (true, 0));
    assert_eq!(g.last_restart_ms, Some(1000));
    // The window counts from the last allowed restart.
    assert_eq!(g.should_allow(1500), (false, 500));
}
