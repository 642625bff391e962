use supi::process::{
    escalation, ExitStatus, KillDirective, ProcessError, ProcessManager, TermDirective,
    GRACE_PERIOD_MS,
};

fn manager() -> ProcessManager {
    ProcessManager::new(String::from("sleep"), vec![String::from("60")])
}

#[test]
fn spawn_while_running_fails_with_already_running() {
    let mut pm = manager();
    assert!(!pm.is_running());
    assert_eq!(pm.spawn(41), Ok(()));
    assert!(pm.is_running());
    // At most one child at a time.
    assert_eq!(pm.spawn(42), Err(ProcessError::AlreadyRunning));
    assert_eq!(pm.child, Some(41));
}

#[test]
fn wait_clears_the_child_and_returns_the_status() {
    let mut pm = manager();
    pm.spawn(7).unwrap();
    let status = ExitStatus { code: Some(3) };
    assert_eq!(pm.wait(status), Ok(status));
    assert!(!pm.is_running());
    // The manager is empty: a new spawn is legal again.
    assert_eq!(pm.spawn(8), Ok(()));
}

#[test]
fn wait_without_a_child_fails_with_not_running() {
    let mut pm = manager();
    let status = ExitStatus { code: Some(0) };
    assert_eq!(pm.wait(status), Err(ProcessError::NotRunning));
}

#[test]
fn shutdown_orders_the_whole_process_group_and_converges() {
    let mut pm = manager();
    pm.spawn(1234).unwrap();
    let directive = pm.shutdown();
    assert_eq!(
        directive,
        Some(TermDirective { pid: 1234, whole_group: true, grace_ms: GRACE_PERIOD_MS })
    );
    // Convergence: no child is recorded once shutdown begins.
    assert!(!pm.is_running());
}

#[test]
fn shutdown_without_a_child_is_a_no_op() {
    let mut pm = manager();
    assert_eq!(pm.shutdown(), None);
    assert!(!pm.is_running());
}

#[test]
fn escalation_kills_the_group_only_when_grace_ran_out() {
    let d = TermDirective { pid: 99, whole_group: true, grace_ms: GRACE_PERIOD_MS };
    assert_eq!(escalation(&d, true), None);
    assert_eq!(escalation(&d, false), Some(KillDirective { pid: 99, whole_group: true }));
}

#[test]
fn spawn_directive_demands_group_capture_and_reclaim() {
    let pm = manager();
    let d = pm.spawn_directive();
    assert!(d.new_process_group);
    assert!(d.capture_output);
    assert!(d.kill_on_drop);
}

#[test]
fn exit_status_success_means_code_zero() {
    assert!(ExitStatus { code: Some(0) }.success());
    assert!(!ExitStatus { code: Some(1) }.success());
    assert!(!ExitStatus { code: None }.success());
}
