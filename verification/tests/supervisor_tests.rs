use launcher_core::supervisor::ShutdownAction;
use launcher_core::supervisor::Supervisor;
use launcher_core::supervisor::shutdown_decision;

#[test]
fn shutdown_without_start_is_a_noop() {
    // No process was ever started: taking the handle yields nothing
    // and does not error.
    let mut sup = Supervisor::new();
    assert!(!sup.has_backend());
    assert_eq!(sup.take_handle(), None);
    assert!(!sup.has_backend());
    assert_eq!(sup.last_exit_status(), None);
}

#[test]
fn shutdown_twice_is_safe() {
    // The second shutdown finds the slot already empty.
    let mut sup = Supervisor::new();
    sup.record_spawn(4711);
    assert_eq!(sup.take_handle(), Some(4711));
    assert_eq!(sup.take_handle(), None);
    assert_eq!(sup.take_handle(), None);
}

#[test]
fn spawn_fills_the_single_slot() {
    let mut sup = Supervisor::new();
    assert!(!sup.has_backend());
    sup.record_spawn(1234);
    assert!(sup.has_backend());
    assert_eq!(sup.take_handle(), Some(1234));
    assert!(!sup.has_backend());
}

#[test]
fn exited_child_gets_its_status_recorded() {
    // The liveness poll reports an exit status: no signal is sent,
    // the status is recorded.
    let mut sup = Supervisor::new();
    sup.record_spawn(77);
    assert_eq!(sup.take_handle(), Some(77));
    match shutdown_decision(Some(0)) {
        ShutdownAction::RecordExit(status) => sup.record_exit(status),
        ShutdownAction::Terminate => panic!("already exited child must not be signalled"),
    }
    assert_eq!(sup.last_exit_status(), Some(0));
    assert!(!sup.has_backend());
}

#[test]
fn running_child_is_terminated_then_waited_for() {
    // The liveness poll reports the child still runs: shutdown asks
    // for a termination request followed by a blocking wait.
    let mut sup = Supervisor::new();
    sup.record_spawn(78);
    assert_eq!(sup.take_handle(), Some(78));
    assert_eq!(shutdown_decision(None), ShutdownAction::Terminate);
    // After the wait the caller records the exit; the slot stays
    // empty, so the child is confirmed gone.
    sup.record_exit(-1);
    assert!(!sup.has_backend());
    assert_eq!(sup.last_exit_status(), Some(-1));
}

#[test]
fn restart_after_shutdown_uses_the_empty_slot() {
    let mut sup = Supervisor::new();
    sup.record_spawn(1);
    assert_eq!(sup.take_handle(), Some(1));
    sup.record_spawn(2);
    assert_eq!(sup.take_handle(), Some(2));
}
