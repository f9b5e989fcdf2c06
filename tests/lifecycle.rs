use kiosk_lockdown::lifecycle::{
    Coordinator, LifecycleAction, LifecycleEvent, Phase, EXIT_HOOK_INSTALL_FAILED, EXIT_OK,
};

#[test]
fn close_requested_uninstalls_and_exits_cleanly() {
    let mut c = Coordinator::new();
    assert_eq!(c.phase(), Phase::Created);
    let a = c.step(LifecycleEvent::HooksReported { pointer: 10, keyboard: 20 });
    assert!(matches!(a, LifecycleAction::StartPage));
    assert_eq!(c.phase(), Phase::Running);
    assert!(c.hooks_active());
    match c.step(LifecycleEvent::CloseRequested) {
        LifecycleAction::Shutdown { release } => assert_eq!(release, vec![10, 20]),
        other => panic!("unexpected action {:?}", other),
    }
    assert_eq!(c.phase(), Phase::ShuttingDown);
    assert!(!c.hooks_active());
    match c.step(LifecycleEvent::CleanupFinished) {
        LifecycleAction::Exit { exit_code } => assert_eq!(exit_code, EXIT_OK),
        other => panic!("unexpected action {:?}", other),
    }
    assert_eq!(c.phase(), Phase::Terminated);
    assert_eq!(EXIT_OK, 0);
}

#[test]
fn failed_install_aborts_with_nonzero_code() {
    let mut c = Coordinator::new();
    match c.step(LifecycleEvent::HooksReported { pointer: 10, keyboard: 0 }) {
        LifecycleAction::Abort { release, exit_code } => {
            assert_eq!(release, vec![10]);
            assert_eq!(exit_code, EXIT_HOOK_INSTALL_FAILED);
            assert_ne!(exit_code, 0);
        }
        other => panic!("unexpected action {:?}", other),
    }
    assert_eq!(c.phase(), Phase::Terminated);
    assert!(!c.hooks_active());
    for e in [
        LifecycleEvent::CloseRequested,
        LifecycleEvent::CleanupFinished,
        LifecycleEvent::HooksReported { pointer: 1, keyboard: 2 },
        LifecycleEvent::Other,
    ] {
        assert!(matches!(c.step(e), LifecycleAction::Ignore));
        assert!(!c.hooks_active());
    }
}

#[test]
fn events_outside_their_phase_are_ignored() {
    let mut c = Coordinator::new();
    assert!(matches!(c.step(LifecycleEvent::CloseRequested), LifecycleAction::Ignore));
    assert!(matches!(c.step(LifecycleEvent::Other), LifecycleAction::Ignore));
    assert_eq!(c.phase(), Phase::Created);
    c.step(LifecycleEvent::HooksReported { pointer: 3, keyboard: 4 });
    assert!(matches!(
        c.step(LifecycleEvent::HooksReported { pointer: 5, keyboard: 6 }),
        LifecycleAction::Ignore
    ));
    assert!(matches!(c.step(LifecycleEvent::CleanupFinished), LifecycleAction::Ignore));
    assert_eq!(c.phase(), Phase::Running);
    assert!(matches!(c.step(LifecycleEvent::CloseRequested), LifecycleAction::Shutdown { .. }));
    assert!(matches!(c.step(LifecycleEvent::CloseRequested), LifecycleAction::Ignore));
    assert_eq!(c.phase(), Phase::ShuttingDown);
}
