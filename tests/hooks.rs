use kiosk_lockdown::hooks::{HookErrorKind, HookRegistrar};

#[test]
fn install_then_uninstall_leaves_nothing() {
    let mut r = HookRegistrar::new();
    assert!(!r.is_installed());
    let pair = r.install(11, 22).expect("both granted");
    assert_eq!(pair.pointer(), 11);
    assert_eq!(pair.keyboard(), 22);
    assert!(r.is_installed());
    assert_eq!(r.uninstall(pair).unwrap(), (11, 22));
    assert!(!r.is_installed());
}

#[test]
fn second_install_fails_and_returns_new_handles() {
    let mut r = HookRegistrar::new();
    let pair = r.install(1, 2).unwrap();
    let err = r.install(3, 4).unwrap_err();
    assert_eq!(err.kind, HookErrorKind::AlreadyInstalled);
    assert_eq!(err.release, vec![3, 4]);
    assert_eq!(r.uninstall(pair).unwrap(), (1, 2));
}

#[test]
fn refused_install_releases_the_granted_handle() {
    let mut r = HookRegistrar::new();
    let err = r.install(0, 9).unwrap_err();
    assert_eq!(err.kind, HookErrorKind::InstallFailed);
    assert_eq!(err.release, vec![9]);
    assert!(!r.is_installed());
    let err = r.install(5, 0).unwrap_err();
    assert_eq!(err.release, vec![5]);
    let err = r.install(0, 0).unwrap_err();
    assert!(err.release.is_empty());
}

#[test]
fn uninstall_of_a_stale_pair_is_refused() {
    let mut r = HookRegistrar::new();
    let first = r.install(1, 2).unwrap();
    let mut other = HookRegistrar::new();
    let stranger = other.install(7, 8).unwrap();
    let err = r.uninstall(stranger).unwrap_err();
    assert_eq!(err.kind, HookErrorKind::NotInstalled);
    assert!(r.is_installed());
    assert!(r.uninstall(first).is_ok());
    assert_eq!(r.release_all(), None);
}

#[test]
fn release_all_returns_installed_pair() {
    let mut r = HookRegistrar::new();
    let _pair = r.install(4, 6).unwrap();
    assert_eq!(r.release_all(), Some((4, 6)));
    assert!(!r.is_installed());
}
