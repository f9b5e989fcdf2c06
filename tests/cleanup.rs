use kiosk_lockdown::cleanup::{
    next_cleanup_step, plan_cleanup, plan_home_cache, CleanupStep, RemovalOutcome, FALLBACK_PROGRAM,
};

#[test]
fn target_sits_beside_the_executable() {
    let p = plan_cleanup("C:\\Apps\\kiosk.exe").unwrap();
    assert_eq!(p.target, "C:\\Apps\\kiosk.WebView2");
    assert_eq!(p.exe_name, "kiosk.exe");
    let p = plan_cleanup("/opt/app/viewer").unwrap();
    assert_eq!(p.target, "/opt/app/viewer.WebView2");
    assert_eq!(p.exe_name, "viewer");
}

#[test]
fn stem_drops_only_the_last_extension() {
    let p = plan_cleanup("D:/bin/my.app.exe").unwrap();
    assert_eq!(p.target, "D:/bin/my.app.WebView2");
    let p = plan_cleanup("/x/.hidden").unwrap();
    assert_eq!(p.target, "/x/.hidden.WebView2");
    let p = plan_cleanup("tool.exe").unwrap();
    assert_eq!(p.target, "tool.WebView2");
}

#[test]
fn path_without_file_has_no_target() {
    assert!(plan_cleanup("").is_none());
    assert!(plan_cleanup("C:\\Apps\\").is_none());
}

#[test]
fn absent_or_removed_target_is_success() {
    let p = plan_cleanup("C:\\k\\a.exe").unwrap();
    assert!(matches!(next_cleanup_step(RemovalOutcome::Absent, true, &p), CleanupStep::Succeeded));
    assert!(matches!(next_cleanup_step(RemovalOutcome::Removed, true, &p), CleanupStep::Succeeded));
    assert!(matches!(next_cleanup_step(RemovalOutcome::Absent, false, &p), CleanupStep::Succeeded));
}

#[test]
fn failed_removal_runs_fallback_with_exact_arguments() {
    let p = plan_cleanup("C:\\k\\a.exe").unwrap();
    match next_cleanup_step(RemovalOutcome::Failed, true, &p) {
        CleanupStep::RunFallback { program, args } => {
            assert_eq!(program, FALLBACK_PROGRAM);
            assert_eq!(program, "remove_webview2.ps1");
            assert_eq!(args, vec!["a.exe".to_string(), "C:\\k\\a.WebView2".to_string()]);
        }
        other => panic!("unexpected step {:?}", other),
    }
    assert!(matches!(next_cleanup_step(RemovalOutcome::Failed, false, &p), CleanupStep::Failed));
}

#[test]
fn home_cache_path() {
    assert_eq!(
        plan_home_cache("/Users/k", "/Applications/Kiosk.app/Contents/MacOS/kiosk").unwrap(),
        "/Users/k/Library/Caches/kiosk"
    );
    assert_eq!(plan_home_cache("/Users/k", "/opt/viewer.bin").unwrap(), "/Users/k/Library/Caches/viewer");
    assert!(plan_home_cache("/Users/k", "/opt/").is_none());
}
