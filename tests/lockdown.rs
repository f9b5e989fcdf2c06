use kiosk_lockdown::lockdown::{
    build_lockdown_script, build_script, default_policy, is_key_suppressed, KeyChord,
    LockdownPolicy, PageEvent, KEY_C, KEY_F12, KEY_I, KEY_J, KEY_S, KEY_U,
};

const EXPECTED: &str = "document.addEventListener('contextmenu', function(e) { e.preventDefault(); }, true);\n\
document.addEventListener('selectstart', function(e) { e.preventDefault(); }, true);\n\
document.addEventListener('dragstart', function(e) { e.preventDefault(); }, true);\n\
document.addEventListener('copy', function(e) { e.preventDefault(); }, true);\n\
window.addEventListener('keydown', function(e) { if ((e.keyCode === 123) || (e.ctrlKey && e.shiftKey && e.keyCode === 73) || (e.ctrlKey && e.shiftKey && e.keyCode === 67) || (e.ctrlKey && e.shiftKey && e.keyCode === 74) || (e.ctrlKey && e.keyCode === 85) || (e.ctrlKey && e.keyCode === 83)) { e.preventDefault(); return false; } }, true);\n\
if (window.location.href !== 'about:blank') { history.replaceState(null, '', 'about:blank'); }\n\
Object.defineProperty(window, 'console', { value: Object.freeze({}), configurable: false, writable: false });\n\
setInterval(function() { debugger; }, 100);\n\
document.addEventListener('keydown', function(e) { if (e.ctrlKey && (e.key === 's' || e.key === 'S')) { e.preventDefault(); } }, true);\n";

#[test]
fn default_script_text() {
    assert_eq!(build_lockdown_script(), EXPECTED);
}

#[test]
fn address_entry_is_replaced_not_added() {
    let s = build_lockdown_script();
    assert!(s.contains("history.replaceState(null, '', 'about:blank')"));
    assert!(!s.contains("pushState"));
}

#[test]
fn every_listener_uses_capture_phase() {
    let s = build_lockdown_script();
    for line in s.lines().filter(|l| l.contains("addEventListener(")) {
        assert!(line.ends_with("}, true);"), "{}", line);
    }
}

#[test]
fn script_is_identical_across_builds() {
    let a = build_lockdown_script();
    let b = build_lockdown_script();
    assert_eq!(a.as_bytes(), b.as_bytes());
    assert_eq!(build_script(&default_policy()), a);
}

#[test]
fn default_policy_table() {
    let p = default_policy();
    assert_eq!(
        p.events,
        vec![PageEvent::ContextMenu, PageEvent::SelectStart, PageEvent::DragStart, PageEvent::Copy]
    );
    assert_eq!(p.chords.len(), 6);
    assert_eq!(p.debugger_period_ms, 100);
}

#[test]
fn devtools_and_save_chords_are_suppressed() {
    let c = default_policy().chords;
    assert!(is_key_suppressed(&c, false, false, KEY_F12));
    assert!(is_key_suppressed(&c, true, true, KEY_I));
    assert!(is_key_suppressed(&c, true, true, KEY_C));
    assert!(is_key_suppressed(&c, true, true, KEY_J));
    assert!(is_key_suppressed(&c, true, false, KEY_U));
    assert!(is_key_suppressed(&c, true, false, KEY_S));
}

#[test]
fn ordinary_keys_are_not_suppressed() {
    let c = default_policy().chords;
    assert!(!is_key_suppressed(&c, false, false, KEY_I));
    assert!(!is_key_suppressed(&c, true, false, KEY_I));
    assert!(!is_key_suppressed(&c, false, true, KEY_J));
    assert!(!is_key_suppressed(&c, false, false, KEY_S));
    assert!(!is_key_suppressed(&c, false, false, 65));
    assert!(!is_key_suppressed(&Vec::new(), true, true, KEY_F12));
}

#[test]
fn custom_policy_renders_its_own_rules() {
    let p = LockdownPolicy {
        events: vec![PageEvent::Copy],
        chords: vec![KeyChord { ctrl: false, shift: true, key_code: 7 }],
        debugger_period_ms: 2500,
    };
    let s = build_script(&p);
    assert!(s.starts_with(
        "document.addEventListener('copy', function(e) { e.preventDefault(); }, true);\n\
         window.addEventListener('keydown', function(e) { if ((e.shiftKey && e.keyCode === 7)) {"
    ));
    assert!(s.contains("setInterval(function() { debugger; }, 2500);\n"));
}

#[test]
fn empty_policy_keeps_fixed_rules() {
    let p = LockdownPolicy { events: vec![], chords: vec![], debugger_period_ms: 0 };
    let s = build_script(&p);
    assert!(s.starts_with("if (window.location.href !== 'about:blank')"));
    assert!(s.contains("debugger; }, 0);\n"));
    assert!(!s.contains("window.addEventListener('keydown'"));
}

#[test]
fn largest_period_renders_in_full() {
    let p = LockdownPolicy { events: vec![], chords: vec![], debugger_period_ms: u32::MAX };
    assert!(build_script(&p).contains("}, 4294967295);\n"));
}
