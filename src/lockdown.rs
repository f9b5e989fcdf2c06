//! The in-page lockdown script: a fixed policy table rendered as script
//! text that the web view runs before any page script.
use vstd::prelude::*;
use vstd::string::*;

verus! {

/// A page event that is suppressed unconditionally.
#[derive(Clone, Copy, Debug, PartialEq, Eq, Structural)]
pub enum PageEvent {
    ContextMenu,
    SelectStart,
    DragStart,
    Copy,
}

/// A key combination whose key-down is suppressed: the key code with every
/// modifier that the chord requires held down.
#[derive(Clone, Copy, Debug, PartialEq, Eq, Structural)]
pub struct KeyChord {
    pub ctrl: bool,
    pub shift: bool,
    pub key_code: u32,
}

/// The rules that the lockdown script enforces.
#[derive(Clone, Debug)]
pub struct LockdownPolicy {
    pub events: Vec<PageEvent>,
    pub chords: Vec<KeyChord>,
    /// Period of the debugger trip-wire, in milliseconds.
    pub debugger_period_ms: u32,
}

/// Key code of the F12 key in page scripts.
pub const KEY_F12: u32 = 123;
/// Key code of the C key in page scripts.
pub const KEY_C: u32 = 67;
/// Key code of the I key in page scripts.
pub const KEY_I: u32 = 73;
/// Key code of the J key in page scripts.
pub const KEY_J: u32 = 74;
/// Key code of the S key in page scripts.
pub const KEY_S: u32 = 83;
/// Key code of the U key in page scripts.
pub const KEY_U: u32 = 85;
/// Default period of the debugger trip-wire, in milliseconds.
pub const DEBUGGER_PERIOD_MS: u32 = 100;

pub open spec fn default_events() -> Seq<PageEvent> {
    seq![PageEvent::ContextMenu, PageEvent::SelectStart, PageEvent::DragStart, PageEvent::Copy]
}

/// F12, Ctrl+Shift+I, Ctrl+Shift+C, Ctrl+Shift+J, Ctrl+U and Ctrl+S.
pub open spec fn default_chords() -> Seq<KeyChord> {
    seq![
        KeyChord { ctrl: false, shift: false, key_code: KEY_F12 },
        KeyChord { ctrl: true, shift: true, key_code: KEY_I },
        KeyChord { ctrl: true, shift: true, key_code: KEY_C },
        KeyChord { ctrl: true, shift: true, key_code: KEY_J },
        KeyChord { ctrl: true, shift: false, key_code: KEY_U },
        KeyChord { ctrl: true, shift: false, key_code: KEY_S },
    ]
}

/// Whether a key-down with the given modifiers and key code hits the chord.
pub open spec fn chord_matches(c: KeyChord, ctrl: bool, shift: bool, key_code: u32) -> bool {
    (!c.ctrl || ctrl) && (!c.shift || shift) && key_code == c.key_code
}

/// Whether the script suppresses such a key-down.
pub open spec fn key_suppressed(chords: Seq<KeyChord>, ctrl: bool, shift: bool, key_code: u32) -> bool {
    exists|i: int| 0 <= i < chords.len() && chord_matches(#[trigger] chords[i], ctrl, shift, key_code)
}

pub open spec fn digit_char(d: nat) -> char {
    if d == 0 { '0' }
    else if d == 1 { '1' }
    else if d == 2 { '2' }
    else if d == 3 { '3' }
    else if d == 4 { '4' }
    else if d == 5 { '5' }
    else if d == 6 { '6' }
    else if d == 7 { '7' }
    else if d == 8 { '8' }
    else { '9' }
}

/// The decimal digits of `n`, without leading zeros.
pub open spec fn decimal(n: nat) -> Seq<char>
    decreases n,
{
    if n < 10 {
        seq![digit_char(n)]
    } else {
        decimal(n / 10) + seq![digit_char(n % 10)]
    }
}

pub open spec fn event_name(e: PageEvent) -> Seq<char> {
    match e {
        PageEvent::ContextMenu => "contextmenu"@,
        PageEvent::SelectStart => "selectstart"@,
        PageEvent::DragStart => "dragstart"@,
        PageEvent::Copy => "copy"@,
    }
}

/// A capture-phase listener that cancels the event.
pub open spec fn event_rule(e: PageEvent) -> Seq<char> {
    "document.addEventListener('"@ + event_name(e) + "', function(e) { e.preventDefault(); }, true);\n"@
}

pub open spec fn event_rules(s: Seq<PageEvent>) -> Seq<char>
    decreases s.len(),
{
    if s.len() == 0 {
        Seq::empty()
    } else {
        event_rules(s.drop_last()) + event_rule(s.last())
    }
}

/// The script condition that tests one chord.
pub open spec fn chord_condition(c: KeyChord) -> Seq<char> {
    "("@ + (if c.ctrl { "e.ctrlKey && "@ } else { Seq::empty() }) + (if c.shift {
        "e.shiftKey && "@
    } else {
        Seq::empty()
    }) + "e.keyCode === "@ + decimal(c.key_code as nat) + ")"@
}

pub open spec fn chord_conditions(s: Seq<KeyChord>) -> Seq<char>
    decreases s.len(),
{
    if s.len() == 0 {
        Seq::empty()
    } else if s.len() == 1 {
        chord_condition(s[0])
    } else {
        chord_conditions(s.drop_last()) + " || "@ + chord_condition(s.last())
    }
}

/// A capture-phase key-down listener that cancels every listed chord;
/// nothing when no chord is listed.
pub open spec fn chord_rule(s: Seq<KeyChord>) -> Seq<char> {
    if s.len() == 0 {
        Seq::empty()
    } else {
        "window.addEventListener('keydown', function(e) { if ("@ + chord_conditions(s)
            + ") { e.preventDefault(); return false; } }, true);\n"@
    }
}

pub open spec fn hide_url_rule() -> Seq<char> {
    "if (window.location.href !== 'about:blank') { history.replaceState(null, '', 'about:blank'); }\n"@
}

pub open spec fn console_rule() -> Seq<char> {
    "Object.defineProperty(window, 'console', { value: Object.freeze({}), configurable: false, writable: false });\n"@
}

pub open spec fn debugger_rule(period_ms: u32) -> Seq<char> {
    "setInterval(function() { debugger; }, "@ + decimal(period_ms as nat) + ");\n"@
}

pub open spec fn save_rule() -> Seq<char> {
    "document.addEventListener('keydown', function(e) { if (e.ctrlKey && (e.key === 's' || e.key === 'S')) { e.preventDefault(); } }, true);\n"@
}

/// The script text for a policy: event rules, chord rule, address hiding,
/// console freeze, debugger trip-wire and the page-save rule, in this order.
pub open spec fn script_of(events: Seq<PageEvent>, chords: Seq<KeyChord>, period_ms: u32) -> Seq<char> {
    event_rules(events) + chord_rule(chords) + hide_url_rule() + console_rule() + debugger_rule(
        period_ms,
    ) + save_rule()
}

/// The one-character text of a decimal digit.
fn digit_str(d: u32) -> (r: &'static str)
    requires
        d < 10,
    ensures
        r@ == seq![digit_char(d as nat)],
{
    if d == 0 {
        proof {
            reveal_strlit("0");
        }
        "0"
    } else if d == 1 {
        proof {
            reveal_strlit("1");
        }
        "1"
    } else if d == 2 {
        proof {
            reveal_strlit("2");
        }
        "2"
    } else if d == 3 {
        proof {
            reveal_strlit("3");
        }
        "3"
    } else if d == 4 {
        proof {
            reveal_strlit("4");
        }
        "4"
    } else if d == 5 {
        proof {
            reveal_strlit("5");
        }
        "5"
    } else if d == 6 {
        proof {
            reveal_strlit("6");
        }
        "6"
    } else if d == 7 {
        proof {
            reveal_strlit("7");
        }
        "7"
    } else if d == 8 {
        proof {
            reveal_strlit("8");
        }
        "8"
    } else {
        proof {
            reveal_strlit("9");
        }
        "9"
    }
}

/// Appends the decimal digits of `n`.
fn push_decimal(out: &mut String, n: u32)
    ensures
        final(out)@ == old(out)@ + decimal(n as nat),
    decreases n,
{
    if n >= 10 {
        push_decimal(out, n / 10);
    }
    out.append(digit_str(n % 10));
    proof {
        assert(n as nat % 10 == (n % 10) as nat);
        assert(n as nat / 10 == (n / 10) as nat);
    }
}

fn event_name_str(e: PageEvent) -> (r: &'static str)
    ensures
        r@ == event_name(e),
{
    match e {
        PageEvent::ContextMenu => "contextmenu",
        PageEvent::SelectStart => "selectstart",
        PageEvent::DragStart => "dragstart",
        PageEvent::Copy => "copy",
    }
}

fn push_event_rules(out: &mut String, events: &Vec<PageEvent>)
    ensures
        final(out)@ == old(out)@ + event_rules(events@),
{
    let ghost start = out@;
    let mut i: usize = 0;
    while i < events.len()
        invariant
            i <= events@.len(),
            out@ == start + event_rules(events@.take(i as int)),
        decreases events@.len() - i,
    {
        out.append("document.addEventListener('");
        out.append(event_name_str(events[i]));
        out.append("', function(e) { e.preventDefault(); }, true);\n");
        proof {
            let t = events@.take(i as int + 1);
            assert(t.drop_last() =~= events@.take(i as int));
            assert(t.last() == events@[i as int]);
        }
        i = i + 1;
    }
    proof {
        assert(events@.take(events@.len() as int) =~= events@);
    }
}

fn push_chord_condition(out: &mut String, c: KeyChord)
    ensures
        final(out)@ == old(out)@ + chord_condition(c),
{
    let ghost start = out@;
    out.append("(");
    if c.ctrl {
        out.append("e.ctrlKey && ");
    }
    if c.shift {
        out.append("e.shiftKey && ");
    }
    out.append("e.keyCode === ");
    push_decimal(out, c.key_code);
    out.append(")");
    proof {
        assert(out@ =~= start + chord_condition(c));
    }
}

fn push_chord_rule(out: &mut String, chords: &Vec<KeyChord>)
    ensures
        final(out)@ == old(out)@ + chord_rule(chords@),
{
    if chords.len() == 0 {
        proof {
            assert(old(out)@ + chord_rule(chords@) =~= old(out)@);
        }
        return ;
    }
    let ghost start = out@;
    out.append("window.addEventListener('keydown', function(e) { if (");
    let ghost head = out@;
    let mut i: usize = 0;
    while i < chords.len()
        invariant
            i <= chords@.len(),
            out@ == head + chord_conditions(chords@.take(i as int)),
        decreases chords@.len() - i,
    {
        if i > 0 {
            out.append(" || ");
        }
        push_chord_condition(out, chords[i]);
        proof {
            let t = chords@.take(i as int + 1);
            assert(t.drop_last() =~= chords@.take(i as int));
            assert(t.last() == chords@[i as int]);
            if i == 0 {
                assert(chords@.take(0) =~= Seq::<KeyChord>::empty());
                assert(t[0] == chords@[0]);
            }
        }
        i = i + 1;
    }
    out.append(") { e.preventDefault(); return false; } }, true);\n");
    proof {
        assert(chords@.take(chords@.len() as int) =~= chords@);
        assert(out@ =~= start + chord_rule(chords@));
    }
}

/// Renders a policy as the lockdown script.
pub fn build_script(policy: &LockdownPolicy) -> (r: String)
    ensures
        r@ == script_of(policy.events@, policy.chords@, policy.debugger_period_ms),
{
    let mut out = String::new();
    push_event_rules(&mut out, &policy.events);
    push_chord_rule(&mut out, &policy.chords);
    out.append("if (window.location.href !== 'about:blank') { history.replaceState(null, '', 'about:blank'); }\n");
    out.append("Object.defineProperty(window, 'console', { value: Object.freeze({}), configurable: false, writable: false });\n");
    out.append("setInterval(function() { debugger; }, ");
    push_decimal(&mut out, policy.debugger_period_ms);
    out.append(");\n");
    out.append("document.addEventListener('keydown', function(e) { if (e.ctrlKey && (e.key === 's' || e.key === 'S')) { e.preventDefault(); } }, true);\n");
    proof {
        assert(out@ =~= script_of(policy.events@, policy.chords@, policy.debugger_period_ms));
    }
    out
}

/// The policy of the kiosk: every listed page event, every listed chord,
/// and a trip-wire every 100 ms.
pub fn default_policy() -> (r: LockdownPolicy)
    ensures
        r.events@ == default_events(),
        r.chords@ == default_chords(),
        r.debugger_period_ms == DEBUGGER_PERIOD_MS,
{
    let events = vec![PageEvent::ContextMenu, PageEvent::SelectStart, PageEvent::DragStart, PageEvent::Copy];
    let chords = vec![
        KeyChord { ctrl: false, shift: false, key_code: KEY_F12 },
        KeyChord { ctrl: true, shift: true, key_code: KEY_I },
        KeyChord { ctrl: true, shift: true, key_code: KEY_C },
        KeyChord { ctrl: true, shift: true, key_code: KEY_J },
        KeyChord { ctrl: true, shift: false, key_code: KEY_U },
        KeyChord { ctrl: true, shift: false, key_code: KEY_S },
    ];
    proof {
        assert(events@ =~= default_events());
        assert(chords@ =~= default_chords());
    }
    LockdownPolicy { events, chords, debugger_period_ms: DEBUGGER_PERIOD_MS }
}

/// The script that the web view is given at construction.
pub fn build_lockdown_script() -> (r: String)
    ensures
        r@ == script_of(default_events(), default_chords(), DEBUGGER_PERIOD_MS),
{
    let policy = default_policy();
    build_script(&policy)
}

/// Whether the script's chord rule cancels a key-down with these
/// modifiers and key code.
pub fn is_key_suppressed(chords: &Vec<KeyChord>, ctrl: bool, shift: bool, key_code: u32) -> (r: bool)
    ensures
        r == key_suppressed(chords@, ctrl, shift, key_code),
{
    let mut i: usize = 0;
    while i < chords.len()
        invariant
            i <= chords@.len(),
            forall|j: int| 0 <= j < i ==> !chord_matches(#[trigger] chords@[j], ctrl, shift, key_code),
        decreases chords@.len() - i,
    {
        let c = chords[i];
        if (!c.ctrl || ctrl) && (!c.shift || shift) && key_code == c.key_code {
            proof {
                assert(chord_matches(chords@[i as int], ctrl, shift, key_code));
            }
            return true;
        }
        i = i + 1;
    }
    false
}

/// The script text is a function of the policy alone: two builds from
/// equal policies give the same text.
pub proof fn lemma_script_deterministic(a: LockdownPolicy, b: LockdownPolicy)
    requires
        a.events@ == b.events@,
        a.chords@ == b.chords@,
        a.debugger_period_ms == b.debugger_period_ms,
    ensures
        script_of(a.events@, a.chords@, a.debugger_period_ms) == script_of(
            b.events@,
            b.chords@,
            b.debugger_period_ms,
        ),
{
}

} // verus!
