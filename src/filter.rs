//! The interception policy applied to every raw input event.
use vstd::prelude::*;

verus! {

/// Virtual key code of the F12 function key.
pub const VK_F12: u32 = 0x7B;

/// Low-level hook message: a key went down.
pub const WM_KEYDOWN: u32 = 0x0100;
/// Low-level hook message: a key went up.
pub const WM_KEYUP: u32 = 0x0101;
/// Low-level hook message: a key went down while Alt was held.
pub const WM_SYSKEYDOWN: u32 = 0x0104;
/// Low-level hook message: a key went up while Alt was held.
pub const WM_SYSKEYUP: u32 = 0x0105;
/// Low-level hook message: the primary button went down.
pub const WM_LBUTTONDOWN: u32 = 0x0201;
/// Low-level hook message: the primary button went up.
pub const WM_LBUTTONUP: u32 = 0x0202;
/// Low-level hook message: the secondary button went down.
pub const WM_RBUTTONDOWN: u32 = 0x0204;
/// Low-level hook message: the secondary button went up.
pub const WM_RBUTTONUP: u32 = 0x0205;
/// Low-level hook message: the middle button went down.
pub const WM_MBUTTONDOWN: u32 = 0x0207;
/// Low-level hook message: the middle button went up.
pub const WM_MBUTTONUP: u32 = 0x0208;

/// AppKit event type: the secondary button went down.
pub const NS_RIGHT_MOUSE_DOWN: u64 = 3;
/// AppKit event type: the secondary button went up.
pub const NS_RIGHT_MOUSE_UP: u64 = 4;
/// AppKit event type: a key went down.
pub const NS_KEY_DOWN: u64 = 10;
/// AppKit event type: a key went up.
pub const NS_KEY_UP: u64 = 11;
/// AppKit key code of the F12 key.
pub const NS_KEY_CODE_F12: u16 = 0x6F;
/// Offset that places AppKit key codes other than F12 outside the range of
/// virtual key codes, so that none of them is taken for another key.
pub const APPKIT_KEY_BASE: u32 = 0x10000;

/// A pointer button.
#[derive(Clone, Copy, Debug, PartialEq, Eq, Structural)]
pub enum PointerButton {
    Primary,
    Secondary,
    Middle,
}

/// A raw input event, reduced to what the blocking decision reads.
#[derive(Clone, Copy, Debug, PartialEq, Eq, Structural)]
pub enum InputEvent {
    Pointer { button: PointerButton, is_down: bool },
    Key { code: u32, is_down: bool },
}

/// What happens to an intercepted event.
#[derive(Clone, Copy, Debug, PartialEq, Eq, Structural)]
pub enum FilterDecision {
    /// Swallow the event before any window sees it.
    Block,
    /// Hand the event on to the next handler.
    Forward,
}

/// The events that the policy swallows: a secondary-button press and an
/// F12 key press.
pub open spec fn is_blocked(e: InputEvent) -> bool {
    match e {
        InputEvent::Pointer { button, is_down } => button == PointerButton::Secondary && is_down,
        InputEvent::Key { code, is_down } => code == VK_F12 && is_down,
    }
}

pub open spec fn decision_of(e: InputEvent) -> FilterDecision {
    if is_blocked(e) {
        FilterDecision::Block
    } else {
        FilterDecision::Forward
    }
}

/// Decides the fate of one intercepted event. It reads nothing but the event.
pub fn filter(event: &InputEvent) -> (d: FilterDecision)
    ensures
        d == decision_of(*event),
        *event matches InputEvent::Pointer { button, is_down } ==> (d == FilterDecision::Block
            <==> button == PointerButton::Secondary && is_down),
        *event matches InputEvent::Key { code, is_down } ==> (d == FilterDecision::Block
            <==> code == VK_F12 && is_down),
{
    match event {
        InputEvent::Pointer { button, is_down } => {
            if *is_down && matches!(button, PointerButton::Secondary) {
                FilterDecision::Block
            } else {
                FilterDecision::Forward
            }
        },
        InputEvent::Key { code, is_down } => {
            if *is_down && *code == VK_F12 {
                FilterDecision::Block
            } else {
                FilterDecision::Forward
            }
        },
    }
}

/// The event that a low-level pointer hook message stands for; `None` for
/// messages the policy does not classify (moves, wheel turns).
pub open spec fn pointer_message_event(message: u32) -> Option<InputEvent> {
    if message == WM_LBUTTONDOWN {
        Some(InputEvent::Pointer { button: PointerButton::Primary, is_down: true })
    } else if message == WM_LBUTTONUP {
        Some(InputEvent::Pointer { button: PointerButton::Primary, is_down: false })
    } else if message == WM_RBUTTONDOWN {
        Some(InputEvent::Pointer { button: PointerButton::Secondary, is_down: true })
    } else if message == WM_RBUTTONUP {
        Some(InputEvent::Pointer { button: PointerButton::Secondary, is_down: false })
    } else if message == WM_MBUTTONDOWN {
        Some(InputEvent::Pointer { button: PointerButton::Middle, is_down: true })
    } else if message == WM_MBUTTONUP {
        Some(InputEvent::Pointer { button: PointerButton::Middle, is_down: false })
    } else {
        None
    }
}

/// The event that a low-level keyboard hook message stands for.
pub open spec fn key_message_event(message: u32, vk_code: u32) -> Option<InputEvent> {
    if message == WM_KEYDOWN || message == WM_SYSKEYDOWN {
        Some(InputEvent::Key { code: vk_code, is_down: true })
    } else if message == WM_KEYUP || message == WM_SYSKEYUP {
        Some(InputEvent::Key { code: vk_code, is_down: false })
    } else {
        None
    }
}

/// What a hook does with what it decoded: unclassified input goes on.
pub open spec fn decision_of_decoded(e: Option<InputEvent>) -> FilterDecision {
    match e {
        Some(ev) => decision_of(ev),
        None => FilterDecision::Forward,
    }
}

/// Decodes a low-level pointer hook call. A negative hook code means the
/// call must be passed on unexamined.
pub fn decode_pointer_message(code: i32, message: u32) -> (r: Option<InputEvent>)
    ensures
        r == (if code < 0 { None } else { pointer_message_event(message) }),
{
    if code < 0 {
        None
    } else if message == WM_LBUTTONDOWN {
        Some(InputEvent::Pointer { button: PointerButton::Primary, is_down: true })
    } else if message == WM_LBUTTONUP {
        Some(InputEvent::Pointer { button: PointerButton::Primary, is_down: false })
    } else if message == WM_RBUTTONDOWN {
        Some(InputEvent::Pointer { button: PointerButton::Secondary, is_down: true })
    } else if message == WM_RBUTTONUP {
        Some(InputEvent::Pointer { button: PointerButton::Secondary, is_down: false })
    } else if message == WM_MBUTTONDOWN {
        Some(InputEvent::Pointer { button: PointerButton::Middle, is_down: true })
    } else if message == WM_MBUTTONUP {
        Some(InputEvent::Pointer { button: PointerButton::Middle, is_down: false })
    } else {
        None
    }
}

/// Decodes a low-level keyboard hook call, given the virtual key code read
/// from the hook's payload.
pub fn decode_key_message(code: i32, message: u32, vk_code: u32) -> (r: Option<InputEvent>)
    ensures
        r == (if code < 0 { None } else { key_message_event(message, vk_code) }),
{
    if code < 0 {
        None
    } else if message == WM_KEYDOWN || message == WM_SYSKEYDOWN {
        Some(InputEvent::Key { code: vk_code, is_down: true })
    } else if message == WM_KEYUP || message == WM_SYSKEYUP {
        Some(InputEvent::Key { code: vk_code, is_down: false })
    } else {
        None
    }
}

/// Decides a decoded hook call.
pub fn filter_decoded(e: Option<InputEvent>) -> (d: FilterDecision)
    ensures
        d == decision_of_decoded(e),
{
    match e {
        Some(ev) => filter(&ev),
        None => FilterDecision::Forward,
    }
}

/// The decision of the pointer hook: `Block` exactly for a secondary-button
/// press examined by the hook.
pub fn pointer_hook_decision(code: i32, message: u32) -> (d: FilterDecision)
    ensures
        d == decision_of_decoded(if code < 0 { None } else { pointer_message_event(message) }),
        d == FilterDecision::Block <==> code >= 0 && message == WM_RBUTTONDOWN,
{
    filter_decoded(decode_pointer_message(code, message))
}

/// The decision of the keyboard hook: `Block` exactly for an F12 press
/// examined by the hook.
pub fn key_hook_decision(code: i32, message: u32, vk_code: u32) -> (d: FilterDecision)
    ensures
        d == decision_of_decoded(if code < 0 { None } else { key_message_event(message, vk_code) }),
        d == FilterDecision::Block <==> code >= 0 && vk_code == VK_F12 && (message == WM_KEYDOWN
            || message == WM_SYSKEYDOWN),
{
    filter_decoded(decode_key_message(code, message, vk_code))
}

/// The portable key code of an AppKit key code: F12 becomes `VK_F12`,
/// every other key a code of its own above `APPKIT_KEY_BASE`.
pub open spec fn appkit_key_code(key_code: u16) -> u32 {
    if key_code == NS_KEY_CODE_F12 {
        VK_F12
    } else {
        (APPKIT_KEY_BASE + key_code) as u32
    }
}

/// Translates an AppKit key code to a portable key code.
pub fn portable_appkit_key_code(key_code: u16) -> (r: u32)
    ensures
        r == appkit_key_code(key_code),
        r == VK_F12 <==> key_code == NS_KEY_CODE_F12,
{
    if key_code == NS_KEY_CODE_F12 {
        VK_F12
    } else {
        APPKIT_KEY_BASE + key_code as u32
    }
}

/// The event that an AppKit event of the given type and key code stands for.
pub open spec fn appkit_event(event_type: u64, key_code: u16) -> Option<InputEvent> {
    if event_type == NS_RIGHT_MOUSE_DOWN {
        Some(InputEvent::Pointer { button: PointerButton::Secondary, is_down: true })
    } else if event_type == NS_RIGHT_MOUSE_UP {
        Some(InputEvent::Pointer { button: PointerButton::Secondary, is_down: false })
    } else if event_type == NS_KEY_DOWN {
        Some(InputEvent::Key { code: appkit_key_code(key_code), is_down: true })
    } else if event_type == NS_KEY_UP {
        Some(InputEvent::Key { code: appkit_key_code(key_code), is_down: false })
    } else {
        None
    }
}

/// Decodes an event handed to a global AppKit event monitor.
pub fn decode_appkit_event(event_type: u64, key_code: u16) -> (r: Option<InputEvent>)
    ensures
        r == appkit_event(event_type, key_code),
        event_type == NS_KEY_DOWN ==> (decision_of_decoded(r) == FilterDecision::Block
            <==> key_code == NS_KEY_CODE_F12),
        event_type == NS_KEY_UP ==> decision_of_decoded(r) == FilterDecision::Forward,
{
    if event_type == NS_RIGHT_MOUSE_DOWN {
        Some(InputEvent::Pointer { button: PointerButton::Secondary, is_down: true })
    } else if event_type == NS_RIGHT_MOUSE_UP {
        Some(InputEvent::Pointer { button: PointerButton::Secondary, is_down: false })
    } else if event_type == NS_KEY_DOWN {
        Some(InputEvent::Key { code: portable_appkit_key_code(key_code), is_down: true })
    } else if event_type == NS_KEY_UP {
        Some(InputEvent::Key { code: portable_appkit_key_code(key_code), is_down: false })
    } else {
        None
    }
}

/// The decision depends on the event alone: two equal events are decided
/// alike, whatever was decided before.
pub proof fn lemma_filter_is_pure(a: InputEvent, b: InputEvent)
    requires
        a == b,
    ensures
        decision_of(a) == decision_of(b),
{
}

} // verus!
