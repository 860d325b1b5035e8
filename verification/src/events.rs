//! Window events: which of them the debug UI takes, and what the main loop does with
//! the rest.
use vstd::prelude::*;

verus! {

/// The key code of the escape key.
pub const KEYCODE_ESCAPE: i32 = 27;

/// Whether the debug UI took an event, so that the application should not act on it.
#[derive(Debug, Clone, Copy, PartialEq, Eq, Structural)]
pub struct EventResponse {
    pub consumed: bool,
}

/// The mouse buttons a window reports.
#[derive(Debug, Clone, Copy, PartialEq, Eq, Structural)]
pub enum MouseButton {
    Unknown,
    Left,
    Middle,
    Right,
    X1,
    X2,
}

/// The pointer buttons the debug UI knows.
#[derive(Debug, Clone, Copy, PartialEq, Eq, Structural)]
pub enum PointerButton {
    Primary,
    Secondary,
    Middle,
    Extra1,
    Extra2,
}

pub open spec fn pointer_button(button: MouseButton) -> Option<PointerButton> {
    match button {
        MouseButton::Left => Some(PointerButton::Primary),
        MouseButton::Right => Some(PointerButton::Secondary),
        MouseButton::Middle => Some(PointerButton::Middle),
        MouseButton::X1 => Some(PointerButton::Extra1),
        MouseButton::X2 => Some(PointerButton::Extra2),
        MouseButton::Unknown => None,
    }
}

/// The UI's button for a mouse button: left is primary, right secondary; an unknown
/// button has none.
pub fn translate_mouse_button(button: &MouseButton) -> (pointer: Option<PointerButton>)
    ensures
        pointer == pointer_button(*button),
{
    match button {
        MouseButton::Left => Some(PointerButton::Primary),
        MouseButton::Right => Some(PointerButton::Secondary),
        MouseButton::Middle => Some(PointerButton::Middle),
        MouseButton::X1 => Some(PointerButton::Extra1),
        MouseButton::X2 => Some(PointerButton::Extra2),
        MouseButton::Unknown => None,
    }
}

/// The kinds of event the debug UI looks at.
#[derive(Debug, Clone, Copy, PartialEq, Eq, Structural)]
pub enum PointerEventKind {
    Motion,
    ButtonDown,
    ButtonUp,
    Other,
}

/// Whether the UI takes an event: a motion while it is using the pointer, a button
/// while it wants pointer input, nothing else.
pub fn event_response(kind: PointerEventKind, is_using_pointer: bool, wants_pointer_input: bool) -> (response: EventResponse)
    ensures
        response.consumed == match kind {
            PointerEventKind::Motion => is_using_pointer,
            PointerEventKind::ButtonDown | PointerEventKind::ButtonUp => wants_pointer_input,
            PointerEventKind::Other => false,
        },
{
    match kind {
        PointerEventKind::Motion => EventResponse { consumed: is_using_pointer },
        PointerEventKind::ButtonDown | PointerEventKind::ButtonUp => EventResponse { consumed: wants_pointer_input },
        PointerEventKind::Other => EventResponse { consumed: false },
    }
}

/// The window events the main loop acts on.
#[derive(Debug, Clone, Copy, PartialEq, Eq, Structural)]
pub enum LoopEvent {
    Quit,
    KeyDown(Option<i32>),
    SizeChanged(i32, i32),
    Other,
}

/// What the main loop does next.
#[derive(Debug, Clone, Copy, PartialEq, Eq, Structural)]
pub enum LoopAction {
    Continue,
    Resize(u32, u32),
    Stop,
}

/// The loop's answer to an event: one the UI took changes nothing; quitting or pressing
/// escape stops; a size change resizes; anything else changes nothing.
pub open spec fn loop_action(response: EventResponse, event: LoopEvent) -> LoopAction {
    if response.consumed {
        LoopAction::Continue
    } else {
        match event {
            LoopEvent::Quit => LoopAction::Stop,
            LoopEvent::KeyDown(Some(k)) => if k == KEYCODE_ESCAPE {
                LoopAction::Stop
            } else {
                LoopAction::Continue
            },
            LoopEvent::SizeChanged(w, h) => LoopAction::Resize(w as u32, h as u32),
            _ => LoopAction::Continue,
        }
    }
}

pub fn handle_loop_event(response: EventResponse, event: LoopEvent) -> (action: LoopAction)
    ensures
        action == loop_action(response, event),
{
    if response.consumed {
        return LoopAction::Continue;
    }
    match event {
        LoopEvent::Quit => LoopAction::Stop,
        LoopEvent::KeyDown(Some(k)) => if k == KEYCODE_ESCAPE {
            LoopAction::Stop
        } else {
            LoopAction::Continue
        },
        LoopEvent::SizeChanged(w, h) => LoopAction::Resize(w as u32, h as u32),
        _ => LoopAction::Continue,
    }
}

} // verus!
