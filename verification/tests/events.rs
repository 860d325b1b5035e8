use cinder::events::{
    event_response, handle_loop_event, translate_mouse_button, EventResponse, LoopAction, LoopEvent,
    MouseButton, PointerButton, PointerEventKind, KEYCODE_ESCAPE,
};

#[test]
fn mouse_buttons_translate() {
    assert_eq!(translate_mouse_button(&MouseButton::Left), Some(PointerButton::Primary));
    assert_eq!(translate_mouse_button(&MouseButton::Right), Some(PointerButton::Secondary));
    assert_eq!(translate_mouse_button(&MouseButton::Middle), Some(PointerButton::Middle));
    assert_eq!(translate_mouse_button(&MouseButton::X1), Some(PointerButton::Extra1));
    assert_eq!(translate_mouse_button(&MouseButton::X2), Some(PointerButton::Extra2));
    assert_eq!(translate_mouse_button(&MouseButton::Unknown), None);
}

#[test]
fn ui_takes_pointer_events_it_uses() {
    assert!(event_response(PointerEventKind::Motion, true, false).consumed);
    assert!(!event_response(PointerEventKind::Motion, false, true).consumed);
    assert!(event_response(PointerEventKind::ButtonDown, false, true).consumed);
    assert!(!event_response(PointerEventKind::ButtonUp, true, false).consumed);
    assert!(!event_response(PointerEventKind::Other, true, true).consumed);
}

#[test]
fn main_loop_answers() {
    let free = EventResponse { consumed: false };
    let taken = EventResponse { consumed: true };
    assert_eq!(handle_loop_event(free, LoopEvent::Quit), LoopAction::Stop);
    assert_eq!(handle_loop_event(free, LoopEvent::KeyDown(Some(KEYCODE_ESCAPE))), LoopAction::Stop);
    assert_eq!(handle_loop_event(free, LoopEvent::KeyDown(Some(32))), LoopAction::Continue);
    assert_eq!(handle_loop_event(free, LoopEvent::KeyDown(None)), LoopAction::Continue);
    assert_eq!(handle_loop_event(free, LoopEvent::SizeChanged(640, 480)), LoopAction::Resize(640, 480));
    assert_eq!(handle_loop_event(taken, LoopEvent::Quit), LoopAction::Continue);
    assert_eq!(handle_loop_event(free, LoopEvent::Other), LoopAction::Continue);
}
