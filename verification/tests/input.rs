use cinder::input::{InputEvent, KeyState, KeyboardState, MouseState, Point2D};
use cinder::keyboard::{self, KeyboardInput};

#[test]
fn key_state_steps() {
    let mut k = KeyState { steps: 0 };
    k.step();
    k.step();
    assert_eq!(k.steps, 2);
}

#[test]
fn key_press_hold_and_release() {
    let mut kb = KeyboardState::new();
    assert!(!kb.is_down(97));
    kb.on_event(&InputEvent::KeyDown(97));
    assert!(kb.is_down(97));
    assert!(kb.was_just_pressed(97));
    kb.on_event(&InputEvent::KeyDown(97));
    assert!(kb.is_down(97));
    assert!(!kb.was_just_pressed(97));
    kb.on_event(&InputEvent::KeyUp(97));
    assert!(!kb.is_down(97));
    assert!(kb.was_just_release(97));
    kb.on_event(&InputEvent::Other);
    assert!(!kb.was_just_release(97));
}

#[test]
fn keys_are_independent() {
    let mut kb = KeyboardState::new();
    kb.on_event(&InputEvent::KeyDown(1));
    kb.on_event(&InputEvent::KeyDown(2));
    kb.on_event(&InputEvent::KeyUp(1));
    assert!(kb.is_down(2));
    assert!(kb.was_just_pressed(2));
    assert!(kb.was_just_release(1));
    assert!(!kb.was_just_release(2));
}

#[test]
fn mouse_motion_records_delta() {
    let mut m = MouseState::default();
    m.on_event(&InputEvent::MouseMotion { x: 10, y: 5 });
    assert_eq!(m.position(), Point2D { x: 10, y: 5 });
    assert_eq!(m.delta(), Point2D { x: 10, y: 5 });
    m.on_event(&InputEvent::MouseMotion { x: 7, y: 9 });
    assert_eq!(m.delta(), Point2D { x: -3, y: 4 });
    m.on_event(&InputEvent::KeyDown(3));
    assert_eq!(m.delta(), Point2D { x: -3, y: 4 });
    m.reset_delta();
    assert_eq!(m.delta(), Point2D { x: 0, y: 0 });
    m.set_position(1, 2);
    assert_eq!(m.position(), Point2D { x: 1, y: 2 });
}

#[test]
fn held_keys_tick_every_update() {
    let mut kb = keyboard::KeyboardState::new();
    kb.update(KeyboardInput { virtual_keycode: Some(4), pressed: true });
    assert!(kb.is_down(4));
    assert!(kb.was_just_pressed(4));
    assert_eq!(kb.get_down(4), Some(keyboard::KeyState { ticks: 1 }));
    kb.update(KeyboardInput { virtual_keycode: None, pressed: true });
    assert!(!kb.was_just_pressed(4));
    assert_eq!(kb.get_down(4), Some(keyboard::KeyState { ticks: 2 }));
    kb.update(KeyboardInput { virtual_keycode: Some(4), pressed: true });
    assert_eq!(kb.get_down(4), Some(keyboard::KeyState { ticks: 3 }));
    kb.update(KeyboardInput { virtual_keycode: Some(5), pressed: true });
    kb.update(KeyboardInput { virtual_keycode: Some(4), pressed: false });
    assert!(!kb.is_down(4));
    assert_eq!(kb.get_down(5), Some(keyboard::KeyState { ticks: 2 }));
}
