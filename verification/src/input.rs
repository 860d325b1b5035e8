//! Keyboard and mouse state, kept up to date from window events.
//!
//! Keys are named by their key codes.
use std::collections::{HashMap, HashSet};
use vstd::prelude::*;

verus! {

/// The input events the state follows; any other event is `Other`.
#[derive(Debug, Clone, Copy, PartialEq, Eq, Structural)]
pub enum InputEvent {
    KeyDown(i32),
    KeyUp(i32),
    MouseMotion { x: i32, y: i32 },
    Other,
}

/// How many key-down events a held key has seen.
#[derive(Debug, Clone, Copy, PartialEq, Eq, Structural)]
pub struct KeyState {
    pub steps: u32,
}

impl KeyState {
    pub fn step(&mut self)
        requires
            old(self).steps < u32::MAX,
        ensures
            final(self).steps == old(self).steps + 1,
    {
        self.steps += 1;
    }
}

/// The keys held down with their step counts, and the keys released, after `event`: a
/// key-down event counts a step for its key (from zero for a key that was up), a
/// key-up event lifts its key and marks it released; the released keys of earlier
/// events are forgotten.
pub open spec fn key_event_effect(down: Map<i32, u32>, event: InputEvent) -> (Map<i32, u32>, Set<i32>) {
    match event {
        InputEvent::KeyDown(k) => (
            down.insert(k, if down.contains_key(k) { (down[k] + 1) as u32 } else { 1 }),
            Set::empty(),
        ),
        InputEvent::KeyUp(k) => (down.remove(k), Set::empty().insert(k)),
        _ => (down, Set::empty()),
    }
}

/// Every held key has seen at least one key-down event.
pub open spec fn steps_positive(down: Map<i32, u32>) -> bool {
    forall|k: i32| #[trigger] down.contains_key(k) ==> down[k] >= 1
}

/// A key-down event leaves its key held, and just pressed (at one step) exactly when it
/// was up before; every other key stays as it was, no key is marked released, and every
/// held key still has a step.
pub proof fn key_down_presses(down: Map<i32, u32>, k: i32)
    requires
        steps_positive(down),
        down.contains_key(k) ==> down[k] < u32::MAX,
    ensures
        ({
            let (after, released) = key_event_effect(down, InputEvent::KeyDown(k));
            &&& after.contains_key(k)
            &&& (after[k] == 1 <==> !down.contains_key(k))
            &&& forall|j: i32| j != k ==> (#[trigger] after.contains_key(j) <==> down.contains_key(j))
                && (down.contains_key(j) ==> after[j] == down[j])
            &&& released == Set::<i32>::empty()
            &&& steps_positive(after)
        }),
{
}

/// A key-up event lifts its key and marks it alone released, leaving every other key as
/// it was; any other event changes no key and marks none released.
pub proof fn key_up_releases(down: Map<i32, u32>, event: InputEvent)
    requires
        steps_positive(down),
    ensures
        match event {
            InputEvent::KeyUp(k) => {
                let (after, released) = key_event_effect(down, event);
                &&& !after.contains_key(k)
                &&& released == Set::<i32>::empty().insert(k)
                &&& forall|j: i32| j != k ==> (#[trigger] after.contains_key(j) <==> down.contains_key(j))
                    && (down.contains_key(j) ==> after[j] == down[j])
                &&& steps_positive(after)
            },
            InputEvent::KeyDown(_) => true,
            _ => key_event_effect(down, event) == (down, Set::<i32>::empty()),
        },
{
}

/// Releasing a key undoes pressing it: after a key-down and a key-up event for the same
/// key, the key is up, it alone is marked released, and every other key is as it was.
pub proof fn release_undoes_press(down: Map<i32, u32>, k: i32)
    ensures
        ({
            let pressed = key_event_effect(down, InputEvent::KeyDown(k)).0;
            let (after, released) = key_event_effect(pressed, InputEvent::KeyUp(k));
            &&& !after.contains_key(k)
            &&& after == down.remove(k)
            &&& released == Set::<i32>::empty().insert(k)
        }),
{
    let pressed = key_event_effect(down, InputEvent::KeyDown(k)).0;
    assert(pressed.remove(k) =~= down.remove(k));
}

/// The keys held down, each with its step count, and the keys released by the last event.
pub struct KeyboardState {
    keys_down: HashMap<i32, KeyState>,
    just_released: HashSet<i32>,
}

impl KeyboardState {
    /// The step count of each key held down.
    pub closed spec fn down(self) -> Map<i32, u32> {
        self.keys_down@.map_values(|s: KeyState| s.steps)
    }

    /// The keys the last event released.
    pub closed spec fn released(self) -> Set<i32> {
        self.just_released@
    }

    /// Every held key has a step: a held key is "just pressed" only after its first
    /// key-down event.
    pub open spec fn wf(self) -> bool {
        steps_positive(self.down())
    }

    pub fn new() -> (state: Self)
        ensures
            state.wf(),
            state.down() == Map::<i32, u32>::empty(),
            state.released() == Set::<i32>::empty(),
    {
        let state = KeyboardState { keys_down: HashMap::new(), just_released: HashSet::new() };
        assert(state.down() =~= Map::<i32, u32>::empty());
        state
    }

    pub fn is_down(&self, keycode: i32) -> (down: bool)
        ensures
            down == self.down().contains_key(keycode),
    {
        self.keys_down.contains_key(&keycode)
    }

    /// Held down, and by one key-down event only.
    pub fn was_just_pressed(&self, keycode: i32) -> (pressed: bool)
        ensures
            pressed == (self.down().contains_key(keycode) && self.down()[keycode] == 1),
    {
        match self.keys_down.get(&keycode) {
            Some(state) => state.steps == 1,
            None => false,
        }
    }

    pub fn was_just_release(&self, keycode: i32) -> (released: bool)
        ensures
            released == self.released().contains(keycode),
    {
        self.just_released.contains(&keycode)
    }

    /// Follows one event (see [`key_event_effect`]).
    pub fn on_event(&mut self, event: &InputEvent)
        requires
            old(self).wf(),
            match *event {
                InputEvent::KeyDown(k) => old(self).down().contains_key(k) ==> old(self).down()[k] < u32::MAX,
                _ => true,
            },
        ensures
            (final(self).down(), final(self).released()) == key_event_effect(old(self).down(), *event),
            final(self).wf(),
    {
        self.just_released.clear();
        match *event {
            InputEvent::KeyDown(keycode) => {
                let mut state = match self.keys_down.get(&keycode) {
                    Some(s) => *s,
                    None => KeyState { steps: 0 },
                };
                state.step();
                self.keys_down.insert(keycode, state);
                proof {
                    assert(self.down() =~= old(self).down().insert(
                        keycode,
                        if old(self).down().contains_key(keycode) { (old(self).down()[keycode] + 1) as u32 } else { 1 },
                    ));
                }
            },
            InputEvent::KeyUp(keycode) => {
                self.keys_down.remove(&keycode);
                self.just_released.insert(keycode);
                proof {
                    assert(self.down() =~= old(self).down().remove(keycode));
                }
            },
            _ => {},
        }
    }
}

/// A point in window coordinates.
#[derive(Debug, Clone, Copy, PartialEq, Eq, Structural)]
pub struct Point2D {
    pub x: i32,
    pub y: i32,
}

/// The mouse's position and how far it moved with the last motion event.
pub struct MouseState {
    pub position: Point2D,
    pub delta: Point2D,
}

impl Default for MouseState {
    fn default() -> (state: Self)
        ensures
            state.position == (Point2D { x: 0, y: 0 }),
            state.delta == (Point2D { x: 0, y: 0 }),
    {
        MouseState { position: Point2D { x: 0, y: 0 }, delta: Point2D { x: 0, y: 0 } }
    }
}

impl MouseState {
    pub fn set_position(&mut self, x: i32, y: i32)
        ensures
            final(self).position == (Point2D { x, y }),
            final(self).delta == old(self).delta,
    {
        self.position = Point2D { x, y };
    }

    pub fn position(&self) -> (p: Point2D)
        ensures
            p == self.position,
    {
        self.position
    }

    pub fn delta(&self) -> (d: Point2D)
        ensures
            d == self.delta,
    {
        self.delta
    }

    pub fn reset_delta(&mut self)
        ensures
            final(self).delta == (Point2D { x: 0, y: 0 }),
            final(self).position == old(self).position,
    {
        self.delta = Point2D { x: 0, y: 0 };
    }

    /// A motion event moves the mouse to its position and records the move.
    pub fn on_event(&mut self, event: &InputEvent)
        requires
            match *event {
                InputEvent::MouseMotion { x, y } => i32::MIN <= x - old(self).position.x <= i32::MAX
                    && i32::MIN <= y - old(self).position.y <= i32::MAX,
                _ => true,
            },
        ensures
            match *event {
                InputEvent::MouseMotion { x, y } => {
                    &&& final(self).delta == (Point2D { x: (x - old(self).position.x) as i32, y: (y - old(self).position.y) as i32 })
                    &&& final(self).position == (Point2D { x, y })
                },
                _ => final(self).delta == old(self).delta && final(self).position == old(self).position,
            },
    {
        match *event {
            InputEvent::MouseMotion { x, y } => {
                self.delta = Point2D { x: x - self.position.x, y: y - self.position.y };
                self.position = Point2D { x, y };
            },
            _ => {},
        }
    }
}

} // verus!
