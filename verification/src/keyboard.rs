//! Keyboard state that counts, for each held key, the updates it has been held for.
//!
//! Keys are named by their virtual key codes.
use std::collections::HashMap;
use vstd::prelude::*;
use vstd::std_specs::iter::IteratorSpec;

verus! {

/// How many updates a held key has been down for.
#[derive(Debug, Clone, Copy, PartialEq, Eq, Structural)]
pub struct KeyState {
    pub ticks: u32,
}

/// A keyboard input: the virtual key it concerns, if known, and whether it was pressed
/// or released.
#[derive(Debug, Clone, Copy, PartialEq, Eq, Structural)]
pub struct KeyboardInput {
    pub virtual_keycode: Option<u32>,
    pub pressed: bool,
}

/// Every held key has been held for at least one update.
pub open spec fn ticks_positive(held: Map<u32, u32>) -> bool {
    forall|k: u32| #[trigger] held.contains_key(k) ==> held[k] >= 1
}

/// No held key has reached the largest tick count.
pub open spec fn ticks_below_max(held: Map<u32, u32>) -> bool {
    forall|k: u32| #[trigger] held.contains_key(k) ==> held[k] < u32::MAX
}

/// The held keys, by tick count, once an input is taken in, before the update's tick: a
/// press adds an unheld key with no ticks, a release drops the key.
pub open spec fn after_input(held: Map<u32, u32>, input: KeyboardInput) -> Map<u32, u32> {
    match input.virtual_keycode {
        Some(k) => if input.pressed {
            if held.contains_key(k) {
                held
            } else {
                held.insert(k, 0)
            }
        } else {
            held.remove(k)
        },
        None => held,
    }
}

/// Every held key one tick further.
pub open spec fn ticked(held: Map<u32, u32>) -> Map<u32, u32> {
    held.map_values(|t: u32| (t + 1) as u32)
}

/// The held keys with their tick counts.
pub struct KeyboardState {
    keys_down: HashMap<u32, KeyState>,
}

impl KeyboardState {
    /// The tick count of each held key.
    pub closed spec fn held(self) -> Map<u32, u32> {
        self.keys_down@.map_values(|s: KeyState| s.ticks)
    }

    /// Every held key has been held for at least one update.
    pub open spec fn wf(self) -> bool {
        ticks_positive(self.held())
    }

    pub fn new() -> (state: Self)
        ensures
            state.wf(),
            state.held() == Map::<u32, u32>::empty(),
    {
        let state = KeyboardState { keys_down: HashMap::new() };
        assert(state.held() =~= Map::<u32, u32>::empty());
        state
    }

    /// The state of `key`, if it is held.
    pub fn get_down(&self, key: u32) -> (state: Option<KeyState>)
        ensures
            self.held().contains_key(key) ==> state == Some(KeyState { ticks: self.held()[key] }),
            !self.held().contains_key(key) ==> state is None,
    {
        match self.keys_down.get(&key) {
            Some(s) => Some(*s),
            None => None,
        }
    }

    pub fn is_down(&self, key: u32) -> (down: bool)
        ensures
            down == self.held().contains_key(key),
    {
        self.keys_down.contains_key(&key)
    }

    /// Held, and for one update only.
    pub fn was_just_pressed(&self, key: u32) -> (pressed: bool)
        ensures
            pressed == (self.held().contains_key(key) && self.held()[key] == 1),
    {
        match self.get_down(key) {
            Some(s) => s.ticks == 1,
            None => false,
        }
    }

    /// The held keys, once each.
    fn held_keys(&self) -> (keys: Vec<u32>)
        ensures
            keys@.to_set() == self.held().dom(),
            keys@.no_duplicates(),
    {
        broadcast use vstd::std_specs::hash::group_hash_axioms;

        let mut keys: Vec<u32> = Vec::new();
        for k in it: self.keys_down.keys()
            invariant
                keys@ == it.seq().take(it.index() as int).map_values(|r: &u32| *r),
                it.seq() == vstd::std_specs::hash::spec_keys_iter(&self.keys_down).remaining(),
        {
            keys.push(*k);
        }
        proof {
            let s = vstd::std_specs::hash::spec_keys_iter(&self.keys_down).remaining();
            assert(s.take(s.len() as int) =~= s);
            assert(keys@ =~= s.unref());
            assert(self.held().dom() =~= self.keys_down@.dom());
        }
        keys
    }

    /// Takes in one keyboard input, then counts a tick for every held key.
    pub fn update(&mut self, input: KeyboardInput)
        requires
            old(self).wf(),
            ticks_below_max(old(self).held()),
        ensures
            final(self).wf(),
            final(self).held() == ticked(after_input(old(self).held(), input)),
    {
        match input.virtual_keycode {
            Some(k) => {
                if input.pressed {
                    if !self.keys_down.contains_key(&k) {
                        self.keys_down.insert(k, KeyState { ticks: 0 });
                    }
                } else {
                    self.keys_down.remove(&k);
                }
            },
            None => {},
        }
        let ghost before = self.held();
        proof {
            assert(before =~= after_input(old(self).held(), input));
        }
        let keys = self.held_keys();
        let mut i: usize = 0;
        while i < keys.len()
            invariant
                i <= keys@.len(),
                keys@.no_duplicates(),
                keys@.to_set() == before.dom(),
                ticks_below_max(before),
                self.held().dom() == before.dom(),
                forall|k: u32| #[trigger] before.contains_key(k) ==> self.held()[k] == if keys@.take(i as int).contains(k) {
                    (before[k] + 1) as u32
                } else {
                    before[k]
                },
            decreases keys@.len() - i,
        {
            let key = keys[i];
            assert(keys@.to_set().contains(key));
            let ticks = match self.keys_down.get(&key) {
                Some(s) => s.ticks,
                None => 0,
            };
            let ghost mid = self.held();
            self.keys_down.insert(key, KeyState { ticks: ticks + 1 });
            proof {
                assert(self.held() =~= mid.insert(key, (ticks + 1) as u32));
                assert forall|k: u32| #[trigger] before.contains_key(k) implies self.held()[k] == if keys@.take(i + 1).contains(k) {
                    (before[k] + 1) as u32
                } else {
                    before[k]
                } by {
                    if k == key {
                        assert(keys@.take(i + 1)[i as int] == key);
                        assert(!keys@.take(i as int).contains(key)) by {
                            if keys@.take(i as int).contains(key) {
                                let j = choose|j: int| 0 <= j < i && #[trigger] keys@.take(i as int)[j] == key;
                                assert(keys@[j] == keys@[i as int]);
                            }
                        }
                    } else {
                        if keys@.take(i + 1).contains(k) {
                            let j = choose|j: int| 0 <= j < i + 1 && #[trigger] keys@.take(i + 1)[j] == k;
                            assert(keys@.take(i as int)[j] == k);
                        }
                        if keys@.take(i as int).contains(k) {
                            let j = choose|j: int| 0 <= j < i && #[trigger] keys@.take(i as int)[j] == k;
                            assert(keys@.take(i + 1)[j] == k);
                        }
                    }
                }
            }
            i += 1;
        }
        proof {
            assert(keys@.take(keys@.len() as int) =~= keys@);
            assert forall|k: u32| #[trigger] before.contains_key(k) implies keys@.contains(k) by {
                assert(keys@.to_set().contains(k));
            }
            assert(self.held() =~= ticked(before));
        }
    }
}

/// What one update does to a key: pressing it leaves it held, with one tick more than
/// before, or one tick where it was up, so that it is just pressed exactly when it was
/// up; releasing it lifts it; an input for another key (or none) leaves it held or up as
/// it was, with one tick more where it is held.
pub proof fn update_moves_each_key(held: Map<u32, u32>, input: KeyboardInput, key: u32)
    requires
        ticks_positive(held),
        ticks_below_max(held),
    ensures
        ({
            let after = ticked(after_input(held, input));
            let pressed = input.virtual_keycode == Some(key) && input.pressed;
            let released = input.virtual_keycode == Some(key) && !input.pressed;
            &&& pressed ==> after.contains_key(key)
            &&& pressed ==> (after[key] == 1 <==> !held.contains_key(key))
            &&& released ==> !after.contains_key(key)
            &&& !pressed && !released ==> (after.contains_key(key) <==> held.contains_key(key))
            &&& held.contains_key(key) && !released ==> after[key] == held[key] + 1
            &&& ticks_positive(after)
        }),
{
}

/// A released key is no longer held, however long it was held: after an update that
/// presses a key and one that releases it, the key is up, and the keys held before
/// and not released are still held.
pub proof fn release_after_press_drops_key(held: Map<u32, u32>, k: u32, other: u32)
    requires
        other != k,
    ensures
        ({
            let pressed = ticked(after_input(held, KeyboardInput { virtual_keycode: Some(k), pressed: true }));
            let released = ticked(after_input(pressed, KeyboardInput { virtual_keycode: Some(k), pressed: false }));
            &&& !released.contains_key(k)
            &&& held.contains_key(other) ==> released.contains_key(other)
        }),
{
}

} // verus!
