use vstd::prelude::*;

verus! {

/// How many key codes the latch tracks: the full recognized key-code space,
/// indexed by key-code ordinal.
pub const KEY_COUNT: usize = 163;

/// The latch state of one key: whether it is held down now, and whether it
/// changed during the current scheduler tick.
#[derive(Clone, Copy, Debug, PartialEq, Eq, Structural)]
pub struct State {
    pub held_down: bool,
    pub this_frame: bool,
}

impl Default for State {
    /// A fresh entry: not held, and not changed — the flag is true only
    /// between the tick that last modified the key and the next decay pass,
    /// and no tick has touched a fresh entry.
    fn default() -> (s: Self)
        ensures
            s == (State { held_down: false, this_frame: false }),
    {
        State { held_down: false, this_frame: false }
    }
}

/// The keyboard modifiers (shift, control, alt, the OS key), replaced
/// wholesale on every modifier-change event.
#[derive(Clone, Copy, Debug, PartialEq, Eq, Structural)]
pub struct ModifiersState {
    pub shift: bool,
    pub ctrl: bool,
    pub alt: bool,
    pub logo: bool,
}

impl Default for ModifiersState {
    fn default() -> (m: Self)
        ensures
            m == (ModifiersState { shift: false, ctrl: false, alt: false, logo: false }),
    {
        ModifiersState { shift: false, ctrl: false, alt: false, logo: false }
    }
}

/// Per-key two-state input latch plus the current modifier set, advanced
/// once per scheduler tick by [`KeyBoardState::downgrade_keys`].
#[derive(Debug)]
pub struct KeyBoardState {
    pub modifier_state: ModifiersState,
    pub keys: Vec<State>,
}

impl KeyBoardState {
    /// The key table always covers the whole key-code space.
    pub open spec fn wf(self) -> bool {
        self.keys.len() == KEY_COUNT
    }

    /// The current modifier set.
    pub fn modifier_state(&self) -> (m: &ModifiersState)
        ensures
            *m == self.modifier_state,
    {
        &self.modifier_state
    }

    /// Replace the modifier set wholesale; no partial merge.
    pub fn update_modifier_state(&mut self, state: ModifiersState)
        ensures
            final(self).modifier_state == state,
            final(self).keys == old(self).keys,
    {
        self.modifier_state = state;
    }

    /// Latch a key event: key `key` (a key-code ordinal) is now down or up,
    /// and has changed this tick. A key code outside the table is ignored.
    pub fn update_keys(&mut self, key: usize, pressed: bool)
        ensures
            final(self).modifier_state == old(self).modifier_state,
            key < old(self).keys.len() ==> final(self).keys@ == old(self).keys@.update(
                key as int,
                (State { held_down: pressed, this_frame: true }),
            ),
            key >= old(self).keys.len() ==> final(self).keys == old(self).keys,
    {
        if key < self.keys.len() {
            self.keys.set(key, State { held_down: pressed, this_frame: true });
        }
    }

    /// A tick's decay pass: every key keeps its held state but is no longer
    /// marked changed. Entries are independent, so any per-entry schedule
    /// computes the same table.
    pub fn downgrade_keys(&mut self)
        ensures
            final(self).modifier_state == old(self).modifier_state,
            final(self).keys.len() == old(self).keys.len(),
            forall|i: int|
                0 <= i < old(self).keys.len() ==> #[trigger] final(self).keys[i] == (State {
                    held_down: old(self).keys[i].held_down,
                    this_frame: false,
                }),
    {
        let mut i: usize = 0;
        while i < self.keys.len()
            invariant
                i <= self.keys.len(),
                self.keys.len() == old(self).keys.len(),
                self.modifier_state == old(self).modifier_state,
                forall|t: int|
                    0 <= t < i ==> #[trigger] self.keys[t] == (State {
                        held_down: old(self).keys[t].held_down,
                        this_frame: false,
                    }),
                forall|t: int| i <= t < self.keys.len() ==> #[trigger] self.keys[t] == old(
                    self,
                ).keys[t],
            decreases self.keys.len() - i,
        {
            let held = self.keys[i].held_down;
            self.keys.set(i, State { held_down: held, this_frame: false });
            i = i + 1;
        }
    }
}

impl Default for KeyBoardState {
    /// A fresh latch: default modifiers and a full table of default entries.
    fn default() -> (k: Self)
        ensures
            k.wf(),
            k.modifier_state == (ModifiersState {
                shift: false,
                ctrl: false,
                alt: false,
                logo: false,
            }),
            forall|i: int|
                0 <= i < k.keys.len() ==> #[trigger] k.keys[i] == (State {
                    held_down: false,
                    this_frame: false,
                }),
    {
        let mut keys: Vec<State> = Vec::new();
        let mut i: usize = 0;
        while i < KEY_COUNT
            invariant
                i <= KEY_COUNT,
                keys.len() == i,
                forall|t: int|
                    0 <= t < i ==> #[trigger] keys[t] == (State {
                        held_down: false,
                        this_frame: false,
                    }),
            decreases KEY_COUNT - i,
        {
            keys.push(State { held_down: false, this_frame: false });
            i = i + 1;
        }
        KeyBoardState { modifier_state: ModifiersState::default(), keys }
    }
}

} // verus!
