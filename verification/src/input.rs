//! Buttons as the input service reports them, and the set of those held down.

use std::collections::HashSet;
use vstd::prelude::*;

verus! {

broadcast use vstd::std_specs::hash::group_hash_axioms;

/// A keyboard key. The eight keys that the game reads have a variant each;
/// every other key is told apart by its key code.
#[derive(Clone, Copy, Debug, PartialEq, Eq, Hash, Structural)]
pub enum Key {
    Up,
    Down,
    Left,
    Right,
    W,
    A,
    S,
    D,
    Other(u32),
}

/// Anything that can be pressed and released.
#[derive(Clone, Copy, Debug, PartialEq, Eq, Hash, Structural)]
pub enum Button {
    /// A keyboard key.
    Keyboard(Key),
    /// A mouse button, by its number.
    Mouse(u32),
    /// A button of the controller `id`.
    Controller { id: u32, button: u8 },
    /// The hat `which` of the controller `id`, held in the position `state`.
    Hat { id: u32, which: u8, state: u8 },
}

/// Whether a button went down or came up.
#[derive(Clone, Copy, Debug, PartialEq, Eq, Hash, Structural)]
pub enum ButtonState {
    Press,
    Release,
}

/// One change of one button.
#[derive(Clone, Copy, Debug, PartialEq, Eq, Hash, Structural)]
pub struct ButtonArgs {
    /// The new state of the button.
    pub state: ButtonState,
    /// The button that changed.
    pub button: Button,
}

impl Key {
    /// The number that stands for a key inside the set of held buttons.
    spec fn code(self) -> int {
        match self {
            Key::Up => 0,
            Key::Down => 1,
            Key::Left => 2,
            Key::Right => 3,
            Key::W => 4,
            Key::A => 5,
            Key::S => 6,
            Key::D => 7,
            Key::Other(code) => 8 + code,
        }
    }

    fn encode(&self) -> (c: u64)
        ensures
            c == self.code(),
    {
        match self {
            Key::Up => 0,
            Key::Down => 1,
            Key::Left => 2,
            Key::Right => 3,
            Key::W => 4,
            Key::A => 5,
            Key::S => 6,
            Key::D => 7,
            Key::Other(code) => 8 + (*code as u64),
        }
    }
}

impl Button {
    /// The number that stands for a button inside the set of held buttons.
    /// Each kind of button has a range of its own, so no two buttons share a
    /// number.
    spec fn code(self) -> int {
        match self {
            Button::Keyboard(key) => key.code(),
            Button::Mouse(button) => 0x2_0000_0000 + button,
            Button::Controller { id, button } => 0x4_0000_0000 + id * 0x100 + button,
            Button::Hat { id, which, state } => 0x1_0000_0000_0000 + id * 0x1_0000 + which * 0x100
                + state,
        }
    }

    fn encode(&self) -> (c: u64)
        ensures
            c == self.code(),
    {
        match self {
            Button::Keyboard(key) => key.encode(),
            Button::Mouse(button) => 0x2_0000_0000 + (*button as u64),
            Button::Controller { id, button } => 0x4_0000_0000 + (*id as u64) * 0x100 + (
            *button as u64),
            Button::Hat { id, which, state } => 0x1_0000_0000_0000 + (*id as u64) * 0x1_0000 + (
            *which as u64) * 0x100 + (*state as u64),
        }
    }

    /// Two buttons with the same number are the same button.
    proof fn lemma_code_injective(a: Button, b: Button)
        requires
            a.code() == b.code(),
        ensures
            a == b,
    {
    }
}

/// The buttons that are held down right now.
pub struct KeyState {
    codes: HashSet<u64>,
}

impl View for KeyState {
    type V = Set<Button>;

    closed spec fn view(&self) -> Set<Button> {
        Set::new(|button: Button| self.codes@.contains(button.code() as u64))
    }
}

impl KeyState {
    /// No button is held.
    pub fn new() -> (state: KeyState)
        ensures
            state@ == Set::<Button>::empty(),
    {
        let state = KeyState { codes: HashSet::new() };
        assert(state@ =~= Set::<Button>::empty());
        state
    }

    /// Marks `button` as held. Says whether it was not held before.
    pub fn insert(&mut self, button: Button) -> (fresh: bool)
        ensures
            final(self)@ == old(self)@.insert(button),
            fresh == !old(self)@.contains(button),
    {
        let fresh = self.codes.insert(button.encode());
        proof {
            assert forall|other: Button| other.code() == button.code() implies other == button by {
                Button::lemma_code_injective(other, button);
            }
            assert(self@ =~= old(self)@.insert(button));
        }
        fresh
    }

    /// Marks `button` as no longer held. Says whether it was held before.
    pub fn remove(&mut self, button: &Button) -> (held: bool)
        ensures
            final(self)@ == old(self)@.remove(*button),
            held == old(self)@.contains(*button),
    {
        let code: u64 = button.encode();
        let held = self.codes.remove(&code);
        proof {
            assert forall|other: Button| other.code() == button.code() implies other == *button by {
                Button::lemma_code_injective(other, *button);
            }
            assert(self@ =~= old(self)@.remove(*button));
        }
        held
    }

    /// Whether `button` is held.
    pub fn contains(&self, button: &Button) -> (held: bool)
        ensures
            held == self@.contains(*button),
    {
        let code: u64 = button.encode();
        self.codes.contains(&code)
    }
}

} // verus!
