//! The scene: the held buttons, the dude, and the order in which the objects
//! of the scene are visited.

use crate::dude::{asks_jump, Clock, Dude, DudeView, Motion, Pace, Push, Settle};
use crate::input::{Button, ButtonArgs, ButtonState, Key, KeyState};
use crate::registry::Registry;
use vstd::prelude::*;

verus! {

/// What every object of the scene may read during a frame.
pub struct AppContext {
    /// The buttons that are held down.
    pub key_state: KeyState,
}

impl AppContext {
    /// The letter that does the work of an arrow key.
    pub open spec fn alias_of(button: Key) -> Option<Key> {
        match button {
            Key::Up => Some(Key::W),
            Key::Left => Some(Key::A),
            Key::Down => Some(Key::S),
            Key::Right => Some(Key::D),
            _ => None,
        }
    }

    /// A button counts as down while it is held, and an arrow key also while
    /// its letter is held.
    pub open spec fn key_down(keys: Set<Button>, button: Button) -> bool {
        ||| keys.contains(button)
        ||| button matches Button::Keyboard(key) && Self::alias_of(key) matches Some(alias)
            && keys.contains(Button::Keyboard(alias))
    }

    /// A context in which no button is held.
    pub fn new() -> (context: AppContext)
        ensures
            context.key_state@ == Set::<Button>::empty(),
    {
        AppContext { key_state: KeyState::new() }
    }

    pub fn key_alias_for(button: Key) -> (alias: Option<Key>)
        ensures
            alias == Self::alias_of(button),
    {
        if button == Key::Up {
            Some(Key::W)
        } else if button == Key::Left {
            Some(Key::A)
        } else if button == Key::Down {
            Some(Key::S)
        } else if button == Key::Right {
            Some(Key::D)
        } else {
            None
        }
    }

    pub fn is_key_down(&self, button: Button) -> (down: bool)
        ensures
            down == Self::key_down(self.key_state@, button),
    {
        if let Button::Keyboard(key) = button {
            if let Some(aliased) = Self::key_alias_for(key) {
                if self.key_state.contains(&Button::Keyboard(aliased)) {
                    return true;
                }
            }
        }
        self.key_state.contains(&button)
    }
}

/// The scene as the contracts see it.
pub ghost struct AppView {
    pub dude: DudeView,
    /// The buttons that are held down.
    pub keys: Set<Button>,
    /// How many moons were placed.
    pub moons: nat,
}

impl AppView {
    /// A change of a button: it enters or leaves the held buttons, and then
    /// the dude answers it.
    pub open spec fn press(self, args: ButtonArgs) -> AppView {
        AppView {
            keys: if args.state == ButtonState::Press {
                self.keys.insert(args.button)
            } else {
                self.keys.remove(args.button)
            },
            dude: self.dude.press(args),
            ..self
        }
    }

    /// One whole frame: the update, the walking keys, the pass over the
    /// moons.
    pub open spec fn frame(self, motion: Motion, clock: Clock, contact: bool) -> AppView {
        AppView { dude: self.dude.update(motion, clock).steer(self.keys).collide(contact), ..self }
    }
}

/// A button is down after its press, whatever was held before.
pub proof fn lemma_down_after_press(app: AppView, button: Button)
    ensures
        AppContext::key_down(
            app.press(ButtonArgs { state: ButtonState::Press, button }).keys,
            button,
        ),
{
}

/// After its release a button is down only where it is an arrow key whose
/// letter is still held.
pub proof fn lemma_down_after_release(app: AppView, button: Button)
    ensures
        AppContext::key_down(
            app.press(ButtonArgs { state: ButtonState::Release, button }).keys,
            button,
        ) <==> (button matches Button::Keyboard(key) && AppContext::alias_of(key) matches Some(
            alias,
        ) && app.keys.contains(Button::Keyboard(alias))),
{
}

/// A frame that is repeated with the same measurements changes nothing from
/// its second repeat on.
pub proof fn lemma_repeated_frame_settles(
    app: AppView,
    motion: Motion,
    clock: Clock,
    contact: bool,
)
    ensures
        app.frame(motion, clock, contact).frame(motion, clock, contact).frame(
            motion,
            clock,
            contact,
        ) == app.frame(motion, clock, contact).frame(motion, clock, contact),
{
}

/// A frame that touches no moon, of a dude that walks exactly while a
/// walking key is held, changes nothing when it is repeated with the same
/// measurements.
pub proof fn lemma_repeated_frame_is_idle(app: AppView, motion: Motion, clock: Clock)
    requires
        app.dude.walking == DudeView::heading(app.keys).is_some(),
    ensures
        app.frame(motion, clock, false).frame(motion, clock, false) == app.frame(
            motion,
            clock,
            false,
        ),
{
}

/// The scene.
pub struct App {
    game_objects: Registry,
    dude: Dude,
    context: AppContext,
}

impl View for App {
    type V = AppView;

    closed spec fn view(&self) -> AppView {
        AppView {
            dude: self.dude@,
            keys: self.context.key_state@,
            moons: self.game_objects.spec_moons() as nat,
        }
    }
}

impl App {
    /// A scene with `moons` moons, the dude at its start and no button held.
    pub fn new(moons: usize) -> (app: App)
        requires
            moons < usize::MAX,
        ensures
            app@ == (AppView {
                dude: DudeView::start(),
                keys: Set::<Button>::empty(),
                moons: moons as nat,
            }),
    {
        App { game_objects: Registry::new(moons), dude: Dude::new(), context: AppContext::new() }
    }

    pub fn dude(&self) -> (dude: &Dude)
        ensures
            dude@ == self@.dude,
    {
        &self.dude
    }

    pub fn context(&self) -> (context: &AppContext)
        ensures
            context.key_state@ == self@.keys,
    {
        &self.context
    }

    /// The objects in the order in which they are updated and drawn: the
    /// dude, then the moons as they were placed.
    pub fn game_objects(&self) -> (objects: &Registry)
        ensures
            objects.spec_moons() == self@.moons,
    {
        &self.game_objects
    }

    /// Takes in a change of a button. Says whether the dude took off: the
    /// caller then throws the body against the pull.
    pub fn press(&mut self, args: &ButtonArgs) -> (leapt: bool)
        ensures
            final(self)@ == old(self)@.press(*args),
            leapt == (asks_jump(*args) && !old(self)@.dude.airborne),
    {
        if args.state == ButtonState::Press {
            self.context.key_state.insert(args.button);
        } else {
            self.context.key_state.remove(&args.button);
        }
        self.dude.press(&self.context, args)
    }

    /// The first step of a frame, after the caller moved the body: the dude
    /// takes in what was measured. The result says what to do to the body.
    pub fn update(&mut self, motion: Motion, clock: Clock) -> (settle: Settle)
        ensures
            final(self)@ == (AppView { dude: old(self)@.dude.update(motion, clock), ..old(self)@ }),
            settle == (Settle { land: motion.sunk, damp: !final(self)@.dude.airborne }),
    {
        self.dude.update(motion, clock)
    }

    /// The second step of a frame: the held walking keys push the dude. The
    /// result is the push that the caller adds to the velocity.
    pub fn steer(&mut self, pace: Pace) -> (push: Option<Push>)
        ensures
            final(self)@ == (AppView { dude: old(self)@.dude.steer(old(self)@.keys), ..old(self)@ }),
            push == old(self)@.dude.push(old(self)@.keys, pace),
    {
        self.dude.steer(&self.context, pace)
    }

    /// The last step of a frame: the pass over the moons. `contacts` holds,
    /// for each moon that the caller tried, whether the body touched it. The
    /// dude is on a moon exactly if it touched one.
    pub fn collide(&mut self, contacts: &[bool]) -> (on_moon: bool)
        ensures
            on_moon == contacts@.contains(true),
            final(self)@ == (AppView { dude: old(self)@.dude.collide(on_moon), ..old(self)@ }),
    {
        let mut on_moon = false;
        let mut i: usize = 0;
        while i < contacts.len()
            invariant
                i <= contacts.len(),
                on_moon <==> exists|j: int| 0 <= j < i && #[trigger] contacts@[j],
            decreases contacts.len() - i,
        {
            if contacts[i] {
                on_moon = true;
            }
            i = i + 1;
        }
        assert(on_moon == contacts@.contains(true)) by {
            if on_moon {
                let j = choose|j: int| 0 <= j < i && #[trigger] contacts@[j];
                assert(contacts@[j] == true);
            }
        }
        self.dude.collide(on_moon);
        on_moon
    }
}

} // verus!
