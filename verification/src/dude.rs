//! The player: what it is doing, which way it faces and which picture shows it.
//!
//! The body itself (position, velocity, the pull it feels) belongs to the
//! caller. After each move the caller says what it measured, and the dude
//! answers with what has to be done to the body.

use crate::app::AppContext;
use crate::input::{Button, ButtonArgs, ButtonState, Key};
use vstd::prelude::*;

verus! {

/// What the caller measured after moving the body by its velocity.
#[derive(Clone, Copy, Debug, PartialEq, Eq, Structural)]
pub struct Motion {
    /// The speed is above the limit beyond which the dude counts as flying.
    pub fast: bool,
    /// The feet are below the ground line.
    pub sunk: bool,
}

/// Elapsed time in whole steps of the two animations.
#[derive(Clone, Copy, Debug, PartialEq, Eq, Structural)]
pub struct Clock {
    /// Whole sixths of a second: the walking animation steps at this rate.
    pub sixths: u64,
    /// Whole halves of a second: the standing animation steps at this rate.
    pub halves: u64,
}

/// What the caller has to do to the body after an update.
#[derive(Clone, Copy, Debug, PartialEq, Eq, Structural)]
pub struct Settle {
    /// Put the feet back on the ground line and stop the fall.
    pub land: bool,
    /// Slow the horizontal speed down, as a surface does.
    pub damp: bool,
}

/// The sign of a walking push.
#[derive(Clone, Copy, Debug, PartialEq, Eq, Structural)]
pub enum Sign {
    Negative,
    Zero,
    Positive,
}

/// Where the horizontal speed stands against the walking limit.
#[derive(Clone, Copy, Debug, PartialEq, Eq, Structural)]
pub struct Pace {
    /// The speed to the right is still under the limit.
    pub room_right: bool,
    /// The speed to the left is still under the limit.
    pub room_left: bool,
}

/// The line along which a walking push acts.
#[derive(Clone, Copy, Debug, PartialEq, Eq, Structural)]
pub enum Axis {
    /// The ground: the horizontal of the world.
    Ground,
    /// The surface of a moon: at a right angle to the pull that the dude felt
    /// last.
    Tangent,
}

/// The side to which a walking key pushes.
#[derive(Clone, Copy, Debug, PartialEq, Eq, Structural)]
pub enum Heading {
    Left,
    Right,
}

/// A walking push that the caller has to add to the velocity.
#[derive(Clone, Copy, Debug, PartialEq, Eq, Structural)]
pub struct Push {
    pub heading: Heading,
    pub axis: Axis,
}

/// Whether the walking keys push a dude that is in the air. They do not: in
/// the air they only turn it.
pub const AIR_CONTROL: bool = false;

/// Whether a change of a button asks for a jump: the press of the up key or
/// of its letter.
pub open spec fn asks_jump(args: ButtonArgs) -> bool {
    args.state == ButtonState::Press && (args.button == Button::Keyboard(Key::Up) || args.button
        == Button::Keyboard(Key::W))
}

/// The frame that shows the dude: the third while it flies; the first and the
/// third in turn while it walks; the first and the second in turn while it
/// stands.
pub open spec fn frame_at(airborne: bool, walking: bool, clock: Clock) -> nat {
    if airborne {
        2
    } else if walking {
        if clock.sixths % 2 == 0 {
            0
        } else {
            2
        }
    } else {
        (clock.halves % 2) as nat
    }
}

/// The dude as the contracts see it.
pub ghost struct DudeView {
    /// The frame of the animation that shows the dude.
    pub sprite_index: nat,
    /// It faces left.
    pub flipped: bool,
    /// It was pushed to a side when the walking keys were last read.
    pub walking: bool,
    /// It rests on nothing.
    pub airborne: bool,
    /// It touched a moon in the last pass over the moons.
    pub on_moon: bool,
}

impl DudeView {
    /// The dude as it starts: standing, facing right, on the first frame.
    pub open spec fn start() -> DudeView {
        DudeView {
            sprite_index: 0,
            flipped: false,
            walking: false,
            airborne: false,
            on_moon: false,
        }
    }

    /// After a jump, or the attempt at one, the dude is in the air.
    pub open spec fn jump(self) -> DudeView {
        DudeView { airborne: true, ..self }
    }

    /// A change of a button matters only where it asks for a jump.
    pub open spec fn press(self, args: ButtonArgs) -> DudeView {
        if asks_jump(args) {
            self.jump()
        } else {
            self
        }
    }

    /// A push turns the dude to its side and sets it walking.
    pub open spec fn walk(self, dx: Sign) -> DudeView {
        DudeView { flipped: dx == Sign::Negative, walking: true, ..self }
    }

    /// The line along which a push acts, where it acts at all: the dude must
    /// stand on something, unless `AIR_CONTROL` is set, and the speed must
    /// have room left on the side of the push.
    pub open spec fn thrust(self, dx: Sign, pace: Pace) -> Option<Axis> {
        if self.airborne && !AIR_CONTROL {
            None
        } else if (dx == Sign::Positive && pace.room_right) || (dx == Sign::Negative
            && pace.room_left) {
            Some(
                if self.on_moon {
                    Axis::Tangent
                } else {
                    Axis::Ground
                },
            )
        } else {
            None
        }
    }

    /// A fast dude flies; one that sank into the ground stands, however fast.
    pub open spec fn update(self, motion: Motion, clock: Clock) -> DudeView {
        let airborne = (self.airborne || motion.fast) && !motion.sunk;
        DudeView { airborne, sprite_index: frame_at(airborne, self.walking, clock), ..self }
    }

    /// The side to which the held keys push: left before right.
    pub open spec fn heading(keys: Set<Button>) -> Option<Heading> {
        if AppContext::key_down(keys, Button::Keyboard(Key::Left)) {
            Some(Heading::Left)
        } else if AppContext::key_down(keys, Button::Keyboard(Key::Right)) {
            Some(Heading::Right)
        } else {
            None
        }
    }

    /// The held keys push the dude to their side; with none held it stops
    /// walking.
    pub open spec fn steer(self, keys: Set<Button>) -> DudeView {
        match Self::heading(keys) {
            Some(Heading::Left) => self.walk(Sign::Negative),
            Some(Heading::Right) => self.walk(Sign::Positive),
            None => DudeView { walking: false, ..self },
        }
    }

    /// The push that the held keys give, where it acts.
    pub open spec fn push(self, keys: Set<Button>, pace: Pace) -> Option<Push> {
        match Self::heading(keys) {
            Some(Heading::Left) => match self.thrust(Sign::Negative, pace) {
                Some(axis) => Some(Push { heading: Heading::Left, axis }),
                None => None,
            },
            Some(Heading::Right) => match self.thrust(Sign::Positive, pace) {
                Some(axis) => Some(Push { heading: Heading::Right, axis }),
                None => None,
            },
            None => None,
        }
    }

    /// A pass over the moons: the dude is on a moon exactly if it touched
    /// one, and then it is in the air no longer.
    pub open spec fn collide(self, contact: bool) -> DudeView {
        DudeView { on_moon: contact, airborne: self.airborne && !contact, ..self }
    }
}

/// What can happen to the dude.
pub ghost enum Event {
    /// A button changed.
    Press(ButtonArgs),
    /// It was pushed to a side.
    Walk(Sign),
    /// The body was moved and measured.
    Update(Motion, Clock),
    /// The walking keys were read while these buttons were held.
    Steer(Set<Button>),
    /// A pass over the moons ended.
    Collide(bool),
}

impl DudeView {
    /// The dude after `event`.
    pub open spec fn after(self, event: Event) -> DudeView {
        match event {
            Event::Press(args) => self.press(args),
            Event::Walk(dx) => self.walk(dx),
            Event::Update(motion, clock) => self.update(motion, clock),
            Event::Steer(keys) => self.steer(keys),
            Event::Collide(contact) => self.collide(contact),
        }
    }
}

/// A dude in the air comes out of it only by sinking into the ground or by
/// touching a moon.
pub proof fn lemma_lands_on_something(dude: DudeView, event: Event)
    requires
        dude.airborne,
        !dude.after(event).airborne,
    ensures
        (event matches Event::Update(motion, _) && motion.sunk) || event == Event::Collide(true),
{
}

/// A dude that stands takes to the air only by a jump or by being fast above
/// the ground.
pub proof fn lemma_takes_off_by_jump_or_speed(dude: DudeView, event: Event)
    requires
        !dude.airborne,
        dude.after(event).airborne,
    ensures
        (event matches Event::Press(args) && asks_jump(args)) || (event matches Event::Update(
            motion,
            _,
        ) && motion.fast && !motion.sunk),
{
}

/// Whatever happens, the dude shows one of its three frames.
pub proof fn lemma_frame_is_one_of_three(dude: DudeView, event: Event)
    requires
        dude.sprite_index < 3,
    ensures
        dude.after(event).sprite_index < 3,
{
}

/// A jump in the air changes nothing, so a second jump after the first does
/// nothing.
pub proof fn lemma_double_jump(dude: DudeView)
    ensures
        dude.airborne ==> dude.jump() == dude,
        dude.jump().jump() == dude.jump(),
{
}

/// In the air no walking key pushes: the keys only turn the dude.
pub proof fn lemma_no_push_in_the_air(dude: DudeView, keys: Set<Button>, pace: Pace)
    requires
        dude.airborne,
        !AIR_CONTROL,
    ensures
        dude.push(keys, pace).is_none(),
        dude.steer(keys).flipped == match DudeView::heading(keys) {
            Some(Heading::Left) => true,
            Some(Heading::Right) => false,
            None => dude.flipped,
        },
{
}

/// The player.
#[derive(Debug)]
pub struct Dude {
    sprites: Vec<usize>,
    sprite_index: usize,
    flipped: bool,
    walking: bool,
    airborne: bool,
    on_moon: bool,
}

impl View for Dude {
    type V = DudeView;

    closed spec fn view(&self) -> DudeView {
        DudeView {
            sprite_index: self.sprite_index as nat,
            flipped: self.flipped,
            walking: self.walking,
            airborne: self.airborne,
            on_moon: self.on_moon,
        }
    }
}

impl Default for Dude {
    fn default() -> (dude: Dude)
        ensures
            dude@ == DudeView::start(),
    {
        Dude::new()
    }
}

impl Dude {
    /// The dude has three pictures, numbered as its frames are, and always
    /// shows one of them.
    #[verifier::type_invariant]
    spec fn well_formed(&self) -> bool {
        &&& self.sprites@ == seq![0usize, 1usize, 2usize]
        &&& self.sprite_index < 3
    }

    pub fn new() -> (dude: Dude)
        ensures
            dude@ == DudeView::start(),
    {
        let sprites: Vec<usize> = vec![0, 1, 2];
        assert(sprites@ =~= seq![0usize, 1usize, 2usize]);
        Dude {
            sprites,
            sprite_index: 0,
            flipped: false,
            walking: false,
            airborne: false,
            on_moon: false,
        }
    }

    pub fn airborne(&self) -> (airborne: bool)
        ensures
            airborne == self@.airborne,
    {
        self.airborne
    }

    pub fn on_moon(&self) -> (on_moon: bool)
        ensures
            on_moon == self@.on_moon,
    {
        self.on_moon
    }

    pub fn flipped(&self) -> (flipped: bool)
        ensures
            flipped == self@.flipped,
    {
        self.flipped
    }

    pub fn walking(&self) -> (walking: bool)
        ensures
            walking == self@.walking,
    {
        self.walking
    }

    pub fn sprite_index(&self) -> (index: usize)
        ensures
            index == self@.sprite_index,
            index < 3,
    {
        proof {
            use_type_invariant(self);
        }
        self.sprite_index
    }

    /// The picture that shows the dude now: the one numbered as its frame.
    pub fn sprite(&self) -> (picture: usize)
        ensures
            picture == self@.sprite_index,
    {
        proof {
            use_type_invariant(self);
        }
        self.sprites[self.sprite_index]
    }

    /// Takes off, unless the dude is in the air already. Says whether it did:
    /// the caller then throws the body against the pull.
    pub fn jump(&mut self) -> (leapt: bool)
        ensures
            leapt == !old(self)@.airborne,
            final(self)@ == old(self)@.jump(),
    {
        proof {
            use_type_invariant(&*self);
        }
        if self.airborne {
            return false;
        }
        self.airborne = true;
        true
    }

    /// Answers a change of a button: the press of the up key or of its letter
    /// is a jump. Says whether the dude took off.
    pub fn press(&mut self, _context: &AppContext, args: &ButtonArgs) -> (leapt: bool)
        ensures
            leapt == (asks_jump(*args) && !old(self)@.airborne),
            final(self)@ == old(self)@.press(*args),
    {
        if args.state != ButtonState::Press {
            return false;
        }
        match args.button {
            Button::Keyboard(key) => match key {
                Key::Up | Key::W => self.jump(),
                _ => false,
            },
            _ => false,
        }
    }

    /// Pushes the dude to the side of `dx`. It turns that way and counts as
    /// walking. The result is the line along which the caller adds the push
    /// to the velocity, or nothing where the push does not act: in the air,
    /// or where the speed has no room left.
    pub fn walk(&mut self, dx: Sign, pace: Pace) -> (thrust: Option<Axis>)
        ensures
            final(self)@ == old(self)@.walk(dx),
            thrust == old(self)@.thrust(dx, pace),
    {
        proof {
            use_type_invariant(&*self);
        }
        let axis = if self.on_moon {
            Axis::Tangent
        } else {
            Axis::Ground
        };
        let thrust = if self.airborne && !AIR_CONTROL {
            None
        } else if (dx == Sign::Positive && pace.room_right) || (dx == Sign::Negative
            && pace.room_left) {
            Some(axis)
        } else {
            None
        };
        self.flipped = dx == Sign::Negative;
        self.walking = true;
        thrust
    }

    fn time_to_frame(steps: u64, num_frames: usize) -> (frame: usize)
        requires
            num_frames > 0,
        ensures
            frame == steps % (num_frames as u64),
    {
        (steps % (num_frames as u64)) as usize
    }

    /// Takes in what the caller measured after it moved the body, and picks
    /// the frame for the time `clock`. The result says what the caller has to
    /// do to the body: land it where it sank, and damp it unless it flies.
    pub fn update(&mut self, motion: Motion, clock: Clock) -> (settle: Settle)
        ensures
            final(self)@ == old(self)@.update(motion, clock),
            settle == (Settle { land: motion.sunk, damp: !final(self)@.airborne }),
    {
        proof {
            use_type_invariant(&*self);
        }
        if motion.fast {
            self.airborne = true;
        }
        if motion.sunk {
            self.airborne = false;
        }
        if self.airborne {
            self.sprite_index = 2;
        } else if self.walking {
            let walk_frames: [usize; 2] = [0, 2];
            self.sprite_index = walk_frames[Self::time_to_frame(clock.sixths, 2)];
        } else {
            self.sprite_index = Self::time_to_frame(clock.halves, 2);
        }
        Settle { land: motion.sunk, damp: !self.airborne }
    }

    /// Reads the walking keys, an arrow or its letter, left before right. A
    /// held key pushes the dude to its side; with none held it stops walking.
    /// The result is the push that the caller adds to the velocity.
    pub fn steer(&mut self, context: &AppContext, pace: Pace) -> (push: Option<Push>)
        ensures
            final(self)@ == old(self)@.steer(context.key_state@),
            push == old(self)@.push(context.key_state@, pace),
    {
        proof {
            use_type_invariant(&*self);
        }
        if context.is_key_down(Button::Keyboard(Key::Left)) {
            match self.walk(Sign::Negative, pace) {
                Some(axis) => Some(Push { heading: Heading::Left, axis }),
                None => None,
            }
        } else if context.is_key_down(Button::Keyboard(Key::Right)) {
            match self.walk(Sign::Positive, pace) {
                Some(axis) => Some(Push { heading: Heading::Right, axis }),
                None => None,
            }
        } else {
            self.walking = false;
            None
        }
    }

    /// Closes a pass over the moons. `contact` says whether the body touched
    /// one of them: then the dude stands on a moon and flies no longer.
    pub fn collide(&mut self, contact: bool)
        ensures
            final(self)@ == old(self)@.collide(contact),
    {
        proof {
            use_type_invariant(&*self);
        }
        self.on_moon = contact;
        if contact {
            self.airborne = false;
        }
    }
}

} // verus!
