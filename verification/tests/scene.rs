use moonwalk::app::App;
use moonwalk::dude::{Axis, Clock, Heading, Motion, Pace, Push, Settle};
use moonwalk::input::{Button, ButtonArgs, ButtonState, Key};
use moonwalk::registry::{ObjectId, Registry};

const STILL: Motion = Motion { fast: false, sunk: false };
const NOON: Clock = Clock { sixths: 0, halves: 0 };
const FREE: Pace = Pace { room_right: true, room_left: true };

fn press(button: Button) -> ButtonArgs {
    ButtonArgs { state: ButtonState::Press, button }
}

fn release(button: Button) -> ButtonArgs {
    ButtonArgs { state: ButtonState::Release, button }
}

#[test]
fn the_dude_comes_first_and_the_moons_in_order() {
    let registry = Registry::new(3);
    assert_eq!(registry.moons(), 3);
    assert_eq!(
        registry.objects(),
        &vec![ObjectId::Dude, ObjectId::Moon(0), ObjectId::Moon(1), ObjectId::Moon(2)]
    );
}

#[test]
fn a_scene_without_moons_holds_the_dude_alone() {
    let registry = Registry::new(0);
    assert_eq!(registry.moons(), 0);
    assert_eq!(registry.objects(), &vec![ObjectId::Dude]);
}

#[test]
fn a_registry_holds_exactly_one_dude() {
    let registry = Registry::new(10);
    let dudes = registry.objects().iter().filter(|id| **id == ObjectId::Dude).count();
    assert_eq!(dudes, 1);
    assert_eq!(registry.objects().len(), 11);
    for (place, id) in registry.objects().iter().enumerate().skip(1) {
        assert_eq!(*id, ObjectId::Moon(place - 1));
    }
}

#[test]
fn a_new_scene_is_at_rest() {
    let app = App::new(10);
    assert_eq!(app.game_objects().moons(), 10);
    assert_eq!(app.game_objects().objects().len(), 11);
    assert_eq!(app.game_objects().objects()[0], ObjectId::Dude);
    assert!(!app.dude().airborne());
    assert!(!app.dude().on_moon());
    assert!(!app.context().is_key_down(Button::Keyboard(Key::Up)));
}

#[test]
fn a_press_is_held_until_its_release() {
    let mut app = App::new(1);
    app.press(&press(Button::Keyboard(Key::Left)));
    assert!(app.context().is_key_down(Button::Keyboard(Key::Left)));
    app.press(&press(Button::Mouse(2)));
    assert!(app.context().key_state.contains(&Button::Mouse(2)));
    app.press(&release(Button::Keyboard(Key::Left)));
    assert!(!app.context().is_key_down(Button::Keyboard(Key::Left)));
    assert!(app.context().key_state.contains(&Button::Mouse(2)));
}

#[test]
fn the_press_of_up_jumps_once() {
    let mut app = App::new(1);
    assert!(app.press(&press(Button::Keyboard(Key::Up))));
    assert!(app.dude().airborne());
    assert!(app.context().is_key_down(Button::Keyboard(Key::Up)));
    assert!(!app.press(&press(Button::Keyboard(Key::Up))));
    assert!(!app.press(&release(Button::Keyboard(Key::Up))));
    assert!(app.dude().airborne());
    assert!(!app.context().is_key_down(Button::Keyboard(Key::Up)));
}

#[test]
fn the_press_of_w_jumps_and_holds_up() {
    let mut app = App::new(1);
    assert!(app.press(&press(Button::Keyboard(Key::W))));
    assert!(app.context().is_key_down(Button::Keyboard(Key::Up)));
}

#[test]
fn a_walking_press_does_not_jump() {
    let mut app = App::new(1);
    assert!(!app.press(&press(Button::Keyboard(Key::Right))));
    assert!(!app.dude().airborne());
}

#[test]
fn the_scene_steers_by_its_own_keys() {
    let mut app = App::new(1);
    assert_eq!(app.steer(FREE), None);
    app.press(&press(Button::Keyboard(Key::D)));
    assert_eq!(app.steer(FREE), Some(Push { heading: Heading::Right, axis: Axis::Ground }));
    assert!(app.dude().walking());
    app.press(&press(Button::Keyboard(Key::Left)));
    assert_eq!(app.steer(FREE), Some(Push { heading: Heading::Left, axis: Axis::Ground }));
    assert!(app.dude().flipped());
    app.press(&release(Button::Keyboard(Key::Left)));
    app.press(&release(Button::Keyboard(Key::D)));
    assert_eq!(app.steer(FREE), None);
    assert!(!app.dude().walking());
    assert!(app.dude().flipped());
}

#[test]
fn one_contact_is_enough() {
    let mut app = App::new(3);
    assert!(app.collide(&vec![false, true, false]));
    assert!(app.dude().on_moon());
    assert!(app.collide(&vec![false, false, true]));
    assert!(app.collide(&vec![true, true, true]));
    assert!(app.dude().on_moon());
}

#[test]
fn no_contact_means_no_moon() {
    let mut app = App::new(3);
    app.collide(&vec![true, false, false]);
    assert!(!app.collide(&vec![false, false, false]));
    assert!(!app.dude().on_moon());
    app.collide(&vec![true]);
    assert!(!app.collide(&vec![]));
    assert!(!app.dude().on_moon());
}

#[test]
fn a_contact_ends_the_flight() {
    let mut app = App::new(2);
    app.press(&press(Button::Keyboard(Key::Up)));
    assert!(!app.collide(&vec![false, false]));
    assert!(app.dude().airborne());
    assert!(app.collide(&vec![false, true]));
    assert!(!app.dude().airborne());
}

#[test]
fn on_a_moon_the_scene_pushes_along_the_surface() {
    let mut app = App::new(1);
    app.press(&press(Button::Keyboard(Key::A)));
    app.collide(&vec![true]);
    assert_eq!(app.steer(FREE), Some(Push { heading: Heading::Left, axis: Axis::Tangent }));
}

#[test]
fn an_update_reaches_the_dude() {
    let mut app = App::new(1);
    app.press(&press(Button::Keyboard(Key::Up)));
    let settle = app.update(Motion { fast: false, sunk: true }, NOON);
    assert_eq!(settle, Settle { land: true, damp: true });
    assert!(!app.dude().airborne());
    assert!(app.context().is_key_down(Button::Keyboard(Key::Up)));
}

#[test]
fn a_repeated_frame_changes_nothing_more() {
    let clock = Clock { sixths: 3, halves: 1 };
    let mut app = App::new(1);
    app.press(&press(Button::Keyboard(Key::Left)));
    for _ in 0..2 {
        app.update(STILL, clock);
        app.steer(FREE);
        app.collide(&vec![false]);
    }
    let seen = (
        app.dude().airborne(),
        app.dude().on_moon(),
        app.dude().flipped(),
        app.dude().walking(),
        app.dude().sprite_index(),
    );
    assert_eq!(seen, (false, false, true, true, 2));
    for _ in 0..5 {
        app.update(STILL, clock);
        app.steer(FREE);
        app.collide(&vec![false]);
        let again = (
            app.dude().airborne(),
            app.dude().on_moon(),
            app.dude().flipped(),
            app.dude().walking(),
            app.dude().sprite_index(),
        );
        assert_eq!(again, seen);
    }
}

#[test]
fn the_first_frame_after_a_release_still_shows_the_walk() {
    let clock = Clock { sixths: 1, halves: 0 };
    let mut app = App::new(0);
    app.press(&press(Button::Keyboard(Key::Right)));
    app.update(STILL, clock);
    app.steer(FREE);
    app.press(&release(Button::Keyboard(Key::Right)));
    app.update(STILL, clock);
    app.steer(FREE);
    assert_eq!(app.dude().sprite_index(), 2);
    assert!(!app.dude().walking());
    app.update(STILL, clock);
    app.steer(FREE);
    assert_eq!(app.dude().sprite_index(), 0);
}
