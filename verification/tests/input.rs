use raytracer::input::{
    clamp_pitch, look_scale, start_light, start_position, Controller, CursorAction, Key, KeySet,
    LightIntent, MoveIntent, BASE_SPEED, BOOST_FACTOR, LIGHT_RATE_BITS, MOUSE_SENSITIVITY_BITS,
    NEG_PITCH_LIMIT_BITS, PITCH_LIMIT_BITS,
};
use raytracer::scalar::Scalar;

fn s(x: f32) -> Scalar {
    Scalar::from_bits(x.to_bits())
}

fn all_keys() -> Vec<Key> {
    vec![
        Key::ArrowUp,
        Key::ArrowDown,
        Key::ArrowLeft,
        Key::ArrowRight,
        Key::KeyW,
        Key::KeyS,
        Key::KeyA,
        Key::KeyD,
        Key::Space,
        Key::ShiftLeft,
        Key::ControlLeft,
        Key::Escape,
    ]
}

fn holding(keys: &[Key]) -> Controller {
    let mut c = Controller::new();
    for k in keys {
        c.key_event(*k, true);
    }
    c
}

#[test]
fn constants_are_the_bits_of_their_numbers() {
    assert_eq!(PITCH_LIMIT_BITS, 1.54f32.to_bits());
    assert_eq!(NEG_PITCH_LIMIT_BITS, (-1.54f32).to_bits());
    assert_eq!(LIGHT_RATE_BITS, 2.5f32.to_bits());
    assert_eq!(MOUSE_SENSITIVITY_BITS, 0.00015f32.to_bits());
    assert_eq!(BASE_SPEED, 10);
    assert_eq!(BOOST_FACTOR, 3);
    assert_eq!(start_position().x, s(0.0));
    assert_eq!(start_position().y, s(0.0));
    assert_eq!(start_position().z, s(5.0));
    assert_eq!(start_light().x, s(0.2));
    assert_eq!(start_light().y, s(1.0));
    assert_eq!(start_light().z, s(0.05));
}

#[test]
fn pitch_is_limited_whatever_the_input() {
    assert_eq!(clamp_pitch(s(2.0)), s(1.54));
    assert_eq!(clamp_pitch(s(-3.0)), s(-1.54));
    assert_eq!(clamp_pitch(s(0.5)), s(0.5));
    assert_eq!(clamp_pitch(s(1.54)), s(1.54));
    assert_eq!(clamp_pitch(s(-1.54)), s(-1.54));
    assert_eq!(clamp_pitch(s(-0.0)), s(-0.0));
    assert_eq!(clamp_pitch(s(f32::INFINITY)), s(1.54));
    assert_eq!(clamp_pitch(s(f32::NEG_INFINITY)), s(-1.54));
    assert_eq!(clamp_pitch(s(1.0e30)), s(1.54));
    assert_eq!(clamp_pitch(s(f32::MAX)), s(1.54));
    assert_eq!(clamp_pitch(s(1.5400001)), s(1.54));
    let mut pitch = 0.0f32;
    for step in 0..1000 {
        pitch -= 0.37 * (step as f32);
        pitch = f32::from_bits(clamp_pitch(s(pitch)).to_bits());
        assert!((-1.54..=1.54).contains(&pitch));
    }
    assert_eq!(pitch, -1.54);
}

#[test]
fn pitch_that_is_no_number_stays_as_it_is() {
    let nan = s(f32::NAN);
    assert_eq!(clamp_pitch(nan), nan);
    assert!(clamp_pitch(nan).is_nan());
}

#[test]
fn pitch_limit_agrees_with_floats() {
    for x in [-100.0f32, -1.6, -1.54, -1.0, -0.0, 0.0, 0.3, 1.5399, 1.54, 1.55, 77.0] {
        assert_eq!(clamp_pitch(s(x)).to_bits(), x.clamp(-1.54, 1.54).to_bits(), "{x}");
    }
}

#[test]
fn keys_go_down_and_up() {
    let mut keys = KeySet::new();
    for k in all_keys() {
        assert!(!keys.contains(k));
    }
    keys.insert(Key::KeyW);
    keys.insert(Key::Escape);
    keys.insert(Key::KeyW);
    for k in all_keys() {
        assert_eq!(keys.contains(k), k == Key::KeyW || k == Key::Escape);
    }
    keys.remove(Key::KeyW);
    keys.remove(Key::KeyD);
    for k in all_keys() {
        assert_eq!(keys.contains(k), k == Key::Escape);
    }
    for k in all_keys() {
        let mut one = KeySet::new();
        one.insert(k);
        for other in all_keys() {
            assert_eq!(one.contains(other), other == k);
        }
        one.remove(k);
        assert_eq!(one, KeySet::new());
    }
}

#[test]
fn movement_and_light_keys_disturb() {
    for k in all_keys() {
        let disturbing = k != Key::ControlLeft && k != Key::Escape;
        assert_eq!(k.is_disturbing(), disturbing);
        assert_eq!(holding(&[k]).is_disturbed(false), disturbing);
        assert!(holding(&[k]).is_disturbed(true));
    }
    assert!(!Controller::new().is_disturbed(false));
    assert!(Controller::new().is_disturbed(true));
    assert!(!holding(&[Key::ControlLeft, Key::Escape]).is_disturbed(false));
    assert!(holding(&[Key::ControlLeft, Key::Space]).is_disturbed(false));
    let mut c = holding(&[Key::KeyA]);
    c.key_event(Key::KeyA, false);
    assert!(!c.is_disturbed(false));
}

#[test]
fn keys_give_whole_steps_of_movement() {
    assert_eq!(Controller::new().movement(), MoveIntent { forward: 0, right: 0, up: 0 });
    assert_eq!(holding(&[Key::KeyW]).movement(), MoveIntent { forward: 1, right: 0, up: 0 });
    assert_eq!(holding(&[Key::KeyS]).movement(), MoveIntent { forward: -1, right: 0, up: 0 });
    assert_eq!(holding(&[Key::KeyD]).movement(), MoveIntent { forward: 0, right: 1, up: 0 });
    assert_eq!(holding(&[Key::KeyA]).movement(), MoveIntent { forward: 0, right: -1, up: 0 });
    assert_eq!(holding(&[Key::Space]).movement(), MoveIntent { forward: 0, right: 0, up: 1 });
    assert_eq!(holding(&[Key::ShiftLeft]).movement(), MoveIntent { forward: 0, right: 0, up: -1 });
    assert_eq!(
        holding(&[Key::KeyW, Key::KeyS, Key::KeyA, Key::Space]).movement(),
        MoveIntent { forward: 0, right: -1, up: 1 }
    );
    assert_eq!(
        holding(&[Key::ArrowUp, Key::ControlLeft]).movement(),
        MoveIntent { forward: 0, right: 0, up: 0 }
    );
}

#[test]
fn arrows_give_whole_steps_of_rotation() {
    assert_eq!(Controller::new().light_turn(), LightIntent { about_x: 0, about_z: 0 });
    assert_eq!(holding(&[Key::ArrowUp]).light_turn(), LightIntent { about_x: -1, about_z: 0 });
    assert_eq!(holding(&[Key::ArrowDown]).light_turn(), LightIntent { about_x: 1, about_z: 0 });
    assert_eq!(holding(&[Key::ArrowLeft]).light_turn(), LightIntent { about_x: 0, about_z: -1 });
    assert_eq!(holding(&[Key::ArrowRight]).light_turn(), LightIntent { about_x: 0, about_z: 1 });
    assert_eq!(
        holding(&[Key::ArrowUp, Key::ArrowDown, Key::ArrowRight]).light_turn(),
        LightIntent { about_x: 0, about_z: 1 }
    );
    assert_eq!(holding(&[Key::KeyW]).light_turn(), LightIntent { about_x: 0, about_z: 0 });
}

#[test]
fn boost_triples_the_speed() {
    assert_eq!(Controller::new().camera_speed(), 10);
    assert_eq!(holding(&[Key::ControlLeft]).camera_speed(), 30);
    assert_eq!(holding(&[Key::ShiftLeft, Key::KeyW]).camera_speed(), 10);
    assert_eq!(holding(&[Key::ControlLeft, Key::KeyW]).camera_speed(), 30);
}

#[test]
fn click_grabs_and_escape_releases() {
    let mut c = Controller::new();
    assert!(!c.takes_mouse_motion());
    assert_eq!(c.key_event(Key::Escape, true), CursorAction::Keep);
    assert_eq!(c.key_event(Key::Escape, false), CursorAction::Keep);
    assert_eq!(c.mouse_button(false, true), CursorAction::Keep);
    assert_eq!(c.mouse_button(true, false), CursorAction::Keep);
    assert!(!c.grabbed);
    assert_eq!(c.mouse_button(true, true), CursorAction::Grab);
    assert!(c.grabbed);
    assert!(c.takes_mouse_motion());
    assert_eq!(c.mouse_button(true, true), CursorAction::Keep);
    assert!(c.grabbed);
    assert_eq!(c.key_event(Key::KeyW, true), CursorAction::Keep);
    assert_eq!(c.key_event(Key::Escape, false), CursorAction::Keep);
    assert!(c.grabbed);
    assert_eq!(c.key_event(Key::Escape, true), CursorAction::Release);
    assert!(!c.grabbed);
    assert!(c.keys.contains(Key::Escape));
    assert!(c.keys.contains(Key::KeyW));
    assert_eq!(c.key_event(Key::Escape, true), CursorAction::Keep);
    assert_eq!(c.mouse_button(true, true), CursorAction::Grab);
}

#[test]
fn look_scale_is_the_larger_side() {
    assert_eq!(look_scale(1280, 720), 1280);
    assert_eq!(look_scale(720, 1280), 1280);
    assert_eq!(look_scale(5, 5), 5);
    assert_eq!(look_scale(0, 0), 0);
    assert_eq!(look_scale(u32::MAX, 1), u32::MAX);
}
