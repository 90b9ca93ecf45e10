use lift::input::{key_has_slot, Input, InputEvent, KEYCODE_LCTRL, KEYCODE_SPACE};
use lift::vec::Vec2;

#[test]
fn key_slots_exist_for_bound_keys() {
    assert!(key_has_slot(KEYCODE_SPACE));
    assert!(key_has_slot(KEYCODE_LCTRL));
    assert!(key_has_slot(511));
    assert!(!key_has_slot(512));
    assert!(!key_has_slot(-1));
    assert!(key_has_slot(1073741881 + 383));
    assert!(!key_has_slot(1073741881 + 384));
}

#[test]
fn input_accepts_what_it_can_hold() {
    let mut input = Input::new(Vec2::new(10u32, 10u32));
    assert!(input.accepts(&InputEvent::KeyDown { keycode: KEYCODE_SPACE }));
    assert!(!input.accepts(&InputEvent::KeyUp { keycode: 600 }));
    assert!(input.accepts(&InputEvent::MouseButtonDown { button: 15, x: 0, y: 0 }));
    assert!(!input.accepts(&InputEvent::MouseButtonUp { button: 16 }));
    assert!(input.accepts(&InputEvent::Quit));
    input.handle_event(&InputEvent::MouseWheel { y: i32::MAX });
    assert!(!input.accepts(&InputEvent::MouseWheel { y: 1 }));
    assert!(input.accepts(&InputEvent::MouseWheel { y: -1 }));
}

#[test]
fn input_update_needs_a_countable_move() {
    let mut input = Input::new(Vec2::new(10u32, 10u32));
    input.handle_event(&InputEvent::MouseMotion { x: i32::MIN, y: 0 });
    assert!(input.can_update());
    input.update();
    input.handle_event(&InputEvent::MouseMotion { x: i32::MAX, y: 0 });
    assert!(!input.can_update());
    // 5 is more than i32::MAX past i32::MIN; -10 is not
    input.handle_event(&InputEvent::MouseMotion { x: 5, y: 5 });
    assert!(!input.can_update());
    input.handle_event(&InputEvent::MouseMotion { x: -10, y: 5 });
    assert!(input.can_update());
    input.update();
    assert_eq!(input.cursor_d.x, 2147483638);
}

#[test]
fn accumulator_resets() {
    let mut a = lift::input::Accum::new();
    a.reset();
    // an input built on a fresh accumulator reports nothing pending
    let mut input = Input::new(Vec2::new(10u32, 10u32));
    input.update();
    assert!(!input.key_is_pressed(KEYCODE_SPACE));
    assert_eq!(input.wheel_d, 0);
}
