use lift::input::{
    keycode_as_usize, Input, InputEvent, KEYCODE_A, KEYCODE_D, KEYCODE_LCTRL, KEYCODE_SPACE,
    KEYCODE_W,
};
use lift::vec::Vec2;

#[test]
fn keycode_slots() {
    assert_eq!(keycode_as_usize(KEYCODE_SPACE), 32);
    assert_eq!(keycode_as_usize(KEYCODE_A), 97);
    assert_eq!(keycode_as_usize(KEYCODE_W), 119);
    // codes from Caps Lock on are packed after the ASCII range
    assert_eq!(keycode_as_usize(1073741881), 128);
    assert_eq!(keycode_as_usize(KEYCODE_LCTRL), 1073742048 - 1073741881 + 128);
}

#[test]
fn new_input_is_quiet() {
    let input = Input::new(Vec2::new(1500u32, 800u32));
    assert!(!input.should_quit);
    assert_eq!((input.window_size.x, input.window_size.y), (1500, 800));
    assert_eq!((input.cursor_pos.x, input.cursor_pos.y), (0, 0));
    assert_eq!(input.wheel_d, 0);
    assert!(!input.key_is_down(KEYCODE_SPACE));
    assert!(!input.key_is_pressed(KEYCODE_SPACE));
}

#[test]
fn key_press_lasts_one_frame() {
    let mut input = Input::new(Vec2::new(100u32, 100u32));
    input.handle_event(&InputEvent::KeyDown { keycode: KEYCODE_SPACE });
    // nothing shows before the frame update
    assert!(!input.key_is_pressed(KEYCODE_SPACE));
    assert!(input.key_is_down(KEYCODE_SPACE));
    input.update();
    assert!(input.key_is_pressed(KEYCODE_SPACE));
    assert!(input.key_is_down(KEYCODE_SPACE));
    input.update();
    assert!(!input.key_is_pressed(KEYCODE_SPACE));
    assert!(input.key_is_down(KEYCODE_SPACE));
}

#[test]
fn held_key_is_not_pressed_again() {
    let mut input = Input::new(Vec2::new(100u32, 100u32));
    input.handle_event(&InputEvent::KeyDown { keycode: KEYCODE_D });
    input.update();
    assert!(input.key_is_pressed(KEYCODE_D));
    // a repeat of a held key is no new press
    input.handle_event(&InputEvent::KeyDown { keycode: KEYCODE_D });
    input.update();
    assert!(!input.key_is_pressed(KEYCODE_D));
    assert!(input.key_is_down(KEYCODE_D));
    input.handle_event(&InputEvent::KeyUp { keycode: KEYCODE_D });
    input.update();
    assert!(!input.key_is_down(KEYCODE_D));
    input.handle_event(&InputEvent::KeyDown { keycode: KEYCODE_D });
    input.update();
    assert!(input.key_is_pressed(KEYCODE_D));
}

#[test]
fn keys_above_ascii_are_tracked() {
    let mut input = Input::new(Vec2::new(100u32, 100u32));
    input.handle_event(&InputEvent::KeyDown { keycode: KEYCODE_LCTRL });
    input.update();
    assert!(input.key_is_pressed(KEYCODE_LCTRL));
    assert!(!input.key_is_pressed(KEYCODE_SPACE));
}

#[test]
fn cursor_moves_with_frame_update() {
    let mut input = Input::new(Vec2::new(100u32, 100u32));
    input.handle_event(&InputEvent::MouseMotion { x: 10, y: 20 });
    assert_eq!((input.cursor_pos.x, input.cursor_pos.y), (0, 0));
    input.update();
    assert_eq!((input.cursor_pos.x, input.cursor_pos.y), (10, 20));
    assert_eq!((input.cursor_d.x, input.cursor_d.y), (10, 20));
    input.handle_event(&InputEvent::MouseMotion { x: 4, y: 25 });
    input.update();
    assert_eq!((input.cursor_prev_pos.x, input.cursor_prev_pos.y), (10, 20));
    assert_eq!((input.cursor_d.x, input.cursor_d.y), (-6, 5));
    // no motion: the cursor stays and the delta is zero
    input.update();
    assert_eq!((input.cursor_d.x, input.cursor_d.y), (0, 0));
}

#[test]
fn wheel_accumulates_within_a_frame() {
    let mut input = Input::new(Vec2::new(100u32, 100u32));
    input.handle_event(&InputEvent::MouseWheel { y: 2 });
    input.handle_event(&InputEvent::MouseWheel { y: -5 });
    input.update();
    assert_eq!(input.wheel_d, -3);
    input.update();
    assert_eq!(input.wheel_d, 0);
}

#[test]
fn window_and_quit_events() {
    let mut input = Input::new(Vec2::new(100u32, 100u32));
    input.handle_event(&InputEvent::WindowSizeChanged { w: 640, h: 480 });
    assert_eq!((input.window_size.x, input.window_size.y), (640, 480));
    input.handle_event(&InputEvent::Other);
    assert!(!input.should_quit);
    input.handle_event(&InputEvent::Quit);
    assert!(input.should_quit);
}

#[test]
fn mouse_buttons_do_not_touch_keys() {
    let mut input = Input::new(Vec2::new(100u32, 100u32));
    input.handle_event(&InputEvent::MouseButtonDown { button: 1, x: 3, y: 4 });
    input.handle_event(&InputEvent::MouseButtonUp { button: 1 });
    input.update();
    assert!(!input.key_is_down(KEYCODE_A));
    assert!(!input.key_is_pressed(KEYCODE_A));
}
