use lift::game::{
    new_entity, read_knight_keys, update_knight_player, update_wolf_ai, AnimationClip, KnightKeys,
    KnightMotion, KnightPlayer, KnightPlayerState, KnightSenses, WolfAI, WolfAIState,
    MAX_N_ENTITIES,
};
use lift::input::{Input, InputEvent, KEYCODE_A, KEYCODE_D, KEYCODE_SPACE, KEYCODE_W};
use lift::vec::Vec2;

fn knight() -> KnightPlayer<f32> {
    KnightPlayer::new(100.0, 150.0, 150.0, 70.0, 8.0)
}

fn calm() -> KnightSenses {
    KnightSenses { animation_finished: false, combo_window_open: false, rising: false, grounded: true }
}

fn input_with(keys: &[i32]) -> Input {
    let mut input = Input::new(Vec2::new(100u32, 100u32));
    for k in keys {
        input.handle_event(&InputEvent::KeyDown { keycode: *k });
    }
    input.update();
    input
}

#[test]
fn knight_starts_idle() {
    let k = knight();
    assert_eq!(k.curr_state, KnightPlayerState::Idle);
    assert_eq!(k.next_state, KnightPlayerState::Idle);
    assert!(!k.can_perform_combo);
    assert!(!k.is_attack2_step_done);
    assert_eq!(k.run_speed, 100.0);
    assert_eq!(k.attack2_step, 8.0);
}

#[test]
fn knight_key_readings() {
    let input = input_with(&[KEYCODE_SPACE, KEYCODE_D]);
    let keys = read_knight_keys(&input);
    assert_eq!(
        keys,
        KnightKeys {
            is_attack_action: true,
            is_left_action: false,
            is_right_action: true,
            is_jump_action: false,
            is_roll_action: false,
        }
    );
}

#[test]
fn knight_attacks_from_idle() {
    let mut k = knight();
    let action = update_knight_player(&mut k, &input_with(&[KEYCODE_SPACE]), calm());
    assert_eq!(k.curr_state, KnightPlayerState::Attack0);
    assert!(k.can_perform_combo);
    assert!(!action.jump);
    assert_eq!(action.motion, KnightMotion::Stay);
    assert_eq!(action.animation, AnimationClip { name: "knight_attack_0", is_repeat: false });
}

#[test]
fn knight_jumps_from_idle() {
    let mut k = knight();
    let action = update_knight_player(&mut k, &input_with(&[KEYCODE_W]), calm());
    assert_eq!(k.curr_state, KnightPlayerState::JumpUp);
    assert!(action.jump);
    assert_eq!(action.animation.name, "knight_jump_up");
}

#[test]
fn knight_runs_and_steps() {
    let mut k = knight();
    let held_a = input_with(&[KEYCODE_A]);
    let first = update_knight_player(&mut k, &held_a, calm());
    assert_eq!(k.curr_state, KnightPlayerState::Run);
    assert_eq!(first.motion, KnightMotion::Stay);
    assert_eq!(first.animation, AnimationClip { name: "knight_run", is_repeat: true });
    let second = update_knight_player(&mut k, &held_a, calm());
    assert_eq!(second.motion, KnightMotion::Step { to_right: false, landing: false });
    // keys released: back to idle
    let none = input_with(&[]);
    update_knight_player(&mut k, &none, calm());
    assert_eq!(k.curr_state, KnightPlayerState::Idle);
}

#[test]
fn knight_combo_needs_the_window() {
    let mut k = knight();
    update_knight_player(&mut k, &input_with(&[KEYCODE_SPACE]), calm());
    // attack again too early: the combo is lost
    update_knight_player(&mut k, &input_with(&[KEYCODE_SPACE]), calm());
    assert!(!k.can_perform_combo);
    assert_eq!(k.next_state, KnightPlayerState::Idle);

    let mut k2 = knight();
    update_knight_player(&mut k2, &input_with(&[KEYCODE_SPACE]), calm());
    let open = KnightSenses { combo_window_open: true, ..calm() };
    update_knight_player(&mut k2, &input_with(&[KEYCODE_SPACE]), open);
    assert_eq!(k2.next_state, KnightPlayerState::Attack1);
    // the animation ends: the queued attack begins
    let finished = KnightSenses { animation_finished: true, ..calm() };
    let action = update_knight_player(&mut k2, &input_with(&[]), finished);
    assert_eq!(k2.curr_state, KnightPlayerState::Attack1);
    assert_eq!(action.animation.name, "knight_attack_1");
}

#[test]
fn knight_lunges_once() {
    let mut k = knight();
    k.curr_state = KnightPlayerState::Attack2;
    let first = update_knight_player(&mut k, &input_with(&[]), calm());
    assert_eq!(first.motion, KnightMotion::Lunge);
    assert!(k.is_attack2_step_done);
    let second = update_knight_player(&mut k, &input_with(&[]), calm());
    assert_eq!(second.motion, KnightMotion::Stay);
}

#[test]
fn wolf_ai_follows_its_queue() {
    let mut w = WolfAI::new();
    assert_eq!(w.curr_state, WolfAIState::Idle);
    w.next_state = WolfAIState::Attack;
    let clip = update_wolf_ai(&mut w, false);
    assert_eq!(w.curr_state, WolfAIState::Idle);
    assert_eq!(clip, AnimationClip { name: "wolf_idle", is_repeat: true });
    let clip = update_wolf_ai(&mut w, true);
    assert_eq!(w.curr_state, WolfAIState::Attack);
    assert_eq!(w.next_state, WolfAIState::Attack);
    assert_eq!(clip, AnimationClip { name: "wolf_attack", is_repeat: false });
}

#[test]
fn entity_slots_run_out() {
    let mut n: usize = 0;
    assert_eq!(new_entity(&mut n), Some(0));
    assert_eq!(new_entity(&mut n), Some(1));
    assert_eq!(n, 2);
    let mut full = MAX_N_ENTITIES;
    assert_eq!(new_entity(&mut full), None);
    assert_eq!(full, MAX_N_ENTITIES);
    let mut last = MAX_N_ENTITIES - 1;
    assert_eq!(new_entity(&mut last), Some(MAX_N_ENTITIES - 1));
    assert_eq!(new_entity(&mut last), None);
}
