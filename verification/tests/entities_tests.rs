use lift::entities::knight::{
    self, KnightControl, KnightSenses, Motion, State as KnightState,
};
use lift::entities::wolf::{self, DistanceOrder, State as WolfState, WolfControl, WolfSenses};
use lift::game::{AnimationClip, KnightKeys};

fn no_keys() -> KnightKeys {
    KnightKeys {
        is_attack_action: false,
        is_left_action: false,
        is_right_action: false,
        is_jump_action: false,
        is_roll_action: false,
    }
}

fn standing() -> KnightSenses {
    KnightSenses { falling: false, rising: false, grounded: true, combo_window_open: false }
}

#[test]
fn knight_control_starts_idle() {
    let c = KnightControl::new();
    assert_eq!(c.curr_state, KnightState::Idle);
    assert_eq!(c.next_state, KnightState::Idle);
    assert_eq!(knight::clip(KnightState::Roll), AnimationClip { name: "knight_roll", is_repeat: false });
    assert_eq!(knight::clip(KnightState::Idle), AnimationClip { name: "knight_idle", is_repeat: true });
}

#[test]
fn knight_control_idle_plays_idle_then_attacks() {
    let mut c = KnightControl::new();
    let keys = KnightKeys { is_attack_action: true, ..no_keys() };
    let plan = c.update(keys, standing());
    assert_eq!(plan.entered, vec![KnightState::Idle, KnightState::Attack0]);
    assert!(!plan.jump);
    assert_eq!(plan.motion, Motion::Stay);
    assert_eq!(c.curr_state, KnightState::Attack0);
    assert!(c.can_perform_combo);
}

#[test]
fn knight_control_falling_enters_jump_down() {
    let mut c = KnightControl::new();
    let falling = KnightSenses { falling: true, grounded: false, ..standing() };
    let plan = c.update(KnightKeys { is_jump_action: true, ..no_keys() }, falling);
    // a falling knight cannot jump
    assert!(!plan.jump);
    assert_eq!(plan.entered, vec![KnightState::JumpDown]);
    assert_eq!(c.curr_state, KnightState::JumpDown);
    assert_eq!(c.next_state, KnightState::JumpDown);
    // landing queues the landing animation
    let plan = c.update(no_keys(), standing());
    assert_eq!(c.next_state, KnightState::JumpLanding);
    assert_eq!(plan.motion, Motion::Stay);
    assert_eq!(c.finish(true), Some(KnightState::JumpLanding));
    assert_eq!(c.curr_state, KnightState::JumpLanding);
    assert_eq!(c.next_state, KnightState::Idle);
    let plan = c.update(KnightKeys { is_right_action: true, ..no_keys() }, standing());
    assert_eq!(plan.motion, Motion::Step { to_right: true, landing: true });
}

#[test]
fn knight_control_run_roll_and_jump() {
    let mut c = KnightControl::new();
    c.set_curr_state(KnightState::Run);
    let plan = c.update(KnightKeys { is_roll_action: true, ..no_keys() }, standing());
    assert_eq!(plan.entered, vec![KnightState::Roll]);
    let plan = c.update(no_keys(), standing());
    assert_eq!(plan.motion, Motion::Roll);

    let mut c = KnightControl::new();
    c.set_curr_state(KnightState::Run);
    let plan = c.update(KnightKeys { is_jump_action: true, ..no_keys() }, standing());
    assert!(plan.jump);
    assert_eq!(c.curr_state, KnightState::JumpUp);
}

#[test]
fn knight_control_lunges_once() {
    let mut c = KnightControl::new();
    c.set_curr_state(KnightState::Attack2);
    let plan = c.update(no_keys(), standing());
    assert_eq!(plan.motion, Motion::Lunge);
    assert_eq!(c.finish(false), None);
    let plan = c.update(no_keys(), standing());
    assert_eq!(plan.motion, Motion::Stay);
}

#[test]
fn knight_control_state_changes_clear_the_queue() {
    let mut c = KnightControl::new();
    c.set_next_state(KnightState::Attack1);
    c.set_curr_state(KnightState::Idle);
    assert_eq!(c.next_state, KnightState::Attack1);
    c.set_curr_state(KnightState::Run);
    assert_eq!(c.next_state, KnightState::Idle);
}

fn far() -> WolfSenses {
    WolfSenses {
        within_view: false,
        inside_view: false,
        beyond_view: true,
        within_attack: false,
        beyond_attack: true,
    }
}

fn near() -> WolfSenses {
    WolfSenses {
        within_view: true,
        inside_view: true,
        beyond_view: false,
        within_attack: false,
        beyond_attack: true,
    }
}

fn close() -> WolfSenses {
    WolfSenses {
        within_view: true,
        inside_view: true,
        beyond_view: false,
        within_attack: true,
        beyond_attack: false,
    }
}

#[test]
fn wolf_idles_until_the_player_comes() {
    let mut w = WolfControl::new();
    let plan = w.update(far());
    assert_eq!(plan.entered, vec![WolfState::Idle]);
    assert!(!plan.look_at_player);
    assert!(!plan.step);
    let plan = w.update(near());
    assert_eq!(plan.entered, vec![WolfState::Idle, WolfState::Run]);
    assert!(plan.look_at_player);
    assert_eq!(w.curr_state, WolfState::Run);
    assert_eq!(wolf::clip(WolfState::Run), AnimationClip { name: "wolf_run", is_repeat: true });
}

#[test]
fn wolf_chases_prepares_and_bites() {
    let mut w = WolfControl::new();
    w.set_curr_state(WolfState::Run);
    let plan = w.update(near());
    assert!(plan.step);
    assert!(plan.entered.is_empty());
    let plan = w.update(close());
    assert_eq!(plan.entered, vec![WolfState::AttackPrepare]);
    w.update(close());
    assert_eq!(w.next_state, WolfState::AttackBite);
    assert_eq!(w.finish(true), Some(WolfState::AttackBite));
    w.update(close());
    assert_eq!(w.next_state, WolfState::AttackPrepare);
    // the player escapes the bite: run after it
    let plan = w.update(near());
    assert_eq!(plan.entered, vec![WolfState::Run]);
    assert_eq!(w.curr_state, WolfState::Run);
    // and out of view: give up
    let plan = w.update(far());
    assert_eq!(plan.entered, vec![WolfState::Idle]);
}

#[test]
fn wolf_senses_from_distances() {
    assert_eq!(WolfSenses::from_distance(DistanceOrder::Greater, DistanceOrder::Greater), far());
    assert_eq!(WolfSenses::from_distance(DistanceOrder::Less, DistanceOrder::Greater), near());
    assert_eq!(WolfSenses::from_distance(DistanceOrder::Less, DistanceOrder::Less), close());
    let at_edge = WolfSenses::from_distance(DistanceOrder::Equal, DistanceOrder::Equal);
    assert!(at_edge.within_view && at_edge.beyond_view && !at_edge.inside_view);
    assert!(at_edge.within_attack && !at_edge.beyond_attack);
    let nan = WolfSenses::from_distance(DistanceOrder::Unordered, DistanceOrder::Unordered);
    assert!(!nan.within_view && !nan.inside_view && !nan.beyond_view);
}
