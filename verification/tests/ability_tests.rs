use lift::ability::AbilityTimer;
use lift::entity::AbilityState;
use lift::vec::Vec2;

#[test]
fn ability_timer_runs_its_phases() {
    let mut t: AbilityTimer<i64> = AbilityTimer::new(2, 3, 1, 4);
    assert_eq!(t.state, AbilityState::Ready);
    assert_eq!(t.state_time, 0);
    // a ready ability only counts time
    assert!(!t.update(10));
    assert_eq!((t.state, t.state_time), (AbilityState::Ready, 10));
    t.force_start();
    assert_eq!((t.state, t.state_time), (AbilityState::Anticipation, 0));
    assert!(!t.update(1));
    assert_eq!((t.state, t.state_time), (AbilityState::Anticipation, 1));
    // the anticipation time is reached: the action starts, the clock restarts
    assert!(t.update(1));
    assert_eq!((t.state, t.state_time), (AbilityState::Action, 0));
    assert!(!t.update(5));
    assert_eq!((t.state, t.state_time), (AbilityState::Recovery, 0));
    assert!(!t.update(1));
    assert_eq!(t.state, AbilityState::Cooldown);
    assert!(!t.update(3));
    assert_eq!((t.state, t.state_time), (AbilityState::Cooldown, 3));
    assert!(!t.update(1));
    assert_eq!((t.state, t.state_time), (AbilityState::Ready, 0));
    assert_eq!((t.anticipation_time, t.action_time, t.recovery_time, t.cooldown_time), (2, 3, 1, 4));
}

#[test]
fn ability_timer_force_stop() {
    let mut t: AbilityTimer<f32> = AbilityTimer::new(0.1, 0.5, 0.2, 0.3);
    t.force_start();
    assert!(t.update(0.2));
    assert_eq!(t.state, AbilityState::Action);
    t.update(0.1);
    t.force_stop();
    assert_eq!((t.state, t.state_time), (AbilityState::Recovery, 0.0));
    t.force_stop();
    assert_eq!(t.state, AbilityState::Recovery);
}

#[test]
fn add_y_in_steps() {
    let v = Vec2::new(3i64, 4i64);
    let w = v.add_y(5).add_y(-2);
    let u = v.add_y(3);
    assert_eq!((w.x, w.y), (u.x, u.y));
    let z = v.add_y(0);
    assert_eq!((z.x, z.y), (3, 4));
}
