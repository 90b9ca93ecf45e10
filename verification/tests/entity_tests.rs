use lift::entity::{
    AbilityState, AbilityStep, Behaviour, Orientation, ParticlePool, Spawner, MAX_N_PARTICLES,
};

#[test]
fn orientation_from_direction() {
    assert_eq!(Orientation::from_is_right(true), Orientation::Right);
    assert_eq!(Orientation::from_is_right(false), Orientation::Left);
}

#[test]
fn ability_phase_queries() {
    assert!(AbilityState::Ready.check_if_ready());
    assert!(AbilityState::Anticipation.check_if_anticipation());
    assert!(AbilityState::Action.check_if_action());
    assert!(AbilityState::Recovery.check_if_recovery());
    assert!(AbilityState::Cooldown.check_if_cooldown());
    assert!(!AbilityState::Ready.check_if_action());
    assert!(AbilityState::Anticipation.check_if_started());
    assert!(AbilityState::Action.check_if_started());
    assert!(AbilityState::Recovery.check_if_started());
    assert!(!AbilityState::Cooldown.check_if_started());
    assert!(!AbilityState::Ready.check_if_started());
}

#[test]
fn ability_full_cycle() {
    let s1 = AbilityState::Anticipation.tick(true);
    assert_eq!(
        s1,
        AbilityStep { state: AbilityState::Action, restart_clock: true, action_started: true }
    );
    let s2 = s1.state.tick(true);
    assert_eq!(
        s2,
        AbilityStep { state: AbilityState::Recovery, restart_clock: true, action_started: false }
    );
    let s3 = s2.state.tick(true);
    assert_eq!(s3.state, AbilityState::Cooldown);
    assert!(!s3.action_started);
    let s4 = s3.state.tick(true);
    assert_eq!(s4.state, AbilityState::Ready);
    assert!(s4.restart_clock);
}

#[test]
fn ability_waits_for_its_phase_time() {
    let s = AbilityState::Action.tick(false);
    assert_eq!(
        s,
        AbilityStep { state: AbilityState::Action, restart_clock: false, action_started: false }
    );
    // a ready ability stays ready
    let r = AbilityState::Ready.tick(true);
    assert_eq!(
        r,
        AbilityStep { state: AbilityState::Ready, restart_clock: false, action_started: false }
    );
}

#[test]
fn ability_force_start() {
    for s in [AbilityState::Ready, AbilityState::Action, AbilityState::Cooldown] {
        assert_eq!(
            s.force_start(),
            AbilityStep {
                state: AbilityState::Anticipation,
                restart_clock: true,
                action_started: false
            }
        );
    }
}

#[test]
fn ability_force_stop() {
    assert_eq!(
        AbilityState::Action.force_stop(),
        AbilityStep { state: AbilityState::Recovery, restart_clock: true, action_started: false }
    );
    assert_eq!(
        AbilityState::Anticipation.force_stop(),
        AbilityStep {
            state: AbilityState::Anticipation,
            restart_clock: false,
            action_started: false
        }
    );
}

#[test]
fn particle_pool_fills_the_ring_in_order() {
    let mut pool = ParticlePool::empty();
    assert_eq!(pool.n_particles(), 0);
    assert_eq!(pool.n_to_emit(), 0);
    assert!(!pool.has_budget());
    pool.set_budget(3);
    assert!(pool.has_budget());
    let slots = pool.emit(3);
    assert_eq!(slots, vec![0, 1, 2]);
    assert_eq!(pool.n_to_emit(), 0);
    assert_eq!(pool.n_particles(), 3);
    assert_eq!(pool.live_slot(0), 0);
    assert_eq!(pool.live_slot(2), 2);
    pool.check_slots();
}

#[test]
fn particle_pool_overwrites_the_oldest() {
    let mut pool = ParticlePool::empty();
    pool.set_budget(-1);
    let slots = pool.emit(12);
    assert_eq!(slots, vec![0, 1, 2, 3, 4, 5, 6, 7, 8, 9, 0, 1]);
    assert_eq!(pool.n_particles(), MAX_N_PARTICLES);
    // unlimited budget stays unlimited
    assert_eq!(pool.n_to_emit(), -1);
    // the oldest live particle is now in slot 2, the youngest in slot 1
    assert_eq!(pool.live_slot(0), 2);
    assert_eq!(pool.live_slot(9), 1);
    let next = pool.claim_slot();
    assert_eq!(next, 2);
    assert_eq!(pool.live_slot(0), 3);
}

#[test]
fn live_slots_are_distinct() {
    let mut pool = ParticlePool::empty();
    pool.set_budget(-1);
    pool.emit(17);
    let mut seen = vec![false; MAX_N_PARTICLES];
    for i in 0..pool.n_particles() {
        let s = pool.live_slot(i);
        assert!(!seen[s]);
        seen[s] = true;
    }
}

#[test]
fn emission_counts_from_draws() {
    assert_eq!(ParticlePool::emission_from_draws(-1, &vec![2, 3, 4]), 9);
    assert_eq!(ParticlePool::emission_from_draws(5, &vec![2, 3, 4]), 5);
    assert_eq!(ParticlePool::emission_from_draws(10, &vec![2, 3, 4]), 9);
    assert_eq!(ParticlePool::emission_from_draws(0, &vec![]), 0);
}

#[test]
fn plan_emission_cases() {
    let mut pool = ParticlePool::empty();
    // no time left or no budget: nothing
    assert_eq!(pool.plan_emission(true, false, 3, (1, 2)), 0);
    pool.set_budget(7);
    assert_eq!(pool.plan_emission(false, false, 3, (1, 2)), 0);
    // a burst emits the whole budget at once
    assert_eq!(pool.plan_emission(true, true, 0, (0, 0)), 7);
    // fixed draws: 3 steps of exactly 2
    assert_eq!(pool.plan_emission(true, false, 3, (2, 2)), 6);
    // capped by the budget
    assert_eq!(pool.plan_emission(true, false, 5, (2, 2)), 7);
    // random draws stay within their bounds
    pool.set_budget(-1);
    for _ in 0..50 {
        let n = pool.plan_emission(true, false, 4, (1, 3));
        assert!((4..=12).contains(&n));
    }
}

#[test]
fn spawner_takes_and_releases() {
    let mut s: Spawner<i32> = Spawner::new(5, 2, 1, Behaviour::Rat, 10, 20);
    assert_eq!(s.n_alive_current, 0);
    assert_eq!(s.countdown, 0);
    assert!(!s.take_spawn(false));
    assert!(s.take_spawn(true));
    assert_eq!((s.n_to_spawn, s.n_alive_current), (1, 1));
    // the cap of one alive holds the next spawn back
    assert!(!s.take_spawn(true));
    assert_eq!((s.n_to_spawn, s.n_alive_current), (1, 1));
    s.release();
    assert!(s.take_spawn(true));
    assert_eq!((s.n_to_spawn, s.n_alive_current), (0, 1));
    s.release();
    // nothing left to spawn
    assert!(!s.take_spawn(true));
    assert_eq!(s.behaviour, Behaviour::Rat);
    assert_eq!((s.spawn_period, s.spawn_range_x, s.spawn_range_y), (5, 10, 20));
}
