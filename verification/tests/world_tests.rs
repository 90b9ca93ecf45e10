use lift::entity::{Behaviour, State};
use lift::world::{
    check_enemy_death, EnemyRecord,
    update_bat, update_player, update_rat, update_spawner_enemy, Anim, EnemySenses, PlayerSenses,
    StepDirection, WorldState,
};

fn quiet_enemy() -> EnemySenses {
    EnemySenses {
        is_dead: false,
        is_on_floor: true,
        is_on_ceil: false,
        player_right: true,
        player_left: false,
        player_near: false,
        player_far: true,
        in_jump_range: false,
        jump_ready: false,
        weapon_ready: false,
        health_low: false,
        healing_ready: false,
        is_healing: false,
        moving_sideways: false,
        hit_recently: false,
        reach_held: false,
        reach_held_facing_player: false,
        reach_first: false,
        reach_first_facing_player: false,
        reach_second: false,
    }
}

fn idle_player() -> PlayerSenses {
    PlayerSenses {
        is_left_action: false,
        is_right_action: false,
        is_down_action: false,
        lmb_is_down: false,
        is_on_floor: true,
        weapon_ready: true,
        enough_stamina_for_attack: true,
        dashing_ready: true,
        enough_stamina_for_dashing: true,
        is_dashing: false,
    }
}

#[test]
fn world_state_after_frame() {
    assert_eq!(WorldState::Play.after_frame(true), WorldState::GameOver);
    assert_eq!(WorldState::Play.after_frame(false), WorldState::Play);
    assert_eq!(WorldState::GameOver.after_frame(true), WorldState::GameOver);
    assert_eq!(WorldState::Quit.after_frame(true), WorldState::Quit);
}

#[test]
fn game_over_menu_presses() {
    assert_eq!(WorldState::GameOver.after_game_over_press("restart"), WorldState::Restart);
    assert_eq!(WorldState::GameOver.after_game_over_press("quit"), WorldState::Quit);
    assert_eq!(WorldState::GameOver.after_game_over_press("title"), WorldState::GameOver);
    assert_eq!(WorldState::GameOver.after_game_over_press("restar"), WorldState::GameOver);
    assert_eq!(WorldState::GameOver.after_game_over_press("qu\u{ef}t"), WorldState::GameOver);
    assert_eq!(WorldState::GameOver.after_game_over_press("quits"), WorldState::GameOver);
    assert_eq!(WorldState::GameOver.after_game_over_press(""), WorldState::GameOver);
}

#[test]
fn animation_names() {
    assert_eq!(Anim::MeleeAttack.name(), "melee_attack");
    assert_eq!(Anim::Idle.name(), "idle");
    assert_eq!(Anim::Slide.name(), "slide");
}

#[test]
fn rat_starts_idle_then_chases() {
    let o = update_rat(State::Initial, quiet_enemy());
    assert_eq!(o.state, State::Idle);
    let near = EnemySenses { player_near: true, player_far: false, ..quiet_enemy() };
    let o = update_rat(State::Idle, near);
    assert_eq!(o.state, State::Running);
    assert_eq!(o.animation, Some(Anim::Idle));
    assert_eq!(o.weapon, Some(0));
    let o = update_rat(State::Running, near);
    assert_eq!(o.state, State::Running);
    assert_eq!(o.step, Some(StepDirection::Right));
    assert_eq!(o.face_right, Some(true));
    assert_eq!(o.animation, Some(Anim::Move));
}

#[test]
fn rat_jumps_and_bites() {
    let jump = EnemySenses {
        player_near: true,
        player_far: false,
        player_right: false,
        player_left: true,
        in_jump_range: true,
        jump_ready: true,
        ..quiet_enemy()
    };
    let o = update_rat(State::Running, jump);
    assert_eq!(o.state, State::Jumping);
    assert_eq!(o.jump_left, Some(true));
    let bite = EnemySenses { reach_first: true, ..quiet_enemy() };
    let o = update_rat(State::Idle, bite);
    assert!(o.attack);
    assert_eq!(o.state, State::Attacking);
    let airborne = EnemySenses { is_on_floor: false, reach_second: true, ..quiet_enemy() };
    let o = update_rat(State::Jumping, airborne);
    assert!(o.attack);
    assert_eq!(o.weapon, Some(1));
}

#[test]
fn rat_dies_once() {
    let dead = EnemySenses { is_dead: true, ..quiet_enemy() };
    let o = update_rat(State::Running, dead);
    assert!(o.died);
    assert_eq!(o.state, State::Dead);
    assert_eq!(o.animation, Some(Anim::Death));
    let o = update_rat(State::Dead, dead);
    assert!(!o.died);
    assert!(!o.attack);
    assert_eq!(o.state, State::Dead);
}

#[test]
fn bat_hovers_and_heals() {
    let o = update_bat(State::Idle, quiet_enemy());
    assert_eq!(o.gravity, Some(false));
    assert!(o.stop_vertical);
    assert_eq!(o.animation, Some(Anim::Wave));
    let hit = EnemySenses { hit_recently: true, ..quiet_enemy() };
    let o = update_bat(State::Idle, hit);
    assert_eq!(o.gravity, Some(true));
    assert!(!o.stop_vertical);
    let low = EnemySenses { health_low: true, healing_ready: true, ..quiet_enemy() };
    let o = update_bat(State::Running, low);
    assert_eq!(o.step, Some(StepDirection::Up));
    let on_ceil = EnemySenses { is_on_ceil: true, ..low };
    let o = update_bat(State::Running, on_ceil);
    assert!(o.start_healing);
    assert_eq!(o.state, State::Healing);
    let sleeping = EnemySenses { is_healing: true, ..quiet_enemy() };
    let o = update_bat(State::Healing, sleeping);
    assert_eq!(o.state, State::Healing);
    assert_eq!(o.animation, Some(Anim::Sleep));
    let o = update_bat(State::Healing, quiet_enemy());
    assert!(o.stop_healing);
    assert_eq!(o.state, State::Idle);
}

#[test]
fn bat_chases_toward_player() {
    let near = EnemySenses { player_near: true, player_far: false, ..quiet_enemy() };
    let o = update_bat(State::Running, near);
    assert_eq!(o.step, Some(StepDirection::TowardPlayer));
    let dead = EnemySenses { is_dead: true, ..quiet_enemy() };
    let o = update_bat(State::Running, dead);
    assert!(o.died);
    assert_eq!(o.gravity, Some(true));
}

#[test]
fn nest_runs_its_spawner() {
    let o = update_spawner_enemy(State::Initial, false);
    assert_eq!(o.state, State::Idle);
    assert!(o.run_spawner);
    let o = update_spawner_enemy(State::Idle, false);
    assert_eq!(o.animation, Some(Anim::Idle));
    let o = update_spawner_enemy(State::Idle, true);
    assert!(o.died);
    assert_eq!(o.state, State::Dead);
}

#[test]
fn player_walks_strikes_and_dashes() {
    let right = PlayerSenses { is_right_action: true, ..idle_player() };
    let o = update_player(State::Idle, right);
    assert_eq!(o.state, State::Running);
    let o = update_player(State::Running, right);
    assert_eq!(o.step, Some(StepDirection::Right));
    assert_eq!(o.face_right, Some(true));
    assert_eq!(o.animation, Some(Anim::Run));
    let strike = PlayerSenses { lmb_is_down: true, ..idle_player() };
    let o = update_player(State::Idle, strike);
    assert!(o.attack);
    assert_eq!(o.state, State::Attacking);
    let tired = PlayerSenses { enough_stamina_for_attack: false, ..strike };
    let o = update_player(State::Idle, tired);
    assert!(!o.attack);
    let dash = PlayerSenses { is_down_action: true, ..right };
    let o = update_player(State::Running, dash);
    assert!(o.start_dashing);
    assert_eq!(o.state, State::Dashing);
    let o = update_player(State::Dashing, idle_player());
    assert_eq!(o.state, State::Idle);
    let no_floor = PlayerSenses { is_on_floor: false, ..idle_player() };
    let o = update_player(State::Running, no_floor);
    assert_eq!(o.state, State::Falling);
    let o = update_player(State::Falling, idle_player());
    assert_eq!(o.state, State::Idle);
}

fn record(behaviour: Behaviour, spawner_id: Option<usize>, n_alive_spawned: Option<u32>) -> EnemyRecord {
    EnemyRecord { behaviour, state: State::Idle, is_dead: false, spawner_id, n_alive_spawned }
}

#[test]
fn dead_spawn_releases_its_nest_once() {
    let mut enemies = vec![
        record(Behaviour::RatNest, None, Some(2)),
        record(Behaviour::Rat, Some(0), None),
        record(Behaviour::Rat, Some(0), None),
    ];
    // alive: nothing changes
    assert!(!check_enemy_death(&mut enemies, 1));
    assert_eq!(enemies[0].n_alive_spawned, Some(2));
    enemies[1].is_dead = true;
    assert!(!check_enemy_death(&mut enemies, 1));
    assert_eq!(enemies[1].state, State::Dead);
    assert_eq!(enemies[0].n_alive_spawned, Some(1));
    // checked again: already dead, the nest keeps its count
    assert!(!check_enemy_death(&mut enemies, 1));
    assert_eq!(enemies[0].n_alive_spawned, Some(1));
    assert_eq!(enemies[2].state, State::Idle);
}

#[test]
fn dying_nest_raises_a_king() {
    let mut enemies = vec![record(Behaviour::RatNest, None, Some(0))];
    enemies[0].is_dead = true;
    assert!(check_enemy_death(&mut enemies, 0));
    assert_eq!(enemies[0].state, State::Dead);
    assert!(!check_enemy_death(&mut enemies, 0));
}

#[test]
fn enemy_senses_consistency() {
    assert!(quiet_enemy().check_consistent());
    assert!(!EnemySenses { player_left: true, ..quiet_enemy() }.check_consistent());
    assert!(!EnemySenses { player_near: true, ..quiet_enemy() }.check_consistent());
    assert!(!EnemySenses { is_healing: true, healing_ready: true, ..quiet_enemy() }.check_consistent());
    assert!(!EnemySenses { jump_ready: true, is_on_floor: false, ..quiet_enemy() }.check_consistent());
    assert!(!EnemySenses { reach_held: true, ..quiet_enemy() }.check_consistent());
    assert!(EnemySenses { reach_held: true, weapon_ready: true, ..quiet_enemy() }.check_consistent());
}
