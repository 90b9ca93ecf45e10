use crate::entity::{Behaviour, State};
use crate::utils::str_eq;
use vstd::prelude::*;

verus! {

/// Where the game as a whole stands.
#[derive(PartialEq, Eq, Debug, Clone, Copy, Structural)]
pub enum WorldState {
    Play,
    GameOver,
    Restart,
    Quit,
}

impl WorldState {
    /// The rule that closes every frame: a player who died during play ends
    /// the play.
    pub fn after_frame(self, player_is_dead: bool) -> (s: WorldState)
        ensures
            s == (if player_is_dead && self == WorldState::Play {
                WorldState::GameOver
            } else {
                self
            }),
    {
        if player_is_dead && self == WorldState::Play {
            WorldState::GameOver
        } else {
            self
        }
    }

    /// A press on an element of the game-over menu: "restart" restarts the
    /// game, "quit" quits it, anything else changes nothing.
    pub fn after_game_over_press(self, element_id: &str) -> (s: WorldState)
        ensures
            s == (if element_id@ == "restart"@ {
                WorldState::Restart
            } else if element_id@ == "quit"@ {
                WorldState::Quit
            } else {
                self
            }),
    {
        if str_eq(element_id, "restart") {
            WorldState::Restart
        } else if str_eq(element_id, "quit") {
            WorldState::Quit
        } else {
            self
        }
    }
}

/// The animations of the characters' animators, by their names there.
#[derive(PartialEq, Eq, Debug, Clone, Copy, Structural)]
pub enum Anim {
    Idle,
    Move,
    MeleeAttack,
    Jump,
    Death,
    Wave,
    Sleep,
    Run,
    Slide,
    Attack,
}

pub open spec fn anim_name(a: Anim) -> Seq<char> {
    match a {
        Anim::Idle => "idle"@,
        Anim::Move => "move"@,
        Anim::MeleeAttack => "melee_attack"@,
        Anim::Jump => "jump"@,
        Anim::Death => "death"@,
        Anim::Wave => "wave"@,
        Anim::Sleep => "sleep"@,
        Anim::Run => "run"@,
        Anim::Slide => "slide"@,
        Anim::Attack => "attack"@,
    }
}

impl Anim {
    pub fn name(self) -> (s: &'static str)
        ensures
            s@ == anim_name(self),
    {
        match self {
            Anim::Idle => "idle",
            Anim::Move => "move",
            Anim::MeleeAttack => "melee_attack",
            Anim::Jump => "jump",
            Anim::Death => "death",
            Anim::Wave => "wave",
            Anim::Sleep => "sleep",
            Anim::Run => "run",
            Anim::Slide => "slide",
            Anim::Attack => "attack",
        }
    }
}

/// A one-frame move of a character at its move speed.
#[derive(PartialEq, Eq, Debug, Clone, Copy, Structural)]
pub enum StepDirection {
    Right,
    Left,
    Up,
    /// Towards the player, wavering a little.
    TowardPlayer,
}

/// What a character's controller asks of its body this frame.
#[derive(Debug, Clone, Copy)]
pub struct Orders {
    /// The character's state after the frame.
    pub state: State,
    /// The character has just died (its spawner, if any, loses one).
    pub died: bool,
    pub animation: Option<Anim>,
    /// Weapon to hold.
    pub weapon: Option<usize>,
    /// Orientation to take (`true`: right).
    pub face_right: Option<bool>,
    /// Strike with the held weapon.
    pub attack: bool,
    /// Jump at the rats' jump angle, to the left when `true`.
    pub jump_left: Option<bool>,
    pub step: Option<StepDirection>,
    pub start_dashing: bool,
    /// Start healing and stop moving.
    pub start_healing: bool,
    pub stop_healing: bool,
    /// Gravity on or off; off also stops any vertical motion.
    pub gravity: Option<bool>,
    /// Vertical motion stops.
    pub stop_vertical: bool,
    /// Let the character's spawner run.
    pub run_spawner: bool,
}

/// Nothing asked, state kept.
pub open spec fn no_orders(state: State) -> Orders {
    Orders {
        state,
        died: false,
        animation: None,
        weapon: None,
        face_right: None,
        attack: false,
        jump_left: None,
        step: None,
        start_dashing: false,
        start_healing: false,
        stop_healing: false,
        gravity: None,
        stop_vertical: false,
        run_spawner: false,
    }
}

fn idle_orders(state: State) -> (o: Orders)
    ensures
        o == no_orders(state),
{
    Orders {
        state,
        died: false,
        animation: None,
        weapon: None,
        face_right: None,
        attack: false,
        jump_left: None,
        step: None,
        start_dashing: false,
        start_healing: false,
        stop_healing: false,
        gravity: None,
        stop_vertical: false,
        run_spawner: false,
    }
}

/// A character whose health ran out while not yet dead becomes dead.
pub open spec fn death_check(state: State, is_dead: bool) -> (State, bool) {
    if state != State::Dead && is_dead {
        (State::Dead, true)
    } else {
        (state, false)
    }
}

/// What an enemy's body and surroundings tell its controller this frame.
#[derive(Debug, Clone, Copy)]
pub struct EnemySenses {
    /// Its health has run out.
    pub is_dead: bool,
    pub is_on_floor: bool,
    pub is_on_ceil: bool,
    /// The player is to the right (the sign of the horizontal distance is
    /// positive).
    pub player_right: bool,
    /// The player is to the left (that sign is negative).
    pub player_left: bool,
    /// The player is close enough to chase.
    pub player_near: bool,
    /// The player is far enough to give up the chase.
    pub player_far: bool,
    /// The player is at a distance to jump at.
    pub in_jump_range: bool,
    pub jump_ready: bool,
    /// The held weapon is ready.
    pub weapon_ready: bool,
    /// Health is low enough to look for a place to heal.
    pub health_low: bool,
    pub healing_ready: bool,
    pub is_healing: bool,
    /// It moves horizontally.
    pub moving_sideways: bool,
    /// It was hit a moment ago.
    pub hit_recently: bool,
    /// The player can be reached with the held weapon, facing as it faces.
    pub reach_held: bool,
    /// ... with the held weapon, facing the player's side.
    pub reach_held_facing_player: bool,
    /// ... with weapon 0, facing as it faces.
    pub reach_first: bool,
    /// ... with weapon 0, facing the player's side.
    pub reach_first_facing_player: bool,
    /// ... with weapon 1, facing as it faces.
    pub reach_second: bool,
}

impl EnemySenses {
    /// Readings that some body and surroundings can give: the player is not
    /// on both sides nor both near and far, healing is not both under way
    /// and ready, a jump is ready only on the floor, and the held weapon
    /// reaches only when it is ready.
    pub open spec fn is_consistent(&self) -> bool {
        &&& !(self.player_right && self.player_left)
        &&& !(self.player_near && self.player_far)
        &&& !(self.is_healing && self.healing_ready)
        &&& self.jump_ready ==> self.is_on_floor
        &&& self.reach_held ==> self.weapon_ready
        &&& self.reach_held_facing_player ==> self.weapon_ready
    }

    /// Whether the readings are consistent (see `is_consistent`).
    pub fn check_consistent(&self) -> (r: bool)
        ensures
            r == self.is_consistent(),
    {
        !(self.player_right && self.player_left) && !(self.player_near && self.player_far) && !(
        self.is_healing && self.healing_ready) && (!self.jump_ready || self.is_on_floor) && (
        !self.reach_held || self.weapon_ready) && (!self.reach_held_facing_player
            || self.weapon_ready)
    }
}

/// The states a rat's controller handles.
pub open spec fn rat_handles(s: State) -> bool {
    s == State::Initial || s == State::Idle || s == State::Running || s == State::Attacking
        || s == State::Jumping || s == State::Falling || s == State::Dead
}

/// One frame of a rat.
pub open spec fn rat_orders(state: State, e: EnemySenses) -> Orders {
    let (s, died) = death_check(state, e.is_dead);
    let base = Orders { died, ..no_orders(s) };
    match s {
        State::Initial => Orders { state: State::Idle, ..base },
        State::Idle => {
            let o = Orders { animation: Some(Anim::Idle), weapon: Some(0), ..base };
            if e.reach_first {
                Orders { attack: true, state: State::Attacking, ..o }
            } else if e.player_near {
                Orders { state: State::Running, ..o }
            } else {
                o
            }
        },
        State::Running => {
            let o = Orders {
                animation: Some(Anim::Move),
                face_right: Some(e.player_right),
                weapon: Some(0),
                ..base
            };
            if !e.is_on_floor {
                Orders { state: State::Falling, ..o }
            } else if e.player_far {
                Orders { state: State::Idle, ..o }
            } else if e.jump_ready && e.in_jump_range {
                Orders { jump_left: Some(e.player_left), state: State::Jumping, ..o }
            } else if e.reach_first_facing_player {
                Orders { attack: true, state: State::Attacking, ..o }
            } else if e.player_right {
                Orders { step: Some(StepDirection::Right), ..o }
            } else {
                Orders { step: Some(StepDirection::Left), ..o }
            }
        },
        State::Attacking => {
            let o = Orders { animation: Some(Anim::MeleeAttack), ..base };
            if e.weapon_ready {
                Orders { state: State::Idle, ..o }
            } else {
                o
            }
        },
        State::Jumping => {
            let o = Orders { animation: Some(Anim::Jump), weapon: Some(1), ..base };
            if e.is_on_floor {
                Orders { state: State::Idle, ..o }
            } else if e.reach_second {
                Orders { attack: true, ..o }
            } else {
                o
            }
        },
        State::Falling => {
            let o = Orders { animation: Some(Anim::Idle), ..base };
            if e.is_on_floor {
                Orders { state: State::Idle, ..o }
            } else {
                o
            }
        },
        _ => Orders { animation: Some(Anim::Death), ..base },
    }
}

/// One frame of a rat's controller. A rat idles until the player comes
/// near, chases it, jumps at it from a middle distance and bites when it can
/// reach it.
pub fn update_rat(state: State, e: EnemySenses) -> (o: Orders)
    requires
        rat_handles(death_check(state, e.is_dead).0),
    ensures
        o == rat_orders(state, e),
{
    let mut s = state;
    let mut o = idle_orders(state);
    if s != State::Dead && e.is_dead {
        s = State::Dead;
        o.died = true;
    }
    o.state = s;
    match s {
        State::Initial => {
            o.state = State::Idle;
        },
        State::Idle => {
            o.animation = Some(Anim::Idle);
            o.weapon = Some(0);
            if e.reach_first {
                o.attack = true;
                o.state = State::Attacking;
            } else if e.player_near {
                o.state = State::Running;
            }
        },
        State::Running => {
            o.animation = Some(Anim::Move);
            o.face_right = Some(e.player_right);
            o.weapon = Some(0);
            if !e.is_on_floor {
                o.state = State::Falling;
            } else if e.player_far {
                o.state = State::Idle;
            } else if e.jump_ready && e.in_jump_range {
                o.jump_left = Some(e.player_left);
                o.state = State::Jumping;
            } else if e.reach_first_facing_player {
                o.attack = true;
                o.state = State::Attacking;
            } else if e.player_right {
                o.step = Some(StepDirection::Right);
            } else {
                o.step = Some(StepDirection::Left);
            }
        },
        State::Attacking => {
            o.animation = Some(Anim::MeleeAttack);
            if e.weapon_ready {
                o.state = State::Idle;
            }
        },
        State::Jumping => {
            o.animation = Some(Anim::Jump);
            o.weapon = Some(1);
            if e.is_on_floor {
                o.state = State::Idle;
            } else if e.reach_second {
                o.attack = true;
            }
        },
        State::Falling => {
            o.animation = Some(Anim::Idle);
            if e.is_on_floor {
                o.state = State::Idle;
            }
        },
        _ => {
            o.animation = Some(Anim::Death);
        },
    }
    o
}

/// The states a bat's controller handles.
pub open spec fn bat_handles(s: State) -> bool {
    s == State::Initial || s == State::Idle || s == State::Running || s == State::Attacking
        || s == State::Healing || s == State::Dead
}

/// One frame of a bat.
pub open spec fn bat_orders(state: State, e: EnemySenses) -> Orders {
    let (s, died) = death_check(state, e.is_dead);
    let base = if e.hit_recently {
        Orders { died, gravity: Some(true), ..no_orders(s) }
    } else if !e.is_dead {
        Orders { died, gravity: Some(false), stop_vertical: true, ..no_orders(s) }
    } else {
        Orders { died, ..no_orders(s) }
    };
    match s {
        State::Initial => Orders { state: State::Idle, ..base },
        State::Idle => {
            let o = Orders { animation: Some(Anim::Wave), ..base };
            if e.reach_held {
                Orders { attack: true, state: State::Attacking, ..o }
            } else if e.player_near {
                Orders { state: State::Running, ..o }
            } else {
                o
            }
        },
        State::Running => {
            let o = Orders { animation: Some(Anim::Wave), face_right: Some(e.player_right), ..base };
            if e.health_low && e.healing_ready {
                if e.is_on_ceil {
                    Orders { start_healing: true, state: State::Healing, ..o }
                } else {
                    Orders { step: Some(StepDirection::Up), ..o }
                }
            } else if e.player_far {
                Orders { state: State::Idle, ..o }
            } else if e.reach_held_facing_player {
                Orders { attack: true, state: State::Attacking, ..o }
            } else {
                Orders { step: Some(StepDirection::TowardPlayer), ..o }
            }
        },
        State::Attacking => {
            let o = Orders { animation: Some(Anim::MeleeAttack), ..base };
            if e.weapon_ready {
                Orders { state: State::Idle, ..o }
            } else {
                o
            }
        },
        State::Healing => {
            let o = Orders { animation: Some(Anim::Sleep), ..base };
            if !e.is_healing || e.moving_sideways {
                Orders { stop_healing: true, state: State::Idle, ..o }
            } else {
                o
            }
        },
        _ => Orders { animation: Some(Anim::Death), gravity: Some(true), ..base },
    }
}

/// One frame of a bat's controller. A hit bat falls for a moment, else it
/// hovers; it chases the player when near, strikes when it can reach it, and
/// with low health flies up to the ceiling to sleep its wounds off.
pub fn update_bat(state: State, e: EnemySenses) -> (o: Orders)
    requires
        bat_handles(death_check(state, e.is_dead).0),
    ensures
        o == bat_orders(state, e),
{
    let mut s = state;
    let mut o = idle_orders(state);
    if s != State::Dead && e.is_dead {
        s = State::Dead;
        o.died = true;
    }
    o.state = s;
    if e.hit_recently {
        o.gravity = Some(true);
    } else if !e.is_dead {
        o.gravity = Some(false);
        o.stop_vertical = true;
    }
    match s {
        State::Initial => {
            o.state = State::Idle;
        },
        State::Idle => {
            o.animation = Some(Anim::Wave);
            if e.reach_held {
                o.attack = true;
                o.state = State::Attacking;
            } else if e.player_near {
                o.state = State::Running;
            }
        },
        State::Running => {
            o.animation = Some(Anim::Wave);
            o.face_right = Some(e.player_right);
            if e.health_low && e.healing_ready {
                if e.is_on_ceil {
                    o.start_healing = true;
                    o.state = State::Healing;
                } else {
                    o.step = Some(StepDirection::Up);
                }
            } else if e.player_far {
                o.state = State::Idle;
            } else if e.reach_held_facing_player {
                o.attack = true;
                o.state = State::Attacking;
            } else {
                o.step = Some(StepDirection::TowardPlayer);
            }
        },
        State::Attacking => {
            o.animation = Some(Anim::MeleeAttack);
            if e.weapon_ready {
                o.state = State::Idle;
            }
        },
        State::Healing => {
            o.animation = Some(Anim::Sleep);
            if !e.is_healing || e.moving_sideways {
                o.stop_healing = true;
                o.state = State::Idle;
            }
        },
        _ => {
            o.animation = Some(Anim::Death);
            o.gravity = Some(true);
        },
    }
    o
}

/// The states a spawner's controller handles.
pub open spec fn spawner_handles(s: State) -> bool {
    s == State::Initial || s == State::Idle
}

/// One frame of a spawning enemy (a nest).
pub open spec fn spawner_orders(state: State, is_dead: bool) -> Orders {
    let (s, died) = death_check(state, is_dead);
    let base = Orders { died, run_spawner: true, ..no_orders(s) };
    match s {
        State::Initial => Orders { state: State::Idle, ..base },
        _ => Orders { animation: Some(Anim::Idle), ..base },
    }
}

/// One frame of a nest's controller: it idles and lets its spawner run.
pub fn update_spawner_enemy(state: State, is_dead: bool) -> (o: Orders)
    requires
        spawner_handles(death_check(state, is_dead).0),
    ensures
        o == spawner_orders(state, is_dead),
{
    let mut s = state;
    let mut o = idle_orders(state);
    if s != State::Dead && is_dead {
        s = State::Dead;
        o.died = true;
    }
    o.state = s;
    o.run_spawner = true;
    match s {
        State::Initial => {
            o.state = State::Idle;
        },
        _ => {
            o.animation = Some(Anim::Idle);
        },
    }
    o
}

/// What the player's controller reads this frame.
#[derive(Debug, Clone, Copy)]
pub struct PlayerSenses {
    pub is_left_action: bool,
    pub is_right_action: bool,
    pub is_down_action: bool,
    pub lmb_is_down: bool,
    pub is_on_floor: bool,
    pub weapon_ready: bool,
    pub enough_stamina_for_attack: bool,
    pub dashing_ready: bool,
    pub enough_stamina_for_dashing: bool,
    pub is_dashing: bool,
}

/// The states the player's controller handles.
pub open spec fn player_handles(s: State) -> bool {
    s == State::Initial || s == State::Idle || s == State::Running || s == State::Dashing
        || s == State::Attacking || s == State::Falling
}

/// One frame of the player.
pub open spec fn player_orders(state: State, p: PlayerSenses) -> Orders {
    let base = no_orders(state);
    let can_attack = p.lmb_is_down && p.weapon_ready && p.enough_stamina_for_attack;
    let sideways = p.is_left_action || p.is_right_action;
    match state {
        State::Initial => Orders { state: State::Idle, ..base },
        State::Idle => {
            let o = Orders { animation: Some(Anim::Idle), ..base };
            if sideways {
                Orders { state: State::Running, ..o }
            } else if can_attack {
                Orders { attack: true, state: State::Attacking, ..o }
            } else {
                o
            }
        },
        State::Running => if !p.is_on_floor {
            Orders { state: State::Falling, ..base }
        } else if can_attack {
            Orders { attack: true, state: State::Attacking, ..base }
        } else if sideways {
            let o = Orders { face_right: Some(p.is_right_action), animation: Some(Anim::Run), ..base };
            if p.is_down_action && p.dashing_ready && p.enough_stamina_for_dashing {
                Orders { state: State::Dashing, start_dashing: true, ..o }
            } else if p.is_right_action {
                Orders { step: Some(StepDirection::Right), ..o }
            } else {
                Orders { step: Some(StepDirection::Left), ..o }
            }
        } else {
            Orders { animation: Some(Anim::Idle), state: State::Idle, ..base }
        },
        State::Dashing => {
            let o = Orders { animation: Some(Anim::Slide), ..base };
            if !p.is_dashing {
                Orders { state: State::Idle, ..o }
            } else {
                o
            }
        },
        State::Attacking => {
            let o = Orders { animation: Some(Anim::Attack), ..base };
            if p.weapon_ready {
                Orders { state: State::Idle, ..o }
            } else {
                o
            }
        },
        _ => {
            let o = Orders {
                animation: Some(Anim::Idle),
                face_right: Some(p.is_right_action),
                ..base
            };
            if p.is_on_floor {
                Orders { state: State::Idle, ..o }
            } else if p.is_right_action {
                Orders { step: Some(StepDirection::Right), ..o }
            } else {
                Orders { step: Some(StepDirection::Left), ..o }
            }
        },
    }
}

/// One frame of the player's controller: walk with the direction keys,
/// strike with the left mouse button when the weapon and the stamina allow,
/// dash with the down key while running, fall when the floor is gone.
pub fn update_player(state: State, p: PlayerSenses) -> (o: Orders)
    requires
        player_handles(state),
    ensures
        o == player_orders(state, p),
{
    let mut o = idle_orders(state);
    let can_attack = p.lmb_is_down && p.weapon_ready && p.enough_stamina_for_attack;
    let sideways = p.is_left_action || p.is_right_action;
    match state {
        State::Initial => {
            o.state = State::Idle;
        },
        State::Idle => {
            o.animation = Some(Anim::Idle);
            if sideways {
                o.state = State::Running;
            } else if can_attack {
                o.attack = true;
                o.state = State::Attacking;
            }
        },
        State::Running => {
            if !p.is_on_floor {
                o.state = State::Falling;
            } else if can_attack {
                o.attack = true;
                o.state = State::Attacking;
            } else if sideways {
                o.face_right = Some(p.is_right_action);
                o.animation = Some(Anim::Run);
                if p.is_down_action && p.dashing_ready && p.enough_stamina_for_dashing {
                    o.state = State::Dashing;
                    o.start_dashing = true;
                } else if p.is_right_action {
                    o.step = Some(StepDirection::Right);
                } else {
                    o.step = Some(StepDirection::Left);
                }
            } else {
                o.animation = Some(Anim::Idle);
                o.state = State::Idle;
            }
        },
        State::Dashing => {
            o.animation = Some(Anim::Slide);
            if !p.is_dashing {
                o.state = State::Idle;
            }
        },
        State::Attacking => {
            o.animation = Some(Anim::Attack);
            if p.weapon_ready {
                o.state = State::Idle;
            }
        },
        _ => {
            o.animation = Some(Anim::Idle);
            o.face_right = Some(p.is_right_action);
            if p.is_on_floor {
                o.state = State::Idle;
            } else if p.is_right_action {
                o.step = Some(StepDirection::Right);
            } else {
                o.step = Some(StepDirection::Left);
            }
        },
    }
    o
}

/// Death is final: an enemy that is dead stays dead, strikes nothing and
/// does not die a second time; one that dies this frame is dead from then on.
pub proof fn lemma_enemy_death_is_final(state: State, e: EnemySenses)
    ensures
        rat_orders(State::Dead, e).state == State::Dead,
        !rat_orders(State::Dead, e).attack && !rat_orders(State::Dead, e).died,
        bat_orders(State::Dead, e).state == State::Dead,
        !bat_orders(State::Dead, e).attack && !bat_orders(State::Dead, e).died,
        spawner_orders(State::Dead, e.is_dead).state == State::Dead,
        !spawner_orders(State::Dead, e.is_dead).died,
        rat_orders(state, e).died ==> state != State::Dead && rat_orders(state, e).state
            == State::Dead,
        bat_orders(state, e).died ==> state != State::Dead && bat_orders(state, e).state
            == State::Dead,
        spawner_orders(state, e.is_dead).died ==> state != State::Dead && spawner_orders(
            state,
            e.is_dead,
        ).state == State::Dead,
{
}

/// The player strikes only with the left button held, the weapon ready and
/// enough stamina, standing or running.
pub proof fn lemma_player_strikes_only_when_able(state: State, p: PlayerSenses)
    ensures
        player_orders(state, p).attack ==> {
            &&& p.lmb_is_down && p.weapon_ready && p.enough_stamina_for_attack
            &&& state == State::Idle || state == State::Running
        },
{
}

/// A running rat that neither falls, gives up, jumps nor bites runs toward
/// the player: it steps right exactly when the player is to its right and
/// left otherwise, facing the way it steps, and keeps running.
pub proof fn lemma_rat_runs_toward_player(e: EnemySenses)
    requires
        !e.is_dead,
        e.is_on_floor,
        !e.player_far,
        !(e.jump_ready && e.in_jump_range),
        !e.reach_first_facing_player,
    ensures
        ({
            let o = rat_orders(State::Running, e);
            &&& o.state == State::Running
            &&& o.step == Some(if e.player_right {
                StepDirection::Right
            } else {
                StepDirection::Left
            })
            &&& o.face_right == Some(e.player_right)
            &&& !o.attack && o.jump_left is None && !o.died
            &&& o.animation == Some(Anim::Move) && o.weapon == Some(0usize)
        }),
{
}

/// A rat only steps while running, and always the way it faces.
pub proof fn lemma_rat_steps_the_way_it_faces(state: State, e: EnemySenses)
    ensures
        ({
            let o = rat_orders(state, e);
            &&& o.step is Some ==> state == State::Running && o.state == State::Running
            &&& o.step == Some(StepDirection::Right) ==> o.face_right == Some(true)
            &&& o.step == Some(StepDirection::Left) ==> o.face_right == Some(false)
            &&& o.step != Some(StepDirection::Up) && o.step != Some(StepDirection::TowardPlayer)
        }),
{
}

/// The rat's other moves while alive: it wakes into rest; resting, it
/// bites what its first weapon reaches, else chases a near player; running,
/// it falls off ledges, gives up on a far player, jumps at one in jump
/// range (away from the player's side) and bites what it reaches facing
/// the player; an attack ends when the weapon is ready again; a jump ends
/// on the floor and bites with the second weapon on the way; a fall ends
/// on the floor.
pub proof fn lemma_rat_moves(state: State, e: EnemySenses)
    requires
        !e.is_dead,
    ensures
        ({
            let o = rat_orders(state, e);
            &&& !o.died
            &&& state == State::Initial ==> o.state == State::Idle && o.animation is None
            &&& state == State::Idle ==> {
                &&& o.animation == Some(Anim::Idle) && o.weapon == Some(0usize) && o.step is None
                &&& e.reach_first ==> o.attack && o.state == State::Attacking
                &&& !e.reach_first && e.player_near ==> !o.attack && o.state == State::Running
                &&& !e.reach_first && !e.player_near ==> !o.attack && o.state == State::Idle
            }
            &&& state == State::Running ==> {
                &&& !e.is_on_floor ==> o.state == State::Falling && o.step is None && !o.attack
                &&& e.is_on_floor && e.player_far ==> o.state == State::Idle && o.step is None
                    && !o.attack
                &&& e.is_on_floor && !e.player_far && e.jump_ready && e.in_jump_range ==> o.state
                    == State::Jumping && o.jump_left == Some(e.player_left) && o.step is None
                    && !o.attack
                &&& e.is_on_floor && !e.player_far && !(e.jump_ready && e.in_jump_range)
                    && e.reach_first_facing_player ==> o.state == State::Attacking && o.attack
                    && o.step is None
            }
            &&& state == State::Attacking ==> {
                &&& o.animation == Some(Anim::MeleeAttack) && !o.attack && o.step is None
                &&& e.weapon_ready ==> o.state == State::Idle
                &&& !e.weapon_ready ==> o.state == State::Attacking
            }
            &&& state == State::Jumping ==> {
                &&& o.animation == Some(Anim::Jump) && o.weapon == Some(1usize) && o.step is None
                &&& e.is_on_floor ==> o.state == State::Idle && !o.attack
                &&& !e.is_on_floor ==> o.state == State::Jumping && o.attack == e.reach_second
            }
            &&& state == State::Falling ==> {
                &&& o.animation == Some(Anim::Idle) && !o.attack && o.step is None
                &&& e.is_on_floor ==> o.state == State::Idle
                &&& !e.is_on_floor ==> o.state == State::Falling
            }
        }),
{
}

/// A bat falls for a moment after a hit and otherwise hovers (a living bat
/// switches gravity off and stops rising or sinking); a dead one falls.
/// Resting, it strikes what it reaches, else chases a near player;
/// running, with low health and healing ready it flies up and sleeps on
/// the ceiling, else gives up on a far player, strikes what it reaches
/// facing the player, or flies toward the player; an attack ends when the
/// weapon is ready; sleep ends when healing stops or the bat is pushed.
pub proof fn lemma_bat_moves(state: State, e: EnemySenses)
    requires
        bat_handles(state),
    ensures
        ({
            let o = bat_orders(state, e);
            &&& e.hit_recently ==> o.gravity == Some(true)
            &&& !e.hit_recently && !e.is_dead && state != State::Dead ==> o.gravity == Some(false)
                && o.stop_vertical
            &&& state == State::Dead ==> o.gravity == Some(true) && o.animation == Some(Anim::Death)
            &&& !e.is_dead ==> {
                &&& !o.died
                &&& state == State::Initial ==> o.state == State::Idle
                &&& state == State::Idle ==> {
                    &&& o.animation == Some(Anim::Wave) && o.step is None
                    &&& e.reach_held ==> o.attack && o.state == State::Attacking
                    &&& !e.reach_held && e.player_near ==> !o.attack && o.state == State::Running
                    &&& !e.reach_held && !e.player_near ==> !o.attack && o.state == State::Idle
                }
                &&& state == State::Running ==> {
                    &&& o.animation == Some(Anim::Wave) && o.face_right == Some(e.player_right)
                    &&& e.health_low && e.healing_ready && e.is_on_ceil ==> o.start_healing
                        && o.state == State::Healing && o.step is None
                    &&& e.health_low && e.healing_ready && !e.is_on_ceil ==> o.step == Some(
                        StepDirection::Up,
                    ) && o.state == State::Running
                    &&& !(e.health_low && e.healing_ready) && e.player_far ==> o.state == State::Idle
                        && o.step is None && !o.attack
                    &&& !(e.health_low && e.healing_ready) && !e.player_far
                        && e.reach_held_facing_player ==> o.attack && o.state == State::Attacking
                    &&& !(e.health_low && e.healing_ready) && !e.player_far
                        && !e.reach_held_facing_player ==> o.step == Some(StepDirection::TowardPlayer)
                        && o.state == State::Running && !o.attack
                }
                &&& state == State::Attacking ==> {
                    &&& o.animation == Some(Anim::MeleeAttack) && !o.attack
                    &&& e.weapon_ready ==> o.state == State::Idle
                    &&& !e.weapon_ready ==> o.state == State::Attacking
                }
                &&& state == State::Healing ==> {
                    &&& o.animation == Some(Anim::Sleep)
                    &&& !e.is_healing || e.moving_sideways ==> o.stop_healing && o.state == State::Idle
                    &&& e.is_healing && !e.moving_sideways ==> !o.stop_healing && o.state
                        == State::Healing
                }
            }
        }),
{
}

/// A nest always lets its spawner run; it wakes into rest and then idles.
pub proof fn lemma_spawner_moves(state: State, is_dead: bool)
    ensures
        spawner_orders(state, is_dead).run_spawner,
        !spawner_orders(state, is_dead).attack,
        spawner_orders(state, is_dead).step is None,
        !is_dead && state == State::Initial ==> spawner_orders(state, is_dead).state == State::Idle,
        !is_dead && state == State::Idle ==> spawner_orders(state, is_dead).state == State::Idle
            && spawner_orders(state, is_dead).animation == Some(Anim::Idle),
{
}

/// An attack always ends: a striking player whose weapon is ready again is
/// back at rest; until then it keeps its attack animation and strikes no
/// more.
pub proof fn lemma_player_attack_ends(p: PlayerSenses)
    ensures
        ({
            let o = player_orders(State::Attacking, p);
            &&& o.animation == Some(Anim::Attack) && !o.attack && o.step is None
            &&& p.weapon_ready ==> o.state == State::Idle
            &&& !p.weapon_ready ==> o.state == State::Attacking
        }),
{
}

/// The player steps only while running or falling, always the way it
/// faces, which is the way of the right key when held.
pub proof fn lemma_player_steps_the_way_it_faces(state: State, p: PlayerSenses)
    requires
        player_handles(state),
    ensures
        ({
            let o = player_orders(state, p);
            &&& o.step is Some ==> state == State::Running || state == State::Falling
            &&& o.step == Some(StepDirection::Right) ==> o.face_right == Some(true)
                && p.is_right_action
            &&& o.step == Some(StepDirection::Left) ==> o.face_right == Some(false)
                && !p.is_right_action
        }),
{
}

/// The player's other moves: it wakes into rest; resting, a direction key
/// starts a run, else an able strike attacks; running, it falls off
/// ledges, else strikes when able, else with a direction key faces that
/// way and dashes (down key, dash ready, stamina) or steps, else stops; a
/// dash ends when the slide is over; a fall ends on the floor and steers
/// on the way.
pub proof fn lemma_player_moves(state: State, p: PlayerSenses)
    ensures
        ({
            let o = player_orders(state, p);
            let able = p.lmb_is_down && p.weapon_ready && p.enough_stamina_for_attack;
            let sideways = p.is_left_action || p.is_right_action;
            let dash = p.is_down_action && p.dashing_ready && p.enough_stamina_for_dashing;
            let dir = if p.is_right_action {
                StepDirection::Right
            } else {
                StepDirection::Left
            };
            &&& !o.died
            &&& state == State::Initial ==> o.state == State::Idle
            &&& state == State::Idle ==> {
                &&& o.animation == Some(Anim::Idle) && o.step is None
                &&& sideways ==> o.state == State::Running && !o.attack
                &&& !sideways && able ==> o.state == State::Attacking && o.attack
                &&& !sideways && !able ==> o.state == State::Idle && !o.attack
            }
            &&& state == State::Running ==> {
                &&& !p.is_on_floor ==> o.state == State::Falling && o.step is None && !o.attack
                &&& p.is_on_floor && able ==> o.state == State::Attacking && o.attack
                &&& p.is_on_floor && !able && sideways ==> {
                    &&& o.face_right == Some(p.is_right_action) && o.animation == Some(Anim::Run)
                    &&& dash ==> o.state == State::Dashing && o.start_dashing && o.step is None
                    &&& !dash ==> o.state == State::Running && o.step == Some(dir)
                        && !o.start_dashing
                }
                &&& p.is_on_floor && !able && !sideways ==> o.state == State::Idle
                    && o.animation == Some(Anim::Idle) && o.step is None
            }
            &&& state == State::Dashing ==> {
                &&& o.animation == Some(Anim::Slide) && o.step is None
                &&& !p.is_dashing ==> o.state == State::Idle
                &&& p.is_dashing ==> o.state == State::Dashing
            }
            &&& state == State::Falling ==> {
                &&& o.animation == Some(Anim::Idle) && o.face_right == Some(p.is_right_action)
                &&& p.is_on_floor ==> o.state == State::Idle && o.step is None
                &&& !p.is_on_floor ==> o.state == State::Falling && o.step == Some(dir)
            }
        }),
{
}

// ---------------------------------------------------------------------------
// The enemy list

/// What the enemy list keeps of an enemy for its deaths: its behaviour and
/// state, whether its health ran out, the list position of the spawner that
/// spawned it (if any), and, for a spawner, how many of its spawns live.
#[derive(Clone, Copy, Debug, PartialEq, Eq, Structural)]
pub struct EnemyRecord {
    pub behaviour: Behaviour,
    pub state: State,
    pub is_dead: bool,
    pub spawner_id: Option<usize>,
    pub n_alive_spawned: Option<u32>,
}

/// The enemy list after enemy `i` is checked for death, and whether a rat
/// king rises: an enemy whose health ran out and that is not yet dead
/// becomes dead, its spawner (if any) counts one spawn fewer alive, and a
/// dying nest gives rise to a rat king.
pub open spec fn enemy_death_step(es: Seq<EnemyRecord>, i: int) -> (Seq<EnemyRecord>, bool) {
    let e = es[i];
    if e.state != State::Dead && e.is_dead {
        let es1 = es.update(i, EnemyRecord { state: State::Dead, ..e });
        let es2 = match e.spawner_id {
            Some(sid) => es1.update(
                sid as int,
                EnemyRecord {
                    n_alive_spawned: Some((es1[sid as int].n_alive_spawned->0 - 1) as u32),
                    ..es1[sid as int]
                },
            ),
            None => es1,
        };
        (es2, e.behaviour == Behaviour::RatNest)
    } else {
        (es, false)
    }
}

/// The death check of enemy `i` can be made: `i` is on the list, and a
/// dying spawned enemy's spawner is on the list with a live spawn to lose.
pub open spec fn death_step_defined(es: Seq<EnemyRecord>, i: int) -> bool {
    &&& 0 <= i < es.len()
    &&& (es[i].state != State::Dead && es[i].is_dead && es[i].spawner_id is Some) ==> {
        let sid = es[i].spawner_id->0 as int;
        let es1 = es.update(i, EnemyRecord { state: State::Dead, ..es[i] });
        &&& sid < es.len()
        &&& es1[sid].n_alive_spawned is Some
        &&& es1[sid].n_alive_spawned->0 > 0
    }
}

/// Checks enemy `i` for death (see `enemy_death_step`); returns whether a
/// rat king rises where it stood.
pub fn check_enemy_death(enemies: &mut Vec<EnemyRecord>, i: usize) -> (king_rises: bool)
    requires
        death_step_defined(old(enemies)@, i as int),
    ensures
        (final(enemies)@, king_rises) == enemy_death_step(old(enemies)@, i as int),
{
    let e = enemies[i];
    if e.state != State::Dead && e.is_dead {
        enemies[i] = EnemyRecord { state: State::Dead, ..e };
        match e.spawner_id {
            Some(sid) => {
                let spawner = enemies[sid];
                let n = spawner.n_alive_spawned.unwrap();
                enemies[sid] = EnemyRecord { n_alive_spawned: Some(n - 1), ..spawner };
            },
            None => {},
        }
        proof {
            assert(enemies@ =~= enemy_death_step(old(enemies)@, i as int).0);
        }
        e.behaviour == Behaviour::RatNest
    } else {
        false
    }
}

/// A dead spawned enemy releases its spawner once: checking the same enemy
/// again changes nothing and raises no king; the first check takes exactly
/// one live spawn from its spawner and makes it dead.
pub proof fn lemma_death_releases_spawner_once(es: Seq<EnemyRecord>, i: int)
    requires
        death_step_defined(es, i),
    ensures
        ({
            let (es1, king) = enemy_death_step(es, i);
            &&& enemy_death_step(es1, i) == (es1, false)
            &&& es1.len() == es.len()
            &&& es[i].is_dead ==> es1[i].state == State::Dead
            &&& (es[i].state != State::Dead && es[i].is_dead && es[i].spawner_id is Some
                && es[i].spawner_id->0 != i) ==> es1[es[i].spawner_id->0 as int].n_alive_spawned
                == Some((es[es[i].spawner_id->0 as int].n_alive_spawned->0 - 1) as u32)
            &&& king ==> es[i].behaviour == Behaviour::RatNest
        }),
{
    let (es1, king) = enemy_death_step(es, i);
    if es[i].state != State::Dead && es[i].is_dead {
        match es[i].spawner_id {
            Some(sid) => {
                assert(es1[i].state == State::Dead);
            },
            None => {},
        }
    }
}

} // verus!
