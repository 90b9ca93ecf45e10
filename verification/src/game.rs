use crate::input::{
    key_index, Input, InputView, KEYCODE_A, KEYCODE_D, KEYCODE_LCTRL, KEYCODE_SPACE, KEYCODE_W,
};
use vstd::prelude::*;

verus! {

/// An animation to play: the clip's name in the frame atlas and whether it
/// loops.
#[derive(Clone, Copy, Debug, PartialEq, Eq)]
pub struct AnimationClip {
    pub name: &'static str,
    pub is_repeat: bool,
}

// ---------------------------------------------------------------------------
// Knight player

#[derive(Clone, Copy, PartialEq, Eq, Debug, Structural)]
pub enum KnightPlayerState {
    Idle,
    Run,
    Roll,
    Attack0,
    Attack1,
    Attack2,
    JumpUp,
    JumpDown,
    JumpLanding,
}

/// The player's knight: its moves (a state and the state queued after the
/// current animation ends) and its speeds, of any scalar type.
#[derive(Clone, Copy)]
pub struct KnightPlayer<S> {
    pub curr_state: KnightPlayerState,
    pub next_state: KnightPlayerState,
    pub can_perform_combo: bool,
    pub is_attack2_step_done: bool,
    pub run_speed: S,
    pub roll_speed: S,
    pub jump_speed: S,
    pub landing_speed: S,
    pub attack2_step: S,
}

impl<S> KnightPlayer<S> {
    pub fn new(run_speed: S, roll_speed: S, jump_speed: S, landing_speed: S, attack2_step: S) -> (k: Self)
        ensures
            k.curr_state == KnightPlayerState::Idle,
            k.next_state == KnightPlayerState::Idle,
            !k.can_perform_combo,
            !k.is_attack2_step_done,
            k.run_speed == run_speed,
            k.roll_speed == roll_speed,
            k.jump_speed == jump_speed,
            k.landing_speed == landing_speed,
            k.attack2_step == attack2_step,
    {
        Self {
            curr_state: KnightPlayerState::Idle,
            next_state: KnightPlayerState::Idle,
            can_perform_combo: false,
            is_attack2_step_done: false,
            run_speed,
            roll_speed,
            jump_speed,
            landing_speed,
            attack2_step,
        }
    }
}

/// The key readings the knight acts on.
#[derive(Clone, Copy, Debug, PartialEq, Eq, Structural)]
pub struct KnightKeys {
    pub is_attack_action: bool,
    pub is_left_action: bool,
    pub is_right_action: bool,
    pub is_jump_action: bool,
    pub is_roll_action: bool,
}

/// What the knight's body and animation tell its controller this frame.
#[derive(Clone, Copy, Debug, PartialEq, Eq, Structural)]
pub struct KnightSenses {
    /// The current (non-looping) animation has played to its end.
    pub animation_finished: bool,
    /// The current attack animation is far enough along to chain a combo.
    pub combo_window_open: bool,
    /// The knight still moves upwards.
    pub rising: bool,
    /// The knight stands on something.
    pub grounded: bool,
}

/// How the knight moves horizontally this frame.
#[derive(Clone, Copy, Debug, PartialEq, Eq, Structural)]
pub enum KnightMotion {
    /// No horizontal move.
    Stay,
    /// The third attack's lunge: one `attack2_step` where it looks.
    Lunge,
    /// A roll where it looks, slowing down as the roll animation goes on.
    Roll,
    /// A step in the direction of the keys (right when `to_right`), at the
    /// landing speed when `landing`, else at the run speed; the knight then
    /// looks that way.
    Step { to_right: bool, landing: bool },
}

/// What the knight does this frame besides changing its own state.
#[derive(Clone, Copy, Debug, PartialEq, Eq)]
pub struct KnightAction {
    /// Push the knight up by its jump speed.
    pub jump: bool,
    pub motion: KnightMotion,
    /// The animation to play for the state the knight ends the frame in.
    pub animation: AnimationClip,
}

/// The knight's moves without its speeds.
pub struct KnightMoves {
    pub curr_state: KnightPlayerState,
    pub next_state: KnightPlayerState,
    pub can_perform_combo: bool,
    pub is_attack2_step_done: bool,
}

impl<S> KnightPlayer<S> {
    pub open spec fn moves(self) -> KnightMoves {
        KnightMoves {
            curr_state: self.curr_state,
            next_state: self.next_state,
            can_perform_combo: self.can_perform_combo,
            is_attack2_step_done: self.is_attack2_step_done,
        }
    }
}

pub open spec fn knight_clip(s: KnightPlayerState) -> AnimationClip {
    match s {
        KnightPlayerState::Idle => AnimationClip { name: "knight_idle", is_repeat: true },
        KnightPlayerState::Run => AnimationClip { name: "knight_run", is_repeat: true },
        KnightPlayerState::Roll => AnimationClip { name: "knight_roll", is_repeat: false },
        KnightPlayerState::JumpUp => AnimationClip { name: "knight_jump_up", is_repeat: false },
        KnightPlayerState::JumpDown => AnimationClip { name: "knight_jump_down", is_repeat: false },
        KnightPlayerState::JumpLanding => AnimationClip {
            name: "knight_jump_landing",
            is_repeat: false,
        },
        KnightPlayerState::Attack0 => AnimationClip { name: "knight_attack_0", is_repeat: false },
        KnightPlayerState::Attack1 => AnimationClip { name: "knight_attack_1", is_repeat: false },
        KnightPlayerState::Attack2 => AnimationClip { name: "knight_attack_2", is_repeat: false },
    }
}

/// A step in the keys' direction, if a direction key is held.
pub open spec fn step_motion(keys: KnightKeys, landing: bool) -> KnightMotion {
    if keys.is_left_action || keys.is_right_action {
        KnightMotion::Step { to_right: keys.is_right_action, landing }
    } else {
        KnightMotion::Stay
    }
}

/// The knight's moves once its animation has been looked at: a finished
/// animation hands over to the queued state, and the queue goes back to
/// idle.
pub open spec fn knight_after_animation(m: KnightMoves, finished: bool) -> KnightMoves {
    if finished {
        KnightMoves { curr_state: m.next_state, next_state: KnightPlayerState::Idle, ..m }
    } else {
        m
    }
}

/// One frame of the knight's controller, from its moves after the
/// animation check: its new moves, whether it jumps and how it moves.
pub open spec fn knight_control(m: KnightMoves, keys: KnightKeys, senses: KnightSenses) -> (
    KnightMoves,
    bool,
    KnightMotion,
) {
    let step = keys.is_left_action || keys.is_right_action;
    match m.curr_state {
        KnightPlayerState::Idle => if keys.is_attack_action {
            (
                KnightMoves {
                    curr_state: KnightPlayerState::Attack0,
                    next_state: KnightPlayerState::Idle,
                    can_perform_combo: true,
                    ..m
                },
                false,
                KnightMotion::Stay,
            )
        } else if keys.is_jump_action {
            (KnightMoves { curr_state: KnightPlayerState::JumpUp, ..m }, true, KnightMotion::Stay)
        } else if step {
            (KnightMoves { curr_state: KnightPlayerState::Run, ..m }, false, KnightMotion::Stay)
        } else {
            (m, false, KnightMotion::Stay)
        },
        KnightPlayerState::Attack0 => {
            let m = KnightMoves { is_attack2_step_done: false, ..m };
            if keys.is_attack_action && m.can_perform_combo {
                if senses.combo_window_open {
                    (KnightMoves { next_state: KnightPlayerState::Attack1, ..m }, false, KnightMotion::Stay)
                } else {
                    (KnightMoves { can_perform_combo: false, ..m }, false, KnightMotion::Stay)
                }
            } else {
                (m, false, KnightMotion::Stay)
            }
        },
        KnightPlayerState::Attack1 => if keys.is_attack_action && m.can_perform_combo {
            if senses.combo_window_open {
                (KnightMoves { next_state: KnightPlayerState::Attack2, ..m }, false, KnightMotion::Stay)
            } else {
                (KnightMoves { can_perform_combo: false, ..m }, false, KnightMotion::Stay)
            }
        } else {
            (m, false, KnightMotion::Stay)
        },
        KnightPlayerState::Attack2 => {
            let m2 = KnightMoves { next_state: KnightPlayerState::Idle, ..m };
            if !m.is_attack2_step_done {
                (KnightMoves { is_attack2_step_done: true, ..m2 }, false, KnightMotion::Lunge)
            } else {
                (m2, false, KnightMotion::Stay)
            }
        },
        KnightPlayerState::Run => if keys.is_roll_action {
            (KnightMoves { curr_state: KnightPlayerState::Roll, ..m }, false, KnightMotion::Stay)
        } else if keys.is_jump_action {
            (KnightMoves { curr_state: KnightPlayerState::JumpUp, ..m }, true, KnightMotion::Stay)
        } else if keys.is_attack_action {
            (
                KnightMoves {
                    curr_state: KnightPlayerState::Attack0,
                    can_perform_combo: true,
                    ..m
                },
                false,
                KnightMotion::Stay,
            )
        } else if step {
            (m, false, step_motion(keys, false))
        } else {
            (KnightMoves { curr_state: KnightPlayerState::Idle, ..m }, false, KnightMotion::Stay)
        },
        KnightPlayerState::Roll => (
            KnightMoves { next_state: KnightPlayerState::Idle, ..m },
            false,
            KnightMotion::Roll,
        ),
        KnightPlayerState::JumpUp => {
            let m2 = if senses.rising {
                KnightMoves { next_state: KnightPlayerState::JumpUp, ..m }
            } else {
                KnightMoves { curr_state: KnightPlayerState::JumpDown, ..m }
            };
            (m2, false, step_motion(keys, false))
        },
        KnightPlayerState::JumpDown => {
            let m2 = if !senses.grounded {
                KnightMoves { next_state: KnightPlayerState::JumpDown, ..m }
            } else {
                KnightMoves { curr_state: KnightPlayerState::JumpLanding, ..m }
            };
            (m2, false, step_motion(keys, false))
        },
        KnightPlayerState::JumpLanding => (
            KnightMoves { next_state: KnightPlayerState::Idle, ..m },
            false,
            step_motion(keys, true),
        ),
    }
}

/// The knight's key readings: attack on a fresh Space press, left and right
/// while A and D are held, jump on a fresh W press, roll on a fresh left
/// Ctrl press.
pub open spec fn knight_keys(input: InputView) -> KnightKeys {
    KnightKeys {
        is_attack_action: input.key_is_pressed[key_index(KEYCODE_SPACE as int)],
        is_left_action: input.key_is_down[key_index(KEYCODE_A as int)],
        is_right_action: input.key_is_down[key_index(KEYCODE_D as int)],
        is_jump_action: input.key_is_pressed[key_index(KEYCODE_W as int)],
        is_roll_action: input.key_is_pressed[key_index(KEYCODE_LCTRL as int)],
    }
}

pub fn read_knight_keys(input: &Input) -> (keys: KnightKeys)
    ensures
        keys == knight_keys(input@),
{
    KnightKeys {
        is_attack_action: input.key_is_pressed(KEYCODE_SPACE),
        is_left_action: input.key_is_down(KEYCODE_A),
        is_right_action: input.key_is_down(KEYCODE_D),
        is_jump_action: input.key_is_pressed(KEYCODE_W),
        is_roll_action: input.key_is_pressed(KEYCODE_LCTRL),
    }
}

fn knight_animation(state: KnightPlayerState) -> (clip: AnimationClip)
    ensures
        clip == knight_clip(state),
{
    match state {
        KnightPlayerState::Idle => AnimationClip { name: "knight_idle", is_repeat: true },
        KnightPlayerState::Run => AnimationClip { name: "knight_run", is_repeat: true },
        KnightPlayerState::Roll => AnimationClip { name: "knight_roll", is_repeat: false },
        KnightPlayerState::JumpUp => AnimationClip { name: "knight_jump_up", is_repeat: false },
        KnightPlayerState::JumpDown => AnimationClip { name: "knight_jump_down", is_repeat: false },
        KnightPlayerState::JumpLanding => AnimationClip {
            name: "knight_jump_landing",
            is_repeat: false,
        },
        KnightPlayerState::Attack0 => AnimationClip { name: "knight_attack_0", is_repeat: false },
        KnightPlayerState::Attack1 => AnimationClip { name: "knight_attack_1", is_repeat: false },
        KnightPlayerState::Attack2 => AnimationClip { name: "knight_attack_2", is_repeat: false },
    }
}

fn step_towards(keys: KnightKeys, landing: bool) -> (motion: KnightMotion)
    ensures
        motion == step_motion(keys, landing),
{
    if keys.is_left_action || keys.is_right_action {
        KnightMotion::Step { to_right: keys.is_right_action, landing }
    } else {
        KnightMotion::Stay
    }
}

/// One frame of the player's knight: reads the keys from `input`, lets a
/// finished animation hand over to the queued state, then decides the new
/// state, the jump, the horizontal move and the animation to play.
pub fn update_knight_player<S>(knight: &mut KnightPlayer<S>, input: &Input, senses: KnightSenses) -> (action: KnightAction)
    ensures
        ({
            let (m, jump, motion) = knight_control(
                knight_after_animation(old(knight).moves(), senses.animation_finished),
                knight_keys(input@),
                senses,
            );
            &&& final(knight).moves() == m
            &&& action.jump == jump
            &&& action.motion == motion
            &&& action.animation == knight_clip(m.curr_state)
        }),
        final(knight).run_speed == old(knight).run_speed,
        final(knight).roll_speed == old(knight).roll_speed,
        final(knight).jump_speed == old(knight).jump_speed,
        final(knight).landing_speed == old(knight).landing_speed,
        final(knight).attack2_step == old(knight).attack2_step,
{
    let keys = read_knight_keys(input);
    let is_step_action = keys.is_right_action || keys.is_left_action;

    if senses.animation_finished {
        knight.curr_state = knight.next_state;
        knight.next_state = KnightPlayerState::Idle;
    }

    let mut jump = false;
    let mut motion = KnightMotion::Stay;
    match knight.curr_state {
        KnightPlayerState::Idle => {
            if keys.is_attack_action {
                knight.curr_state = KnightPlayerState::Attack0;
                knight.next_state = KnightPlayerState::Idle;
                knight.can_perform_combo = true;
            } else if keys.is_jump_action {
                knight.curr_state = KnightPlayerState::JumpUp;
                jump = true;
            } else if is_step_action {
                knight.curr_state = KnightPlayerState::Run;
            }
        },
        KnightPlayerState::Attack0 => {
            knight.is_attack2_step_done = false;
            if keys.is_attack_action && knight.can_perform_combo {
                if senses.combo_window_open {
                    knight.next_state = KnightPlayerState::Attack1;
                } else {
                    knight.can_perform_combo = false;
                }
            }
        },
        KnightPlayerState::Attack1 => {
            if keys.is_attack_action && knight.can_perform_combo {
                if senses.combo_window_open {
                    knight.next_state = KnightPlayerState::Attack2;
                } else {
                    knight.can_perform_combo = false;
                }
            }
        },
        KnightPlayerState::Attack2 => {
            knight.next_state = KnightPlayerState::Idle;
            if !knight.is_attack2_step_done {
                motion = KnightMotion::Lunge;
                knight.is_attack2_step_done = true;
            }
        },
        KnightPlayerState::Run => {
            if keys.is_roll_action {
                knight.curr_state = KnightPlayerState::Roll;
            } else if keys.is_jump_action {
                knight.curr_state = KnightPlayerState::JumpUp;
                jump = true;
            } else if keys.is_attack_action {
                knight.curr_state = KnightPlayerState::Attack0;
                knight.can_perform_combo = true;
            } else if is_step_action {
                motion = step_towards(keys, false);
            } else {
                knight.curr_state = KnightPlayerState::Idle;
            }
        },
        KnightPlayerState::Roll => {
            knight.next_state = KnightPlayerState::Idle;
            motion = KnightMotion::Roll;
        },
        KnightPlayerState::JumpUp => {
            if senses.rising {
                knight.next_state = KnightPlayerState::JumpUp;
            } else {
                knight.curr_state = KnightPlayerState::JumpDown;
            }
            motion = step_towards(keys, false);
        },
        KnightPlayerState::JumpDown => {
            if !senses.grounded {
                knight.next_state = KnightPlayerState::JumpDown;
            } else {
                knight.curr_state = KnightPlayerState::JumpLanding;
            }
            motion = step_towards(keys, false);
        },
        KnightPlayerState::JumpLanding => {
            knight.next_state = KnightPlayerState::Idle;
            motion = step_towards(keys, true);
        },
    }

    KnightAction { jump, motion, animation: knight_animation(knight.curr_state) }
}

/// The knight takes off only standing or running, on a press of the jump
/// key.
pub proof fn lemma_knight_player_jumps_only_from_ground(
    m: KnightMoves,
    keys: KnightKeys,
    senses: KnightSenses,
)
    ensures
        knight_control(m, keys, senses).1 ==> {
            &&& m.curr_state == KnightPlayerState::Idle || m.curr_state == KnightPlayerState::Run
            &&& keys.is_jump_action
        },
{
}

/// The third attack steps forward once: the frame after the step, whether
/// or not the animation ended in between, takes no step.
pub proof fn lemma_knight_player_lunges_once(
    m: KnightMoves,
    keys: KnightKeys,
    senses: KnightSenses,
    next_senses: KnightSenses,
    next_keys: KnightKeys,
)
    requires
        knight_control(m, keys, senses).2 == KnightMotion::Lunge,
    ensures
        knight_control(
            knight_after_animation(knight_control(m, keys, senses).0, next_senses.animation_finished),
            next_keys,
            next_senses,
        ).2 != KnightMotion::Lunge,
{
}

/// A combo is chained only by pressing attack while the current attack's
/// combo window is open and the combo has not been spoiled by an early
/// press; an early press spoils it.
pub proof fn lemma_knight_player_combo_needs_the_window(
    m: KnightMoves,
    keys: KnightKeys,
    senses: KnightSenses,
)
    ensures
        ({
            let m1 = knight_control(m, keys, senses).0;
            &&& (m1.next_state == KnightPlayerState::Attack1 && m.next_state
                != KnightPlayerState::Attack1) ==> {
                &&& m.curr_state == KnightPlayerState::Attack0
                &&& keys.is_attack_action && m.can_perform_combo && senses.combo_window_open
            }
            &&& (m1.next_state == KnightPlayerState::Attack2 && m.next_state
                != KnightPlayerState::Attack2) ==> {
                &&& m.curr_state == KnightPlayerState::Attack1
                &&& keys.is_attack_action && m.can_perform_combo && senses.combo_window_open
            }
            &&& (m.curr_state == KnightPlayerState::Attack0 || m.curr_state
                == KnightPlayerState::Attack1) && keys.is_attack_action && !senses.combo_window_open
                ==> !m1.can_perform_combo
        }),
{
}

/// The animation check: a finished animation hands over to the queued
/// state and the queue goes back to idle; otherwise nothing changes.
pub proof fn lemma_knight_player_animation_check(m: KnightMoves, finished: bool)
    ensures
        finished ==> knight_after_animation(m, finished).curr_state == m.next_state
            && knight_after_animation(m, finished).next_state == KnightPlayerState::Idle,
        !finished ==> knight_after_animation(m, finished) == m,
        knight_after_animation(m, finished).can_perform_combo == m.can_perform_combo,
        knight_after_animation(m, finished).is_attack2_step_done == m.is_attack2_step_done,
{
}

/// Standing: an attack press starts the first attack with a combo open
/// (and nothing queued), else a jump press jumps, else a held direction
/// starts a run, else the knight keeps standing; it never moves sideways.
pub proof fn lemma_knight_player_idle(m: KnightMoves, keys: KnightKeys, senses: KnightSenses)
    requires
        m.curr_state == KnightPlayerState::Idle,
    ensures
        ({
            let (m1, jump, motion) = knight_control(m, keys, senses);
            &&& motion == KnightMotion::Stay
            &&& keys.is_attack_action ==> m1.curr_state == KnightPlayerState::Attack0
                && m1.next_state == KnightPlayerState::Idle && m1.can_perform_combo && !jump
            &&& !keys.is_attack_action && keys.is_jump_action ==> m1.curr_state
                == KnightPlayerState::JumpUp && jump
            &&& !keys.is_attack_action && !keys.is_jump_action && (keys.is_left_action
                || keys.is_right_action) ==> m1.curr_state == KnightPlayerState::Run && !jump
            &&& !keys.is_attack_action && !keys.is_jump_action && !keys.is_left_action
                && !keys.is_right_action ==> m1 == m && !jump
        }),
{
}

/// Running: a fresh roll press rolls whatever else is held; else a jump
/// press jumps; else an attack press starts the first attack with a combo
/// open; else a held direction steps that way at the run speed; else the
/// knight stops. The queued state is kept.
pub proof fn lemma_knight_player_run(m: KnightMoves, keys: KnightKeys, senses: KnightSenses)
    requires
        m.curr_state == KnightPlayerState::Run,
    ensures
        ({
            let (m1, jump, motion) = knight_control(m, keys, senses);
            &&& m1.next_state == m.next_state
            &&& keys.is_roll_action ==> m1.curr_state == KnightPlayerState::Roll && !jump && motion
                == KnightMotion::Stay
            &&& !keys.is_roll_action && keys.is_jump_action ==> m1.curr_state
                == KnightPlayerState::JumpUp && jump && motion == KnightMotion::Stay
            &&& !keys.is_roll_action && !keys.is_jump_action && keys.is_attack_action ==> m1.curr_state
                == KnightPlayerState::Attack0 && m1.can_perform_combo && !jump && motion
                == KnightMotion::Stay
            &&& !keys.is_roll_action && !keys.is_jump_action && !keys.is_attack_action && (
            keys.is_left_action || keys.is_right_action) ==> m1.curr_state == KnightPlayerState::Run
                && !jump && motion == (KnightMotion::Step {
                to_right: keys.is_right_action,
                landing: false,
            })
            &&& !keys.is_roll_action && !keys.is_jump_action && !keys.is_attack_action
                && !keys.is_left_action && !keys.is_right_action ==> m1.curr_state
                == KnightPlayerState::Idle && !jump && motion == KnightMotion::Stay
        }),
{
}

/// The attack combo only moves forward: an attack press inside the combo
/// window queues the next attack (the second after the first, the third
/// after the second) while a combo is allowed; a press outside the window
/// spoils the combo; the third attack queues nothing but idle and steps
/// forward once. Attacks never jump and stay in their state.
pub proof fn lemma_knight_player_attacks(m: KnightMoves, keys: KnightKeys, senses: KnightSenses)
    ensures
        ({
            let (m1, jump, motion) = knight_control(m, keys, senses);
            let press = keys.is_attack_action && m.can_perform_combo;
            &&& m.curr_state == KnightPlayerState::Attack0 ==> {
                &&& m1.curr_state == KnightPlayerState::Attack0 && !jump && motion
                    == KnightMotion::Stay && !m1.is_attack2_step_done
                &&& press && senses.combo_window_open ==> m1.next_state
                    == KnightPlayerState::Attack1 && m1.can_perform_combo
                &&& press && !senses.combo_window_open ==> !m1.can_perform_combo && m1.next_state
                    == m.next_state
                &&& !press ==> m1.next_state == m.next_state && m1.can_perform_combo
                    == m.can_perform_combo
            }
            &&& m.curr_state == KnightPlayerState::Attack1 ==> {
                &&& m1.curr_state == KnightPlayerState::Attack1 && !jump && motion
                    == KnightMotion::Stay
                &&& press && senses.combo_window_open ==> m1.next_state
                    == KnightPlayerState::Attack2 && m1.can_perform_combo
                &&& press && !senses.combo_window_open ==> !m1.can_perform_combo && m1.next_state
                    == m.next_state
                &&& !press ==> m1.next_state == m.next_state && m1.can_perform_combo
                    == m.can_perform_combo
            }
            &&& m.curr_state == KnightPlayerState::Attack2 ==> {
                &&& m1.curr_state == KnightPlayerState::Attack2 && !jump
                &&& m1.next_state == KnightPlayerState::Idle
                &&& m1.is_attack2_step_done
                &&& motion == (if m.is_attack2_step_done {
                    KnightMotion::Stay
                } else {
                    KnightMotion::Lunge
                })
            }
        }),
{
}

/// In the air and on the ground after a jump: a roll rolls on and then
/// idles; a rising knight keeps jumping up and a falling one comes down;
/// a falling knight lands when grounded; a landing knight then idles. In
/// the air a held direction steps at the run speed, on landing at the
/// landing speed; none of these jumps again.
pub proof fn lemma_knight_player_air(m: KnightMoves, keys: KnightKeys, senses: KnightSenses)
    ensures
        ({
            let (m1, jump, motion) = knight_control(m, keys, senses);
            let dir = keys.is_left_action || keys.is_right_action;
            &&& m.curr_state == KnightPlayerState::Roll ==> m1.curr_state == KnightPlayerState::Roll
                && m1.next_state == KnightPlayerState::Idle && !jump && motion == KnightMotion::Roll
            &&& m.curr_state == KnightPlayerState::JumpUp ==> {
                &&& !jump
                &&& senses.rising ==> m1.curr_state == KnightPlayerState::JumpUp && m1.next_state
                    == KnightPlayerState::JumpUp
                &&& !senses.rising ==> m1.curr_state == KnightPlayerState::JumpDown
                &&& dir ==> motion == (KnightMotion::Step {
                    to_right: keys.is_right_action,
                    landing: false,
                })
                &&& !dir ==> motion == KnightMotion::Stay
            }
            &&& m.curr_state == KnightPlayerState::JumpDown ==> {
                &&& !jump
                &&& senses.grounded ==> m1.curr_state == KnightPlayerState::JumpLanding
                &&& !senses.grounded ==> m1.curr_state == KnightPlayerState::JumpDown
                    && m1.next_state == KnightPlayerState::JumpDown
                &&& dir ==> motion == (KnightMotion::Step {
                    to_right: keys.is_right_action,
                    landing: false,
                })
                &&& !dir ==> motion == KnightMotion::Stay
            }
            &&& m.curr_state == KnightPlayerState::JumpLanding ==> {
                &&& !jump
                &&& m1.curr_state == KnightPlayerState::JumpLanding
                &&& m1.next_state == KnightPlayerState::Idle
                &&& dir ==> motion == (KnightMotion::Step {
                    to_right: keys.is_right_action,
                    landing: true,
                })
                &&& !dir ==> motion == KnightMotion::Stay
            }
        }),
{
}

/// A whole frame from running: when the knight is still running after the
/// animation check (its run loop has not ended, or it hands over to a
/// queued run), a fresh roll press makes it roll and play the roll clip,
/// whatever else is held.
pub proof fn lemma_knight_player_frame_rolls(m: KnightMoves, input: InputView, senses: KnightSenses)
    requires
        knight_after_animation(m, senses.animation_finished).curr_state == KnightPlayerState::Run,
        knight_keys(input).is_roll_action,
    ensures
        ({
            let (m1, jump, motion) = knight_control(
                knight_after_animation(m, senses.animation_finished),
                knight_keys(input),
                senses,
            );
            &&& m1.curr_state == KnightPlayerState::Roll
            &&& !jump && motion == KnightMotion::Stay
            &&& knight_clip(m1.curr_state).name@ == "knight_roll"@
            &&& !knight_clip(m1.curr_state).is_repeat
        }),
{
}

/// Each state plays its own clip: the loops of standing and running, and
/// the one-shot clips of the roll, the jump phases and the three attacks.
pub proof fn lemma_knight_player_clips()
    ensures
        knight_clip(KnightPlayerState::Idle).name@ == "knight_idle"@,
        knight_clip(KnightPlayerState::Idle).is_repeat,
        knight_clip(KnightPlayerState::Run).name@ == "knight_run"@,
        knight_clip(KnightPlayerState::Run).is_repeat,
        knight_clip(KnightPlayerState::Roll).name@ == "knight_roll"@,
        !knight_clip(KnightPlayerState::Roll).is_repeat,
        knight_clip(KnightPlayerState::JumpUp).name@ == "knight_jump_up"@,
        !knight_clip(KnightPlayerState::JumpUp).is_repeat,
        knight_clip(KnightPlayerState::JumpDown).name@ == "knight_jump_down"@,
        !knight_clip(KnightPlayerState::JumpDown).is_repeat,
        knight_clip(KnightPlayerState::JumpLanding).name@ == "knight_jump_landing"@,
        !knight_clip(KnightPlayerState::JumpLanding).is_repeat,
        knight_clip(KnightPlayerState::Attack0).name@ == "knight_attack_0"@,
        !knight_clip(KnightPlayerState::Attack0).is_repeat,
        knight_clip(KnightPlayerState::Attack1).name@ == "knight_attack_1"@,
        !knight_clip(KnightPlayerState::Attack1).is_repeat,
        knight_clip(KnightPlayerState::Attack2).name@ == "knight_attack_2"@,
        !knight_clip(KnightPlayerState::Attack2).is_repeat,
{
}

/// The keys the knight reads: attack, jump and roll on a fresh press of
/// Space, W and left Ctrl; left and right while A and D are held.
pub proof fn lemma_knight_player_keys(input: InputView)
    ensures
        knight_keys(input).is_attack_action == input.key_is_pressed[key_index(KEYCODE_SPACE as int)],
        knight_keys(input).is_jump_action == input.key_is_pressed[key_index(KEYCODE_W as int)],
        knight_keys(input).is_roll_action == input.key_is_pressed[key_index(KEYCODE_LCTRL as int)],
        knight_keys(input).is_left_action == input.key_is_down[key_index(KEYCODE_A as int)],
        knight_keys(input).is_right_action == input.key_is_down[key_index(KEYCODE_D as int)],
{
}

// ---------------------------------------------------------------------------
// Wolf AI

#[derive(Clone, Copy, PartialEq, Eq, Debug, Structural)]
pub enum WolfAIState {
    Idle,
    Run,
    Attack,
}

pub struct WolfAI {
    pub curr_state: WolfAIState,
    pub next_state: WolfAIState,
}

pub open spec fn wolf_ai_clip(s: WolfAIState) -> AnimationClip {
    match s {
        WolfAIState::Idle => AnimationClip { name: "wolf_idle", is_repeat: true },
        WolfAIState::Run => AnimationClip { name: "wolf_run", is_repeat: true },
        WolfAIState::Attack => AnimationClip { name: "wolf_attack", is_repeat: false },
    }
}

/// Each wolf state plays its own clip: rest and run loop, the attack plays
/// once.
pub proof fn lemma_wolf_ai_clips()
    ensures
        wolf_ai_clip(WolfAIState::Idle).name@ == "wolf_idle"@,
        wolf_ai_clip(WolfAIState::Idle).is_repeat,
        wolf_ai_clip(WolfAIState::Run).name@ == "wolf_run"@,
        wolf_ai_clip(WolfAIState::Run).is_repeat,
        wolf_ai_clip(WolfAIState::Attack).name@ == "wolf_attack"@,
        !wolf_ai_clip(WolfAIState::Attack).is_repeat,
{
}

impl WolfAI {
    pub fn new() -> (w: Self)
        ensures
            w.curr_state == WolfAIState::Idle,
            w.next_state == WolfAIState::Idle,
    {
        Self { curr_state: WolfAIState::Idle, next_state: WolfAIState::Idle }
    }
}

/// One frame of a wolf: a finished animation hands over to the queued state
/// (the queue itself is kept); returns the animation for the wolf's state.
pub fn update_wolf_ai(wolf: &mut WolfAI, animation_finished: bool) -> (clip: AnimationClip)
    ensures
        final(wolf).curr_state == (if animation_finished {
            old(wolf).next_state
        } else {
            old(wolf).curr_state
        }),
        final(wolf).next_state == old(wolf).next_state,
        clip == wolf_ai_clip(final(wolf).curr_state),
{
    if animation_finished {
        wolf.curr_state = wolf.next_state;
    }
    match wolf.curr_state {
        WolfAIState::Idle => AnimationClip { name: "wolf_idle", is_repeat: true },
        WolfAIState::Run => AnimationClip { name: "wolf_run", is_repeat: true },
        WolfAIState::Attack => AnimationClip { name: "wolf_attack", is_repeat: false },
    }
}

// ---------------------------------------------------------------------------
// Entity slots

pub const MAX_N_ENTITIES: usize = 1024;

/// Takes the next free entity slot of a game that holds `n_entities`
/// entities: none when all slots are taken.
pub fn new_entity(n_entities: &mut usize) -> (idx: Option<usize>)
    requires
        *old(n_entities) <= MAX_N_ENTITIES,
    ensures
        *old(n_entities) == MAX_N_ENTITIES ==> idx is None && *final(n_entities) == MAX_N_ENTITIES,
        *old(n_entities) < MAX_N_ENTITIES ==> idx == Some(*old(n_entities)) && *final(n_entities)
            == *old(n_entities) + 1,
{
    if *n_entities == MAX_N_ENTITIES {
        return None;
    }
    let idx = *n_entities;
    *n_entities = *n_entities + 1;
    Some(idx)
}

} // verus!
