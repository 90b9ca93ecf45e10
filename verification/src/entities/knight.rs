use crate::game::{AnimationClip, KnightKeys};
use vstd::prelude::*;

verus! {

#[derive(PartialEq, Eq, Debug, Clone, Copy, Structural)]
pub enum State {
    Idle,
    Run,
    Roll,
    JumpUp,
    JumpDown,
    JumpLanding,
    Attack0,
    Attack1,
    Attack2,
}

pub open spec fn knight_clip(s: State) -> AnimationClip {
    match s {
        State::Idle => AnimationClip { name: "knight_idle", is_repeat: true },
        State::Run => AnimationClip { name: "knight_run", is_repeat: true },
        State::Roll => AnimationClip { name: "knight_roll", is_repeat: false },
        State::JumpUp => AnimationClip { name: "knight_jump_up", is_repeat: false },
        State::JumpDown => AnimationClip { name: "knight_jump_down", is_repeat: false },
        State::JumpLanding => AnimationClip { name: "knight_jump_landing", is_repeat: false },
        State::Attack0 => AnimationClip { name: "knight_attack_0", is_repeat: false },
        State::Attack1 => AnimationClip { name: "knight_attack_1", is_repeat: false },
        State::Attack2 => AnimationClip { name: "knight_attack_2", is_repeat: false },
    }
}

/// The animation each state plays.
pub fn clip(s: State) -> (c: AnimationClip)
    ensures
        c == knight_clip(s),
{
    match s {
        State::Idle => AnimationClip { name: "knight_idle", is_repeat: true },
        State::Run => AnimationClip { name: "knight_run", is_repeat: true },
        State::Roll => AnimationClip { name: "knight_roll", is_repeat: false },
        State::JumpUp => AnimationClip { name: "knight_jump_up", is_repeat: false },
        State::JumpDown => AnimationClip { name: "knight_jump_down", is_repeat: false },
        State::JumpLanding => AnimationClip { name: "knight_jump_landing", is_repeat: false },
        State::Attack0 => AnimationClip { name: "knight_attack_0", is_repeat: false },
        State::Attack1 => AnimationClip { name: "knight_attack_1", is_repeat: false },
        State::Attack2 => AnimationClip { name: "knight_attack_2", is_repeat: false },
    }
}

/// What the knight's body and animation tell its controller.
#[derive(Clone, Copy, Debug, PartialEq, Eq, Structural)]
pub struct KnightSenses {
    /// It moves downwards.
    pub falling: bool,
    /// It moves upwards.
    pub rising: bool,
    pub grounded: bool,
    /// The current attack animation is far enough along to chain a combo.
    pub combo_window_open: bool,
}

/// How the knight moves horizontally.
#[derive(Clone, Copy, Debug, PartialEq, Eq, Structural)]
pub enum Motion {
    Stay,
    /// One attack step where it looks.
    Lunge,
    /// A roll where it looks, slowing as the roll goes on.
    Roll,
    /// A step in the keys' direction (right when `to_right`), at the landing
    /// speed when `landing` else at the move speed; it then looks that way.
    Step { to_right: bool, landing: bool },
}

/// What the knight does in a frame, before its animation is looked at.
#[derive(Clone, Debug)]
pub struct KnightPlan {
    /// The states entered, in order; each one's animation is to be played.
    pub entered: Vec<State>,
    /// Push the knight up by its jump speed.
    pub jump: bool,
    pub motion: Motion,
}

/// The knight's moves: its state, the state queued after the current
/// animation ends, whether a combo can still be chained and whether the
/// third attack's step was taken.
#[derive(Clone, Copy, Debug, PartialEq, Eq, Structural)]
pub struct KnightControl {
    pub curr_state: State,
    pub next_state: State,
    pub can_perform_combo: bool,
    pub is_attack2_step_done: bool,
}

/// Entering a state: a change of state clears the queue.
pub open spec fn entered(c: KnightControl, s: State) -> KnightControl {
    if c.curr_state != s {
        KnightControl { curr_state: s, next_state: State::Idle, ..c }
    } else {
        KnightControl { curr_state: s, ..c }
    }
}

pub open spec fn step_of(keys: KnightKeys, landing: bool) -> Motion {
    if keys.is_left_action || keys.is_right_action {
        Motion::Step { to_right: keys.is_right_action, landing }
    } else {
        Motion::Stay
    }
}

/// The knight's control after its frame, the states it entered, whether
/// it jumps and how it moves.
pub open spec fn knight_plan(c0: KnightControl, keys: KnightKeys, senses: KnightSenses) -> (
    KnightControl,
    Seq<State>,
    bool,
    Motion,
) {
    let (c, pre) = if senses.falling {
        (entered(c0, State::JumpDown), seq![State::JumpDown])
    } else {
        (c0, Seq::<State>::empty())
    };
    match c.curr_state {
        State::Idle => {
            let c1 = entered(c, State::Idle);
            if keys.is_attack_action {
                (
                    KnightControl { can_perform_combo: true, ..entered(c1, State::Attack0) },
                    pre + seq![State::Idle, State::Attack0],
                    false,
                    Motion::Stay,
                )
            } else if keys.is_jump_action {
                (entered(c1, State::JumpUp), pre + seq![State::Idle, State::JumpUp], true, Motion::Stay)
            } else if keys.is_left_action || keys.is_right_action {
                (entered(c1, State::Run), pre + seq![State::Idle, State::Run], false, Motion::Stay)
            } else {
                (c1, pre + seq![State::Idle], false, Motion::Stay)
            }
        },
        State::Attack0 => {
            let c1 = KnightControl { is_attack2_step_done: false, ..c };
            if keys.is_attack_action && c1.can_perform_combo {
                if senses.combo_window_open {
                    (KnightControl { next_state: State::Attack1, ..c1 }, pre, false, Motion::Stay)
                } else {
                    (KnightControl { can_perform_combo: false, ..c1 }, pre, false, Motion::Stay)
                }
            } else {
                (c1, pre, false, Motion::Stay)
            }
        },
        State::Attack1 => if keys.is_attack_action && c.can_perform_combo {
            if senses.combo_window_open {
                (KnightControl { next_state: State::Attack2, ..c }, pre, false, Motion::Stay)
            } else {
                (KnightControl { can_perform_combo: false, ..c }, pre, false, Motion::Stay)
            }
        } else {
            (c, pre, false, Motion::Stay)
        },
        State::Attack2 => if !c.is_attack2_step_done {
            (KnightControl { is_attack2_step_done: true, ..c }, pre, false, Motion::Lunge)
        } else {
            (c, pre, false, Motion::Stay)
        },
        State::Run => if keys.is_roll_action {
            (entered(c, State::Roll), pre.push(State::Roll), false, Motion::Stay)
        } else if keys.is_jump_action {
            (entered(c, State::JumpUp), pre.push(State::JumpUp), true, Motion::Stay)
        } else if keys.is_attack_action {
            (
                KnightControl { can_perform_combo: true, ..entered(c, State::Attack0) },
                pre.push(State::Attack0),
                false,
                Motion::Stay,
            )
        } else if keys.is_left_action || keys.is_right_action {
            (c, pre, false, step_of(keys, false))
        } else {
            (entered(c, State::Idle), pre.push(State::Idle), false, Motion::Stay)
        },
        State::Roll => (c, pre, false, Motion::Roll),
        State::JumpUp => {
            let c1 = if senses.rising {
                KnightControl { next_state: State::JumpUp, ..c }
            } else {
                KnightControl { next_state: State::JumpDown, ..c }
            };
            (c1, pre, false, step_of(keys, false))
        },
        State::JumpDown => {
            let c1 = if senses.grounded {
                KnightControl { next_state: State::JumpLanding, ..c }
            } else {
                KnightControl { next_state: State::JumpDown, ..c }
            };
            (c1, pre, false, step_of(keys, false))
        },
        State::JumpLanding => (c, pre, false, step_of(keys, true)),
    }
}

impl KnightControl {
    pub fn new() -> (c: Self)
        ensures
            c == (KnightControl {
                curr_state: State::Idle,
                next_state: State::Idle,
                can_perform_combo: false,
                is_attack2_step_done: false,
            }),
    {
        KnightControl {
            curr_state: State::Idle,
            next_state: State::Idle,
            can_perform_combo: false,
            is_attack2_step_done: false,
        }
    }

    /// Enters a state (its animation is to be played): a change of state
    /// clears the queued state.
    pub fn set_curr_state(&mut self, state: State)
        ensures
            *final(self) == entered(*old(self), state),
    {
        if self.curr_state != state {
            self.next_state = State::Idle;
        }
        self.curr_state = state;
    }

    pub fn set_next_state(&mut self, state: State)
        ensures
            *final(self) == (KnightControl { next_state: state, ..*old(self) }),
    {
        self.next_state = state;
    }

    fn enter(&mut self, state: State, entered_states: &mut Vec<State>)
        ensures
            *final(self) == entered(*old(self), state),
            final(entered_states)@ == old(entered_states)@.push(state),
    {
        self.set_curr_state(state);
        entered_states.push(state);
    }

    fn step(keys: KnightKeys, landing: bool) -> (m: Motion)
        ensures
            m == step_of(keys, landing),
    {
        if keys.is_left_action || keys.is_right_action {
            Motion::Step { to_right: keys.is_right_action, landing }
        } else {
            Motion::Stay
        }
    }

    /// The knight's frame up to its animation check: a falling knight is
    /// jumping down, then its state decides what the keys do.
    pub fn update(&mut self, keys: KnightKeys, senses: KnightSenses) -> (plan: KnightPlan)
        ensures
            ({
                let (c, states, jump, motion) = knight_plan(*old(self), keys, senses);
                &&& *final(self) == c
                &&& plan.entered@ == states
                &&& plan.jump == jump
                &&& plan.motion == motion
            }),
    {
        let mut entered_states: Vec<State> = Vec::new();
        let mut jump = false;
        let mut motion = Motion::Stay;
        let is_step_action = keys.is_left_action || keys.is_right_action;
        if senses.falling {
            self.enter(State::JumpDown, &mut entered_states);
        }
        let ghost pre = entered_states@;
        match self.curr_state {
            State::Idle => {
                self.enter(State::Idle, &mut entered_states);
                if keys.is_attack_action {
                    self.enter(State::Attack0, &mut entered_states);
                    self.can_perform_combo = true;
                } else if keys.is_jump_action {
                    self.enter(State::JumpUp, &mut entered_states);
                    jump = true;
                } else if is_step_action {
                    self.enter(State::Run, &mut entered_states);
                }
                proof {
                    assert(pre.push(State::Idle) == pre + seq![State::Idle]);
                    assert(pre.push(State::Idle).push(State::Attack0) == pre + seq![
                        State::Idle,
                        State::Attack0,
                    ]);
                    assert(pre.push(State::Idle).push(State::JumpUp) == pre + seq![
                        State::Idle,
                        State::JumpUp,
                    ]);
                    assert(pre.push(State::Idle).push(State::Run) == pre + seq![State::Idle, State::Run]);
                }
            },
            State::Attack0 => {
                self.is_attack2_step_done = false;
                if keys.is_attack_action && self.can_perform_combo {
                    if senses.combo_window_open {
                        self.set_next_state(State::Attack1);
                    } else {
                        self.can_perform_combo = false;
                    }
                }
            },
            State::Attack1 => {
                if keys.is_attack_action && self.can_perform_combo {
                    if senses.combo_window_open {
                        self.set_next_state(State::Attack2);
                    } else {
                        self.can_perform_combo = false;
                    }
                }
            },
            State::Attack2 => {
                if !self.is_attack2_step_done {
                    motion = Motion::Lunge;
                    self.is_attack2_step_done = true;
                }
            },
            State::Run => {
                if keys.is_roll_action {
                    self.enter(State::Roll, &mut entered_states);
                } else if keys.is_jump_action {
                    self.enter(State::JumpUp, &mut entered_states);
                    jump = true;
                } else if keys.is_attack_action {
                    self.enter(State::Attack0, &mut entered_states);
                    self.can_perform_combo = true;
                } else if is_step_action {
                    motion = Self::step(keys, false);
                } else {
                    self.enter(State::Idle, &mut entered_states);
                }
            },
            State::Roll => {
                motion = Motion::Roll;
            },
            State::JumpUp => {
                if senses.rising {
                    self.set_next_state(State::JumpUp);
                } else {
                    self.set_next_state(State::JumpDown);
                }
                motion = Self::step(keys, false);
            },
            State::JumpDown => {
                if senses.grounded {
                    self.set_next_state(State::JumpLanding);
                } else {
                    self.set_next_state(State::JumpDown);
                }
                motion = Self::step(keys, false);
            },
            State::JumpLanding => {
                motion = Self::step(keys, true);
            },
        }
        KnightPlan { entered: entered_states, jump, motion }
    }

    /// The animation check that ends the knight's frame: when the animation
    /// has played out the queued state is entered (and returned, its
    /// animation to be played).
    pub fn finish(&mut self, animation_finished: bool) -> (state: Option<State>)
        ensures
            animation_finished ==> state == Some(old(self).next_state) && *final(self) == entered(
                *old(self),
                old(self).next_state,
            ),
            !animation_finished ==> state is None && *final(self) == *old(self),
            *final(self) == knight_finish(*old(self), animation_finished),
    {
        if animation_finished {
            let next = self.next_state;
            self.set_curr_state(next);
            Some(next)
        } else {
            None
        }
    }
}

/// The knight's control after the animation check that ends a frame.
pub open spec fn knight_finish(c: KnightControl, animation_finished: bool) -> KnightControl {
    if animation_finished {
        entered(c, c.next_state)
    } else {
        c
    }
}

/// The knight takes off only from the ground: a frame pushes it up only
/// when it is not falling, stands or runs, and the jump key was pressed.
pub proof fn lemma_knight_jumps_only_from_ground(c: KnightControl, keys: KnightKeys, senses: KnightSenses)
    ensures
        knight_plan(c, keys, senses).2 ==> {
            &&& !senses.falling
            &&& c.curr_state == State::Idle || c.curr_state == State::Run
            &&& keys.is_jump_action
        },
{
}

/// The third attack steps forward once: after the frame that takes the
/// step, whatever the animation check does and whatever comes next, the
/// following frame takes no step.
pub proof fn lemma_knight_lunges_once(
    c: KnightControl,
    keys: KnightKeys,
    senses: KnightSenses,
    animation_finished: bool,
    next_keys: KnightKeys,
    next_senses: KnightSenses,
)
    requires
        knight_plan(c, keys, senses).3 == Motion::Lunge,
    ensures
        ({
            let c1 = knight_finish(knight_plan(c, keys, senses).0, animation_finished);
            knight_plan(c1, next_keys, next_senses).3 != Motion::Lunge
        }),
{
}

/// A falling knight is jumping down: whatever its state, the frame first
/// enters the downward jump (clearing the queue when that is a change),
/// and from there it lands once grounded; it never takes off.
pub proof fn lemma_knight_falling_jumps_down(c: KnightControl, keys: KnightKeys, senses: KnightSenses)
    requires
        senses.falling,
    ensures
        ({
            let (c1, states, jump, motion) = knight_plan(c, keys, senses);
            &&& states == seq![State::JumpDown]
            &&& c1.curr_state == State::JumpDown
            &&& !jump
            &&& senses.grounded ==> c1.next_state == State::JumpLanding
            &&& !senses.grounded ==> c1.next_state == State::JumpDown
            &&& motion == step_of(keys, false)
        }),
{
}

/// Standing (and not falling): an attack press starts the first attack
/// with a combo open, else a jump press jumps, else a held direction
/// starts a run, else the knight keeps standing; it never moves sideways
/// in this frame, and each entered state is listed after the standing one.
pub proof fn lemma_knight_idle(c: KnightControl, keys: KnightKeys, senses: KnightSenses)
    requires
        c.curr_state == State::Idle,
        !senses.falling,
    ensures
        ({
            let (c1, states, jump, motion) = knight_plan(c, keys, senses);
            let dir = keys.is_left_action || keys.is_right_action;
            &&& motion == Motion::Stay
            &&& keys.is_attack_action ==> c1.curr_state == State::Attack0 && c1.next_state
                == State::Idle && c1.can_perform_combo && !jump && states == seq![
                State::Idle,
                State::Attack0,
            ]
            &&& !keys.is_attack_action && keys.is_jump_action ==> c1.curr_state == State::JumpUp
                && c1.next_state == State::Idle && jump && states == seq![State::Idle, State::JumpUp]
            &&& !keys.is_attack_action && !keys.is_jump_action && dir ==> c1.curr_state == State::Run
                && !jump && states == seq![State::Idle, State::Run]
            &&& !keys.is_attack_action && !keys.is_jump_action && !dir ==> c1 == c && !jump
                && states == seq![State::Idle]
        }),
{
}

/// Running (and not falling): a fresh roll press rolls whatever else is
/// held; else a jump press jumps; else an attack press starts the first
/// attack with a combo open; else a held direction steps that way at the
/// run speed; else the knight stops and stands.
pub proof fn lemma_knight_run(c: KnightControl, keys: KnightKeys, senses: KnightSenses)
    requires
        c.curr_state == State::Run,
        !senses.falling,
    ensures
        ({
            let (c1, states, jump, motion) = knight_plan(c, keys, senses);
            let dir = keys.is_left_action || keys.is_right_action;
            &&& keys.is_roll_action ==> c1.curr_state == State::Roll && c1.next_state == State::Idle
                && !jump && motion == Motion::Stay && states == seq![State::Roll]
            &&& !keys.is_roll_action && keys.is_jump_action ==> c1.curr_state == State::JumpUp && jump
                && motion == Motion::Stay && states == seq![State::JumpUp]
            &&& !keys.is_roll_action && !keys.is_jump_action && keys.is_attack_action
                ==> c1.curr_state == State::Attack0 && c1.can_perform_combo && !jump && motion
                == Motion::Stay && states == seq![State::Attack0]
            &&& !keys.is_roll_action && !keys.is_jump_action && !keys.is_attack_action && dir
                ==> c1 == c && !jump && states.len() == 0 && motion == (Motion::Step {
                to_right: keys.is_right_action,
                landing: false,
            })
            &&& !keys.is_roll_action && !keys.is_jump_action && !keys.is_attack_action && !dir
                ==> c1.curr_state == State::Idle && !jump && motion == Motion::Stay && states
                == seq![State::Idle]
        }),
{
}

/// The attack combo only moves forward (when not falling): an attack press
/// inside the combo window queues the next attack (the second after the
/// first, the third after the second) while a combo is allowed; a press
/// outside the window spoils the combo; the third attack queues nothing new
/// and steps forward once. Attacks never jump, enter no state and keep
/// their state.
pub proof fn lemma_knight_attacks(c: KnightControl, keys: KnightKeys, senses: KnightSenses)
    requires
        !senses.falling,
    ensures
        ({
            let (c1, states, jump, motion) = knight_plan(c, keys, senses);
            let press = keys.is_attack_action && c.can_perform_combo;
            &&& c.curr_state == State::Attack0 ==> {
                &&& c1.curr_state == State::Attack0 && !jump && motion == Motion::Stay
                    && states.len() == 0 && !c1.is_attack2_step_done
                &&& press && senses.combo_window_open ==> c1.next_state == State::Attack1
                    && c1.can_perform_combo
                &&& press && !senses.combo_window_open ==> !c1.can_perform_combo && c1.next_state
                    == c.next_state
                &&& !press ==> c1.next_state == c.next_state && c1.can_perform_combo
                    == c.can_perform_combo
            }
            &&& c.curr_state == State::Attack1 ==> {
                &&& c1.curr_state == State::Attack1 && !jump && motion == Motion::Stay
                    && states.len() == 0
                &&& press && senses.combo_window_open ==> c1.next_state == State::Attack2
                    && c1.can_perform_combo
                &&& press && !senses.combo_window_open ==> !c1.can_perform_combo && c1.next_state
                    == c.next_state
                &&& !press ==> c1.next_state == c.next_state && c1.can_perform_combo
                    == c.can_perform_combo
            }
            &&& c.curr_state == State::Attack2 ==> {
                &&& c1.curr_state == State::Attack2 && !jump && states.len() == 0
                &&& c1.next_state == c.next_state
                &&& c1.is_attack2_step_done
                &&& motion == (if c.is_attack2_step_done {
                    Motion::Stay
                } else {
                    Motion::Lunge
                })
            }
        }),
{
}

/// A combo chain carried through the animation checks: pressing attack in
/// the window during the first attack and then during the second one,
/// with the animations ending in between, reaches the third attack.
pub proof fn lemma_knight_combo_reaches_third_attack(
    c: KnightControl,
    keys: KnightKeys,
    senses: KnightSenses,
    keys2: KnightKeys,
    senses2: KnightSenses,
)
    requires
        c.curr_state == State::Attack0,
        c.can_perform_combo,
        keys.is_attack_action,
        keys2.is_attack_action,
        senses.combo_window_open,
        senses2.combo_window_open,
        !senses.falling,
        !senses2.falling,
    ensures
        ({
            let c1 = knight_finish(knight_plan(c, keys, senses).0, true);
            let c2 = knight_finish(knight_plan(c1, keys2, senses2).0, true);
            &&& c1.curr_state == State::Attack1
            &&& c2.curr_state == State::Attack2
        }),
{
}

/// Off the ground (and not falling): a roll keeps rolling; a rising knight
/// queues more of the upward jump and a sinking one the downward jump; a
/// falling-phase knight queues the landing once grounded; a landing knight
/// steps at the landing speed. A held direction steers in the air at the
/// run speed; none of these jumps or enters a state.
pub proof fn lemma_knight_air(c: KnightControl, keys: KnightKeys, senses: KnightSenses)
    requires
        !senses.falling,
    ensures
        ({
            let (c1, states, jump, motion) = knight_plan(c, keys, senses);
            let dir = keys.is_left_action || keys.is_right_action;
            &&& c.curr_state == State::Roll ==> c1 == c && !jump && motion == Motion::Roll
                && states.len() == 0
            &&& c.curr_state == State::JumpUp ==> {
                &&& !jump && states.len() == 0 && c1.curr_state == State::JumpUp
                &&& senses.rising ==> c1.next_state == State::JumpUp
                &&& !senses.rising ==> c1.next_state == State::JumpDown
                &&& dir ==> motion == (Motion::Step { to_right: keys.is_right_action, landing: false })
                &&& !dir ==> motion == Motion::Stay
            }
            &&& c.curr_state == State::JumpDown ==> {
                &&& !jump && states.len() == 0 && c1.curr_state == State::JumpDown
                &&& senses.grounded ==> c1.next_state == State::JumpLanding
                &&& !senses.grounded ==> c1.next_state == State::JumpDown
                &&& dir ==> motion == (Motion::Step { to_right: keys.is_right_action, landing: false })
                &&& !dir ==> motion == Motion::Stay
            }
            &&& c.curr_state == State::JumpLanding ==> {
                &&& !jump && states.len() == 0 && c1 == c
                &&& dir ==> motion == (Motion::Step { to_right: keys.is_right_action, landing: true })
                &&& !dir ==> motion == Motion::Stay
            }
        }),
{
}

/// Entering a state: a change clears the queue, re-entering keeps it; the
/// combo flags are untouched either way.
pub proof fn lemma_knight_entered(c: KnightControl, s: State)
    ensures
        entered(c, s).curr_state == s,
        c.curr_state != s ==> entered(c, s).next_state == State::Idle,
        c.curr_state == s ==> entered(c, s) == c,
        entered(c, s).can_perform_combo == c.can_perform_combo,
        entered(c, s).is_attack2_step_done == c.is_attack2_step_done,
{
}

/// Each state plays its own clip: the loops of standing and running, and
/// the one-shot clips of the roll, the jump phases and the three attacks.
pub proof fn lemma_knight_clips()
    ensures
        knight_clip(State::Idle).name@ == "knight_idle"@,
        knight_clip(State::Idle).is_repeat,
        knight_clip(State::Run).name@ == "knight_run"@,
        knight_clip(State::Run).is_repeat,
        knight_clip(State::Roll).name@ == "knight_roll"@,
        !knight_clip(State::Roll).is_repeat,
        knight_clip(State::JumpUp).name@ == "knight_jump_up"@,
        !knight_clip(State::JumpUp).is_repeat,
        knight_clip(State::JumpDown).name@ == "knight_jump_down"@,
        !knight_clip(State::JumpDown).is_repeat,
        knight_clip(State::JumpLanding).name@ == "knight_jump_landing"@,
        !knight_clip(State::JumpLanding).is_repeat,
        knight_clip(State::Attack0).name@ == "knight_attack_0"@,
        !knight_clip(State::Attack0).is_repeat,
        knight_clip(State::Attack1).name@ == "knight_attack_1"@,
        !knight_clip(State::Attack1).is_repeat,
        knight_clip(State::Attack2).name@ == "knight_attack_2"@,
        !knight_clip(State::Attack2).is_repeat,
{
}

} // verus!
