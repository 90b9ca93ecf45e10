use crate::game::AnimationClip;
use vstd::prelude::*;

verus! {

#[derive(PartialEq, Eq, Debug, Clone, Copy, Structural)]
pub enum State {
    Idle,
    Run,
    AttackPrepare,
    AttackBite,
}

pub open spec fn wolf_clip(s: State) -> AnimationClip {
    match s {
        State::Idle => AnimationClip { name: "wolf_idle", is_repeat: true },
        State::Run => AnimationClip { name: "wolf_run", is_repeat: true },
        State::AttackPrepare => AnimationClip { name: "wolf_attack_prepare", is_repeat: false },
        State::AttackBite => AnimationClip { name: "wolf_attack_bite", is_repeat: false },
    }
}

/// The animation each state plays.
pub fn clip(s: State) -> (c: AnimationClip)
    ensures
        c == wolf_clip(s),
{
    match s {
        State::Idle => AnimationClip { name: "wolf_idle", is_repeat: true },
        State::Run => AnimationClip { name: "wolf_run", is_repeat: true },
        State::AttackPrepare => AnimationClip { name: "wolf_attack_prepare", is_repeat: false },
        State::AttackBite => AnimationClip { name: "wolf_attack_bite", is_repeat: false },
    }
}

/// How far the player is, against the wolf's view and attack distances.
#[derive(Clone, Copy, Debug, PartialEq, Eq, Structural)]
pub struct WolfSenses {
    /// distance <= view distance
    pub within_view: bool,
    /// distance < view distance
    pub inside_view: bool,
    /// distance >= view distance
    pub beyond_view: bool,
    /// distance <= attack distance
    pub within_attack: bool,
    /// distance > attack distance
    pub beyond_attack: bool,
}

/// How a distance compares with a threshold (`Unordered` when the
/// distance is not a number).
#[derive(Clone, Copy, Debug, PartialEq, Eq, Structural)]
pub enum DistanceOrder {
    Less,
    Equal,
    Greater,
    Unordered,
}

/// The senses a distance gives, compared with the view distance and with
/// the attack distance.
pub open spec fn wolf_senses_of(to_view: DistanceOrder, to_attack: DistanceOrder) -> WolfSenses {
    WolfSenses {
        within_view: to_view == DistanceOrder::Less || to_view == DistanceOrder::Equal,
        inside_view: to_view == DistanceOrder::Less,
        beyond_view: to_view == DistanceOrder::Equal || to_view == DistanceOrder::Greater,
        within_attack: to_attack == DistanceOrder::Less || to_attack == DistanceOrder::Equal,
        beyond_attack: to_attack == DistanceOrder::Greater,
    }
}

impl WolfSenses {
    /// Senses that some distance to the player gives.
    pub open spec fn is_consistent(&self) -> bool {
        exists|a: DistanceOrder, b: DistanceOrder| *self == #[trigger] wolf_senses_of(a, b)
    }

    /// The senses of a distance, from how it compares with the view and the
    /// attack distances.
    pub fn from_distance(to_view: DistanceOrder, to_attack: DistanceOrder) -> (s: WolfSenses)
        ensures
            s == wolf_senses_of(to_view, to_attack),
            s.is_consistent(),
    {
        let s = WolfSenses {
            within_view: to_view == DistanceOrder::Less || to_view == DistanceOrder::Equal,
            inside_view: to_view == DistanceOrder::Less,
            beyond_view: to_view == DistanceOrder::Equal || to_view == DistanceOrder::Greater,
            within_attack: to_attack == DistanceOrder::Less || to_attack == DistanceOrder::Equal,
            beyond_attack: to_attack == DistanceOrder::Greater,
        };
        assert(s == wolf_senses_of(to_view, to_attack));
        s
    }
}

/// What the wolf does in a frame, before its animation is looked at.
#[derive(Clone, Debug)]
pub struct WolfPlan {
    /// Turn towards the player.
    pub look_at_player: bool,
    /// The states entered, in order; each one's animation is to be played.
    pub entered: Vec<State>,
    /// Take a step towards the player (and look that way).
    pub step: bool,
}

/// The wolf's state and the state queued after its animation.
#[derive(Clone, Copy, Debug, PartialEq, Eq, Structural)]
pub struct WolfControl {
    pub curr_state: State,
    pub next_state: State,
}

/// The wolf's control after its frame, the states it entered and whether
/// it steps.
pub open spec fn wolf_plan(c: WolfControl, s: WolfSenses) -> (WolfControl, Seq<State>, bool) {
    match c.curr_state {
        State::Idle => if s.inside_view {
            (WolfControl { curr_state: State::Run, ..c }, seq![State::Idle, State::Run], false)
        } else {
            (WolfControl { curr_state: State::Idle, ..c }, seq![State::Idle], false)
        },
        State::Run => if s.within_attack {
            (WolfControl { curr_state: State::AttackPrepare, ..c }, seq![State::AttackPrepare], false)
        } else if s.beyond_view {
            (WolfControl { curr_state: State::Idle, ..c }, seq![State::Idle], false)
        } else {
            (c, Seq::empty(), true)
        },
        State::AttackPrepare => if s.beyond_attack {
            (WolfControl { next_state: State::Run, ..c }, Seq::empty(), false)
        } else {
            (WolfControl { next_state: State::AttackBite, ..c }, Seq::empty(), false)
        },
        State::AttackBite => if s.beyond_attack {
            (WolfControl { curr_state: State::Run, ..c }, seq![State::Run], false)
        } else {
            (WolfControl { next_state: State::AttackPrepare, ..c }, Seq::empty(), false)
        },
    }
}

impl WolfControl {
    pub fn new() -> (c: Self)
        ensures
            c == (WolfControl { curr_state: State::Idle, next_state: State::Idle }),
    {
        WolfControl { curr_state: State::Idle, next_state: State::Idle }
    }

    /// Enters a state (its animation is to be played).
    pub fn set_curr_state(&mut self, state: State)
        ensures
            *final(self) == (WolfControl { curr_state: state, ..*old(self) }),
    {
        self.curr_state = state;
    }

    pub fn set_next_state(&mut self, state: State)
        ensures
            *final(self) == (WolfControl { next_state: state, ..*old(self) }),
    {
        self.next_state = state;
    }

    /// The wolf's frame up to its animation check: it watches the player
    /// while in view, runs at it, prepares and bites when close, and gives up
    /// when the player is out of view.
    pub fn update(&mut self, senses: WolfSenses) -> (plan: WolfPlan)
        ensures
            ({
                let (c, states, step) = wolf_plan(*old(self), senses);
                &&& *final(self) == c
                &&& plan.entered@ == states
                &&& plan.step == step
                &&& plan.look_at_player == senses.within_view
            }),
    {
        let mut entered_states: Vec<State> = Vec::new();
        let mut step = false;
        match self.curr_state {
            State::Idle => {
                self.set_curr_state(State::Idle);
                entered_states.push(State::Idle);
                if senses.inside_view {
                    self.set_curr_state(State::Run);
                    entered_states.push(State::Run);
                }
            },
            State::Run => {
                if senses.within_attack {
                    self.set_curr_state(State::AttackPrepare);
                    entered_states.push(State::AttackPrepare);
                } else if senses.beyond_view {
                    self.set_curr_state(State::Idle);
                    entered_states.push(State::Idle);
                } else {
                    step = true;
                }
            },
            State::AttackPrepare => {
                if senses.beyond_attack {
                    self.set_next_state(State::Run);
                } else {
                    self.set_next_state(State::AttackBite);
                }
            },
            State::AttackBite => {
                if senses.beyond_attack {
                    self.set_curr_state(State::Run);
                    entered_states.push(State::Run);
                } else {
                    self.set_next_state(State::AttackPrepare);
                }
            },
        }
        proof {
            assert(seq![State::Idle].push(State::Run) == seq![State::Idle, State::Run]);
        }
        WolfPlan { look_at_player: senses.within_view, entered: entered_states, step }
    }

    /// The animation check that ends the wolf's frame: when the animation
    /// has played out the queued state is entered (and returned).
    pub fn finish(&mut self, animation_finished: bool) -> (state: Option<State>)
        ensures
            animation_finished ==> state == Some(old(self).next_state) && *final(self) == (WolfControl {
                curr_state: old(self).next_state,
                ..*old(self)
            }),
            !animation_finished ==> state is None && *final(self) == *old(self),
    {
        if animation_finished {
            let next = self.next_state;
            self.set_curr_state(next);
            Some(next)
        } else {
            None
        }
    }
}

/// The wolf closes in only while it runs, with the player in view and out
/// of its bite.
pub proof fn lemma_wolf_steps_only_when_chasing(c: WolfControl, s: WolfSenses)
    ensures
        wolf_plan(c, s).2 ==> c.curr_state == State::Run && !s.within_attack && !s.beyond_view,
{
}

/// A bite is queued only while the wolf prepares one, or bites with the
/// player still in reach; a frame never queues it otherwise.
pub proof fn lemma_wolf_bites_after_preparing(c: WolfControl, s: WolfSenses)
    ensures
        wolf_plan(c, s).0.next_state == State::AttackBite ==> c.next_state == State::AttackBite
            || (c.curr_state == State::AttackPrepare && !s.beyond_attack),
{
}

/// A resting wolf always re-enters its rest (its animation plays again),
/// and sets off running at a player strictly inside its view; it does not
/// step in this frame and keeps its queue.
pub proof fn lemma_wolf_idle(c: WolfControl, s: WolfSenses)
    requires
        c.curr_state == State::Idle,
    ensures
        ({
            let (c1, states, step) = wolf_plan(c, s);
            &&& !step && c1.next_state == c.next_state
            &&& s.inside_view ==> c1.curr_state == State::Run && states == seq![State::Idle, State::Run]
            &&& !s.inside_view ==> c1.curr_state == State::Idle && states == seq![State::Idle]
        }),
{
}

/// A running wolf starts preparing a bite once the player is within its
/// attack distance; else it gives up when the player is out of view; else
/// it steps towards the player, keeping its state and queue.
pub proof fn lemma_wolf_run(c: WolfControl, s: WolfSenses)
    requires
        c.curr_state == State::Run,
    ensures
        ({
            let (c1, states, step) = wolf_plan(c, s);
            &&& c1.next_state == c.next_state
            &&& s.within_attack ==> c1.curr_state == State::AttackPrepare && !step && states == seq![
                State::AttackPrepare,
            ]
            &&& !s.within_attack && s.beyond_view ==> c1.curr_state == State::Idle && !step
                && states == seq![State::Idle]
            &&& !s.within_attack && !s.beyond_view ==> c1 == c && step && states.len() == 0
        }),
{
}

/// A wolf preparing a bite keeps preparing this frame and queues what
/// follows the preparation: the bite while the player is in reach, a run
/// after the player once it is beyond the attack distance.
pub proof fn lemma_wolf_prepare(c: WolfControl, s: WolfSenses)
    requires
        c.curr_state == State::AttackPrepare,
    ensures
        ({
            let (c1, states, step) = wolf_plan(c, s);
            &&& c1.curr_state == State::AttackPrepare && !step && states.len() == 0
            &&& s.beyond_attack ==> c1.next_state == State::Run
            &&& !s.beyond_attack ==> c1.next_state == State::AttackBite
        }),
{
}

/// A biting wolf whose player got beyond the attack distance runs after it
/// at once; with the player still in reach it queues another preparation.
pub proof fn lemma_wolf_bite(c: WolfControl, s: WolfSenses)
    requires
        c.curr_state == State::AttackBite,
    ensures
        ({
            let (c1, states, step) = wolf_plan(c, s);
            &&& !step
            &&& s.beyond_attack ==> c1.curr_state == State::Run && c1.next_state == c.next_state
                && states == seq![State::Run]
            &&& !s.beyond_attack ==> c1.curr_state == State::AttackBite && c1.next_state
                == State::AttackPrepare && states.len() == 0
        }),
{
}

/// A preparation is queued only from a bite with the player still in
/// reach; a frame never queues it otherwise.
pub proof fn lemma_wolf_prepares_only_after_biting(c: WolfControl, s: WolfSenses)
    ensures
        wolf_plan(c, s).0.next_state == State::AttackPrepare ==> c.next_state == State::AttackPrepare
            || (c.curr_state == State::AttackBite && !s.beyond_attack),
{
}

/// A player who escapes a preparing wolf is chased: once the preparation's
/// animation ends the wolf is running.
pub proof fn lemma_wolf_chases_an_escaped_player(c: WolfControl, s: WolfSenses)
    requires
        c.curr_state == State::AttackPrepare,
        s.beyond_attack,
    ensures
        wolf_plan(c, s).0.next_state == State::Run,
{
}

/// Each state plays its own clip: rest and run loop, the two attack
/// phases play once.
pub proof fn lemma_wolf_clips()
    ensures
        wolf_clip(State::Idle).name@ == "wolf_idle"@,
        wolf_clip(State::Idle).is_repeat,
        wolf_clip(State::Run).name@ == "wolf_run"@,
        wolf_clip(State::Run).is_repeat,
        wolf_clip(State::AttackPrepare).name@ == "wolf_attack_prepare"@,
        !wolf_clip(State::AttackPrepare).is_repeat,
        wolf_clip(State::AttackBite).name@ == "wolf_attack_bite"@,
        !wolf_clip(State::AttackBite).is_repeat,
{
}

} // verus!
