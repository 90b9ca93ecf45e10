use crate::entity::{phase_tick, AbilityState};
use std::ops::Add;
use vstd::prelude::*;
use vstd::std_specs::cmp::PartialOrdSpec;
use vstd::std_specs::convert::FromSpec;
use vstd::std_specs::ops::AddSpec;

verus! {

/// An ability's phase with the clock that moves it on, over any scalar
/// type of time: the time spent in the phase and each phase's duration.
#[derive(Clone, Copy, Debug)]
pub struct AbilityTimer<S> {
    pub state: AbilityState,
    pub state_time: S,
    pub anticipation_time: S,
    pub action_time: S,
    pub recovery_time: S,
    pub cooldown_time: S,
}

/// How long the current phase lasts (a ready ability has no end; its
/// duration is never looked at).
pub open spec fn phase_duration<S>(t: AbilityTimer<S>) -> S {
    match t.state {
        AbilityState::Anticipation => t.anticipation_time,
        AbilityState::Action => t.action_time,
        AbilityState::Recovery => t.recovery_time,
        _ => t.cooldown_time,
    }
}

/// The phase's time is up: the ability is not idle and the time spent has
/// reached the phase's duration.
pub open spec fn phase_is_over<S: PartialOrd>(state: AbilityState, spent: S, duration: S) -> bool {
    state != AbilityState::Ready && spent.partial_cmp_spec(&duration) matches Some(
        core::cmp::Ordering::Greater | core::cmp::Ordering::Equal,
    )
}

impl<S: Copy + Add<Output = S> + PartialOrd + From<i8>> AbilityTimer<S> {
    /// A ready ability with the given phase durations.
    pub fn new(anticipation_time: S, action_time: S, recovery_time: S, cooldown_time: S) -> (t: Self)
        ensures
            t.state == AbilityState::Ready,
            call_ensures(S::from, (0i8,), t.state_time),
            S::obeys_from_spec() ==> t.state_time == S::from_spec(0i8),
            t.anticipation_time == anticipation_time,
            t.action_time == action_time,
            t.recovery_time == recovery_time,
            t.cooldown_time == cooldown_time,
    {
        AbilityTimer {
            state: AbilityState::Ready,
            state_time: S::from(0i8),
            anticipation_time,
            action_time,
            recovery_time,
            cooldown_time,
        }
    }

    /// Starts the ability: anticipation with a fresh clock.
    pub fn force_start(&mut self)
        ensures
            final(self).state == AbilityState::Anticipation,
            call_ensures(S::from, (0i8,), final(self).state_time),
            S::obeys_from_spec() ==> final(self).state_time == S::from_spec(0i8),
            final(self).anticipation_time == old(self).anticipation_time,
            final(self).action_time == old(self).action_time,
            final(self).recovery_time == old(self).recovery_time,
            final(self).cooldown_time == old(self).cooldown_time,
    {
        self.state = AbilityState::Anticipation;
        self.state_time = S::from(0i8);
    }

    /// Cuts the action short: an ability in action goes to recovery with a
    /// fresh clock; in any other phase nothing changes.
    pub fn force_stop(&mut self)
        ensures
            old(self).state == AbilityState::Action ==> {
                &&& final(self).state == AbilityState::Recovery
                &&& call_ensures(S::from, (0i8,), final(self).state_time)
                &&& S::obeys_from_spec() ==> final(self).state_time == S::from_spec(0i8)
            },
            old(self).state != AbilityState::Action ==> final(self).state == old(self).state
                && final(self).state_time == old(self).state_time,
            final(self).anticipation_time == old(self).anticipation_time,
            final(self).action_time == old(self).action_time,
            final(self).recovery_time == old(self).recovery_time,
            final(self).cooldown_time == old(self).cooldown_time,
    {
        if self.state == AbilityState::Action {
            self.state = AbilityState::Recovery;
            self.state_time = S::from(0i8);
        }
    }

    /// Advances the clock by `dt`: the time spent grows by `dt`; when it
    /// reaches the phase's duration the ability moves to the next phase
    /// with a fresh clock. Returns whether the action phase began.
    pub fn update(&mut self, dt: S) -> (action_started: bool)
        requires
            old(self).state_time.add_req(dt),
        ensures
            final(self).anticipation_time == old(self).anticipation_time,
            final(self).action_time == old(self).action_time,
            final(self).recovery_time == old(self).recovery_time,
            final(self).cooldown_time == old(self).cooldown_time,
            // the phase moves as the phase rule says, for whether the time was up
            exists|over: bool|
                {
                    &&& final(self).state == phase_tick(old(self).state, over).state
                    &&& action_started == phase_tick(old(self).state, over).action_started
                    &&& !over ==> call_ensures(S::add, (old(self).state_time, dt), final(self).state_time)
                    &&& over ==> call_ensures(S::from, (0i8,), final(self).state_time)
                },
            // for a time type whose addition, comparison and zero obey their
            // specifications, exactly:
            S::obeys_add_spec() && S::obeys_partial_cmp_spec() && S::obeys_from_spec() ==> {
                let spent = old(self).state_time.add_spec(dt);
                let over = phase_is_over(old(self).state, spent, phase_duration(*old(self)));
                &&& final(self).state == phase_tick(old(self).state, over).state
                &&& action_started == phase_tick(old(self).state, over).action_started
                &&& final(self).state_time == (if over {
                    S::from_spec(0i8)
                } else {
                    spent
                })
            },
    {
        let spent = self.state_time + dt;
        let duration = match self.state {
            AbilityState::Anticipation => self.anticipation_time,
            AbilityState::Action => self.action_time,
            AbilityState::Recovery => self.recovery_time,
            _ => self.cooldown_time,
        };
        let over = self.state != AbilityState::Ready && spent >= duration;
        let step = self.state.tick(over);
        self.state = step.state;
        if step.restart_clock {
            self.state_time = S::from(0i8);
        } else {
            self.state_time = spent;
        }
        step.action_started
    }
}

/// Each phase runs for its own duration (a cooldown, and the unused
/// duration of a ready ability, are the cooldown time), and a ready ability
/// never runs out of time.
pub proof fn lemma_phase_durations<S: PartialOrd>(t: AbilityTimer<S>, spent: S)
    ensures
        t.state == AbilityState::Anticipation ==> phase_duration(t) == t.anticipation_time,
        t.state == AbilityState::Action ==> phase_duration(t) == t.action_time,
        t.state == AbilityState::Recovery ==> phase_duration(t) == t.recovery_time,
        t.state == AbilityState::Cooldown ==> phase_duration(t) == t.cooldown_time,
        !phase_is_over(AbilityState::Ready, spent, phase_duration(t)),
{
}

} // verus!
