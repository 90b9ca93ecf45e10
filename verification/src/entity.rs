use crate::utils::urand;
use vstd::prelude::*;
use vstd::std_specs::convert::FromSpec;

verus! {

/// What drives an entity.
#[derive(Copy, Clone, Debug, PartialEq, Eq, Structural)]
pub enum Behaviour {
    Player,
    Rat,
    Bat,
    RatNest,
    RatKing,
}

/// The high-level state of a living entity.
#[derive(Clone, Copy, Debug, PartialEq, Eq, Structural)]
pub enum State {
    Initial,
    Idle,
    Running,
    Dashing,
    Attacking,
    Falling,
    Jumping,
    Healing,
    Climbing,
    Dead,
}

/// The way an entity faces.
#[derive(Clone, Copy, Debug, PartialEq, Eq, Structural)]
pub enum Orientation {
    Left,
    Right,
}

impl Orientation {
    /// The orientation that `set_orientation(is_right)` gives an entity.
    pub fn from_is_right(is_right: bool) -> (o: Orientation)
        ensures
            o == (if is_right { Orientation::Right } else { Orientation::Left }),
    {
        if is_right {
            Orientation::Right
        } else {
            Orientation::Left
        }
    }
}

// ---------------------------------------------------------------------------
// Ability phases

/// The phase of an ability (an attack, a jump, a dash, a heal).
/// Once started an ability goes through anticipation, action, recovery and
/// cooldown, each phase lasting a fixed time, and is then ready again.
#[derive(Clone, Copy, Debug, PartialEq, Eq, Structural)]
pub enum AbilityState {
    Ready,
    Anticipation,
    Action,
    Recovery,
    Cooldown,
}

/// What one tick of an ability's clock does.
#[derive(Clone, Copy, Debug, PartialEq, Eq, Structural)]
pub struct AbilityStep {
    /// The phase after the tick.
    pub state: AbilityState,
    /// The time spent in the phase goes back to zero.
    pub restart_clock: bool,
    /// The action phase began on this tick.
    pub action_started: bool,
}

/// The phase that follows a phase whose time is up; `Ready` does not end.
pub open spec fn next_phase(s: AbilityState) -> AbilityState {
    match s {
        AbilityState::Anticipation => AbilityState::Action,
        AbilityState::Action => AbilityState::Recovery,
        AbilityState::Recovery => AbilityState::Cooldown,
        AbilityState::Cooldown => AbilityState::Ready,
        AbilityState::Ready => AbilityState::Ready,
    }
}

/// An ability counts as started from anticipation to recovery.
pub open spec fn phase_is_started(s: AbilityState) -> bool {
    s == AbilityState::Anticipation || s == AbilityState::Action || s == AbilityState::Recovery
}

/// The effect of one clock tick on a phase: when the phase's time is up
/// (and the ability is not idle) it moves on and its clock restarts.
pub open spec fn phase_tick(s: AbilityState, phase_elapsed: bool) -> AbilityStep {
    if phase_elapsed && s != AbilityState::Ready {
        AbilityStep {
            state: next_phase(s),
            restart_clock: true,
            action_started: s == AbilityState::Anticipation,
        }
    } else {
        AbilityStep { state: s, restart_clock: false, action_started: false }
    }
}

impl AbilityState {
    pub fn check_if_ready(self) -> (r: bool)
        ensures
            r == (self == AbilityState::Ready),
    {
        self == AbilityState::Ready
    }

    pub fn check_if_anticipation(self) -> (r: bool)
        ensures
            r == (self == AbilityState::Anticipation),
    {
        self == AbilityState::Anticipation
    }

    pub fn check_if_action(self) -> (r: bool)
        ensures
            r == (self == AbilityState::Action),
    {
        self == AbilityState::Action
    }

    pub fn check_if_recovery(self) -> (r: bool)
        ensures
            r == (self == AbilityState::Recovery),
    {
        self == AbilityState::Recovery
    }

    pub fn check_if_cooldown(self) -> (r: bool)
        ensures
            r == (self == AbilityState::Cooldown),
    {
        self == AbilityState::Cooldown
    }

    pub fn check_if_started(self) -> (r: bool)
        ensures
            r == phase_is_started(self),
    {
        self == AbilityState::Anticipation || self == AbilityState::Action || self
            == AbilityState::Recovery
    }

    /// One tick of the ability clock; `phase_elapsed` tells whether the time
    /// spent in the current phase has reached that phase's duration.
    pub fn tick(self, phase_elapsed: bool) -> (step: AbilityStep)
        ensures
            step == phase_tick(self, phase_elapsed),
    {
        let elapsed_here = phase_elapsed && self != AbilityState::Ready;
        if !elapsed_here {
            return AbilityStep { state: self, restart_clock: false, action_started: false };
        }
        let state = match self {
            AbilityState::Anticipation => AbilityState::Action,
            AbilityState::Action => AbilityState::Recovery,
            AbilityState::Recovery => AbilityState::Cooldown,
            AbilityState::Cooldown => AbilityState::Ready,
            AbilityState::Ready => AbilityState::Ready,
        };
        AbilityStep {
            state,
            restart_clock: true,
            action_started: self == AbilityState::Anticipation,
        }
    }

    /// Forcing a start begins anticipation with a fresh clock, whatever
    /// the phase.
    pub fn force_start(self) -> (step: AbilityStep)
        ensures
            step == (AbilityStep {
                state: AbilityState::Anticipation,
                restart_clock: true,
                action_started: false,
            }),
    {
        AbilityStep { state: AbilityState::Anticipation, restart_clock: true, action_started: false }
    }

    /// Forcing a stop cuts the action phase short: an ability in action goes
    /// to recovery (with its clock restarted); any other phase is kept.
    pub fn force_stop(self) -> (step: AbilityStep)
        ensures
            self == AbilityState::Action ==> step == (AbilityStep {
                state: AbilityState::Recovery,
                restart_clock: true,
                action_started: false,
            }),
            self != AbilityState::Action ==> step == (AbilityStep {
                state: self,
                restart_clock: false,
                action_started: false,
            }),
    {
        if self == AbilityState::Action {
            AbilityStep { state: AbilityState::Recovery, restart_clock: true, action_started: false }
        } else {
            AbilityStep { state: self, restart_clock: false, action_started: false }
        }
    }
}

/// Once started, an ability whose every phase runs out goes through action,
/// recovery and cooldown back to ready in four ticks, and its action starts on
/// the first of them and on no other.
pub proof fn lemma_ability_cycle()
    ensures
        phase_tick(AbilityState::Anticipation, true).state == AbilityState::Action,
        phase_tick(AbilityState::Anticipation, true).action_started,
        phase_tick(AbilityState::Action, true).state == AbilityState::Recovery,
        !phase_tick(AbilityState::Action, true).action_started,
        phase_tick(AbilityState::Recovery, true).state == AbilityState::Cooldown,
        !phase_tick(AbilityState::Recovery, true).action_started,
        phase_tick(AbilityState::Cooldown, true).state == AbilityState::Ready,
        !phase_tick(AbilityState::Cooldown, true).action_started,
{
}

/// A tick never starts an action unless the ability was in anticipation, and
/// a ready ability stays ready whatever its clock says.
pub proof fn lemma_ability_tick_facts(s: AbilityState, elapsed: bool)
    ensures
        phase_tick(s, elapsed).action_started ==> s == AbilityState::Anticipation,
        phase_tick(AbilityState::Ready, elapsed).state == AbilityState::Ready,
        !elapsed ==> phase_tick(s, elapsed).state == s,
{
}

// ---------------------------------------------------------------------------
// Particle slots

/// Number of particle slots of an emitter.
pub const MAX_N_PARTICLES: usize = 10;

/// Sum of a sequence of draws.
pub open spec fn sum_of(s: Seq<usize>) -> int
    decreases s.len(),
{
    if s.len() == 0 {
        0
    } else {
        sum_of(s.drop_last()) + s.last()
    }
}

/// How many particles a run of random draws emits from a budget: all of
/// them when the budget is unlimited (`-1`), else no more than the budget.
pub open spec fn emission_total(n_to_emit: int, draws: Seq<usize>) -> int {
    if n_to_emit == -1 {
        sum_of(draws)
    } else if sum_of(draws) > n_to_emit {
        n_to_emit
    } else {
        sum_of(draws)
    }
}

/// The slot of the `i`-th live particle (oldest first) of a ring whose oldest
/// particle sits in slot `first`.
pub open spec fn ring_slot(first: int, i: int) -> int {
    (first + i) % (MAX_N_PARTICLES as int)
}

/// The bookkeeping of a particle emitter: how many particles it may still
/// emit (`-1` for no limit) and which of its ring of slots hold particles.
/// Slots are filled in ring order; when all are taken the oldest particle
/// is overwritten.
#[derive(Clone, Copy, Debug)]
pub struct ParticlePool {
    n_to_emit: i32,
    first_particle_idx: usize,
    n_particles: usize,
}

impl ParticlePool {
    #[verifier::type_invariant]
    spec fn inv(self) -> bool {
        &&& self.first_particle_idx < MAX_N_PARTICLES
        &&& self.n_particles <= MAX_N_PARTICLES
        &&& self.n_particles == 0 ==> self.first_particle_idx == 0
    }

    /// The remaining budget (`-1`: unlimited).
    pub closed spec fn budget(self) -> int {
        self.n_to_emit as int
    }

    /// Slot of the oldest live particle.
    pub closed spec fn first(self) -> int {
        self.first_particle_idx as int
    }

    /// Number of live particles.
    pub closed spec fn count(self) -> int {
        self.n_particles as int
    }

    /// The oldest particle's slot is a slot and the live particles fit in
    /// the ring.
    pub open spec fn slots_in_range(self) -> bool {
        0 <= self.first() < MAX_N_PARTICLES && 0 <= self.count() <= MAX_N_PARTICLES
    }

    /// Every pool keeps its particles within the ring.
    pub fn check_slots(&self)
        ensures
            self.slots_in_range(),
    {
        proof {
            use_type_invariant(self);
        }
    }

    /// No particles and no budget.
    pub fn empty() -> (p: Self)
        ensures
            p.budget() == 0,
            p.first() == 0,
            p.count() == 0,
    {
        ParticlePool { n_to_emit: 0, first_particle_idx: 0, n_particles: 0 }
    }

    /// Sets the number of particles still to emit (`-1`: unlimited); the
    /// particles already emitted are kept.
    pub fn set_budget(&mut self, n_to_emit: i32)
        ensures
            final(self).budget() == n_to_emit,
            final(self).first() == old(self).first(),
            final(self).count() == old(self).count(),
            final(self).slots_in_range(),
    {
        proof {
            use_type_invariant(&*self);
        }
        self.n_to_emit = n_to_emit;
    }

    pub fn n_to_emit(&self) -> (n: i32)
        ensures
            n == self.budget(),
    {
        self.n_to_emit
    }

    pub fn n_particles(&self) -> (n: usize)
        ensures
            n == self.count(),
    {
        self.n_particles
    }

    /// The budget part of the emitter's liveness: unlimited or not used up.
    pub fn has_budget(&self) -> (r: bool)
        ensures
            r == (self.budget() == -1 || self.budget() > 0),
    {
        self.n_to_emit == -1 || self.n_to_emit > 0
    }

    /// Slot of the `i`-th live particle, oldest first.
    pub fn live_slot(&self, i: usize) -> (slot: usize)
        requires
            i < self.count(),
        ensures
            slot == ring_slot(self.first(), i as int),
            slot < MAX_N_PARTICLES,
    {
        proof {
            use_type_invariant(self);
        }
        (self.first_particle_idx + i) % MAX_N_PARTICLES
    }

    /// Takes the slot for one new particle: the one after the youngest live
    /// particle; when every slot is live the oldest particle gives way.
    pub fn claim_slot(&mut self) -> (slot: usize)
        ensures
            slot == (if old(self).count() == 0 {
                0
            } else {
                ring_slot(old(self).first(), old(self).count())
            }),
            final(self).count() == (if old(self).count() < MAX_N_PARTICLES {
                old(self).count() + 1
            } else {
                MAX_N_PARTICLES as int
            }),
            final(self).first() == (if old(self).count() < MAX_N_PARTICLES {
                old(self).first()
            } else {
                ring_slot(old(self).first(), 1)
            }),
            final(self).budget() == old(self).budget(),
            final(self).slots_in_range(),
            // the new particle is the youngest live one
            slot == ring_slot(final(self).first(), final(self).count() - 1),
    {
        proof {
            use_type_invariant(&*self);
        }
        let idx = if self.n_particles == 0 {
            0
        } else {
            (self.first_particle_idx + self.n_particles) % MAX_N_PARTICLES
        };
        let n = self.n_particles + 1;
        if n > MAX_N_PARTICLES {
            self.n_particles = MAX_N_PARTICLES;
            self.first_particle_idx = (self.first_particle_idx + 1) % MAX_N_PARTICLES;
        } else {
            self.n_particles = n;
        }
        idx
    }

    /// Emits `n_emit` particles: the budget (if limited) goes down by that
    /// many and a slot is claimed for each; the slots are returned in the
    /// order they were claimed.
    pub fn emit(&mut self, n_emit: i32) -> (slots: Vec<usize>)
        requires
            0 <= n_emit,
            old(self).budget() != -1 ==> old(self).budget() - n_emit >= i32::MIN,
        ensures
            final(self).budget() == (if old(self).budget() == -1 {
                -1
            } else {
                old(self).budget() - n_emit
            }),
            slots.len() == n_emit,
            final(self).count() == (if old(self).count() + n_emit <= MAX_N_PARTICLES {
                old(self).count() + n_emit
            } else {
                MAX_N_PARTICLES as int
            }),
            forall|k: int| 0 <= k < slots.len() ==> #[trigger] slots@[k] < MAX_N_PARTICLES,
            final(self).slots_in_range(),
            // the last claimed slot holds the youngest particle
            n_emit > 0 ==> slots@.last() == ring_slot(final(self).first(), final(self).count() - 1),
    {
        proof {
            use_type_invariant(&*self);
        }
        if self.n_to_emit != -1 {
            self.n_to_emit = self.n_to_emit - n_emit;
        }
        let mut slots: Vec<usize> = Vec::new();
        let mut k: i32 = 0;
        while k < n_emit
            invariant
                0 <= k <= n_emit,
                slots.len() == k,
                self.budget() == (if old(self).budget() == -1 {
                    -1
                } else {
                    old(self).budget() - n_emit
                }),
                self.count() == (if old(self).count() + k <= MAX_N_PARTICLES {
                    old(self).count() + k
                } else {
                    MAX_N_PARTICLES as int
                }),
                forall|j: int| 0 <= j < slots.len() ==> #[trigger] slots@[j] < MAX_N_PARTICLES,
                k > 0 ==> slots@.last() == ring_slot(self.first(), self.count() - 1),
            decreases n_emit - k,
        {
            let slot = self.claim_slot();
            slots.push(slot);
            k = k + 1;
        }
        proof {
            use_type_invariant(&*self);
        }
        slots
    }

    /// How many particles a run of per-step draws emits from a budget, as the
    /// emitter counts them: the draws are added up, and with a limited budget
    /// the count stops at the budget.
    pub fn emission_from_draws(n_to_emit: i32, draws: &Vec<usize>) -> (n: i32)
        requires
            n_to_emit >= -1,
            sum_of(draws@) <= i32::MAX,
        ensures
            n == emission_total(n_to_emit as int, draws@),
    {
        let mut n_emit: i32 = 0;
        let mut i: usize = 0;
        while i < draws.len()
            invariant
                i <= draws.len(),
                n_to_emit >= -1,
                sum_of(draws@) <= i32::MAX,
                n_emit == sum_of(draws@.take(i as int)),
                n_to_emit != -1 ==> n_emit <= n_to_emit,
            decreases draws.len() - i,
        {
            proof {
                lemma_sum_prefix_le(draws@, i as int + 1);
                lemma_sum_prefix_le(draws@, i as int);
                assert(draws@.take(i as int + 1).drop_last() == draws@.take(i as int));
                assert(draws@.take(i as int + 1).last() == draws@[i as int]);
            }
            let d = draws[i];
            if n_to_emit != -1 && n_emit as i64 + d as i64 > n_to_emit as i64 {
                proof {
                    lemma_emission_capped_stays(n_to_emit as int, draws@, i as int + 1);
                }
                return n_to_emit;
            }
            n_emit = n_emit + d as i32;
            i = i + 1;
        }
        proof {
            assert(draws@.take(draws.len() as int) == draws@);
        }
        n_emit
    }

    /// How many particles the emitter emits on one update. `ttl_left` tells
    /// whether the emitter's time to live has not run out, `burst` whether
    /// its emit period is zero (everything left is emitted at once), and
    /// `n_steps` how many emit periods have passed; each period draws a
    /// count from `per_step` at random.
    pub fn plan_emission(
        &self,
        ttl_left: bool,
        burst: bool,
        n_steps: usize,
        per_step: (usize, usize),
    ) -> (n: i32)
        requires
            ttl_left && self.has_budget_spec() && burst ==> self.budget() != -1,
            ttl_left && self.has_budget_spec() && !burst ==> {
                &&& per_step.0 <= per_step.1
                &&& self.budget() == -1 ==> n_steps * per_step.1 <= i32::MAX
            },
        ensures
            !(ttl_left && self.has_budget_spec()) ==> n == 0,
            ttl_left && self.has_budget_spec() && burst ==> n == self.budget(),
            ttl_left && self.has_budget_spec() && !burst ==> exists|draws: Seq<usize>|
                {
                    &&& draws.len() <= n_steps
                    &&& forall|k: int|
                        0 <= k < draws.len() ==> per_step.0 <= #[trigger] draws[k] <= per_step.1
                    &&& draws.len() < n_steps ==> sum_of(draws) > self.budget() && self.budget()
                        != -1
                    &&& n == emission_total(self.budget(), draws)
                },
            0 <= n,
            self.budget() > 0 ==> n <= self.budget(),
    {
        if !(ttl_left && self.has_budget()) {
            return 0;
        }
        if burst {
            return self.n_to_emit;
        }
        let mut n_emit: i32 = 0;
        let ghost mut draws: Seq<usize> = Seq::empty();
        let mut i: usize = 0;
        while i < n_steps
            invariant
                i <= n_steps,
                draws.len() == i,
                ttl_left,
                !burst,
                self.has_budget_spec(),
                per_step.0 <= per_step.1,
                forall|k: int| 0 <= k < draws.len() ==> per_step.0 <= #[trigger] draws[k] <= per_step.1,
                self.budget() == -1 ==> n_steps * per_step.1 <= i32::MAX,
                self.budget() == -1 ==> sum_of(draws) <= i * per_step.1,
                self.budget() != -1 ==> sum_of(draws) <= self.budget(),
                n_emit == sum_of(draws),
                0 <= n_emit,
            decreases n_steps - i,
        {
            let d = urand(per_step.0, per_step.1);
            let ghost before = n_emit;
            proof {
                let old_draws = draws;
                draws = draws.push(d);
                assert(draws.drop_last() == old_draws);
                assert(draws.last() == d);
                assert(sum_of(draws) == before + d);
                if self.budget() == -1 {
                    assert(i * per_step.1 + per_step.1 == (i + 1) * per_step.1) by (nonlinear_arith);
                    assert((i + 1) * per_step.1 <= n_steps * per_step.1) by (nonlinear_arith)
                        requires
                            i + 1 <= n_steps,
                    ;
                }
            }
            i = i + 1;
            if self.n_to_emit != -1 && d > (self.n_to_emit - n_emit) as usize {
                // the budget is reached: emit what is left of it and stop drawing
                proof {
                    assert(draws.len() <= n_steps);
                    assert(sum_of(draws) > self.budget());
                    assert(self.n_to_emit == emission_total(self.budget(), draws));
                    assert(forall|k: int|
                        0 <= k < draws.len() ==> per_step.0 <= #[trigger] draws[k] <= per_step.1);
                }
                return self.n_to_emit;
            }
            n_emit = n_emit + d as i32;
        }
        proof {
            lemma_sum_nonneg(draws);
            assert(draws.len() <= n_steps);
            assert(n_emit == emission_total(self.budget(), draws));
        }
        n_emit
    }

    /// One update of the emitter's bookkeeping: plan how many particles to
    /// emit (see `plan_emission`) and claim a slot for each. The live count
    /// never drops, an unlimited budget stays unlimited and a limited one
    /// only goes down, never below zero.
    pub fn update_emission(
        &mut self,
        ttl_left: bool,
        burst: bool,
        n_steps: usize,
        per_step: (usize, usize),
    ) -> (slots: Vec<usize>)
        requires
            ttl_left && old(self).has_budget_spec() && burst ==> old(self).budget() != -1,
            ttl_left && old(self).has_budget_spec() && !burst ==> {
                &&& per_step.0 <= per_step.1
                &&& old(self).budget() == -1 ==> n_steps * per_step.1 <= i32::MAX
            },
        ensures
            !(ttl_left && old(self).has_budget_spec()) ==> slots.len() == 0,
            ttl_left && old(self).has_budget_spec() && burst ==> slots.len() == old(self).budget(),
            ttl_left && old(self).has_budget_spec() && !burst ==> exists|draws: Seq<usize>|
                {
                    &&& draws.len() <= n_steps
                    &&& forall|k: int|
                        0 <= k < draws.len() ==> per_step.0 <= #[trigger] draws[k] <= per_step.1
                    &&& draws.len() < n_steps ==> sum_of(draws) > old(self).budget() && old(
                        self,
                    ).budget() != -1
                    &&& slots.len() == emission_total(old(self).budget(), draws)
                },
            final(self).budget() == (if old(self).budget() == -1 {
                -1
            } else {
                old(self).budget() - slots.len()
            }),
            final(self).count() == (if old(self).count() + slots.len() <= MAX_N_PARTICLES {
                old(self).count() + slots.len()
            } else {
                MAX_N_PARTICLES as int
            }),
            forall|k: int| 0 <= k < slots.len() ==> #[trigger] slots@[k] < MAX_N_PARTICLES,
            final(self).slots_in_range(),
            final(self).count() >= old(self).count(),
            old(self).budget() == -1 ==> final(self).budget() == -1,
            old(self).budget() >= 0 ==> 0 <= final(self).budget() <= old(self).budget(),
    {
        proof {
            use_type_invariant(&*self);
        }
        let n = self.plan_emission(ttl_left, burst, n_steps, per_step);
        self.emit(n)
    }

    pub closed spec fn has_budget_spec(self) -> bool {
        self.n_to_emit == -1 || self.n_to_emit > 0
    }
}

/// The live particles of a pool sit in distinct slots of the ring.
pub proof fn lemma_live_slots_distinct(first: int, count: int, i: int, j: int)
    requires
        0 <= first < MAX_N_PARTICLES,
        count <= MAX_N_PARTICLES,
        0 <= i < j < count,
    ensures
        0 <= ring_slot(first, i) < MAX_N_PARTICLES,
        ring_slot(first, i) != ring_slot(first, j),
{
}

/// A prefix of non-negative draws never sums to more than the whole.
pub proof fn lemma_sum_prefix_le(s: Seq<usize>, k: int)
    requires
        0 <= k <= s.len(),
    ensures
        sum_of(s.take(k)) <= sum_of(s),
        0 <= sum_of(s.take(k)),
    decreases s.len(),
{
    if k == s.len() {
        assert(s.take(k) == s);
        lemma_sum_nonneg(s);
    } else {
        assert(s.drop_last().take(k) == s.take(k));
        lemma_sum_prefix_le(s.drop_last(), k);
    }
}

pub proof fn lemma_sum_nonneg(s: Seq<usize>)
    ensures
        0 <= sum_of(s),
    decreases s.len(),
{
    if s.len() > 0 {
        lemma_sum_nonneg(s.drop_last());
    }
}

/// Once a limited count has gone past the budget, drawing more keeps it at
/// the budget.
pub proof fn lemma_emission_capped_stays(n_to_emit: int, s: Seq<usize>, k: int)
    requires
        n_to_emit >= 0,
        0 <= k <= s.len(),
        sum_of(s.take(k)) > n_to_emit,
    ensures
        emission_total(n_to_emit, s) == n_to_emit,
{
    lemma_sum_prefix_le(s, k);
}

// ---------------------------------------------------------------------------
// Spawner

/// Spawns entities of one behaviour now and then, up to a total number and
/// with a cap on how many of them live at once. Times and distances are of
/// any scalar type.
pub struct Spawner<S> {
    pub spawn_period: S,
    pub n_to_spawn: u32,
    pub n_alive_max: u32,
    pub n_alive_current: u32,
    pub behaviour: Behaviour,
    pub countdown: S,
    pub spawn_range_x: S,
    pub spawn_range_y: S,
}

impl<S: From<i8>> Spawner<S> {
    pub fn new(
        spawn_period: S,
        n_to_spawn: u32,
        n_alive_max: u32,
        behaviour: Behaviour,
        spawn_range_x: S,
        spawn_range_y: S,
    ) -> (s: Self)
        ensures
            s.spawn_period == spawn_period,
            s.n_to_spawn == n_to_spawn,
            s.n_alive_max == n_alive_max,
            s.n_alive_current == 0,
            s.behaviour == behaviour,
            call_ensures(S::from, (0i8,), s.countdown),
            S::obeys_from_spec() ==> s.countdown == S::from_spec(0i8),
            s.spawn_range_x == spawn_range_x,
            s.spawn_range_y == spawn_range_y,
    {
        Self {
            spawn_period,
            n_to_spawn,
            n_alive_max,
            n_alive_current: 0,
            behaviour,
            countdown: S::from(0i8),
            spawn_range_x,
            spawn_range_y,
        }
    }
}

/// A spawner after deciding whether to spawn now, and whether it did.
pub open spec fn spawn_step<S>(s: Spawner<S>, countdown_over: bool) -> (Spawner<S>, bool) {
    if countdown_over && s.n_to_spawn > 0 && s.n_alive_current < s.n_alive_max {
        (
            Spawner {
                n_to_spawn: (s.n_to_spawn - 1) as u32,
                n_alive_current: (s.n_alive_current + 1) as u32,
                ..s
            },
            true,
        )
    } else {
        (s, false)
    }
}

/// A spawner never has more of its entities alive than its cap: spawning
/// keeps the count within the cap, and each spawn moves one entity from
/// those left to spawn to those alive.
pub proof fn lemma_spawn_respects_cap<S>(s: Spawner<S>, countdown_over: bool)
    requires
        s.n_alive_current <= s.n_alive_max,
    ensures
        ({
            let (t, spawned) = spawn_step(s, countdown_over);
            &&& t.n_alive_current <= t.n_alive_max
            &&& t.n_to_spawn + t.n_alive_current == s.n_to_spawn + s.n_alive_current
            &&& spawned ==> t.n_alive_current == s.n_alive_current + 1
        }),
{
}

impl<S> Spawner<S> {
    /// Decides whether to spawn now: the countdown must be over, some
    /// entities must be left to spawn and fewer than the cap alive. A spawn
    /// uses up one entity and counts it alive.
    pub fn take_spawn(&mut self, countdown_over: bool) -> (spawned: bool)
        ensures
            spawned == (countdown_over && old(self).n_to_spawn > 0 && old(self).n_alive_current
                < old(self).n_alive_max),
            spawned ==> final(self).n_to_spawn == old(self).n_to_spawn - 1
                && final(self).n_alive_current == old(self).n_alive_current + 1,
            !spawned ==> final(self).n_to_spawn == old(self).n_to_spawn
                && final(self).n_alive_current == old(self).n_alive_current,
            final(self).n_alive_max == old(self).n_alive_max,
            final(self).behaviour == old(self).behaviour,
            final(self).spawn_period == old(self).spawn_period,
            final(self).countdown == old(self).countdown,
            final(self).spawn_range_x == old(self).spawn_range_x,
            final(self).spawn_range_y == old(self).spawn_range_y,
            (*final(self), spawned) == spawn_step(*old(self), countdown_over),
    {
        if countdown_over && self.n_to_spawn > 0 && self.n_alive_current < self.n_alive_max {
            self.n_to_spawn = self.n_to_spawn - 1;
            self.n_alive_current = self.n_alive_current + 1;
            true
        } else {
            false
        }
    }

    /// One of the spawned entities died.
    pub fn release(&mut self)
        requires
            old(self).n_alive_current > 0,
        ensures
            final(self).n_alive_current == old(self).n_alive_current - 1,
            final(self).n_to_spawn == old(self).n_to_spawn,
            final(self).n_alive_max == old(self).n_alive_max,
            final(self).behaviour == old(self).behaviour,
            final(self).spawn_period == old(self).spawn_period,
            final(self).countdown == old(self).countdown,
            final(self).spawn_range_x == old(self).spawn_range_x,
            final(self).spawn_range_y == old(self).spawn_range_y,
    {
        self.n_alive_current = self.n_alive_current - 1;
    }
}

} // verus!
