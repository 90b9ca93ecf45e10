use crate::utils::str_eq;
use vstd::prelude::*;

verus! {

/// A skill of a skill tree; its effect is of any (copyable) type.
pub struct Skill<E> {
    pub name: String,
    pub description: String,
    pub effect: E,
}

impl<E> Skill<E> {
    pub fn from_str(name: &str, description: &str, effect: E) -> (s: Self)
        ensures
            s.name@ == name@,
            s.description@ == description@,
            s.effect == effect,
    {
        Skill { name: name.to_string(), description: description.to_string(), effect }
    }
}

/// A line of skills learned one after the other; the first `n_learned` are
/// learned.
pub struct SkillsChain<E> {
    pub skills: Vec<Skill<E>>,
    pub n_learned: usize,
}

impl<E> SkillsChain<E> {
    pub fn new(skills: Vec<Skill<E>>) -> (c: Self)
        ensures
            c.skills@ == skills@,
            c.n_learned == 0,
    {
        Self { skills, n_learned: 0 }
    }
}

/// The four skill lines of the player.
#[derive(Clone, Copy, Debug, PartialEq, Eq, Structural)]
pub enum SkillsChainType {
    Attack,
    Durability,
    Agility,
    Light,
}

/// The name of a skill line: the name of its field in `Stats` and of its
/// sprites in the sprite atlas.
pub open spec fn chain_type_name(t: SkillsChainType) -> Seq<char> {
    match t {
        SkillsChainType::Attack => "attack_skills"@,
        SkillsChainType::Durability => "durability_skills"@,
        SkillsChainType::Agility => "agility_skills"@,
        SkillsChainType::Light => "light_skills"@,
    }
}

impl SkillsChainType {
    /// The name of the line (see `chain_type_name`).
    pub fn name(self) -> (s: &'static str)
        ensures
            s@ == chain_type_name(self),
    {
        match self {
            SkillsChainType::Attack => "attack_skills",
            SkillsChainType::Durability => "durability_skills",
            SkillsChainType::Agility => "agility_skills",
            SkillsChainType::Light => "light_skills",
        }
    }
}

/// The four skill lines of the player, by the names the skill tree uses.
pub open spec fn is_chain_name(name: Seq<char>) -> bool {
    ||| name == "attack_skills"@
    ||| name == "durability_skills"@
    ||| name == "agility_skills"@
    ||| name == "light_skills"@
}

/// The player's level, experience and skills.
pub struct Stats<E> {
    pub level: usize,
    pub level_up_exp: usize,
    pub exp: usize,
    pub n_skill_points: usize,
    pub attack_skills: SkillsChain<E>,
    pub durability_skills: SkillsChain<E>,
    pub agility_skills: SkillsChain<E>,
    pub light_skills: SkillsChain<E>,
}

/// The skills of a line are, in order, the given names, descriptions and
/// effects, and none is learned yet.
pub open spec fn line_is<E>(
    c: SkillsChain<E>,
    names: Seq<Seq<char>>,
    descriptions: Seq<Seq<char>>,
    effects: Seq<E>,
) -> bool {
    &&& c.n_learned == 0
    &&& c.skills@.len() == names.len()
    &&& descriptions.len() == names.len()
    &&& effects.len() == names.len()
    &&& forall|i: int|
        0 <= i < names.len() ==> {
            &&& (#[trigger] c.skills@[i]).name@ == names[i]
            &&& c.skills@[i].description@ == descriptions[i]
            &&& c.skills@[i].effect == effects[i]
        }
}

/// A fresh line of three skills.
fn skill_line<E: Copy>(
    names: [&'static str; 3],
    descriptions: [&'static str; 3],
    effects: [E; 3],
) -> (c: SkillsChain<E>)
    ensures
        line_is(
            c,
            seq![names[0]@, names[1]@, names[2]@],
            seq![descriptions[0]@, descriptions[1]@, descriptions[2]@],
            effects@,
        ),
{
    let mut skills: Vec<Skill<E>> = Vec::new();
    skills.push(Skill::from_str(names[0], descriptions[0], effects[0]));
    skills.push(Skill::from_str(names[1], descriptions[1], effects[1]));
    skills.push(Skill::from_str(names[2], descriptions[2], effects[2]));
    SkillsChain::new(skills)
}

/// What learning a skill changes, with its factor (of any scalar type).
#[derive(Clone, Copy, Debug, PartialEq)]
pub enum SkillEffectType<S> {
    SetDamageMultiplier(S),
    SetSplashDamagePenalty(S),
    SetStaminaCostMultiplier(S),
    SetReceivedDamageMultiplier(S),
}

impl<S: Copy> Stats<SkillEffectType<S>> {
    /// A fresh character with the game's skill tree: three skills to each
    /// line, named "Attack 1" to "Light 3". The attack line multiplies the
    /// damage twice and then sets the splash damage penalty, durability
    /// multiplies the damage received, agility and light the stamina cost;
    /// the factors are given.
    pub fn new(attack: [S; 3], durability: [S; 3], agility: [S; 3], light: [S; 3]) -> (s: Self)
        ensures
            s.level == 1,
            s.level_up_exp == 50,
            s.exp == 0,
            s.n_skill_points == 3,
            line_is(
                s.attack_skills,
                seq!["Attack 1"@, "Attack 2"@, "Attack 3"@],
                seq!["This is attack 1"@, "This is attack 2"@, "This is attack 3"@],
                seq![
                    SkillEffectType::SetDamageMultiplier(attack@[0]),
                    SkillEffectType::SetDamageMultiplier(attack@[1]),
                    SkillEffectType::SetSplashDamagePenalty(attack@[2]),
                ],
            ),
            line_is(
                s.durability_skills,
                seq!["Durability 1"@, "Durability 2"@, "Durability 3"@],
                seq!["This is durability 1"@, "This is durability 2"@, "This is durability 3"@],
                seq![
                    SkillEffectType::SetReceivedDamageMultiplier(durability@[0]),
                    SkillEffectType::SetReceivedDamageMultiplier(durability@[1]),
                    SkillEffectType::SetReceivedDamageMultiplier(durability@[2]),
                ],
            ),
            line_is(
                s.agility_skills,
                seq!["Agility 1"@, "Agility 2"@, "Agility 3"@],
                seq!["This is agility 1"@, "This is agility 2"@, "This is agility 3"@],
                seq![
                    SkillEffectType::SetStaminaCostMultiplier(agility@[0]),
                    SkillEffectType::SetStaminaCostMultiplier(agility@[1]),
                    SkillEffectType::SetStaminaCostMultiplier(agility@[2]),
                ],
            ),
            line_is(
                s.light_skills,
                seq!["Light 1"@, "Light 2"@, "Light 3"@],
                seq!["This is light 1"@, "This is light 2"@, "This is light 3"@],
                seq![
                    SkillEffectType::SetStaminaCostMultiplier(light@[0]),
                    SkillEffectType::SetStaminaCostMultiplier(light@[1]),
                    SkillEffectType::SetStaminaCostMultiplier(light@[2]),
                ],
            ),
    {
        let attack_effects = [
            SkillEffectType::SetDamageMultiplier(attack[0]),
            SkillEffectType::SetDamageMultiplier(attack[1]),
            SkillEffectType::SetSplashDamagePenalty(attack[2]),
        ];
        let durability_effects = [
            SkillEffectType::SetReceivedDamageMultiplier(durability[0]),
            SkillEffectType::SetReceivedDamageMultiplier(durability[1]),
            SkillEffectType::SetReceivedDamageMultiplier(durability[2]),
        ];
        let agility_effects = [
            SkillEffectType::SetStaminaCostMultiplier(agility[0]),
            SkillEffectType::SetStaminaCostMultiplier(agility[1]),
            SkillEffectType::SetStaminaCostMultiplier(agility[2]),
        ];
        let light_effects = [
            SkillEffectType::SetStaminaCostMultiplier(light[0]),
            SkillEffectType::SetStaminaCostMultiplier(light[1]),
            SkillEffectType::SetStaminaCostMultiplier(light[2]),
        ];
        let attack_skills = skill_line(
            ["Attack 1", "Attack 2", "Attack 3"],
            ["This is attack 1", "This is attack 2", "This is attack 3"],
            attack_effects,
        );
        let durability_skills = skill_line(
            ["Durability 1", "Durability 2", "Durability 3"],
            ["This is durability 1", "This is durability 2", "This is durability 3"],
            durability_effects,
        );
        let agility_skills = skill_line(
            ["Agility 1", "Agility 2", "Agility 3"],
            ["This is agility 1", "This is agility 2", "This is agility 3"],
            agility_effects,
        );
        let light_skills = skill_line(
            ["Light 1", "Light 2", "Light 3"],
            ["This is light 1", "This is light 2", "This is light 3"],
            light_effects,
        );
        proof {
            assert(attack_effects@ =~= seq![
                SkillEffectType::SetDamageMultiplier(attack@[0]),
                SkillEffectType::SetDamageMultiplier(attack@[1]),
                SkillEffectType::SetSplashDamagePenalty(attack@[2]),
            ]);
            assert(durability_effects@ =~= seq![
                SkillEffectType::SetReceivedDamageMultiplier(durability@[0]),
                SkillEffectType::SetReceivedDamageMultiplier(durability@[1]),
                SkillEffectType::SetReceivedDamageMultiplier(durability@[2]),
            ]);
            assert(agility_effects@ =~= seq![
                SkillEffectType::SetStaminaCostMultiplier(agility@[0]),
                SkillEffectType::SetStaminaCostMultiplier(agility@[1]),
                SkillEffectType::SetStaminaCostMultiplier(agility@[2]),
            ]);
            assert(light_effects@ =~= seq![
                SkillEffectType::SetStaminaCostMultiplier(light@[0]),
                SkillEffectType::SetStaminaCostMultiplier(light@[1]),
                SkillEffectType::SetStaminaCostMultiplier(light@[2]),
            ]);
        }
        Self::with_chains(attack_skills, durability_skills, agility_skills, light_skills)
    }
}

impl<E: Copy> Stats<E> {

    /// A fresh character: level 1, 50 experience to the next level, no
    /// experience yet and 3 skill points, with the given skill lines.
    pub fn with_chains(
        attack_skills: SkillsChain<E>,
        durability_skills: SkillsChain<E>,
        agility_skills: SkillsChain<E>,
        light_skills: SkillsChain<E>,
    ) -> (s: Self)
        ensures
            s.level == 1,
            s.level_up_exp == 50,
            s.exp == 0,
            s.n_skill_points == 3,
            s.attack_skills == attack_skills,
            s.durability_skills == durability_skills,
            s.agility_skills == agility_skills,
            s.light_skills == light_skills,
    {
        Self {
            level: 1,
            level_up_exp: 50,
            exp: 0,
            n_skill_points: 3,
            attack_skills,
            durability_skills,
            agility_skills,
            light_skills,
        }
    }

    /// The skill line of a given name.
    pub open spec fn chain_named(self, name: Seq<char>) -> SkillsChain<E> {
        if name == "attack_skills"@ {
            self.attack_skills
        } else if name == "durability_skills"@ {
            self.durability_skills
        } else if name == "agility_skills"@ {
            self.agility_skills
        } else {
            self.light_skills
        }
    }

    /// Adds experience. Reaching the threshold levels the player up once:
    /// the threshold is paid out of the experience, the level and the skill
    /// points go up by one and the next threshold is `grow` of the old one.
    /// Returns whether the player levelled up.
    pub fn add_exp<F: Fn(usize) -> usize>(&mut self, value: usize, grow: F) -> (levelled: bool)
        requires
            old(self).exp + value <= usize::MAX,
            old(self).level < usize::MAX,
            old(self).n_skill_points < usize::MAX,
            call_requires(grow, (old(self).level_up_exp,)),
        ensures
            levelled == (old(self).exp + value >= old(self).level_up_exp),
            levelled ==> {
                &&& final(self).exp == old(self).exp + value - old(self).level_up_exp
                &&& final(self).level == old(self).level + 1
                &&& final(self).n_skill_points == old(self).n_skill_points + 1
                &&& call_ensures(grow, (old(self).level_up_exp,), final(self).level_up_exp)
            },
            !levelled ==> {
                &&& final(self).exp == old(self).exp + value
                &&& final(self).level == old(self).level
                &&& final(self).n_skill_points == old(self).n_skill_points
                &&& final(self).level_up_exp == old(self).level_up_exp
            },
            final(self).attack_skills == old(self).attack_skills,
            final(self).durability_skills == old(self).durability_skills,
            final(self).agility_skills == old(self).agility_skills,
            final(self).light_skills == old(self).light_skills,
    {
        self.exp = self.exp + value;
        if self.exp >= self.level_up_exp {
            self.exp = self.exp - self.level_up_exp;
            self.level = self.level + 1;
            self.n_skill_points = self.n_skill_points + 1;
            self.level_up_exp = grow(self.level_up_exp);
            return true;
        }
        false
    }

    /// Learns the next skill of the named line, paying one skill point, and
    /// returns its effect.
    pub fn force_learn_next(&mut self, name: &str) -> (effect: E)
        requires
            is_chain_name(name@),
            old(self).chain_named(name@).n_learned < old(self).chain_named(name@).skills.len(),
            old(self).n_skill_points >= 1,
        ensures
            effect == old(self).chain_named(name@).skills@[old(self).chain_named(
                name@,
            ).n_learned as int].effect,
            final(self).chain_named(name@).n_learned == old(self).chain_named(name@).n_learned + 1,
            final(self).chain_named(name@).skills == old(self).chain_named(name@).skills,
            final(self).n_skill_points == old(self).n_skill_points - 1,
            final(self).level == old(self).level,
            final(self).exp == old(self).exp,
            final(self).level_up_exp == old(self).level_up_exp,
            forall|other: Seq<char>|
                is_chain_name(other) && other != name@ ==> #[trigger] final(self).chain_named(other)
                    == old(self).chain_named(other),
    {
        let skills = self.get_skills_by_name(name);
        let effect = skills.skills[skills.n_learned].effect;
        skills.n_learned = skills.n_learned + 1;
        let ghost learned = *self;
        self.n_skill_points = self.n_skill_points - 1;
        assert forall|other: Seq<char>| is_chain_name(other) implies #[trigger] self.chain_named(
            other,
        ) == learned.chain_named(other) by {}
        effect
    }

    /// The named skill line, to change it in place.
    pub fn get_skills_by_name(&mut self, name: &str) -> (chain: &mut SkillsChain<E>)
        requires
            is_chain_name(name@),
        ensures
            *chain == old(self).chain_named(name@),
            final(self).chain_named(name@) == *final(chain),
            forall|other: Seq<char>|
                is_chain_name(other) && other != name@ ==> #[trigger] final(self).chain_named(other)
                    == old(self).chain_named(other),
            final(self).level == old(self).level,
            final(self).exp == old(self).exp,
            final(self).level_up_exp == old(self).level_up_exp,
            final(self).n_skill_points == old(self).n_skill_points,
    {
        if str_eq(name, "attack_skills") {
            &mut self.attack_skills
        } else if str_eq(name, "durability_skills") {
            &mut self.durability_skills
        } else if str_eq(name, "agility_skills") {
            &mut self.agility_skills
        } else {
            &mut self.light_skills
        }
    }
}

} // verus!
