use lift::player_stats::{Skill, SkillEffectType, SkillsChain, SkillsChainType, Stats};

fn chain(prefix: &str, effects: [u32; 3]) -> SkillsChain<u32> {
    SkillsChain::new(vec![
        Skill::from_str(&format!("{} 1", prefix), "first", effects[0]),
        Skill::from_str(&format!("{} 2", prefix), "second", effects[1]),
        Skill::from_str(&format!("{} 3", prefix), "third", effects[2]),
    ])
}

fn stats() -> Stats<u32> {
    Stats::with_chains(
        chain("Attack", [13, 16, 5]),
        chain("Durability", [8, 6, 4]),
        chain("Agility", [80, 60, 40]),
        chain("Light", [81, 61, 41]),
    )
}

#[test]
fn fresh_stats() {
    let s = stats();
    assert_eq!((s.level, s.level_up_exp, s.exp, s.n_skill_points), (1, 50, 0, 3));
    assert_eq!(s.attack_skills.n_learned, 0);
    assert_eq!(s.light_skills.skills[2].name, "Light 3");
    assert_eq!(s.light_skills.skills[2].description, "third");
}

#[test]
fn experience_levels_up_once() {
    let mut s = stats();
    let grow = |e: usize| e * 13 / 10;
    assert!(!s.add_exp(30, grow));
    assert_eq!((s.exp, s.level), (30, 1));
    assert!(s.add_exp(30, grow));
    // the threshold is paid out of the experience
    assert_eq!((s.exp, s.level, s.n_skill_points, s.level_up_exp), (10, 2, 4, 65));
    // one call levels up once, whatever the amount
    assert!(s.add_exp(1000, grow));
    assert_eq!((s.exp, s.level, s.level_up_exp), (945, 3, 84));
}

#[test]
fn learning_spends_points() {
    let mut s = stats();
    assert_eq!(s.force_learn_next("agility_skills"), 80);
    assert_eq!(s.force_learn_next("agility_skills"), 60);
    assert_eq!(s.agility_skills.n_learned, 2);
    assert_eq!(s.n_skill_points, 1);
    assert_eq!(s.force_learn_next("attack_skills"), 13);
    assert_eq!(s.n_skill_points, 0);
    assert_eq!(s.durability_skills.n_learned, 0);
    assert_eq!(s.light_skills.n_learned, 0);
}

#[test]
fn skill_lines_by_name() {
    let mut s = stats();
    s.get_skills_by_name("light_skills").n_learned = 2;
    assert_eq!(s.light_skills.n_learned, 2);
    assert_eq!(s.get_skills_by_name("durability_skills").skills[0].effect, 8);
    assert_eq!(SkillsChainType::Attack.name(), "attack_skills");
    assert_eq!(SkillsChainType::Durability.name(), "durability_skills");
    assert_eq!(SkillsChainType::Agility.name(), "agility_skills");
    assert_eq!(SkillsChainType::Light.name(), "light_skills");
}

#[test]
fn default_skill_tree() {
    let s: Stats<SkillEffectType<f32>> =
        Stats::new([1.3, 1.6, 0.5], [0.8, 0.6, 0.4], [0.8, 0.6, 0.4], [0.8, 0.6, 0.4]);
    assert_eq!((s.level, s.level_up_exp, s.exp, s.n_skill_points), (1, 50, 0, 3));
    assert_eq!(s.attack_skills.skills.len(), 3);
    assert_eq!(s.attack_skills.skills[0].name, "Attack 1");
    assert_eq!(s.attack_skills.skills[2].description, "This is attack 3");
    assert_eq!(s.attack_skills.skills[1].effect, SkillEffectType::SetDamageMultiplier(1.6));
    assert_eq!(s.attack_skills.skills[2].effect, SkillEffectType::SetSplashDamagePenalty(0.5));
    assert_eq!(
        s.durability_skills.skills[0].effect,
        SkillEffectType::SetReceivedDamageMultiplier(0.8)
    );
    assert_eq!(s.agility_skills.skills[2].effect, SkillEffectType::SetStaminaCostMultiplier(0.4));
    assert_eq!(s.light_skills.skills[1].effect, SkillEffectType::SetStaminaCostMultiplier(0.6));
    assert_eq!(s.durability_skills.skills[1].name, "Durability 2");
    assert_eq!(s.agility_skills.skills[2].name, "Agility 3");
    assert_eq!(s.light_skills.skills[0].description, "This is light 1");
    assert_eq!(s.light_skills.n_learned, 0);
}
