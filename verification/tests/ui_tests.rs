use lift::gui::{
    button_look, button_released, button_state, layout_step, ButtonLook, ButtonState,
    DrawDirection, RectAnchor,
};
use lift::player_stats::SkillsChainType;
use lift::ui::{
    arrow_look, chain_interaction, collect_events, element_event, element_index, rect_sizing,
    skill_look, skills_chain_elements, ArrowLook, ChainOutcome, ElementHit, RectSizing, SkillLook,
    UIElementID, UIEvent,
};

fn hit(id: UIElementID, is_interactive: bool, cursor_inside: bool) -> ElementHit {
    ElementHit { id, is_interactive, cursor_inside }
}

#[test]
fn element_event_priorities() {
    let h = hit(UIElementID::MainMenuQuit, true, true);
    assert_eq!(element_event(&h, true, true), UIEvent::LMBPress(UIElementID::MainMenuQuit));
    assert_eq!(element_event(&h, false, true), UIEvent::RMBPress(UIElementID::MainMenuQuit));
    assert_eq!(element_event(&h, false, false), UIEvent::Hover(UIElementID::MainMenuQuit));
    let away = hit(UIElementID::MainMenuQuit, true, false);
    assert_eq!(element_event(&away, true, false), UIEvent::NotInteracted(UIElementID::MainMenuQuit));
}

#[test]
fn one_event_per_interactive_element() {
    let hits = vec![
        hit(UIElementID::MainMenuBackground, false, true),
        hit(UIElementID::MainMenuNewGame, true, true),
        hit(UIElementID::MainMenuOptions, true, false),
        hit(UIElementID::SkillsTreeSkill(SkillsChainType::Light, 2), true, true),
    ];
    let events = collect_events(&hits, false, false);
    assert_eq!(
        events,
        vec![
            UIEvent::Hover(UIElementID::MainMenuNewGame),
            UIEvent::NotInteracted(UIElementID::MainMenuOptions),
            UIEvent::Hover(UIElementID::SkillsTreeSkill(SkillsChainType::Light, 2)),
        ]
    );
    let pressed = collect_events(&hits, true, false);
    assert_eq!(pressed[0], UIEvent::LMBPress(UIElementID::MainMenuNewGame));
    assert!(collect_events(&vec![], true, true).is_empty());
}

#[test]
fn element_lookup_finds_the_first() {
    let ids = vec![
        UIElementID::GameHealthbar,
        UIElementID::GameStaminabar,
        UIElementID::GameHealthbar,
    ];
    assert_eq!(element_index(&ids, UIElementID::GameHealthbar), Some(0));
    assert_eq!(element_index(&ids, UIElementID::GameStaminabar), Some(1));
    assert_eq!(element_index(&ids, UIElementID::GameExpbar), None);
    assert_eq!(element_index(&vec![], UIElementID::Unknown), None);
    assert_eq!(UIElementID::default(), UIElementID::Unknown);
}

#[test]
fn rect_sizing_rules() {
    assert_eq!(rect_sizing(true, true, false), RectSizing::Given);
    assert_eq!(rect_sizing(true, false, true), RectSizing::FromWidth);
    assert_eq!(rect_sizing(false, true, true), RectSizing::FromHeight);
}

#[test]
fn skill_line_elements_alternate() {
    let e = skills_chain_elements(SkillsChainType::Attack, 3);
    assert_eq!(
        e,
        vec![
            (UIElementID::SkillsTreeSkill(SkillsChainType::Attack, 0), true),
            (UIElementID::SkillsTreeArrow(SkillsChainType::Attack, 1), false),
            (UIElementID::SkillsTreeSkill(SkillsChainType::Attack, 1), true),
            (UIElementID::SkillsTreeArrow(SkillsChainType::Attack, 2), false),
            (UIElementID::SkillsTreeSkill(SkillsChainType::Attack, 2), true),
        ]
    );
    assert!(skills_chain_elements(SkillsChainType::Light, 0).is_empty());
    assert_eq!(skills_chain_elements(SkillsChainType::Light, 1).len(), 1);
}

#[test]
fn skill_and_arrow_looks() {
    assert_eq!(skill_look(0, 2, false), SkillLook::Learned);
    assert_eq!(skill_look(2, 2, true), SkillLook::Learnable);
    assert_eq!(skill_look(2, 2, false), SkillLook::Locked);
    assert_eq!(skill_look(3, 2, true), SkillLook::Locked);
    assert_eq!(arrow_look(0, 2), ArrowLook::Lit);
    assert_eq!(arrow_look(1, 2), ArrowLook::Half);
    assert_eq!(arrow_look(2, 2), ArrowLook::Dim);
    assert_eq!(arrow_look(0, 0), ArrowLook::Dim);
}

#[test]
fn skill_line_interaction() {
    let o = chain_interaction(&vec![ButtonState::Cold, ButtonState::Hot, ButtonState::Cold]);
    assert_eq!(o, ChainOutcome { hovered: Some(1), learn: false });
    let o = chain_interaction(&vec![ButtonState::Released, ButtonState::Cold, ButtonState::Active]);
    assert_eq!(o, ChainOutcome { hovered: Some(2), learn: true });
    let o = chain_interaction(&vec![ButtonState::Cold, ButtonState::Cold]);
    assert_eq!(o, ChainOutcome { hovered: None, learn: false });
}

#[test]
fn gui_buttons() {
    assert_eq!(button_look(false, true), ButtonLook::Cold);
    assert_eq!(button_look(true, true), ButtonLook::Active);
    assert_eq!(button_look(true, false), ButtonLook::Hot);
    assert!(button_released(true, true));
    assert!(!button_released(false, true));
    assert!(!button_released(true, false));
    assert_eq!(button_state(true, false, true), ButtonState::Released);
    assert_eq!(button_state(true, true, false), ButtonState::Active);
    assert_eq!(button_state(true, false, false), ButtonState::Hot);
    assert_eq!(button_state(false, true, true), ButtonState::Cold);
}

#[test]
fn gui_layout_steps() {
    assert_eq!(DrawDirection::default(), DrawDirection::Down);
    assert_eq!(layout_step(DrawDirection::Down), (RectAnchor::TopLeft, 0, -1));
    assert_eq!(layout_step(DrawDirection::Up), (RectAnchor::BotLeft, 0, 1));
    assert_eq!(layout_step(DrawDirection::Right), (RectAnchor::BotLeft, 1, 0));
    assert_eq!(layout_step(DrawDirection::Left), (RectAnchor::BotRight, -1, 0));
}
