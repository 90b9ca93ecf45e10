use crate::gui::ButtonState;
use crate::player_stats::SkillsChainType;
use vstd::prelude::*;

verus! {

/// The elements of the retained-mode UI, by what they show.
#[derive(Clone, Copy, Debug, PartialEq, Eq, Structural)]
pub enum UIElementID {
    Unknown,
    MainMenuBackground,
    MainMenuQuit,
    MainMenuOptions,
    MainMenuNewGame,
    GameIndicatorsBackground,
    GameLevelNumberBackground,
    GameLevelNumber,
    GameHealthbar,
    GameStaminabar,
    GameExpbar,
    SkillsTreeBackground,
    SkillsTreePointsNumber,
    SkillsTreeSkillDescription,
    SkillsTreeSkill(SkillsChainType, usize),
    SkillsTreeArrow(SkillsChainType, usize),
}

impl Default for UIElementID {
    fn default() -> (id: Self)
        ensures
            id == UIElementID::Unknown,
    {
        UIElementID::Unknown
    }
}

/// What the cursor did to an interactive element in a frame.
#[derive(Clone, Copy, Debug, PartialEq, Eq, Structural)]
pub enum UIEvent {
    Hover(UIElementID),
    LMBPress(UIElementID),
    RMBPress(UIElementID),
    NotInteracted(UIElementID),
}

/// An element as the event pass sees it: its id, whether it reacts to the
/// cursor, and whether the cursor is over its collider this frame.
#[derive(Clone, Copy, Debug)]
pub struct ElementHit {
    pub id: UIElementID,
    pub is_interactive: bool,
    pub cursor_inside: bool,
}

/// The event of an interactive element: a press of the left button wins
/// over one of the right button, which wins over a mere hover; an element
/// the cursor is not over is not interacted with.
pub open spec fn hit_event(h: ElementHit, lmb_pressed: bool, rmb_pressed: bool) -> UIEvent {
    if h.cursor_inside {
        if lmb_pressed {
            UIEvent::LMBPress(h.id)
        } else if rmb_pressed {
            UIEvent::RMBPress(h.id)
        } else {
            UIEvent::Hover(h.id)
        }
    } else {
        UIEvent::NotInteracted(h.id)
    }
}

/// The events of a frame: one per interactive element, in element order.
pub open spec fn events_of(hits: Seq<ElementHit>, lmb_pressed: bool, rmb_pressed: bool) -> Seq<
    UIEvent,
>
    decreases hits.len(),
{
    if hits.len() == 0 {
        Seq::empty()
    } else {
        let rest = events_of(hits.drop_last(), lmb_pressed, rmb_pressed);
        if hits.last().is_interactive {
            rest.push(hit_event(hits.last(), lmb_pressed, rmb_pressed))
        } else {
            rest
        }
    }
}

/// Each interactive element gets exactly one event, in element order, and
/// no other element gets one.
pub proof fn lemma_one_event_per_interactive_element(
    hits: Seq<ElementHit>,
    lmb_pressed: bool,
    rmb_pressed: bool,
)
    ensures
        events_of(hits, lmb_pressed, rmb_pressed) == hits.filter(
            |h: ElementHit| h.is_interactive,
        ).map_values(|h: ElementHit| hit_event(h, lmb_pressed, rmb_pressed)),
    decreases hits.len(),
{
    reveal(Seq::filter);
    let f = |h: ElementHit| h.is_interactive;
    let g = |h: ElementHit| hit_event(h, lmb_pressed, rmb_pressed);
    if hits.len() == 0 {
        assert(hits.filter(f).map_values(g) =~= Seq::<UIEvent>::empty());
    } else {
        lemma_one_event_per_interactive_element(hits.drop_last(), lmb_pressed, rmb_pressed);
        let rest = hits.drop_last().filter(f);
        if hits.last().is_interactive {
            assert(hits.filter(f) == rest.push(hits.last()));
            assert(rest.push(hits.last()).map_values(g) =~= rest.map_values(g).push(g(hits.last())));
        } else {
            assert(hits.filter(f) == rest);
        }
    }
}

/// The event of one interactive element (see `hit_event`).
pub fn element_event(hit: &ElementHit, lmb_pressed: bool, rmb_pressed: bool) -> (e: UIEvent)
    ensures
        e == hit_event(*hit, lmb_pressed, rmb_pressed),
{
    if hit.cursor_inside {
        if lmb_pressed {
            UIEvent::LMBPress(hit.id)
        } else if rmb_pressed {
            UIEvent::RMBPress(hit.id)
        } else {
            UIEvent::Hover(hit.id)
        }
    } else {
        UIEvent::NotInteracted(hit.id)
    }
}

/// The events a UI update reports, given where the cursor is relative to
/// each element and which mouse buttons were pressed this frame.
pub fn collect_events(hits: &Vec<ElementHit>, lmb_pressed: bool, rmb_pressed: bool) -> (events: Vec<
    UIEvent,
>)
    ensures
        events@ == events_of(hits@, lmb_pressed, rmb_pressed),
{
    let mut events: Vec<UIEvent> = Vec::new();
    let mut i: usize = 0;
    while i < hits.len()
        invariant
            i <= hits.len(),
            events@ == events_of(hits@.take(i as int), lmb_pressed, rmb_pressed),
        decreases hits.len() - i,
    {
        proof {
            assert(hits@.take(i as int + 1).drop_last() == hits@.take(i as int));
        }
        if hits[i].is_interactive {
            let e = element_event(&hits[i], lmb_pressed, rmb_pressed);
            events.push(e);
        }
        i = i + 1;
    }
    proof {
        assert(hits@.take(hits.len() as int) == hits@);
    }
    events
}

/// The position of the first element with the given id, if there is one.
pub fn element_index(ids: &Vec<UIElementID>, id: UIElementID) -> (idx: Option<usize>)
    ensures
        match idx {
            Some(k) => k < ids.len() && ids@[k as int] == id && forall|j: int|
                0 <= j < k ==> ids@[j] != id,
            None => forall|j: int| 0 <= j < ids.len() ==> ids@[j] != id,
        },
{
    let mut i: usize = 0;
    while i < ids.len()
        invariant
            i <= ids.len(),
            forall|j: int| 0 <= j < i ==> ids@[j] != id,
        decreases ids.len() - i,
    {
        if ids[i] == id {
            return Some(i);
        }
        i = i + 1;
    }
    None
}

/// How a rectangle element gets its size from the dimensions it was given.
#[derive(Clone, Copy, Debug, PartialEq, Eq, Structural)]
pub enum RectSizing {
    /// Width and height as given.
    Given,
    /// The width as given, the height from the width and the aspect.
    FromWidth,
    /// The height as given, the width from the height and the aspect.
    FromHeight,
}

/// Whether a rectangle element has enough, and not too much, of width,
/// height and aspect to be sized: both sides without an aspect, or the
/// aspect and exactly one side.
pub open spec fn sizing_is_defined(has_width: bool, has_height: bool, has_aspect: bool) -> bool {
    if !has_aspect {
        has_width && has_height
    } else {
        has_width != has_height
    }
}

/// The sizing rule of a rectangle element.
pub fn rect_sizing(has_width: bool, has_height: bool, has_aspect: bool) -> (s: RectSizing)
    requires
        sizing_is_defined(has_width, has_height, has_aspect),
    ensures
        s == (if !has_aspect {
            RectSizing::Given
        } else if !has_height {
            RectSizing::FromWidth
        } else {
            RectSizing::FromHeight
        }),
{
    if !has_aspect {
        RectSizing::Given
    } else if !has_height {
        RectSizing::FromWidth
    } else {
        RectSizing::FromHeight
    }
}

/// The id of the `j`-th element of a skill line in the skill tree: skills
/// and the arrows between them alternate, starting with the first skill.
pub open spec fn chain_element_id(t: SkillsChainType, j: int) -> UIElementID {
    if j % 2 == 0 {
        UIElementID::SkillsTreeSkill(t, (j / 2) as usize)
    } else {
        UIElementID::SkillsTreeArrow(t, ((j + 1) / 2) as usize)
    }
}

/// The elements of a skill line of `n_skills` skills, in order: each id with
/// whether it is interactive (skills are, arrows are not).
pub fn skills_chain_elements(t: SkillsChainType, n_skills: usize) -> (elements: Vec<
    (UIElementID, bool),
>)
    requires
        2 * n_skills <= usize::MAX,
    ensures
        elements.len() == (if n_skills == 0 {
            0
        } else {
            2 * n_skills - 1
        }),
        forall|j: int|
            0 <= j < elements.len() ==> #[trigger] elements@[j] == (
                chain_element_id(t, j),
                j % 2 == 0,
            ),
{
    let mut elements: Vec<(UIElementID, bool)> = Vec::new();
    let mut idx: usize = 0;
    while idx < n_skills
        invariant
            idx <= n_skills,
            2 * n_skills <= usize::MAX,
            elements.len() == (if idx == 0 {
                0
            } else {
                2 * idx - 1
            }),
            forall|j: int|
                0 <= j < elements.len() ==> #[trigger] elements@[j] == (
                    chain_element_id(t, j),
                    j % 2 == 0,
                ),
        decreases n_skills - idx,
    {
        if idx > 0 {
            elements.push((UIElementID::SkillsTreeArrow(t, idx), false));
            proof {
                let j = 2 * idx - 1;
                assert(j % 2 == 1);
                assert((j + 1) / 2 == idx);
            }
        }
        elements.push((UIElementID::SkillsTreeSkill(t, idx), true));
        proof {
            let j = 2 * idx;
            assert(j % 2 == 0);
            assert(j / 2 == idx);
        }
        idx = idx + 1;
    }
    elements
}

/// How a skill of a skill line is drawn in the skill tree.
#[derive(Clone, Copy, Debug, PartialEq, Eq, Structural)]
pub enum SkillLook {
    /// Learned: drawn in full.
    Learned,
    /// The next to learn, with a skill point to spend: drawn as a button.
    Learnable,
    /// Anything else: drawn faint.
    Locked,
}

pub open spec fn skill_look_spec(i: int, n_learned: int, has_points: bool) -> SkillLook {
    if i < n_learned {
        SkillLook::Learned
    } else if i == n_learned && has_points {
        SkillLook::Learnable
    } else {
        SkillLook::Locked
    }
}

/// How the `i`-th skill of a line with `n_learned` skills learned is drawn.
pub fn skill_look(i: usize, n_learned: usize, has_points: bool) -> (look: SkillLook)
    ensures
        look == skill_look_spec(i as int, n_learned as int, has_points),
{
    if i < n_learned {
        SkillLook::Learned
    } else if i == n_learned && has_points {
        SkillLook::Learnable
    } else {
        SkillLook::Locked
    }
}

/// How the arrow after a skill is drawn.
#[derive(Clone, Copy, Debug, PartialEq, Eq, Structural)]
pub enum ArrowLook {
    /// Between two learned skills: opaque.
    Lit,
    /// From the last learned skill to the next: half transparent.
    Half,
    /// After a skill not yet learned: faint.
    Dim,
}

pub open spec fn arrow_look_spec(i: int, n_learned: int) -> ArrowLook {
    if n_learned > 0 && i < n_learned - 1 {
        ArrowLook::Lit
    } else if i < n_learned {
        ArrowLook::Half
    } else {
        ArrowLook::Dim
    }
}

/// How the arrow after the `i`-th skill of a line with `n_learned` skills
/// learned is drawn.
pub fn arrow_look(i: usize, n_learned: usize) -> (look: ArrowLook)
    ensures
        look == arrow_look_spec(i as int, n_learned as int),
{
    if n_learned > 0 && i < n_learned - 1 {
        ArrowLook::Lit
    } else if i < n_learned {
        ArrowLook::Half
    } else {
        ArrowLook::Dim
    }
}

/// A widget the cursor is on: hot, held or just clicked.
pub open spec fn is_engaged(s: ButtonState) -> bool {
    s == ButtonState::Hot || s == ButtonState::Active || s == ButtonState::Released
}

/// What a frame of a skill line's widgets amounts to.
#[derive(Clone, Copy, Debug, PartialEq, Eq, Structural)]
pub struct ChainOutcome {
    /// The skill whose description is shown: the last one the cursor is on.
    pub hovered: Option<usize>,
    /// Whether a skill of the line was clicked, so the next one is learned.
    pub learn: bool,
}

/// Reads the states of the widgets of a skill line, one per skill in order.
pub fn chain_interaction(states: &Vec<ButtonState>) -> (o: ChainOutcome)
    ensures
        o.learn == exists|i: int| 0 <= i < states.len() && states@[i] == ButtonState::Released,
        match o.hovered {
            Some(k) => k < states.len() && is_engaged(states@[k as int]) && forall|j: int|
                k < j < states.len() ==> !is_engaged(#[trigger] states@[j]),
            None => forall|j: int| 0 <= j < states.len() ==> !is_engaged(#[trigger] states@[j]),
        },
{
    let mut hovered: Option<usize> = None;
    let mut learn = false;
    let mut i: usize = 0;
    while i < states.len()
        invariant
            i <= states.len(),
            learn == exists|j: int| 0 <= j < i && states@[j] == ButtonState::Released,
            match hovered {
                Some(k) => k < i && is_engaged(states@[k as int]) && forall|j: int|
                    k < j < i ==> !is_engaged(#[trigger] states@[j]),
                None => forall|j: int| 0 <= j < i ==> !is_engaged(#[trigger] states@[j]),
            },
        decreases states.len() - i,
    {
        let s = states[i];
        match s {
            ButtonState::Released | ButtonState::Active | ButtonState::Hot => {
                hovered = Some(i);
                if s == ButtonState::Released {
                    learn = true;
                }
            },
            ButtonState::Cold => {},
        }
        i = i + 1;
    }
    ChainOutcome { hovered, learn }
}

/// The looks of a skill line follow its learned prefix: the skills before
/// the count are learned, the one at the count is learnable exactly when a
/// point is there to spend, the rest are locked; an arrow is lit between
/// two learned skills, half lit from the last learned skill to the next,
/// and dim after a skill not learned.
pub proof fn lemma_skill_line_looks(i: int, n_learned: int, has_points: bool)
    requires
        0 <= i,
        0 <= n_learned,
    ensures
        skill_look_spec(i, n_learned, has_points) == SkillLook::Learned <==> i < n_learned,
        skill_look_spec(i, n_learned, has_points) == SkillLook::Learnable <==> i == n_learned
            && has_points,
        arrow_look_spec(i, n_learned) == ArrowLook::Lit <==> i + 1 < n_learned,
        arrow_look_spec(i, n_learned) == ArrowLook::Half <==> i + 1 == n_learned,
        arrow_look_spec(i, n_learned) == ArrowLook::Dim <==> n_learned <= i,
{
}

/// An element's event: over it, a left press wins over a right press,
/// which wins over a hover; away from it, it is not interacted with. The
/// event always names the element.
pub proof fn lemma_hit_event_priority(h: ElementHit, lmb_pressed: bool, rmb_pressed: bool)
    ensures
        hit_event(h, lmb_pressed, rmb_pressed) == (if !h.cursor_inside {
            UIEvent::NotInteracted(h.id)
        } else if lmb_pressed {
            UIEvent::LMBPress(h.id)
        } else if rmb_pressed {
            UIEvent::RMBPress(h.id)
        } else {
            UIEvent::Hover(h.id)
        }),
{
}

} // verus!
