use vstd::prelude::*;

verus! {

/// The way the immediate-mode GUI lays out successive widgets.
#[derive(Copy, Clone, Debug, PartialEq, Eq, Structural)]
pub enum DrawDirection {
    Down,
    Up,
    Right,
    Left,
}

impl Default for DrawDirection {
    fn default() -> (d: Self)
        ensures
            d == DrawDirection::Down,
    {
        DrawDirection::Down
    }
}

/// The corner of a widget's rectangle that sits at the layout cursor.
#[derive(Copy, Clone, Debug, PartialEq, Eq, Structural)]
pub enum RectAnchor {
    TopLeft,
    BotLeft,
    BotRight,
}

/// How a widget is placed and how far the cursor moves after it: the anchor
/// of its rectangle at the cursor, then the signs (-1, 0 or 1) by which the
/// horizontal and the vertical step (spacing plus widget size) move the
/// cursor.
pub open spec fn layout_step_spec(d: DrawDirection) -> (RectAnchor, i8, i8) {
    match d {
        DrawDirection::Down => (RectAnchor::TopLeft, 0i8, -1i8),
        DrawDirection::Up => (RectAnchor::BotLeft, 0i8, 1i8),
        DrawDirection::Right => (RectAnchor::BotLeft, 1i8, 0i8),
        DrawDirection::Left => (RectAnchor::BotRight, -1i8, 0i8),
    }
}

/// The placement rule of a draw direction (see `layout_step_spec`).
pub fn layout_step(d: DrawDirection) -> (r: (RectAnchor, i8, i8))
    ensures
        r == layout_step_spec(d),
{
    match d {
        DrawDirection::Down => (RectAnchor::TopLeft, 0, -1),
        DrawDirection::Up => (RectAnchor::BotLeft, 0, 1),
        DrawDirection::Right => (RectAnchor::BotLeft, 1, 0),
        DrawDirection::Left => (RectAnchor::BotRight, -1, 0),
    }
}

/// Which of the three button colors a button is drawn in.
#[derive(Copy, Clone, Debug, PartialEq, Eq, Structural)]
pub enum ButtonLook {
    Cold,
    Hot,
    Active,
}

/// A button under the cursor is hot, or active while the left button is
/// held; any other button is cold.
pub fn button_look(cursor_inside: bool, lmb_is_down: bool) -> (look: ButtonLook)
    ensures
        look == (if !cursor_inside {
            ButtonLook::Cold
        } else if lmb_is_down {
            ButtonLook::Active
        } else {
            ButtonLook::Hot
        }),
{
    if cursor_inside {
        if lmb_is_down {
            ButtonLook::Active
        } else {
            ButtonLook::Hot
        }
    } else {
        ButtonLook::Cold
    }
}

/// A button is clicked when the left button goes up over it.
pub fn button_released(cursor_inside: bool, lmb_is_just_up: bool) -> (r: bool)
    ensures
        r == (cursor_inside && lmb_is_just_up),
{
    cursor_inside && lmb_is_just_up
}

/// The state a GUI button reports for a frame.
#[derive(Copy, Clone, Debug, PartialEq, Eq, Structural)]
pub enum ButtonState {
    Cold,
    Hot,
    Active,
    Released,
}

/// The state of a button: released when clicked this frame, otherwise as
/// its look.
pub open spec fn button_state_spec(cursor_inside: bool, lmb_is_down: bool, lmb_is_just_up: bool) -> ButtonState {
    if !cursor_inside {
        ButtonState::Cold
    } else if lmb_is_just_up {
        ButtonState::Released
    } else if lmb_is_down {
        ButtonState::Active
    } else {
        ButtonState::Hot
    }
}

pub fn button_state(cursor_inside: bool, lmb_is_down: bool, lmb_is_just_up: bool) -> (s: ButtonState)
    ensures
        s == button_state_spec(cursor_inside, lmb_is_down, lmb_is_just_up),
{
    if button_released(cursor_inside, lmb_is_just_up) {
        ButtonState::Released
    } else {
        match button_look(cursor_inside, lmb_is_down) {
            ButtonLook::Cold => ButtonState::Cold,
            ButtonLook::Hot => ButtonState::Hot,
            ButtonLook::Active => ButtonState::Active,
        }
    }
}

/// Where a layout grows: going down or up moves the cursor only vertically,
/// right or left only horizontally, one unit the way of the direction; the
/// widget hangs from its top when going down, stands on its bottom
/// otherwise, and is placed to the left of the cursor only when going left.
pub proof fn lemma_layout_grows_its_way(d: DrawDirection)
    ensures
        ({
            let (anchor, dx, dy) = layout_step_spec(d);
            &&& (dx == 0) != (dy == 0)
            &&& -1 <= dx <= 1 && -1 <= dy <= 1
            &&& d == DrawDirection::Down <==> dy < 0
            &&& d == DrawDirection::Up <==> dy > 0
            &&& d == DrawDirection::Right <==> dx > 0
            &&& d == DrawDirection::Left <==> dx < 0
            &&& anchor == RectAnchor::TopLeft <==> d == DrawDirection::Down
            &&& anchor == RectAnchor::BotRight <==> d == DrawDirection::Left
        }),
{
}

/// A button is released exactly when the left button comes up over it; it
/// is cold exactly when the cursor is elsewhere; otherwise it is active
/// while the left button is held and hot when not, as its look says.
pub proof fn lemma_button_state_rules(cursor_inside: bool, lmb_is_down: bool, lmb_is_just_up: bool)
    ensures
        ({
            let st = button_state_spec(cursor_inside, lmb_is_down, lmb_is_just_up);
            &&& st == ButtonState::Released <==> cursor_inside && lmb_is_just_up
            &&& st == ButtonState::Cold <==> !cursor_inside
            &&& st == ButtonState::Active <==> cursor_inside && !lmb_is_just_up && lmb_is_down
            &&& st == ButtonState::Hot <==> cursor_inside && !lmb_is_just_up && !lmb_is_down
        }),
{
}

} // verus!
