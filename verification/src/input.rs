use crate::vec::Vec2;
use vstd::prelude::*;

verus! {

pub const N_KEYBOARD_KEYS: usize = 512;

pub const N_MOUSE_BUTTONS: usize = 16;

/// SDL's key code of Caps Lock, the first key whose code lies above the
/// ASCII range (`SDLK_CAPSLOCK`).
pub const CAPS_LOCK_KEYCODE: i32 = 1073741881;

/// SDL key codes of the keys the game binds.
pub const KEYCODE_SPACE: i32 = 32;

pub const KEYCODE_A: i32 = 97;

pub const KEYCODE_D: i32 = 100;

pub const KEYCODE_W: i32 = 119;

pub const KEYCODE_LCTRL: i32 = 1073742048;

/// The slot of a key code in the key tables: ASCII codes keep their value,
/// the codes from Caps Lock on are packed right after the ASCII range.
pub open spec fn key_index(code: int) -> int {
    if code >= CAPS_LOCK_KEYCODE {
        code - CAPS_LOCK_KEYCODE + 128
    } else {
        code
    }
}

/// A key code that has a slot in the key tables.
pub open spec fn is_tracked_key(code: int) -> bool {
    0 <= code && key_index(code) < N_KEYBOARD_KEYS
}

/// Whether a key code has a slot in the key tables.
pub fn key_has_slot(code: i32) -> (r: bool)
    ensures
        r == is_tracked_key(code as int),
{
    if code < 0 {
        false
    } else if code >= CAPS_LOCK_KEYCODE {
        code - CAPS_LOCK_KEYCODE < 384
    } else {
        code < 512
    }
}

pub fn keycode_as_usize(code: i32) -> (idx: usize)
    requires
        0 <= code,
    ensures
        idx == key_index(code as int),
{
    if code >= CAPS_LOCK_KEYCODE {
        (code - CAPS_LOCK_KEYCODE) as usize + 128
    } else {
        code as usize
    }
}

/// A window or device event, as the input state needs it: key codes are
/// SDL key codes, mouse buttons their SDL numbers.
#[derive(Clone, Copy, Debug, PartialEq, Eq, Structural)]
pub enum InputEvent {
    Quit,
    WindowSizeChanged { w: i32, h: i32 },
    MouseMotion { x: i32, y: i32 },
    MouseButtonDown { button: usize, x: i32, y: i32 },
    MouseButtonUp { button: usize },
    MouseWheel { y: i32 },
    KeyDown { keycode: i32 },
    KeyUp { keycode: i32 },
    Other,
}

/// What happened since the last frame, gathered event by event.
pub struct Accum {
    cursor_pos: Vec2<i32>,
    mouse_press_pos: [Option<Vec2<i32>>; 16],
    mouse_is_pressed: [bool; 16],
    mouse_is_released: [bool; 16],
    key_is_pressed: [bool; 512],
    key_is_released: [bool; 512],
    wheel_d: i32,
}

/// The contents of an `Accum`.
pub struct AccumView {
    pub cursor_pos: Vec2<i32>,
    pub mouse_press_pos: Seq<Option<Vec2<i32>>>,
    pub mouse_is_pressed: Seq<bool>,
    pub mouse_is_released: Seq<bool>,
    pub key_is_pressed: Seq<bool>,
    pub key_is_released: Seq<bool>,
    pub wheel_d: i32,
}

/// `a` is a table of `n` copies of `v`.
pub open spec fn all_equal<T>(a: Seq<T>, n: int, v: T) -> bool {
    a.len() == n && forall|i: int| 0 <= i < n ==> #[trigger] a[i] == v
}

impl AccumView {
    /// Nothing pending but the cursor position.
    pub open spec fn is_cleared(self) -> bool {
        &&& all_equal(self.mouse_press_pos, N_MOUSE_BUTTONS as int, None)
        &&& all_equal(self.mouse_is_pressed, N_MOUSE_BUTTONS as int, false)
        &&& all_equal(self.mouse_is_released, N_MOUSE_BUTTONS as int, false)
        &&& all_equal(self.key_is_pressed, N_KEYBOARD_KEYS as int, false)
        &&& all_equal(self.key_is_released, N_KEYBOARD_KEYS as int, false)
        &&& self.wheel_d == 0
    }
}

impl View for Accum {
    type V = AccumView;

    closed spec fn view(&self) -> AccumView {
        AccumView {
            cursor_pos: self.cursor_pos,
            mouse_press_pos: self.mouse_press_pos@,
            mouse_is_pressed: self.mouse_is_pressed@,
            mouse_is_released: self.mouse_is_released@,
            key_is_pressed: self.key_is_pressed@,
            key_is_released: self.key_is_released@,
            wheel_d: self.wheel_d,
        }
    }
}

impl Accum {
    pub fn new() -> (a: Self)
        ensures
            a@.cursor_pos == (Vec2::<i32> { x: 0, y: 0 }),
            a@.is_cleared(),
    {
        let a = Self {
            cursor_pos: Vec2::new(0, 0),
            mouse_press_pos: [None; 16],
            mouse_is_pressed: [false; 16],
            mouse_is_released: [false; 16],
            key_is_pressed: [false; 512],
            key_is_released: [false; 512],
            wheel_d: 0,
        };
        proof {
            assert(all_equal(a@.key_is_pressed, 512, false));
            assert(all_equal(a@.key_is_released, 512, false));
        }
        a
    }

    /// Forgets what happened; the cursor position is kept.
    pub fn reset(&mut self)
        ensures
            final(self)@.cursor_pos == old(self)@.cursor_pos,
            final(self)@.is_cleared(),
    {
        self.mouse_press_pos = [None; 16];
        self.mouse_is_pressed = [false; 16];
        self.mouse_is_released = [false; 16];
        self.key_is_pressed = [false; 512];
        self.key_is_released = [false; 512];
        self.wheel_d = 0;
        proof {
            assert(all_equal(self@.key_is_pressed, 512, false));
            assert(all_equal(self@.key_is_released, 512, false));
        }
    }
}

/// The state of keyboard, mouse and window as the game sees it in one frame.
/// Events are gathered as they come; `update` makes them the frame's input.
pub struct Input {
    accum: Accum,
    pub should_quit: bool,
    pub window_size: Vec2<i32>,
    pub cursor_pos: Vec2<i32>,
    pub cursor_prev_pos: Vec2<i32>,
    pub cursor_d: Vec2<i32>,
    mouse_press_pos: [Option<Vec2<i32>>; 16],
    mouse_is_down: [bool; 16],
    mouse_is_pressed: [bool; 16],
    mouse_is_released: [bool; 16],
    key_is_down: [bool; 512],
    key_is_pressed: [bool; 512],
    key_is_released: [bool; 512],
    pub wheel_d: i32,
}

/// The contents of an `Input`.
pub struct InputView {
    pub accum: AccumView,
    pub should_quit: bool,
    pub window_size: Vec2<i32>,
    pub cursor_pos: Vec2<i32>,
    pub cursor_prev_pos: Vec2<i32>,
    pub cursor_d: Vec2<i32>,
    pub mouse_press_pos: Seq<Option<Vec2<i32>>>,
    pub mouse_is_down: Seq<bool>,
    pub mouse_is_pressed: Seq<bool>,
    pub mouse_is_released: Seq<bool>,
    pub key_is_down: Seq<bool>,
    pub key_is_pressed: Seq<bool>,
    pub key_is_released: Seq<bool>,
    pub wheel_d: i32,
}

impl View for Input {
    type V = InputView;

    closed spec fn view(&self) -> InputView {
        InputView {
            accum: self.accum@,
            should_quit: self.should_quit,
            window_size: self.window_size,
            cursor_pos: self.cursor_pos,
            cursor_prev_pos: self.cursor_prev_pos,
            cursor_d: self.cursor_d,
            mouse_press_pos: self.mouse_press_pos@,
            mouse_is_down: self.mouse_is_down@,
            mouse_is_pressed: self.mouse_is_pressed@,
            mouse_is_released: self.mouse_is_released@,
            key_is_down: self.key_is_down@,
            key_is_pressed: self.key_is_pressed@,
            key_is_released: self.key_is_released@,
            wheel_d: self.wheel_d,
        }
    }
}

/// An event the input state can take: buttons and keys have a table slot
/// and the wheel total stays in range.
pub open spec fn event_fits(v: InputView, e: InputEvent) -> bool {
    match e {
        InputEvent::MouseButtonDown { button, .. } => button < N_MOUSE_BUTTONS,
        InputEvent::MouseButtonUp { button } => button < N_MOUSE_BUTTONS,
        InputEvent::MouseWheel { y } => i32::MIN <= v.accum.wheel_d + y <= i32::MAX,
        InputEvent::KeyDown { keycode } => is_tracked_key(keycode as int),
        InputEvent::KeyUp { keycode } => is_tracked_key(keycode as int),
        _ => true,
    }
}

/// The input state after an event. A button or key counts as pressed only
/// when it goes down while it was up; release is recorded on every up event.
pub open spec fn after_event(v: InputView, e: InputEvent) -> InputView {
    match e {
        InputEvent::Quit => InputView { should_quit: true, ..v },
        InputEvent::WindowSizeChanged { w, h } => InputView { window_size: Vec2 { x: w, y: h }, ..v },
        InputEvent::MouseMotion { x, y } => InputView {
            accum: AccumView { cursor_pos: Vec2 { x, y }, ..v.accum },
            ..v
        },
        InputEvent::MouseButtonDown { button, x, y } => {
            let b = button as int;
            let accum = if !v.mouse_is_down[b] {
                AccumView {
                    mouse_press_pos: v.accum.mouse_press_pos.update(b, Some(Vec2 { x, y })),
                    mouse_is_pressed: v.accum.mouse_is_pressed.update(b, true),
                    ..v.accum
                }
            } else {
                v.accum
            };
            InputView { accum, mouse_is_down: v.mouse_is_down.update(b, true), ..v }
        },
        InputEvent::MouseButtonUp { button } => {
            let b = button as int;
            InputView {
                accum: AccumView {
                    mouse_is_released: v.accum.mouse_is_released.update(b, true),
                    ..v.accum
                },
                mouse_is_down: v.mouse_is_down.update(b, false),
                ..v
            }
        },
        InputEvent::MouseWheel { y } => InputView {
            accum: AccumView { wheel_d: (v.accum.wheel_d + y) as i32, ..v.accum },
            ..v
        },
        InputEvent::KeyDown { keycode } => {
            let k = key_index(keycode as int);
            let accum = if !v.key_is_down[k] {
                AccumView { key_is_pressed: v.accum.key_is_pressed.update(k, true), ..v.accum }
            } else {
                v.accum
            };
            InputView { accum, key_is_down: v.key_is_down.update(k, true), ..v }
        },
        InputEvent::KeyUp { keycode } => {
            let k = key_index(keycode as int);
            InputView {
                accum: AccumView { key_is_released: v.accum.key_is_released.update(k, true), ..v.accum },
                key_is_down: v.key_is_down.update(k, false),
                ..v
            }
        },
        InputEvent::Other => v,
    }
}

/// The frame's input made from the gathered events; the gathered events
/// are then cleared. Which buttons and keys are down is kept.
pub open spec fn after_update(v: InputView) -> InputView {
    InputView {
        cursor_d: Vec2 {
            x: (v.accum.cursor_pos.x - v.cursor_pos.x) as i32,
            y: (v.accum.cursor_pos.y - v.cursor_pos.y) as i32,
        },
        cursor_prev_pos: v.cursor_pos,
        cursor_pos: v.accum.cursor_pos,
        mouse_press_pos: v.accum.mouse_press_pos,
        mouse_is_pressed: v.accum.mouse_is_pressed,
        mouse_is_released: v.accum.mouse_is_released,
        key_is_pressed: v.accum.key_is_pressed,
        key_is_released: v.accum.key_is_released,
        wheel_d: v.accum.wheel_d,
        accum: AccumView {
            cursor_pos: v.accum.cursor_pos,
            mouse_press_pos: Seq::new(N_MOUSE_BUTTONS as nat, |i: int| None),
            mouse_is_pressed: Seq::new(N_MOUSE_BUTTONS as nat, |i: int| false),
            mouse_is_released: Seq::new(N_MOUSE_BUTTONS as nat, |i: int| false),
            key_is_pressed: Seq::new(N_KEYBOARD_KEYS as nat, |i: int| false),
            key_is_released: Seq::new(N_KEYBOARD_KEYS as nat, |i: int| false),
            wheel_d: 0,
        },
        ..v
    }
}

impl Input {
    pub fn new(initial_window_size: Vec2<u32>) -> (input: Self)
        ensures
            !input@.should_quit,
            input@.window_size == (Vec2::<i32> {
                x: initial_window_size.x as i32,
                y: initial_window_size.y as i32,
            }),
            input@.cursor_pos == (Vec2::<i32> { x: 0, y: 0 }),
            input@.cursor_prev_pos == (Vec2::<i32> { x: 0, y: 0 }),
            input@.cursor_d == (Vec2::<i32> { x: 0, y: 0 }),
            input@.wheel_d == 0,
            input@.accum.cursor_pos == (Vec2::<i32> { x: 0, y: 0 }),
            input@.accum.is_cleared(),
            all_equal(input@.mouse_press_pos, N_MOUSE_BUTTONS as int, None),
            all_equal(input@.mouse_is_down, N_MOUSE_BUTTONS as int, false),
            all_equal(input@.mouse_is_pressed, N_MOUSE_BUTTONS as int, false),
            all_equal(input@.mouse_is_released, N_MOUSE_BUTTONS as int, false),
            all_equal(input@.key_is_down, N_KEYBOARD_KEYS as int, false),
            all_equal(input@.key_is_pressed, N_KEYBOARD_KEYS as int, false),
            all_equal(input@.key_is_released, N_KEYBOARD_KEYS as int, false),
    {
        let input = Self {
            accum: Accum::new(),
            should_quit: false,
            window_size: Vec2::new(initial_window_size.x as i32, initial_window_size.y as i32),
            cursor_pos: Vec2::new(0, 0),
            cursor_prev_pos: Vec2::new(0, 0),
            cursor_d: Vec2::new(0, 0),
            mouse_press_pos: [None; 16],
            mouse_is_down: [false; 16],
            mouse_is_pressed: [false; 16],
            mouse_is_released: [false; 16],
            key_is_down: [false; 512],
            key_is_pressed: [false; 512],
            key_is_released: [false; 512],
            wheel_d: 0,
        };
        proof {
            assert(all_equal(input@.key_is_down, 512, false));
            assert(all_equal(input@.key_is_pressed, 512, false));
            assert(all_equal(input@.key_is_released, 512, false));
        }
        input
    }

    pub fn key_is_down(&self, code: i32) -> (r: bool)
        requires
            is_tracked_key(code as int),
        ensures
            r == self@.key_is_down[key_index(code as int)],
    {
        self.key_is_down[keycode_as_usize(code)]
    }

    pub fn key_is_pressed(&self, code: i32) -> (r: bool)
        requires
            is_tracked_key(code as int),
        ensures
            r == self@.key_is_pressed[key_index(code as int)],
    {
        self.key_is_pressed[keycode_as_usize(code)]
    }

    /// Whether the input can take an event: a key or button it has a slot
    /// for, and a wheel move that keeps the frame's wheel total in range.
    pub fn accepts(&self, event: &InputEvent) -> (r: bool)
        ensures
            r == event_fits(self@, *event),
    {
        match *event {
            InputEvent::MouseButtonDown { button, .. } => button < N_MOUSE_BUTTONS,
            InputEvent::MouseButtonUp { button } => button < N_MOUSE_BUTTONS,
            InputEvent::MouseWheel { y } => {
                let total = self.accum.wheel_d as i64 + y as i64;
                i32::MIN as i64 <= total && total <= i32::MAX as i64
            },
            InputEvent::KeyDown { keycode } => key_has_slot(keycode),
            InputEvent::KeyUp { keycode } => key_has_slot(keycode),
            _ => true,
        }
    }

    /// Whether the cursor's move since the last frame fits the delta's
    /// integer type, as `update` needs.
    pub fn can_update(&self) -> (r: bool)
        ensures
            r == (i32::MIN <= self@.accum.cursor_pos.x - self@.cursor_pos.x <= i32::MAX
                && i32::MIN <= self@.accum.cursor_pos.y - self@.cursor_pos.y <= i32::MAX),
    {
        let dx = self.accum.cursor_pos.x as i64 - self.cursor_pos.x as i64;
        let dy = self.accum.cursor_pos.y as i64 - self.cursor_pos.y as i64;
        i32::MIN as i64 <= dx && dx <= i32::MAX as i64 && i32::MIN as i64 <= dy && dy
            <= i32::MAX as i64
    }

    pub fn handle_event(&mut self, event: &InputEvent)
        requires
            event_fits(old(self)@, *event),
        ensures
            final(self)@ == after_event(old(self)@, *event),
    {
        match *event {
            InputEvent::Quit => {
                self.should_quit = true;
            },
            InputEvent::WindowSizeChanged { w, h } => {
                self.window_size = Vec2::new(w, h);
            },
            InputEvent::MouseMotion { x, y } => {
                self.accum.cursor_pos = Vec2::new(x, y);
            },
            InputEvent::MouseButtonDown { button, x, y } => {
                if !self.mouse_is_down[button] {
                    self.accum.mouse_press_pos[button] = Some(Vec2::new(x, y));
                    self.accum.mouse_is_pressed[button] = true;
                }
                self.mouse_is_down[button] = true;
            },
            InputEvent::MouseButtonUp { button } => {
                self.mouse_is_down[button] = false;
                self.accum.mouse_is_released[button] = true;
            },
            InputEvent::MouseWheel { y } => {
                self.accum.wheel_d = self.accum.wheel_d + y;
            },
            InputEvent::KeyDown { keycode } => {
                let idx = keycode_as_usize(keycode);
                if !self.key_is_down[idx] {
                    self.accum.key_is_pressed[idx] = true;
                }
                self.key_is_down[idx] = true;
            },
            InputEvent::KeyUp { keycode } => {
                let idx = keycode_as_usize(keycode);
                self.accum.key_is_released[idx] = true;
                self.key_is_down[idx] = false;
            },
            InputEvent::Other => {},
        }
    }

    pub fn update(&mut self)
        requires
            i32::MIN <= old(self)@.accum.cursor_pos.x - old(self)@.cursor_pos.x <= i32::MAX,
            i32::MIN <= old(self)@.accum.cursor_pos.y - old(self)@.cursor_pos.y <= i32::MAX,
        ensures
            final(self)@ == after_update(old(self)@),
    {
        self.cursor_d = self.accum.cursor_pos - self.cursor_pos;
        self.cursor_prev_pos = self.cursor_pos;
        self.cursor_pos = self.accum.cursor_pos;
        self.mouse_press_pos = self.accum.mouse_press_pos;
        self.mouse_is_pressed = self.accum.mouse_is_pressed;
        self.mouse_is_released = self.accum.mouse_is_released;
        self.key_is_pressed = self.accum.key_is_pressed;
        self.key_is_released = self.accum.key_is_released;
        self.wheel_d = self.accum.wheel_d;
        self.accum.reset();
        proof {
            let a = self@.accum;
            assert(a.mouse_press_pos =~= Seq::new(N_MOUSE_BUTTONS as nat, |i: int| None));
            assert(a.mouse_is_pressed =~= Seq::new(N_MOUSE_BUTTONS as nat, |i: int| false));
            assert(a.mouse_is_released =~= Seq::new(N_MOUSE_BUTTONS as nat, |i: int| false));
            assert(a.key_is_pressed =~= Seq::new(N_KEYBOARD_KEYS as nat, |i: int| false));
            assert(a.key_is_released =~= Seq::new(N_KEYBOARD_KEYS as nat, |i: int| false));
        }
    }
}

/// The tables of an input state have their sizes; every `Input` has them.
pub open spec fn input_view_wf(v: InputView) -> bool {
    &&& v.mouse_press_pos.len() == N_MOUSE_BUTTONS
    &&& v.mouse_is_down.len() == N_MOUSE_BUTTONS
    &&& v.mouse_is_pressed.len() == N_MOUSE_BUTTONS
    &&& v.mouse_is_released.len() == N_MOUSE_BUTTONS
    &&& v.key_is_down.len() == N_KEYBOARD_KEYS
    &&& v.key_is_pressed.len() == N_KEYBOARD_KEYS
    &&& v.key_is_released.len() == N_KEYBOARD_KEYS
    &&& v.accum.mouse_press_pos.len() == N_MOUSE_BUTTONS
    &&& v.accum.mouse_is_pressed.len() == N_MOUSE_BUTTONS
    &&& v.accum.mouse_is_released.len() == N_MOUSE_BUTTONS
    &&& v.accum.key_is_pressed.len() == N_KEYBOARD_KEYS
    &&& v.accum.key_is_released.len() == N_KEYBOARD_KEYS
}

impl Input {
    /// The tables of an input always have their sizes.
    pub proof fn lemma_wf(&self)
        ensures
            input_view_wf(self@),
    {
    }
}

/// Events the input takes and frame updates keep the tables' sizes.
pub proof fn lemma_input_wf_kept(v: InputView, e: InputEvent)
    requires
        input_view_wf(v),
        event_fits(v, e),
    ensures
        input_view_wf(after_event(v, e)),
        input_view_wf(after_update(v)),
{
}

/// A key press is an edge: after a key-down event and the frame update that
/// follows, the key is down, and it reads as pressed exactly when it was up
/// before the event (or a press of it was already pending).
pub proof fn lemma_key_press_is_an_edge(v: InputView, code: i32)
    requires
        input_view_wf(v),
        is_tracked_key(code as int),
    ensures
        ({
            let k = key_index(code as int);
            let w = after_update(after_event(v, InputEvent::KeyDown { keycode: code }));
            &&& w.key_is_down[k]
            &&& w.key_is_pressed[k] == (!v.key_is_down[k] || v.accum.key_is_pressed[k])
        }),
{
}

/// Presses and releases last one frame: a second frame update with no event
/// in between reports no key and no mouse button as pressed or released,
/// while what is held down stays held down.
pub proof fn lemma_press_lasts_one_frame(v: InputView)
    requires
        input_view_wf(v),
    ensures
        ({
            let w = after_update(after_update(v));
            &&& forall|k: int| 0 <= k < N_KEYBOARD_KEYS ==> !(#[trigger] w.key_is_pressed[k])
            &&& forall|k: int| 0 <= k < N_KEYBOARD_KEYS ==> !(#[trigger] w.key_is_released[k])
            &&& forall|b: int| 0 <= b < N_MOUSE_BUTTONS ==> !(#[trigger] w.mouse_is_pressed[b])
            &&& forall|b: int| 0 <= b < N_MOUSE_BUTTONS ==> !(#[trigger] w.mouse_is_released[b])
            &&& w.key_is_down == v.key_is_down
            &&& w.mouse_is_down == v.mouse_is_down
        }),
{
}

/// A key release: after a key-up event and the frame update, the key is up
/// and reads as released, and whether it reads as pressed is what the
/// frame gathered before.
pub proof fn lemma_key_release(v: InputView, code: i32)
    requires
        input_view_wf(v),
        is_tracked_key(code as int),
    ensures
        ({
            let k = key_index(code as int);
            let w = after_update(after_event(v, InputEvent::KeyUp { keycode: code }));
            &&& !w.key_is_down[k]
            &&& w.key_is_released[k]
            &&& w.key_is_pressed[k] == v.accum.key_is_pressed[k]
        }),
{
}

/// A key event touches its own key only: every other key keeps whether it
/// is down, pressed or released.
pub proof fn lemma_key_event_touches_its_key(v: InputView, code: i32, j: int)
    requires
        input_view_wf(v),
        is_tracked_key(code as int),
        0 <= j < N_KEYBOARD_KEYS,
        j != key_index(code as int),
    ensures
        ({
            let d = after_event(v, InputEvent::KeyDown { keycode: code });
            let u = after_event(v, InputEvent::KeyUp { keycode: code });
            &&& d.key_is_down[j] == v.key_is_down[j] && u.key_is_down[j] == v.key_is_down[j]
            &&& d.accum.key_is_pressed[j] == v.accum.key_is_pressed[j]
            &&& u.accum.key_is_pressed[j] == v.accum.key_is_pressed[j]
            &&& d.accum.key_is_released[j] == v.accum.key_is_released[j]
            &&& u.accum.key_is_released[j] == v.accum.key_is_released[j]
        }),
{
}

/// A mouse press is an edge too, and remembers where it happened: after a
/// button-down event and the frame update the button is down; it reads as
/// pressed exactly when it was up (or a press was pending), and a press
/// from up records the cursor position of the event. A button-up event
/// leaves the button up and released.
pub proof fn lemma_mouse_buttons(v: InputView, b: usize, x: i32, y: i32)
    requires
        input_view_wf(v),
        b < N_MOUSE_BUTTONS,
    ensures
        ({
            let w = after_update(after_event(v, InputEvent::MouseButtonDown { button: b, x, y }));
            &&& w.mouse_is_down[b as int]
            &&& w.mouse_is_pressed[b as int] == (!v.mouse_is_down[b as int]
                || v.accum.mouse_is_pressed[b as int])
            &&& !v.mouse_is_down[b as int] ==> w.mouse_press_pos[b as int] == Some((Vec2 { x, y }))
        }),
        ({
            let w = after_update(after_event(v, InputEvent::MouseButtonUp { button: b }));
            &&& !w.mouse_is_down[b as int]
            &&& w.mouse_is_released[b as int]
        }),
{
}

/// The cursor, the wheel and the window: a motion event followed by the
/// frame update puts the cursor where the event says, remembers where it
/// was and reports the move; wheel events add up until the update reports
/// their total; a quit event asks to quit; a resize sets the window size.
pub proof fn lemma_cursor_wheel_and_window(v: InputView, x: i32, y: i32, dy: i32, w: i32, h: i32)
    requires
        i32::MIN <= x - v.cursor_pos.x <= i32::MAX,
        i32::MIN <= y - v.cursor_pos.y <= i32::MAX,
        i32::MIN <= v.accum.wheel_d + dy <= i32::MAX,
    ensures
        ({
            let m = after_update(after_event(v, InputEvent::MouseMotion { x, y }));
            &&& m.cursor_pos == (Vec2 { x, y })
            &&& m.cursor_prev_pos == v.cursor_pos
            &&& m.cursor_d.x == x - v.cursor_pos.x
            &&& m.cursor_d.y == y - v.cursor_pos.y
        }),
        after_event(v, InputEvent::MouseWheel { y: dy }).accum.wheel_d == v.accum.wheel_d + dy,
        after_update(after_event(v, InputEvent::MouseWheel { y: dy })).wheel_d == v.accum.wheel_d
            + dy,
        after_update(v).accum.wheel_d == 0,
        after_event(v, InputEvent::Quit).should_quit,
        after_event(v, InputEvent::WindowSizeChanged { w, h }).window_size == (Vec2 { x: w, y: h }),
        after_event(v, InputEvent::Other) == v,
{
}

} // verus!
