//! Input events of one frame and the queries the application loop asks of them.
//!
//! The windowing back end's events are translated into `InputEvent` values; an
//! `EventBuffer` holds those received during one tick.

use vstd::prelude::*;

verus! {

/// The keys a caller can ask about, in the order of the C-callable key codes.
#[allow(non_camel_case_types)]
#[derive(Debug, Clone, Copy, PartialEq, Eq, Structural)]
pub enum KeyCode {
    KEY1, KEY2, KEY3, KEY4, KEY5, KEY6, KEY7, KEY8, KEY9, KEY0, A, B, C, D, E, F, G, H, I,
    J, K, L, M, N, O, P, Q, R, S, T, U, V, W, X, Y, Z, ESCAPE, F1, F2, F3, F4, F5, F6, F7,
    F8, F9, F10, F11, F12, F13, F14, F15, SNAPSHOT, SCROLL, PAUSE, INSERT, HOME, DELETE,
    END, PAGEDOWN, PAGEUP, LEFT, UP, RIGHT, DOWN, BACK, RETURN, SPACE, NUMLOCK, NUMPAD0,
    NUMPAD1, NUMPAD2, NUMPAD3, NUMPAD4, NUMPAD5, NUMPAD6, NUMPAD7, NUMPAD8, NUMPAD9,
    ABNTC1, ABNTC2, ADD, APOSTROPHE, APPS, AT, AX, BACKSLASH, CALCULATOR, CAPITAL, COLON,
    COMMA, CONVERT, DECIMAL, DIVIDE, EQUALS, GRAVE, KANA, KANJI, LALT, LBRACKET, LCONTROL,
    LMENU, LSHIFT, LWIN, MAIL, MEDIASELECT, MEDIASTOP, MINUS, MULTIPLY, MUTE, MYCOMPUTER,
    NAVIGATEFORWARD, NAVIGATEBACKWARD, NEXTTRACK, NOCONVERT, NUMPADCOMMA, NUMPADENTER,
    NUMPADEQUALS, OEM102, PERIOD, PLAYPAUSE, POWER, PREVTRACK, RALT, RBRACKET, RCONTROL,
    RMENU, RSHIFT, RWIN, SEMICOLON, SLASH, SLEEP, STOP, SUBTRACT, SYSRQ, TAB, UNDERLINE,
    UNLABELED, VOLUMEDOWN, VOLUMEUP, WAKE, WEBBACK, WEBFAVORITES, WEBFORWARD, WEBHOME,
    WEBREFRESH, WEBSEARCH, WEBSTOP, YEN,
}

/// Whether a key or button went down or up.
#[derive(Debug, Clone, Copy, PartialEq, Eq, Structural)]
pub enum ElementState {
    Pressed,
    Released,
}

/// A mouse button.
#[derive(Debug, Clone, Copy, PartialEq, Eq, Structural)]
pub enum MouseButton {
    Left,
    Right,
    Middle,
    Other(u16),
}

/// A mouse position, in window coordinates.
#[derive(Debug, Clone, Copy, PartialEq, Eq, Structural)]
pub struct Mouse {
    pub x: i32,
    pub y: i32,
}

/// One event received from the windowing back end.
#[derive(Debug, Clone, Copy, PartialEq, Eq, Structural)]
pub enum InputEvent {
    /// The window was closed.
    Closed,
    /// A key changed state: its state, its scan code and, when known, its key code.
    KeyboardInput(ElementState, u8, Option<KeyCode>),
    /// The cursor moved to this position.
    MouseMoved(i32, i32),
    /// A mouse button changed state.
    MouseInput(ElementState, MouseButton),
    /// Any other event.
    Other,
}

/// A kind of event the application asks about.
#[derive(Debug, Clone, Copy, PartialEq, Eq, Structural)]
pub enum EventQuery {
    Closed,
    ScanCode(ElementState, u8),
    Key(ElementState, KeyCode),
    Button(ElementState, MouseButton),
}

/// Whether an event is of the kind `q` asks about.
pub open spec fn event_matches(e: InputEvent, q: EventQuery) -> bool {
    match q {
        EventQuery::Closed => e is Closed,
        EventQuery::ScanCode(state, code) => e matches InputEvent::KeyboardInput(s, c, _) && s
            == state && c == code,
        EventQuery::Key(state, key) => e matches InputEvent::KeyboardInput(s, _, Some(k)) && s
            == state && k == key,
        EventQuery::Button(state, button) => e matches InputEvent::MouseInput(s, b) && s == state
            && b == button,
    }
}

/// Whether some event of `events` is of the kind `q` asks about.
pub open spec fn any_event(events: Seq<InputEvent>, q: EventQuery) -> bool {
    exists|i: int| 0 <= i < events.len() && #[trigger] event_matches(events[i], q)
}

/// The position of the last cursor move among the first `n` events; the origin when there
/// is none.
pub open spec fn last_mouse_position(events: Seq<InputEvent>, n: int) -> Mouse
    decreases n,
{
    if n <= 0 {
        Mouse { x: 0, y: 0 }
    } else {
        match events[n - 1] {
            InputEvent::MouseMoved(x, y) => Mouse { x, y },
            _ => last_mouse_position(events, n - 1),
        }
    }
}

fn event_matches_exec(e: &InputEvent, q: EventQuery) -> (r: bool)
    ensures
        r == event_matches(*e, q),
{
    match (q, e) {
        (EventQuery::Closed, InputEvent::Closed) => true,
        (EventQuery::ScanCode(state, code), InputEvent::KeyboardInput(s, c, _)) => *s == state
            && *c == code,
        (EventQuery::Key(state, key), InputEvent::KeyboardInput(s, _, Some(k))) => *s == state
            && *k == key,
        (EventQuery::Button(state, button), InputEvent::MouseInput(s, b)) => *s == state && *b
            == button,
        _ => false,
    }
}

/// The events received during one tick, in arrival order.
pub struct EventBuffer(Vec<InputEvent>);

impl View for EventBuffer {
    type V = Seq<InputEvent>;

    closed spec fn view(&self) -> Seq<InputEvent> {
        self.0@
    }
}

impl EventBuffer {
    /// Collects the events of one tick.
    pub fn new(events: Vec<InputEvent>) -> (r: EventBuffer)
        ensures
            r@ == events@,
    {
        EventBuffer(events)
    }

    /// Whether some event is of the kind `q` asks about.
    pub fn any(&self, q: EventQuery) -> (r: bool)
        ensures
            r == any_event(self@, q),
    {
        let events = &self.0;
        let mut i: usize = 0;
        while i < events.len()
            invariant
                events@ == self@,
                i <= events@.len(),
                forall|j: int| 0 <= j < i ==> !#[trigger] event_matches(events@[j], q),
            decreases events@.len() - i,
        {
            if event_matches_exec(&events[i], q) {
                return true;
            }
            i = i + 1;
        }
        false
    }

    /// Whether the user closed the window.
    pub fn closed(&self) -> (r: bool)
        ensures
            r == any_event(self@, EventQuery::Closed),
    {
        self.any(EventQuery::Closed)
    }

    /// Whether no event arrived.
    pub fn empty(&self) -> (r: bool)
        ensures
            r == (self@.len() == 0),
    {
        self.0.len() == 0
    }

    /// Whether a key with this scan code went down.
    pub fn key_pressed(&self, keycode: u8) -> (r: bool)
        ensures
            r == any_event(self@, EventQuery::ScanCode(ElementState::Pressed, keycode)),
    {
        self.any(EventQuery::ScanCode(ElementState::Pressed, keycode))
    }

    /// Whether a key with this scan code went up.
    pub fn key_released(&self, keycode: u8) -> (r: bool)
        ensures
            r == any_event(self@, EventQuery::ScanCode(ElementState::Released, keycode)),
    {
        self.any(EventQuery::ScanCode(ElementState::Released, keycode))
    }

    /// Whether this key went down.
    pub fn pressed(&self, keycode: KeyCode) -> (r: bool)
        ensures
            r == any_event(self@, EventQuery::Key(ElementState::Pressed, keycode)),
    {
        self.any(EventQuery::Key(ElementState::Pressed, keycode))
    }

    /// Whether this key went up.
    pub fn released(&self, keycode: KeyCode) -> (r: bool)
        ensures
            r == any_event(self@, EventQuery::Key(ElementState::Released, keycode)),
    {
        self.any(EventQuery::Key(ElementState::Released, keycode))
    }

    /// Where the cursor moved last during the tick; the origin when it did not move.
    pub fn mouse_moved(&self) -> (r: Mouse)
        ensures
            r == last_mouse_position(self@, self@.len() as int),
    {
        let events = &self.0;
        let mut mouse = Mouse { x: 0, y: 0 };
        let mut i: usize = 0;
        while i < events.len()
            invariant
                events@ == self@,
                i <= events@.len(),
                mouse == last_mouse_position(events@, i as int),
            decreases events@.len() - i,
        {
            match &events[i] {
                InputEvent::MouseMoved(x, y) => {
                    mouse = Mouse { x: *x, y: *y };
                },
                _ => {},
            }
            i = i + 1;
        }
        mouse
    }

    /// Whether the left mouse button went down.
    pub fn mouse_pressed_left(&self) -> (r: bool)
        ensures
            r == any_event(self@, EventQuery::Button(ElementState::Pressed, MouseButton::Left)),
    {
        self.any(EventQuery::Button(ElementState::Pressed, MouseButton::Left))
    }

    /// Whether the right mouse button went down.
    pub fn mouse_pressed_right(&self) -> (r: bool)
        ensures
            r == any_event(self@, EventQuery::Button(ElementState::Pressed, MouseButton::Right)),
    {
        self.any(EventQuery::Button(ElementState::Pressed, MouseButton::Right))
    }

    /// Whether the left mouse button went up.
    pub fn mouse_released_left(&self) -> (r: bool)
        ensures
            r == any_event(self@, EventQuery::Button(ElementState::Released, MouseButton::Left)),
    {
        self.any(EventQuery::Button(ElementState::Released, MouseButton::Left))
    }

    /// Whether the right mouse button went up.
    pub fn mouse_released_right(&self) -> (r: bool)
        ensures
            r == any_event(
                self@,
                EventQuery::Button(ElementState::Released, MouseButton::Right),
            ),
    {
        self.any(EventQuery::Button(ElementState::Released, MouseButton::Right))
    }
}

} // verus!
