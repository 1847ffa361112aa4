//! The state of keyboard and mouse from one frame to the next, as the events
//! of the window system change it.

use std::collections::HashSet;
use vstd::prelude::*;

verus! {

broadcast use vstd::std_specs::hash::group_hash_axioms;

/// A key, by the number the window system gives it.
#[derive(Clone, Copy, Debug, PartialEq, Eq, Structural)]
pub struct Keycode {
    pub code: i32,
}

pub const KEY_ESCAPE: i32 = 27;

pub const KEY_SPACE: i32 = 32;

pub const KEY_A: i32 = 97;

pub const KEY_B: i32 = 98;

pub const KEY_D: i32 = 100;

pub const KEY_Q: i32 = 113;

pub const KEY_S: i32 = 115;

pub const KEY_W: i32 = 119;

pub const KEY_DOWN: i32 = 1073741905;

pub const KEY_UP: i32 = 1073741906;

impl Keycode {
    pub fn new(code: i32) -> (key: Keycode)
        ensures
            key.code == code,
    {
        Keycode { code }
    }
}

#[derive(Clone, Copy, Debug, PartialEq, Eq, Structural)]
pub enum MouseButton {
    Unknown,
    Left,
    Middle,
    Right,
    X1,
    X2,
}

impl MouseButton {
    /// The number the window system gives the button.
    pub open spec fn code_spec(self) -> u8 {
        match self {
            MouseButton::Unknown => 0,
            MouseButton::Left => 1,
            MouseButton::Middle => 2,
            MouseButton::Right => 3,
            MouseButton::X1 => 4,
            MouseButton::X2 => 5,
        }
    }

    #[verifier::when_used_as_spec(code_spec)]
    pub fn code(self) -> (code: u8)
        ensures
            code == self.code_spec(),
    {
        match self {
            MouseButton::Unknown => 0,
            MouseButton::Left => 1,
            MouseButton::Middle => 2,
            MouseButton::Right => 3,
            MouseButton::X1 => 4,
            MouseButton::X2 => 5,
        }
    }
}

/// What the window system reports. A key event may come without a key.
#[derive(Clone, Copy, Debug, PartialEq, Eq, Structural)]
pub enum InputEvent {
    Quit,
    KeyDown { keycode: Option<Keycode>, repeat: bool },
    KeyUp { keycode: Option<Keycode> },
    MouseButtonDown { mouse_btn: MouseButton },
    MouseButtonUp { mouse_btn: MouseButton },
    MouseMotion { x: i32, y: i32 },
    Other,
}

/// What is known of keyboard and mouse. Keys stand by their numbers, and so
/// do mouse buttons.
pub struct InputState {
    pub quit: bool,
    pub key_pressed: Set<i32>,
    pub key_released: Set<i32>,
    pub key_held: Set<i32>,
    pub key_changed_to_pressed: Set<i32>,
    pub key_changed_to_released: Set<i32>,
    pub mouse_pressed: Set<u8>,
    pub mouse_released: Set<u8>,
    pub mouse_held: Set<u8>,
    pub mouse_position: (i32, i32),
    pub last_mouse_position: (i32, i32),
}

impl InputState {
    pub open spec fn initial() -> InputState {
        InputState {
            quit: false,
            key_pressed: Set::empty(),
            key_released: Set::empty(),
            key_held: Set::empty(),
            key_changed_to_pressed: Set::empty(),
            key_changed_to_released: Set::empty(),
            mouse_pressed: Set::empty(),
            mouse_released: Set::empty(),
            mouse_held: Set::empty(),
            mouse_position: (0, 0),
            last_mouse_position: (0, 0),
        }
    }

    /// A new frame: what was pressed or released in the frame before is
    /// forgotten, what is held stays, and the mouse's position becomes its
    /// last position.
    pub open spec fn new_frame(self) -> InputState {
        InputState {
            key_pressed: Set::empty(),
            key_released: Set::empty(),
            key_changed_to_pressed: Set::empty(),
            key_changed_to_released: Set::empty(),
            mouse_pressed: Set::empty(),
            mouse_released: Set::empty(),
            last_mouse_position: self.mouse_position,
            ..self
        }
    }

    /// The state after one event. A key that goes down and is no repeat is
    /// pressed and held, and has changed to pressed unless it was held. A key
    /// that goes up is released and no longer held, and has changed to
    /// released if it was held. Mouse buttons go likewise, without the
    /// changes. Repeats and key events without a key change nothing.
    pub open spec fn applied(self, event: InputEvent) -> InputState {
        match event {
            InputEvent::Quit => InputState { quit: true, ..self },
            InputEvent::KeyDown { keycode: Some(key), repeat: false } => InputState {
                key_changed_to_pressed: if self.key_held.contains(key.code) {
                    self.key_changed_to_pressed
                } else {
                    self.key_changed_to_pressed.insert(key.code)
                },
                key_pressed: self.key_pressed.insert(key.code),
                key_held: self.key_held.insert(key.code),
                ..self
            },
            InputEvent::KeyUp { keycode: Some(key) } => InputState {
                key_changed_to_released: if self.key_held.contains(key.code) {
                    self.key_changed_to_released.insert(key.code)
                } else {
                    self.key_changed_to_released
                },
                key_released: self.key_released.insert(key.code),
                key_held: self.key_held.remove(key.code),
                ..self
            },
            InputEvent::MouseButtonDown { mouse_btn } => InputState {
                mouse_pressed: self.mouse_pressed.insert(mouse_btn.code_spec()),
                mouse_held: self.mouse_held.insert(mouse_btn.code_spec()),
                ..self
            },
            InputEvent::MouseButtonUp { mouse_btn } => InputState {
                mouse_released: self.mouse_released.insert(mouse_btn.code_spec()),
                mouse_held: self.mouse_held.remove(mouse_btn.code_spec()),
                ..self
            },
            InputEvent::MouseMotion { x, y } => InputState { mouse_position: (x, y), ..self },
            _ => self,
        }
    }

    /// The state after the events, one after the other.
    pub open spec fn applied_all(self, events: Seq<InputEvent>) -> InputState
        decreases events.len(),
    {
        if events.len() == 0 {
            self
        } else {
            self.applied_all(events.drop_last()).applied(events.last())
        }
    }

    /// The state after a frame in which `events` came in.
    pub open spec fn polled(self, events: Seq<InputEvent>) -> InputState {
        self.new_frame().applied_all(events)
    }
}

pub struct EventCache {
    quit: bool,
    key_pressed: HashSet<i32>,
    key_released: HashSet<i32>,
    key_held: HashSet<i32>,
    key_changed_to_pressed: HashSet<i32>,
    key_changed_to_released: HashSet<i32>,
    mouse_pressed: HashSet<u8>,
    mouse_released: HashSet<u8>,
    mouse_held: HashSet<u8>,
    mouse_position: (i32, i32),
    last_mouse_position: (i32, i32),
}

impl View for EventCache {
    type V = InputState;

    closed spec fn view(&self) -> InputState {
        InputState {
            quit: self.quit,
            key_pressed: self.key_pressed@,
            key_released: self.key_released@,
            key_held: self.key_held@,
            key_changed_to_pressed: self.key_changed_to_pressed@,
            key_changed_to_released: self.key_changed_to_released@,
            mouse_pressed: self.mouse_pressed@,
            mouse_released: self.mouse_released@,
            mouse_held: self.mouse_held@,
            mouse_position: self.mouse_position,
            last_mouse_position: self.last_mouse_position,
        }
    }
}

impl EventCache {
    pub fn new() -> (cache: EventCache)
        ensures
            cache@ == InputState::initial(),
    {
        EventCache {
            quit: false,
            key_pressed: HashSet::new(),
            key_released: HashSet::new(),
            key_held: HashSet::new(),
            key_changed_to_pressed: HashSet::new(),
            key_changed_to_released: HashSet::new(),
            mouse_pressed: HashSet::new(),
            mouse_released: HashSet::new(),
            mouse_held: HashSet::new(),
            mouse_position: (0, 0),
            last_mouse_position: (0, 0),
        }
    }

    /// Takes one event into the state.
    pub fn apply(&mut self, event: &InputEvent)
        ensures
            final(self)@ == old(self)@.applied(*event),
    {
        match event {
            InputEvent::Quit => {
                self.quit = true;
            },
            InputEvent::KeyDown { keycode: Some(key), repeat } => {
                if !*repeat {
                    if !self.key_held.contains(&key.code) {
                        self.key_changed_to_pressed.insert(key.code);
                    }
                    self.key_pressed.insert(key.code);
                    self.key_held.insert(key.code);
                }
            },
            InputEvent::KeyUp { keycode: Some(key) } => {
                if self.key_held.contains(&key.code) {
                    self.key_changed_to_released.insert(key.code);
                }
                self.key_released.insert(key.code);
                self.key_held.remove(&key.code);
            },
            InputEvent::MouseButtonDown { mouse_btn } => {
                self.mouse_pressed.insert(mouse_btn.code());
                self.mouse_held.insert(mouse_btn.code());
            },
            InputEvent::MouseButtonUp { mouse_btn } => {
                let code: u8 = mouse_btn.code();
                self.mouse_released.insert(code);
                self.mouse_held.remove(&code);
            },
            InputEvent::MouseMotion { x, y } => {
                self.mouse_position = (*x, *y);
            },
            _ => {},
        }
    }

    /// Begins a frame and takes in the events that came since the frame
    /// before, in their order.
    pub fn poll_events(&mut self, events: &Vec<InputEvent>)
        ensures
            final(self)@ == old(self)@.polled(events@),
    {
        self.key_pressed.clear();
        self.key_released.clear();
        self.key_changed_to_pressed.clear();
        self.key_changed_to_released.clear();
        self.mouse_pressed.clear();
        self.mouse_released.clear();
        self.last_mouse_position = self.mouse_position;
        assert(self@ == old(self)@.new_frame());
        assert(events@.take(0) =~= Seq::<InputEvent>::empty());
        let mut k: usize = 0;
        while k < events.len()
            invariant
                k <= events.len(),
                self@ == old(self)@.new_frame().applied_all(events@.take(k as int)),
            decreases events.len() - k,
        {
            assert(events@.take(k + 1).drop_last() =~= events@.take(k as int));
            self.apply(&events[k]);
            k = k + 1;
        }
        assert(events@.take(k as int) =~= events@);
    }

    pub fn is_quit(&self) -> (quit: bool)
        ensures
            quit == self@.quit,
    {
        self.quit
    }

    pub fn is_key_pressed(&self, keycode: Keycode) -> (pressed: bool)
        ensures
            pressed == self@.key_pressed.contains(keycode.code),
    {
        self.key_pressed.contains(&keycode.code)
    }

    pub fn is_key_released(&self, keycode: Keycode) -> (released: bool)
        ensures
            released == self@.key_released.contains(keycode.code),
    {
        self.key_released.contains(&keycode.code)
    }

    pub fn is_key_held(&self, keycode: Keycode) -> (held: bool)
        ensures
            held == self@.key_held.contains(keycode.code),
    {
        self.key_held.contains(&keycode.code)
    }

    pub fn is_key_changed_to_pressed(&self, keycode: Keycode) -> (changed: bool)
        ensures
            changed == self@.key_changed_to_pressed.contains(keycode.code),
    {
        self.key_changed_to_pressed.contains(&keycode.code)
    }

    pub fn is_key_changed_to_released(&self, keycode: Keycode) -> (changed: bool)
        ensures
            changed == self@.key_changed_to_released.contains(keycode.code),
    {
        self.key_changed_to_released.contains(&keycode.code)
    }

    pub fn is_mouse_pressed(&self, mouse_btn: MouseButton) -> (pressed: bool)
        ensures
            pressed == self@.mouse_pressed.contains(mouse_btn.code_spec()),
    {
        let code: u8 = mouse_btn.code();
        self.mouse_pressed.contains(&code)
    }

    pub fn is_mouse_released(&self, mouse_btn: MouseButton) -> (released: bool)
        ensures
            released == self@.mouse_released.contains(mouse_btn.code_spec()),
    {
        let code: u8 = mouse_btn.code();
        self.mouse_released.contains(&code)
    }

    pub fn is_mouse_held(&self, mouse_btn: MouseButton) -> (held: bool)
        ensures
            held == self@.mouse_held.contains(mouse_btn.code_spec()),
    {
        let code: u8 = mouse_btn.code();
        self.mouse_held.contains(&code)
    }

    pub fn get_mouse_position(&self) -> (position: (i32, i32))
        ensures
            position == self@.mouse_position,
    {
        self.mouse_position
    }

    pub fn get_last_mouse_position(&self) -> (position: (i32, i32))
        ensures
            position == self@.last_mouse_position,
    {
        self.last_mouse_position
    }
}

} // verus!
