//! Named actions: a game asks whether "jump" is active, and the controller
//! answers from the keys, mouse buttons and joystick positions bound to that
//! name.

use vstd::prelude::*;
use crate::catalog::Catalog;
use crate::input::EventCache;
use crate::input::InputEvent;
use crate::input::InputState;
use crate::input::Keycode;
use crate::input::MouseButton;

verus! {

/// Something that can be held down.
#[derive(Clone, Copy, Debug, PartialEq, Eq, Structural)]
pub enum Action {
    Key(Keycode),
    MouseButton(MouseButton),
}

/// Where the hat of a joystick points.
#[derive(Clone, Copy, Debug, PartialEq, Eq, Structural)]
pub enum HatState {
    Centered,
    Up,
    Right,
    Down,
    Left,
    RightUp,
    RightDown,
    LeftUp,
    LeftDown,
}

/// The mouse's position and how far it moved since the frame before.
#[derive(Clone, Copy, Debug)]
pub struct MousePosition {
    pub position: (i32, i32),
    pub delta: (i64, i64),
}

/// A joystick as the controller sees it: the last reading of its hat,
/// nothing where the reading failed, and the hat positions bound to names.
pub struct JoystickController {
    hat: Option<HatState>,
    axes: Option<(i16, i16)>,
    action_map: Catalog<HatState>,
}

impl JoystickController {
    /// The last reading of the hat.
    pub closed spec fn hat(&self) -> Option<HatState> {
        self.hat
    }

    /// The last reading of the two axes of the stick.
    pub closed spec fn axes(&self) -> Option<(i16, i16)> {
        self.axes
    }

    /// The hat position bound to `name`.
    pub closed spec fn binding(&self, name: Seq<char>) -> Option<HatState> {
        if self.action_map@.dom().contains(name) {
            Some(self.action_map@[name])
        } else {
            None
        }
    }

    /// An action is active when a hat position is bound to it and the hat
    /// was read in that position.
    pub open spec fn action_active(&self, name: Seq<char>) -> bool {
        self.binding(name) is Some && self.hat() == self.binding(name)
    }

    pub fn new() -> (joystick: JoystickController)
        ensures
            joystick.hat() is None,
            joystick.axes() is None,
            forall|name: Seq<char>| joystick.binding(name) is None,
    {
        JoystickController { hat: None, axes: None, action_map: Catalog::new() }
    }

    /// Takes in what was read from the device: the hat, and the two axes.
    pub fn observe(&mut self, hat: Option<HatState>, axes: Option<(i16, i16)>)
        ensures
            final(self).hat() == hat,
            final(self).axes() == axes,
            forall|name: Seq<char>| final(self).binding(name) == old(self).binding(name),
    {
        self.hat = hat;
        self.axes = axes;
    }

    /// Binds `hat_state` to the name `action`, in place of what was bound
    /// to it.
    pub fn map_action(&mut self, action: &str, hat_state: HatState)
        ensures
            final(self).hat() == old(self).hat(),
            final(self).axes() == old(self).axes(),
            final(self).binding(action@) == Some(hat_state),
            forall|name: Seq<char>|
                name != action@ ==> final(self).binding(name) == old(self).binding(name),
    {
        self.action_map.insert(action, hat_state);
    }

    pub fn is_action_active(&self, action: &str) -> (active: bool)
        ensures
            active == self.action_active(action@),
    {
        match self.action_map.get(action) {
            Some(hat_state) => match self.hat {
                Some(current) => current == *hat_state,
                None => false,
            },
            None => false,
        }
    }

    /// The last reading of the two axes, for working out angles.
    pub fn get_axes(&self) -> (axes: Option<(i16, i16)>)
        ensures
            axes == self.axes(),
    {
        self.axes
    }
}

/// Whether `action` is held down in `input`.
pub open spec fn held(input: InputState, action: Action) -> bool {
    match action {
        Action::Key(key) => input.key_held.contains(key.code),
        Action::MouseButton(button) => input.mouse_held.contains(button.code_spec()),
    }
}

/// Whether `action` went down in this frame: a key that was not held before,
/// or a mouse button.
pub open spec fn pressed(input: InputState, action: Action) -> bool {
    match action {
        Action::Key(key) => input.key_changed_to_pressed.contains(key.code),
        Action::MouseButton(button) => input.mouse_pressed.contains(button.code_spec()),
    }
}

/// Whether `action` went up in this frame: a key that was held before, or a
/// mouse button.
pub open spec fn released(input: InputState, action: Action) -> bool {
    match action {
        Action::Key(key) => input.key_changed_to_released.contains(key.code),
        Action::MouseButton(button) => input.mouse_released.contains(button.code_spec()),
    }
}

pub struct IOController {
    event_cache: EventCache,
    joystick_controller: Option<JoystickController>,
    action_map: Catalog<Vec<Action>>,
}

impl IOController {
    /// The state of keyboard and mouse.
    pub closed spec fn input(&self) -> InputState {
        self.event_cache@
    }

    pub closed spec fn joystick_model(&self) -> Option<JoystickController> {
        self.joystick_controller
    }

    /// The keys and buttons bound to `name`.
    pub closed spec fn binding(&self, name: Seq<char>) -> Option<Seq<Action>> {
        if self.action_map@.dom().contains(name) {
            Some(self.action_map@[name]@)
        } else {
            None
        }
    }

    /// Whether one of the keys and buttons bound to `name` is held.
    pub open spec fn bound_held(&self, name: Seq<char>) -> bool {
        self.binding(name) matches Some(actions) && exists|i: int|
            0 <= i < actions.len() && held(self.input(), #[trigger] actions[i])
    }

    /// An action is active while one of its keys or buttons is held, or the
    /// joystick says so.
    pub open spec fn action_active(&self, name: Seq<char>) -> bool {
        self.bound_held(name) || (self.joystick_model() matches Some(joystick)
            && joystick.action_active(name))
    }

    /// An action is pressed in the frame in which one of its keys or
    /// buttons went down.
    pub open spec fn action_pressed(&self, name: Seq<char>) -> bool {
        self.binding(name) matches Some(actions) && exists|i: int|
            0 <= i < actions.len() && pressed(self.input(), #[trigger] actions[i])
    }

    /// An action is released in the frame in which one of its keys or
    /// buttons went up.
    pub open spec fn action_released(&self, name: Seq<char>) -> bool {
        self.binding(name) matches Some(actions) && exists|i: int|
            0 <= i < actions.len() && released(self.input(), #[trigger] actions[i])
    }

    pub fn new() -> (controller: IOController)
        ensures
            controller.input() == InputState::initial(),
            controller.joystick_model() is None,
            forall|name: Seq<char>| controller.binding(name) is None,
    {
        IOController {
            event_cache: EventCache::new(),
            joystick_controller: None,
            action_map: Catalog::new(),
        }
    }

    pub fn event_cache(&self) -> (cache: &EventCache)
        ensures
            cache@ == self.input(),
    {
        &self.event_cache
    }

    fn bind(&mut self, action: &str, actions: Vec<Action>)
        ensures
            final(self).input() == old(self).input(),
            final(self).joystick_model() == old(self).joystick_model(),
            final(self).binding(action@) == Some(actions@),
            forall|name: Seq<char>|
                name != action@ ==> final(self).binding(name) == old(self).binding(name),
    {
        self.action_map.insert(action, actions);
    }

    /// Binds the keys to the name `action`, in place of what was bound to it.
    pub fn map_action_keys(&mut self, action: &str, keycodes: Vec<Keycode>)
        ensures
            final(self).input() == old(self).input(),
            final(self).joystick_model() == old(self).joystick_model(),
            final(self).binding(action@) == Some(
                Seq::new(keycodes.len() as nat, |i: int| Action::Key(keycodes[i])),
            ),
            forall|name: Seq<char>|
                name != action@ ==> final(self).binding(name) == old(self).binding(name),
    {
        let mut actions: Vec<Action> = Vec::new();
        let mut k: usize = 0;
        while k < keycodes.len()
            invariant
                k <= keycodes.len(),
                actions.len() == k,
                forall|i: int| 0 <= i < k ==> actions[i] == Action::Key(keycodes[i]),
            decreases keycodes.len() - k,
        {
            actions.push(Action::Key(keycodes[k]));
            k = k + 1;
        }
        assert(actions@ =~= Seq::new(keycodes.len() as nat, |i: int| Action::Key(keycodes[i])));
        self.bind(action, actions);
    }

    /// Binds the mouse buttons to the name `action`, in place of what was
    /// bound to it.
    pub fn map_action_buttons(&mut self, action: &str, buttons: Vec<MouseButton>)
        ensures
            final(self).input() == old(self).input(),
            final(self).joystick_model() == old(self).joystick_model(),
            final(self).binding(action@) == Some(
                Seq::new(buttons.len() as nat, |i: int| Action::MouseButton(buttons[i])),
            ),
            forall|name: Seq<char>|
                name != action@ ==> final(self).binding(name) == old(self).binding(name),
    {
        let mut actions: Vec<Action> = Vec::new();
        let mut k: usize = 0;
        while k < buttons.len()
            invariant
                k <= buttons.len(),
                actions.len() == k,
                forall|i: int| 0 <= i < k ==> actions[i] == Action::MouseButton(buttons[i]),
            decreases buttons.len() - k,
        {
            actions.push(Action::MouseButton(buttons[k]));
            k = k + 1;
        }
        assert(actions@ =~= Seq::new(
            buttons.len() as nat,
            |i: int| Action::MouseButton(buttons[i]),
        ));
        self.bind(action, actions);
    }

    /// The keys and buttons bound to `action`, if any are.
    fn find(&self, action: &str) -> (found: Option<&Vec<Action>>)
        ensures
            match found {
                Some(actions) => self.binding(action@) == Some(actions@),
                None => self.binding(action@) is None,
            },
    {
        self.action_map.get(action)
    }

    pub fn is_action_active(&self, action: &str) -> (active: bool)
        ensures
            active == self.action_active(action@),
    {
        if let Some(actions) = self.find(action) {
            let mut k: usize = 0;
            while k < actions.len()
                invariant
                    k <= actions.len(),
                    self.binding(action@) == Some(actions@),
                    forall|i: int| 0 <= i < k ==> !held(self.input(), #[trigger] actions[i]),
                decreases actions.len() - k,
            {
                let is_held = match actions[k] {
                    Action::Key(keycode) => self.event_cache.is_key_held(keycode),
                    Action::MouseButton(button) => self.event_cache.is_mouse_held(button),
                };
                if is_held {
                    assert(held(self.input(), actions@[k as int]));
                    assert(self.binding(action@) matches Some(bound) && bound == actions@);
                    return true;
                }
                k = k + 1;
            }
        }
        if let Some(joystick) = &self.joystick_controller {
            if joystick.is_action_active(action) {
                return true;
            }
        }
        false
    }

    pub fn is_action_pressed(&self, action: &str) -> (active: bool)
        ensures
            active == self.action_pressed(action@),
    {
        if let Some(actions) = self.find(action) {
            let mut k: usize = 0;
            while k < actions.len()
                invariant
                    k <= actions.len(),
                    self.binding(action@) == Some(actions@),
                    forall|i: int| 0 <= i < k ==> !pressed(self.input(), #[trigger] actions[i]),
                decreases actions.len() - k,
            {
                let is_pressed = match actions[k] {
                    Action::Key(keycode) => self.event_cache.is_key_changed_to_pressed(keycode),
                    Action::MouseButton(button) => self.event_cache.is_mouse_pressed(button),
                };
                if is_pressed {
                    assert(pressed(self.input(), actions@[k as int]));
                    assert(self.binding(action@) matches Some(bound) && bound == actions@);
                    return true;
                }
                k = k + 1;
            }
        }
        false
    }

    pub fn is_action_released(&self, action: &str) -> (active: bool)
        ensures
            active == self.action_released(action@),
    {
        if let Some(actions) = self.find(action) {
            let mut k: usize = 0;
            while k < actions.len()
                invariant
                    k <= actions.len(),
                    self.binding(action@) == Some(actions@),
                    forall|i: int| 0 <= i < k ==> !released(self.input(), #[trigger] actions[i]),
                decreases actions.len() - k,
            {
                let is_released = match actions[k] {
                    Action::Key(keycode) => self.event_cache.is_key_changed_to_released(keycode),
                    Action::MouseButton(button) => self.event_cache.is_mouse_released(button),
                };
                if is_released {
                    assert(released(self.input(), actions@[k as int]));
                    assert(self.binding(action@) matches Some(bound) && bound == actions@);
                    return true;
                }
                k = k + 1;
            }
        }
        false
    }

    /// Where the mouse is, in pixels, and how far it moved in this frame.
    pub fn get_mouse_position(&self) -> (mouse: MousePosition)
        ensures
            mouse.position == self.input().mouse_position,
            mouse.delta.0 == self.input().mouse_position.0 - self.input().last_mouse_position.0,
            mouse.delta.1 == self.input().mouse_position.1 - self.input().last_mouse_position.1,
    {
        let pos = self.event_cache.get_mouse_position();
        let last = self.event_cache.get_last_mouse_position();
        MousePosition {
            position: pos,
            delta: (pos.0 as i64 - last.0 as i64, pos.1 as i64 - last.1 as i64),
        }
    }

    /// Begins a frame with the events that came since the frame before.
    pub fn update(&mut self, events: &Vec<InputEvent>)
        ensures
            final(self).input() == old(self).input().polled(events@),
            final(self).joystick_model() == old(self).joystick_model(),
            forall|name: Seq<char>| final(self).binding(name) == old(self).binding(name),
    {
        self.event_cache.poll_events(events);
    }

    /// Takes the joystick into the controller.
    pub fn attach_joystick(&mut self, joystick: JoystickController)
        ensures
            final(self).input() == old(self).input(),
            final(self).joystick_model() == Some(joystick),
            forall|name: Seq<char>| final(self).binding(name) == old(self).binding(name),
    {
        self.joystick_controller = Some(joystick);
    }

    pub fn joystick(&self) -> (joystick: Option<&JoystickController>)
        ensures
            match joystick {
                Some(joystick) => self.joystick_model() == Some(*joystick),
                None => self.joystick_model() is None,
            },
    {
        self.joystick_controller.as_ref()
    }
}

} // verus!
