//! Input snapshots: mouse and keyboard state as plain values.
//!
//! Event capture lives with the host environment; once per frame the host
//! hands the runtime an immutable snapshot, and controllers read it through
//! these types. Mouse buttons are a five-bit mask in the order primary,
//! secondary, auxiliary, fourth, fifth.
use vstd::prelude::*;

verus! {

#[derive(Clone, Copy, Debug, PartialEq, Eq, Structural)]
pub enum MouseButton {
    PRIMARY,
    SECONDARY,
    AUXILIARY,
    FORTH,
    FIFTH,
}

/// The mask bit of one mouse button.
pub open spec fn spec_button_mask(button: MouseButton) -> u16 {
    match button {
        MouseButton::PRIMARY => 0x01,
        MouseButton::SECONDARY => 0x02,
        MouseButton::AUXILIARY => 0x04,
        MouseButton::FORTH => 0x08,
        MouseButton::FIFTH => 0x10,
    }
}

/// One frame's mouse state: the button mask and the pointer movement since
/// the previous frame.
#[derive(Clone, Copy, Debug, PartialEq, Eq, Structural)]
pub struct Mouse {
    pub buttons: u16,
    pub dx: i32,
    pub dy: i32,
}

impl Mouse {
    pub fn new(buttons: u16, dx: i32, dy: i32) -> (m: Mouse)
        ensures
            m == (Mouse { buttons, dx, dy }),
    {
        Mouse { buttons, dx, dy }
    }

    /// Whether the button's bit is set in the mask.
    pub fn is_down(&self, mouse_button: MouseButton) -> (r: bool)
        ensures
            r == (self.buttons & spec_button_mask(mouse_button) != 0),
    {
        let mask: u16 = match mouse_button {
            MouseButton::PRIMARY => 0x01,
            MouseButton::SECONDARY => 0x02,
            MouseButton::AUXILIARY => 0x04,
            MouseButton::FORTH => 0x08,
            MouseButton::FIFTH => 0x10,
        };
        self.buttons & mask != 0
    }

    pub fn is_up(&self, mouse_button: MouseButton) -> (r: bool)
        ensures
            r == (self.buttons & spec_button_mask(mouse_button) == 0),
    {
        !self.is_down(mouse_button)
    }

    pub fn get_dx(&self) -> (r: i32)
        ensures
            r == self.dx,
    {
        self.dx
    }

    pub fn get_dy(&self) -> (r: i32)
        ensures
            r == self.dy,
    {
        self.dy
    }
}

impl Default for Mouse {
    /// No buttons held, no movement.
    fn default() -> (m: Mouse)
        ensures
            m == (Mouse { buttons: 0, dx: 0, dy: 0 }),
    {
        Mouse { buttons: 0, dx: 0, dy: 0 }
    }
}

#[derive(Clone, Copy, Debug, PartialEq, Eq, Structural)]
pub enum KeyboardKey {
    LEFT,
    FORWARD,
    BACKWARD,
    RIGHT,
    UP,
    DOWN,
}

/// One frame's keyboard state: which movement keys are held.
#[derive(Clone, Copy, Debug, PartialEq, Eq, Structural)]
pub struct Keyboard {
    pub left: bool,
    pub right: bool,
    pub up: bool,
    pub down: bool,
    pub forward: bool,
    pub backward: bool,
}

/// Whether one key is held in a snapshot.
pub open spec fn spec_key_down(k: Keyboard, key: KeyboardKey) -> bool {
    match key {
        KeyboardKey::UP => k.up,
        KeyboardKey::DOWN => k.down,
        KeyboardKey::RIGHT => k.right,
        KeyboardKey::LEFT => k.left,
        KeyboardKey::FORWARD => k.forward,
        KeyboardKey::BACKWARD => k.backward,
    }
}

impl Keyboard {
    pub fn is_down(&self, key: KeyboardKey) -> (r: bool)
        ensures
            r == spec_key_down(*self, key),
    {
        match key {
            KeyboardKey::UP => self.up,
            KeyboardKey::DOWN => self.down,
            KeyboardKey::RIGHT => self.right,
            KeyboardKey::LEFT => self.left,
            KeyboardKey::FORWARD => self.forward,
            KeyboardKey::BACKWARD => self.backward,
        }
    }
}

impl Default for Keyboard {
    /// No keys held.
    fn default() -> (k: Keyboard)
        ensures
            k == (Keyboard {
                left: false,
                right: false,
                up: false,
                down: false,
                forward: false,
                backward: false,
            }),
    {
        Keyboard { left: false, right: false, up: false, down: false, forward: false, backward: false }
    }
}

/// One frame's input snapshot.
#[derive(Clone, Copy, Debug, PartialEq, Eq, Structural)]
pub struct Input {
    pub mouse: Mouse,
    pub keyboard: Keyboard,
}

impl Input {
    pub fn new(mouse: Mouse, keyboard: Keyboard) -> (i: Input)
        ensures
            i == (Input { mouse, keyboard }),
    {
        Input { mouse, keyboard }
    }

    pub fn get_mouse(&self) -> (m: &Mouse)
        ensures
            *m == self.mouse,
    {
        &self.mouse
    }

    pub fn get_keyboard(&self) -> (k: &Keyboard)
        ensures
            *k == self.keyboard,
    {
        &self.keyboard
    }
}

impl crate::component::Component for Input {
    /// A snapshot is immutable for the duration of a tick.
    open spec fn spec_updated(pre: Input, dt: crate::fixed::Fixed, post: Input) -> bool {
        post == pre
    }

    fn update(&mut self, dt: crate::fixed::Fixed) {
    }
}

impl Default for Input {
    /// An idle snapshot: nothing held, no movement.
    fn default() -> (i: Input)
        ensures
            i == (Input {
                mouse: Mouse { buttons: 0, dx: 0, dy: 0 },
                keyboard: Keyboard {
                    left: false,
                    right: false,
                    up: false,
                    down: false,
                    forward: false,
                    backward: false,
                },
            }),
    {
        Input { mouse: Mouse::default(), keyboard: Keyboard::default() }
    }
}

} // verus!
