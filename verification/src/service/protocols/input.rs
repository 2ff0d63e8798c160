//! Keyboard and mouse events. They are broadcast only.

use vstd::prelude::*;

verus! {

/// Which modifier keys are held.
#[derive(Debug, Clone, Copy, PartialEq, Eq, Structural)]
pub struct KeyModifiers {
    pub shift: bool,
    pub ctrl: bool,
    pub alt: bool,
    pub logo: bool,
}

impl KeyModifiers {
    /// No modifier held.
    pub open spec fn spec_none() -> Self {
        KeyModifiers { shift: false, ctrl: false, alt: false, logo: false }
    }

    /// No modifier held.
    pub fn none() -> (r: Self)
        ensures
            r == Self::spec_none(),
    {
        KeyModifiers { shift: false, ctrl: false, alt: false, logo: false }
    }

    /// The given modifiers.
    pub fn new(shift: bool, ctrl: bool, alt: bool, logo: bool) -> (r: Self)
        ensures
            r == (KeyModifiers { shift, ctrl, alt, logo }),
    {
        KeyModifiers { shift, ctrl, alt, logo }
    }
}

/// A keyboard event.
#[derive(Debug, Clone, Copy, PartialEq, Eq, Structural)]
pub enum Keyboard {
    /// A key went down; `text` is the character it produced, if any.
    KeyPress { key_code: u32, modifiers: KeyModifiers, text: Option<char> },
    /// A key went up.
    KeyRelease { key_code: u32, modifiers: KeyModifiers },
}

impl Keyboard {
    /// A key press.
    pub fn press(key_code: u32, modifiers: KeyModifiers, text: Option<char>) -> (r: Self)
        ensures
            r == (Keyboard::KeyPress { key_code, modifiers, text }),
    {
        Keyboard::KeyPress { key_code, modifiers, text }
    }

    /// A key release.
    pub fn release(key_code: u32, modifiers: KeyModifiers) -> (r: Self)
        ensures
            r == (Keyboard::KeyRelease { key_code, modifiers }),
    {
        Keyboard::KeyRelease { key_code, modifiers }
    }
}

/// A mouse button.
#[derive(Debug, Clone, Copy, PartialEq, Eq, Structural)]
pub enum MouseButton {
    Left,
    Right,
    Middle,
    /// Any further button, by its number.
    Other(u8),
}

/// A mouse event, in whole device units.
#[derive(Debug, Clone, Copy, PartialEq, Eq, Structural)]
pub enum MouseRequest {
    /// The pointer moved to `(x, y)`.
    Move { x: i32, y: i32, modifiers: KeyModifiers },
    /// A button went down or up.
    Button { button: MouseButton, pressed: bool, modifiers: KeyModifiers },
    /// The wheel turned by the given amounts.
    Scroll { delta_x: i32, delta_y: i32, modifiers: KeyModifiers },
}

impl MouseRequest {
    /// A move to `(x, y)` with no modifier held.
    pub fn move_to(x: i32, y: i32) -> (r: Self)
        ensures
            r == (MouseRequest::Move { x, y, modifiers: KeyModifiers::spec_none() }),
    {
        MouseRequest::Move { x, y, modifiers: KeyModifiers::none() }
    }

    /// A button press or release with no modifier held.
    pub fn button(button: MouseButton, pressed: bool) -> (r: Self)
        ensures
            r == (MouseRequest::Button { button, pressed, modifiers: KeyModifiers::spec_none() }),
    {
        MouseRequest::Button { button, pressed, modifiers: KeyModifiers::none() }
    }

    /// A vertical scroll by `amount` with no modifier held.
    pub fn scroll(amount: i32) -> (r: Self)
        ensures
            r == (MouseRequest::Scroll {
                delta_x: 0,
                delta_y: amount,
                modifiers: KeyModifiers::spec_none(),
            }),
    {
        MouseRequest::Scroll { delta_x: 0, delta_y: amount, modifiers: KeyModifiers::none() }
    }
}

} // verus!
