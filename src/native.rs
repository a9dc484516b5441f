//! Native input notifications as the operating-system hook delivers them,
//! held as plain values.

use vstd::prelude::*;
use crate::text::{digits_of, unsigned_text};

verus! {

/// A mouse button.
#[derive(Clone, Copy, Debug, PartialEq, Eq, Structural)]
pub enum Button {
    Left,
    Right,
    Middle,
    /// A button without a name, by its platform code.
    Unknown(u8),
}

/// One raw notification of the global hook.
#[derive(Clone, Debug)]
pub enum NativeEvent {
    /// A key went down; the key is given by its textual identifier.
    KeyPress(String),
    /// A key went up.
    KeyRelease(String),
    /// The pointer moved to screen coordinates `(x, y)`.
    MouseMove { x: i32, y: i32 },
    ButtonPress(Button),
    ButtonRelease(Button),
    /// The wheel turned: `dx` horizontally, `dy` vertically.
    Wheel { dx: i64, dy: i64 },
}

impl Button {
    /// Textual form of a button: its name, or `Unknown(<code>)`.
    pub open spec fn spec_text(self) -> Seq<char> {
        match self {
            Button::Left => "Left"@,
            Button::Right => "Right"@,
            Button::Middle => "Middle"@,
            Button::Unknown(code) => "Unknown("@ + digits_of(code as nat) + ")"@,
        }
    }

    pub fn text(&self) -> (r: String)
        ensures
            r@ == self.spec_text(),
    {
        match self {
            Button::Left => String::from_str("Left"),
            Button::Right => String::from_str("Right"),
            Button::Middle => String::from_str("Middle"),
            Button::Unknown(code) => {
                let mut s = String::from_str("Unknown(");
                let digits = unsigned_text(*code as u64);
                s.append(digits.as_str());
                s.append(")");
                s
            },
        }
    }
}

} // verus!
