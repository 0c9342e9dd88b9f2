//! Controller buttons and frontend-facing input types.

use vstd::prelude::*;

verus! {

/// Digital buttons on a controller. Each button's position in the 16-bit
/// word of the serial protocol is given by [`button_index`].
#[derive(Clone, Copy, PartialEq, Eq, Structural, Debug)]
pub enum Button {
    Select,
    L3,
    R3,
    Start,
    DUp,
    DRight,
    DDown,
    DLeft,
    L2,
    R2,
    L1,
    R1,
    Triangle,
    Circle,
    Cross,
    Square,
    /// The analog-mode toggle; it has no bit in the button word.
    Analog,
}

/// Bit position of `b` in the 16-bit button word reported by a pad.
/// [`Button::Analog`] stands apart: it is reported out of band.
pub open spec fn button_index(b: Button) -> u16 {
    match b {
        Button::Select => 0,
        Button::L3 => 1,
        Button::R3 => 2,
        Button::Start => 3,
        Button::DUp => 4,
        Button::DRight => 5,
        Button::DDown => 6,
        Button::DLeft => 7,
        Button::L2 => 8,
        Button::R2 => 9,
        Button::L1 => 10,
        Button::R1 => 11,
        Button::Triangle => 12,
        Button::Circle => 13,
        Button::Cross => 14,
        Button::Square => 15,
        Button::Analog => 0xff,
    }
}

impl Button {
    /// Bit position in the 16-bit serial button word ([`Button::Analog`]
    /// reports the out-of-band value `0xff`).
    pub fn index(self) -> (r: u16)
        ensures
            r == button_index(self),
    {
        match self {
            Button::Select => 0,
            Button::L3 => 1,
            Button::R3 => 2,
            Button::Start => 3,
            Button::DUp => 4,
            Button::DRight => 5,
            Button::DDown => 6,
            Button::DLeft => 7,
            Button::L2 => 8,
            Button::R2 => 9,
            Button::L1 => 10,
            Button::R1 => 11,
            Button::Triangle => 12,
            Button::Circle => 13,
            Button::Cross => 14,
            Button::Square => 15,
            Button::Analog => 0xff,
        }
    }

    /// The button whose serial bit position is `v`, if any.
    pub fn from_u32(v: u32) -> (r: Option<Button>)
        ensures
            r == spec_button_from(v),
            match r {
                Some(b) => button_index(b) == v,
                None => forall|b: Button| button_index(b) != v,
            },
    {
        match v {
            0 => Some(Button::Select),
            1 => Some(Button::L3),
            2 => Some(Button::R3),
            3 => Some(Button::Start),
            4 => Some(Button::DUp),
            5 => Some(Button::DRight),
            6 => Some(Button::DDown),
            7 => Some(Button::DLeft),
            8 => Some(Button::L2),
            9 => Some(Button::R2),
            10 => Some(Button::L1),
            11 => Some(Button::R1),
            12 => Some(Button::Triangle),
            13 => Some(Button::Circle),
            14 => Some(Button::Cross),
            15 => Some(Button::Square),
            0xff => Some(Button::Analog),
            _ => None,
        }
    }
}

/// The button whose serial bit position is `v`, if any.
pub open spec fn spec_button_from(v: u32) -> Option<Button> {
    if v == 0 {
        Some(Button::Select)
    } else if v == 1 {
        Some(Button::L3)
    } else if v == 2 {
        Some(Button::R3)
    } else if v == 3 {
        Some(Button::Start)
    } else if v == 4 {
        Some(Button::DUp)
    } else if v == 5 {
        Some(Button::DRight)
    } else if v == 6 {
        Some(Button::DDown)
    } else if v == 7 {
        Some(Button::DLeft)
    } else if v == 8 {
        Some(Button::L2)
    } else if v == 9 {
        Some(Button::R2)
    } else if v == 10 {
        Some(Button::L1)
    } else if v == 11 {
        Some(Button::R1)
    } else if v == 12 {
        Some(Button::Triangle)
    } else if v == 13 {
        Some(Button::Circle)
    } else if v == 14 {
        Some(Button::Cross)
    } else if v == 15 {
        Some(Button::Square)
    } else if v == 0xff {
        Some(Button::Analog)
    } else {
        None
    }
}

#[derive(Clone, Copy, PartialEq, Eq, Structural, Debug)]
pub enum ButtonState {
    Pressed,
    Released,
}

impl ButtonState {
    pub fn is_pressed(self) -> (r: bool)
        ensures
            r == (self == ButtonState::Pressed),
    {
        match self {
            ButtonState::Pressed => true,
            ButtonState::Released => false,
        }
    }
}

/// Queued button transitions, oldest first.
pub type ButtonQueue = Vec<(ButtonState, Button)>;

/// Kind of host device a frontend may connect to a controller port.
#[derive(Clone, Copy, PartialEq, Eq, Structural, Debug, Hash)]
pub enum DeviceType {
    Unknown,
    Keyboard,
    DualShock,
}

} // verus!
