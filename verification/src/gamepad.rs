//! Controller variants: the digital pad and the DualShock-class analog pad.
//!
//! A controller transaction: byte 0 must be `0x01` (addressing controllers),
//! byte 1 must be the `0x42` poll command and is answered with the pad's
//! identifier, byte 2 acknowledges with `0x5a`, bytes 3 and 4 carry the
//! active-low button word. An analog-mode DualShock appends its four axis
//! bytes. The last reply of a transaction comes without a DSR pulse.

use vstd::prelude::*;
use crate::input::{Button, ButtonState, button_index};
use crate::pad_memcard::DsrState;

verus! {

/// Cycles between a pad processing a command byte and the start of its DSR
/// pulse.
pub const GAMEPAD_DSR_DELAY: i64 = 360;

/// Length of a pad's DSR pulse.
pub const GAMEPAD_DSR_DURATION: i64 = 64;

/// The DSR pulse a pad requests when it has more to say.
pub open spec fn pad_pulse() -> DsrState {
    DsrState::Pending(GAMEPAD_DSR_DELAY, GAMEPAD_DSR_DURATION)
}

/// `buttons` after `b` changes to state `s`. The word is active-low: a
/// pressed button clears its bit. A button with no bit in the word (the
/// analog toggle) leaves it unchanged.
pub open spec fn buttons_after(buttons: u16, b: Button, s: ButtonState) -> u16 {
    if button_index(b) >= 16 {
        buttons
    } else if s == ButtonState::Pressed {
        buttons & !(1u16 << button_index(b))
    } else {
        buttons | (1u16 << button_index(b))
    }
}

/// A standard digital pad.
#[derive(Clone, Copy, PartialEq, Eq, Structural, Debug)]
pub struct DigitalPad {
    /// Active-low button word as reported over the serial protocol.
    pub buttons: u16,
}

/// Reply of a digital pad to command byte `cmd` at position `seq`.
pub open spec fn digital_response(p: DigitalPad, seq: u8, cmd: u8) -> u8 {
    if seq == 0 {
        0xff
    } else if seq == 1 {
        if cmd == 0x42 {
            0x41
        } else {
            0xff
        }
    } else if seq == 2 {
        0x5a
    } else if seq == 3 {
        (p.buttons & 0xff) as u8
    } else if seq == 4 {
        ((p.buttons >> 8) & 0xff) as u8
    } else {
        0xff
    }
}

/// DSR request of a digital pad: it keeps the transaction alive through the
/// first button byte and ends it with the second.
pub open spec fn digital_dsr(seq: u8, cmd: u8) -> DsrState {
    if seq == 0 {
        if cmd == 0x01 {
            pad_pulse()
        } else {
            DsrState::Idle
        }
    } else if seq == 1 {
        if cmd == 0x42 {
            pad_pulse()
        } else {
            DsrState::Idle
        }
    } else if seq == 2 || seq == 3 {
        pad_pulse()
    } else {
        DsrState::Idle
    }
}

impl DigitalPad {
    /// A pad with every button released.
    pub fn new() -> (r: DigitalPad)
        ensures
            r.buttons == 0xffff,
    {
        DigitalPad { buttons: 0xffff }
    }

    pub fn handle_command(&self, seq: u8, cmd: u8) -> (r: (u8, DsrState))
        ensures
            r.0 == digital_response(*self, seq, cmd),
            r.1 == digital_dsr(seq, cmd),
    {
        if seq == 0 {
            let dsr = if cmd == 0x01 {
                DsrState::Pending(GAMEPAD_DSR_DELAY, GAMEPAD_DSR_DURATION)
            } else {
                DsrState::Idle
            };
            (0xff, dsr)
        } else if seq == 1 {
            if cmd == 0x42 {
                (0x41, DsrState::Pending(GAMEPAD_DSR_DELAY, GAMEPAD_DSR_DURATION))
            } else {
                (0xff, DsrState::Idle)
            }
        } else if seq == 2 {
            (0x5a, DsrState::Pending(GAMEPAD_DSR_DELAY, GAMEPAD_DSR_DURATION))
        } else if seq == 3 {
            ((self.buttons & 0xff) as u8, DsrState::Pending(GAMEPAD_DSR_DELAY, GAMEPAD_DSR_DURATION))
        } else if seq == 4 {
            (((self.buttons >> 8) & 0xff) as u8, DsrState::Idle)
        } else {
            (0xff, DsrState::Idle)
        }
    }

    pub fn set_button_state(&mut self, button: Button, state: ButtonState)
        ensures
            final(self).buttons == buttons_after(old(self).buttons, button, state),
    {
        let idx = button.index();
        if idx >= 16 {
            return ;
        }
        if state.is_pressed() {
            self.buttons = self.buttons & !(1u16 << idx);
        } else {
            self.buttons = self.buttons | (1u16 << idx);
        }
    }
}

/// A DualShock-class pad: behaves as a digital pad until analog mode is
/// toggled, then identifies as analog and appends its axis bytes.
#[derive(Clone, Copy, PartialEq, Eq, Structural, Debug)]
pub struct DualShockPad {
    /// Active-low button word.
    pub buttons: u16,
    /// Whether analog mode is engaged.
    pub analog: bool,
    /// Axis positions, already centred on `0x80`.
    pub rx: u8,
    pub ry: u8,
    pub lx: u8,
    pub ly: u8,
}

/// An axis position as the byte the pad reports: the signed range mapped
/// onto `0..=255` with the centre at `0x80`.
pub open spec fn axis_byte(v: i16) -> u8 {
    ((v + 0x8000) / 256) as u8
}

/// Reply of a DualShock to command byte `cmd` at position `seq`.
pub open spec fn dualshock_response(p: DualShockPad, seq: u8, cmd: u8) -> u8 {
    if seq == 0 {
        0xff
    } else if seq == 1 {
        if cmd != 0x42 {
            0xff
        } else if p.analog {
            0x73
        } else {
            0x41
        }
    } else if seq == 2 {
        0x5a
    } else if seq == 3 {
        (p.buttons & 0xff) as u8
    } else if seq == 4 {
        ((p.buttons >> 8) & 0xff) as u8
    } else if p.analog && seq == 5 {
        p.rx
    } else if p.analog && seq == 6 {
        p.ry
    } else if p.analog && seq == 7 {
        p.lx
    } else if p.analog && seq == 8 {
        p.ly
    } else {
        0xff
    }
}

/// DSR request of a DualShock: in analog mode the transaction runs four
/// bytes longer to carry the axes.
pub open spec fn dualshock_dsr(p: DualShockPad, seq: u8, cmd: u8) -> DsrState {
    if seq == 0 {
        if cmd == 0x01 {
            pad_pulse()
        } else {
            DsrState::Idle
        }
    } else if seq == 1 {
        if cmd == 0x42 {
            pad_pulse()
        } else {
            DsrState::Idle
        }
    } else if seq == 2 || seq == 3 {
        pad_pulse()
    } else if p.analog && 4 <= seq && seq <= 7 {
        pad_pulse()
    } else {
        DsrState::Idle
    }
}

/// `p` after button `b` changes to state `s`: pressing the analog toggle
/// flips the mode, every other button updates the button word.
pub open spec fn dualshock_after_button(p: DualShockPad, b: Button, s: ButtonState) -> DualShockPad {
    if b == Button::Analog {
        if s == ButtonState::Pressed {
            DualShockPad { analog: !p.analog, ..p }
        } else {
            p
        }
    } else {
        DualShockPad { buttons: buttons_after(p.buttons, b, s), ..p }
    }
}

impl DualShockPad {
    /// A pad in digital mode with every button released and axes centred.
    pub fn new() -> (r: DualShockPad)
        ensures
            r == (DualShockPad {
                buttons: 0xffff,
                analog: false,
                rx: 0x80,
                ry: 0x80,
                lx: 0x80,
                ly: 0x80,
            }),
    {
        DualShockPad { buttons: 0xffff, analog: false, rx: 0x80, ry: 0x80, lx: 0x80, ly: 0x80 }
    }

    pub fn handle_command(&self, seq: u8, cmd: u8) -> (r: (u8, DsrState))
        ensures
            r.0 == dualshock_response(*self, seq, cmd),
            r.1 == dualshock_dsr(*self, seq, cmd),
    {
        let pulse = DsrState::Pending(GAMEPAD_DSR_DELAY, GAMEPAD_DSR_DURATION);
        if seq == 0 {
            (0xff, if cmd == 0x01 { pulse } else { DsrState::Idle })
        } else if seq == 1 {
            if cmd != 0x42 {
                (0xff, DsrState::Idle)
            } else if self.analog {
                (0x73, pulse)
            } else {
                (0x41, pulse)
            }
        } else if seq == 2 {
            (0x5a, pulse)
        } else if seq == 3 {
            ((self.buttons & 0xff) as u8, pulse)
        } else if seq == 4 {
            (
                ((self.buttons >> 8) & 0xff) as u8,
                if self.analog { pulse } else { DsrState::Idle },
            )
        } else if self.analog && seq == 5 {
            (self.rx, pulse)
        } else if self.analog && seq == 6 {
            (self.ry, pulse)
        } else if self.analog && seq == 7 {
            (self.lx, pulse)
        } else if self.analog && seq == 8 {
            (self.ly, DsrState::Idle)
        } else {
            (0xff, DsrState::Idle)
        }
    }

    pub fn set_button_state(&mut self, button: Button, state: ButtonState)
        ensures
            *final(self) == dualshock_after_button(*old(self), button, state),
    {
        if let Button::Analog = button {
            if state.is_pressed() {
                self.analog = !self.analog;
            }
            return ;
        }
        let idx = button.index();
        if idx >= 16 {
            return ;
        }
        if state.is_pressed() {
            self.buttons = self.buttons & !(1u16 << idx);
        } else {
            self.buttons = self.buttons | (1u16 << idx);
        }
    }

    /// Record the axis positions; each pair is `(x, y)`.
    pub fn set_axis_state(&mut self, left: (i16, i16), right: (i16, i16))
        ensures
            *final(self) == (DualShockPad {
                lx: axis_byte(left.0),
                ly: axis_byte(left.1),
                rx: axis_byte(right.0),
                ry: axis_byte(right.1),
                ..*old(self)
            }),
    {
        self.lx = to_axis_byte(left.0);
        self.ly = to_axis_byte(left.1);
        self.rx = to_axis_byte(right.0);
        self.ry = to_axis_byte(right.1);
    }
}

fn to_axis_byte(v: i16) -> (r: u8)
    ensures
        r == axis_byte(v),
{
    (((v as i32) + 0x8000) / 256) as u8
}

} // verus!
