//! The peripheral device abstraction: a closed set of variants dispatched
//! through one match, so that each capability is explicit and exhaustively
//! checked. A capability meaningless to a variant defaults to a no-op or
//! zero.

use vstd::prelude::*;
use crate::gamepad::{
    DigitalPad, DualShockPad, buttons_after, digital_dsr, digital_response, dualshock_after_button,
    dualshock_dsr, dualshock_response, axis_byte,
};
use crate::input::{Button, ButtonState, DeviceType};
use crate::memory_card::{
    McView, MemoryCard, mc_dsr, mc_response, mc_select, mc_step, mc_wf,
};
use crate::pad_memcard::DsrState;

verus! {

/// A device wired to one slot. An empty slot holds the explicit
/// `Disconnected` variant, never nothing.
pub enum Device {
    Disconnected,
    DigitalPad(DigitalPad),
    DualShock(DualShockPad),
    MemoryCard(MemoryCard),
}

/// Ghost image of a [`Device`].
#[verifier::ext_equal]
pub enum DeviceV {
    Disconnected,
    DigitalPad(DigitalPad),
    DualShock(DualShockPad),
    MemoryCard(McView),
}

impl View for Device {
    type V = DeviceV;

    open spec fn view(&self) -> DeviceV {
        match self {
            Device::Disconnected => DeviceV::Disconnected,
            Device::DigitalPad(p) => DeviceV::DigitalPad(*p),
            Device::DualShock(p) => DeviceV::DualShock(*p),
            Device::MemoryCard(m) => DeviceV::MemoryCard(m@),
        }
    }
}

pub open spec fn device_wf(d: DeviceV) -> bool {
    match d {
        DeviceV::MemoryCard(m) => mc_wf(m),
        _ => true,
    }
}

/// Response byte of `d` to command byte `cmd` at position `seq`. A
/// disconnected slot leaves the bus open: all ones.
pub open spec fn device_response(d: DeviceV, seq: u8, cmd: u8) -> u8 {
    match d {
        DeviceV::Disconnected => 0xff,
        DeviceV::DigitalPad(p) => digital_response(p, seq, cmd),
        DeviceV::DualShock(p) => dualshock_response(p, seq, cmd),
        DeviceV::MemoryCard(m) => mc_response(m, seq, cmd),
    }
}

/// DSR pulse `d` requests after that byte; `Idle` ends the transaction. A
/// disconnected slot never pulses.
pub open spec fn device_dsr(d: DeviceV, seq: u8, cmd: u8) -> DsrState {
    match d {
        DeviceV::Disconnected => DsrState::Idle,
        DeviceV::DigitalPad(_) => digital_dsr(seq, cmd),
        DeviceV::DualShock(p) => dualshock_dsr(p, seq, cmd),
        DeviceV::MemoryCard(m) => mc_dsr(m, seq, cmd),
    }
}

/// State of `d` after handling that byte. Pads are pure responders; only a
/// memory card steps internal state.
pub open spec fn device_step(d: DeviceV, seq: u8, cmd: u8) -> DeviceV {
    match d {
        DeviceV::MemoryCard(m) => DeviceV::MemoryCard(mc_step(m, seq, cmd)),
        _ => d,
    }
}

/// State of `d` after its select line is asserted.
pub open spec fn device_select(d: DeviceV) -> DeviceV {
    match d {
        DeviceV::MemoryCard(m) => DeviceV::MemoryCard(mc_select(m)),
        _ => d,
    }
}

/// State of `d` after button `b` changes to state `s`.
pub open spec fn device_after_button(d: DeviceV, b: Button, s: ButtonState) -> DeviceV {
    match d {
        DeviceV::DigitalPad(p) => DeviceV::DigitalPad(
            DigitalPad { buttons: buttons_after(p.buttons, b, s) },
        ),
        DeviceV::DualShock(p) => DeviceV::DualShock(dualshock_after_button(p, b, s)),
        _ => d,
    }
}

/// State of `d` after the axis positions change.
pub open spec fn device_after_axes(d: DeviceV, left: (i16, i16), right: (i16, i16)) -> DeviceV {
    match d {
        DeviceV::DualShock(p) => DeviceV::DualShock(
            DualShockPad {
                lx: axis_byte(left.0),
                ly: axis_byte(left.1),
                rx: axis_byte(right.0),
                ry: axis_byte(right.1),
                ..p
            },
        ),
        _ => d,
    }
}

/// The device a frontend request for `device_type` connects: a fresh pad of
/// the matching kind, or the explicit placeholder for an unrecognized kind
/// (logged, never fatal).
pub open spec fn device_for_type(device_type: DeviceType) -> DeviceV {
    match device_type {
        DeviceType::Unknown => DeviceV::Disconnected,
        DeviceType::Keyboard => DeviceV::DigitalPad(DigitalPad { buttons: 0xffff }),
        DeviceType::DualShock => DeviceV::DualShock(
            DualShockPad { buttons: 0xffff, analog: false, rx: 0x80, ry: 0x80, lx: 0x80, ly: 0x80 },
        ),
    }
}

/// The write counter a persistence collaborator polls; zero for anything
/// but a memory card.
pub open spec fn device_write_counter(d: DeviceV) -> u32 {
    match d {
        DeviceV::MemoryCard(m) => m.write_counter,
        _ => 0,
    }
}

/// A device's DSR request is never already active, is well-formed, and no
/// device keeps a transaction alive past byte 250; stepping a device keeps
/// it well-formed.
pub proof fn lemma_device_dsr_shape(d: DeviceV, seq: u8, cmd: u8)
    ensures
        !device_dsr(d, seq, cmd).spec_is_active(),
        device_dsr(d, seq, cmd).wf(),
        seq >= 250 ==> device_dsr(d, seq, cmd) == DsrState::Idle,
        device_wf(d) ==> device_wf(device_step(d, seq, cmd)),
{
}

impl Device {
    /// Human-readable description of the device.
    pub fn description(&self) -> String {
        match self {
            Device::Disconnected => "Disconnected".to_owned(),
            Device::DigitalPad(_) => "Digital Pad".to_owned(),
            Device::DualShock(_) => "DualShock".to_owned(),
            Device::MemoryCard(_) => "Memory Card".to_owned(),
        }
    }

    /// Called every time the device's select line goes low.
    pub fn select(&mut self)
        ensures
            final(self)@ == device_select(old(self)@),
    {
        match self {
            Device::MemoryCard(m) => m.select(),
            _ => {},
        }
    }

    /// Handle one command byte; `seq` is its position in the transaction.
    /// Returns the response byte and the device's DSR request; an `Idle`
    /// request means the transaction is complete.
    pub fn handle_command(&mut self, seq: u8, cmd: u8) -> (r: (u8, DsrState))
        requires
            device_wf(old(self)@),
        ensures
            device_wf(final(self)@),
            r.0 == device_response(old(self)@, seq, cmd),
            r.1 == device_dsr(old(self)@, seq, cmd),
            final(self)@ == device_step(old(self)@, seq, cmd),
    {
        match self {
            Device::Disconnected => (0xff, DsrState::Idle),
            Device::DigitalPad(p) => p.handle_command(seq, cmd),
            Device::DualShock(p) => p.handle_command(seq, cmd),
            Device::MemoryCard(m) => m.handle_command(seq, cmd),
        }
    }

    /// Record a button transition; meaningful to pads only.
    pub fn set_button_state(&mut self, button: Button, state: ButtonState)
        ensures
            final(self)@ == device_after_button(old(self)@, button, state),
    {
        match self {
            Device::DigitalPad(p) => p.set_button_state(button, state),
            Device::DualShock(p) => p.set_button_state(button, state),
            _ => {},
        }
    }

    /// Record the axis positions; meaningful to analog pads only. Each pair
    /// is `(x, y)`.
    pub fn set_axis_state(&mut self, left: (i16, i16), right: (i16, i16))
        ensures
            final(self)@ == device_after_axes(old(self)@, left, right),
    {
        match self {
            Device::DualShock(p) => p.set_axis_state(left, right),
            _ => {},
        }
    }

    /// Rumble state `(big left motor, small right motor)`; none of the
    /// devices modelled here drives a motor.
    pub fn get_rumble(&self) -> (r: (u8, u8))
        ensures
            r == (0u8, 0u8),
    {
        (0, 0)
    }

    /// The device's flash image, for a memory card; `None` elsewhere.
    pub fn get_memory(&self) -> (r: Option<&Vec<u8>>)
        ensures
            match self@ {
                DeviceV::MemoryCard(m) => r is Some && r->Some_0@ == m.flash,
                _ => r is None,
            },
    {
        match self {
            Device::MemoryCard(m) => Some(m.get_memory()),
            _ => None,
        }
    }

    /// Counter of flash-changing writes; zero for anything but a memory
    /// card.
    pub fn write_counter(&self) -> (r: u32)
        ensures
            r == device_write_counter(self@),
    {
        match self {
            Device::MemoryCard(m) => m.write_counter(),
            _ => 0,
        }
    }

    /// Called when the device is plugged into a console.
    pub fn connected(&mut self)
        ensures
            *final(self) == *old(self),
    {
    }

    /// Called once per host frame.
    pub fn new_frame(&mut self)
        ensures
            *final(self) == *old(self),
    {
    }
}

} // verus!
