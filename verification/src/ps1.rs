//! The console: owner of the bus, surfaced to a frontend through the
//! [`crate::Console`] interface.

use vstd::prelude::*;
use crate::bios::{Bios, Metadata};
use crate::bus::Bus;
use crate::cd::Disc;
use crate::device::{
    Device, DeviceV, device_after_button, device_wf,
};
use crate::error::{Fault, MipsResult, Ps1Error};
use crate::gamepad::{DigitalPad, DualShockPad};
use crate::gfx::CpuFrame;
use crate::input::{Button, ButtonQueue, ButtonState, DeviceType};
use crate::settings::Ps1Settings;
use crate::sync::CYCLE_MAX;
use crate::Console;
use crate::FRAME_CYCLES;

verus! {

/// `d` after the whole queue of button transitions is applied, oldest
/// first.
pub open spec fn apply_buttons(d: DeviceV, q: Seq<(ButtonState, Button)>) -> DeviceV
    decreases q.len(),
{
    if q.len() == 0 {
        d
    } else {
        apply_buttons(device_after_button(d, q[0].1, q[0].0), q.drop_first())
    }
}

pub struct Ps1 {
    pub bus: Box<Bus>,
    pub settings: Ps1Settings,
}

impl Ps1 {
    pub open spec fn wf(&self) -> bool {
        self.bus.wf()
    }

    /// The bus, for register-level access.
    pub fn bus(&mut self) -> (r: &mut Bus)
        ensures
            *r == *old(self).bus,
            *final(self).bus == *final(r),
            final(self).settings == old(self).settings,
    {
        &mut *self.bus
    }

    /// Build a console around the BIOS image and metadata the loader
    /// supplied, with an optionally inserted disc. Fails exactly when the
    /// BIOS image is not recognized.
    pub fn new(bios_rom: Vec<u8>, bios_metadata: Option<Metadata>, disc: Option<Disc>) -> (r:
        MipsResult<Ps1>)
        ensures
            match r {
                Ok(p) => {
                    &&& bios_rom@.len() == crate::bios::BIOS_SIZE
                    &&& bios_metadata is Some
                    &&& p.wf()
                    &&& p.bus.sched.now == 0
                    &&& p.bus.pad_memcard@ == crate::pad_memcard::pmc_power_up()
                    &&& p.bus.bios.spec_rom() == bios_rom@
                    &&& p.bus.disc == disc
                    &&& p.settings == (Ps1Settings {
                        graphics: crate::settings::GraphicsSettings { skip_boot_animation: false },
                    })
                },
                Err(e) => {
                    &&& (bios_rom@.len() != crate::bios::BIOS_SIZE || bios_metadata is None)
                    &&& (match e {
                        crate::error::MipsError::Ps1Error(pe) => pe is UnknownBios,
                    })
                },
            },
    {
        let bios = match Bios::new(bios_rom, bios_metadata) {
            Ok(b) => b,
            Err(e) => {
                return Err(e);
            },
        };
        Ok(Ps1 { bus: Box::new(Bus::new(bios, disc)), settings: Ps1Settings::default() })
    }

    /// Hot-swap the disc; everything else stays.
    pub fn insert_disc(&mut self, disc: Disc)
        requires
            old(self).wf(),
        ensures
            final(self).wf(),
            final(self).bus.disc == Some(disc),
            final(self).bus.sched == old(self).bus.sched,
            final(self).bus.irq == old(self).bus.irq,
            final(self).bus.pad_memcard == old(self).bus.pad_memcard,
            final(self).bus.dma == old(self).bus.dma,
            final(self).bus.sinks == old(self).bus.sinks,
            final(self).bus.bios == old(self).bus.bios,
            final(self).bus.frame == old(self).bus.frame,
            final(self).bus.audio == old(self).bus.audio,
            final(self).settings == old(self).settings,
    {
        self.bus.insert_disc(disc);
    }

    /// Per-frame memory-card poll: give each card its frame tick and hand
    /// the write counters to the persistence collaborator, which compares
    /// them against its own to decide when to flush the flash images.
    pub fn poll_mem_cards(&mut self) -> (r: (u32, u32))
        requires
            old(self).wf(),
        ensures
            final(self).wf(),
            *final(self) == *old(self),
            r.0 == crate::device::device_write_counter(old(self).bus.pad_memcard.memcard1@.device),
            r.1 == crate::device::device_write_counter(old(self).bus.pad_memcard.memcard2@.device),
    {
        let (mc1, mc2) = self.bus.pad_memcard.memory_cards_mut();
        let d1 = mc1.device_mut();
        d1.new_frame();
        let c1 = d1.write_counter();
        let d2 = mc2.device_mut();
        d2.new_frame();
        let c2 = d2.write_counter();
        (c1, c2)
    }

    /// Apply queued button transitions, in order, to the pad in the first
    /// slot; the second port, the memory cards and the registers stay.
    pub fn poll_gamepads(&mut self, button_states: ButtonQueue)
        requires
            old(self).wf(),
        ensures
            final(self).wf(),
            final(self).bus.pad_memcard@ == (crate::pad_memcard::PmcV {
                pad1: crate::pad_memcard::PeripheralV {
                    device: apply_buttons(
                        old(self).bus.pad_memcard@.pad1.device,
                        button_states@,
                    ),
                    ..old(self).bus.pad_memcard@.pad1
                },
                ..old(self).bus.pad_memcard@
            }),
            final(self).bus.eq_except_pad_memcard(&old(self).bus),
            final(self).bus.sched == old(self).bus.sched,
            final(self).bus.irq == old(self).bus.irq,
            final(self).settings == old(self).settings,
    {
        apply_button_queue(&mut self.bus.pad_memcard.pad1.device, &button_states);
    }
}

/// Apply a queue of button transitions to one device, oldest first.
fn apply_button_queue(device: &mut Device, q: &ButtonQueue)
    requires
        device_wf(old(device)@),
    ensures
        device_wf(final(device)@),
        final(device)@ == apply_buttons(old(device)@, q@),
{
    let n = q.len();
    let mut i: usize = 0;
    proof {
        assert(q@.skip(0) =~= q@);
    }
    while i < n
        invariant
            i <= n,
            n == q@.len(),
            device_wf(device@),
            apply_buttons(old(device)@, q@) == apply_buttons(device@, q@.skip(i as int)),
        decreases n - i,
    {
        let (state, button) = q[i];
        let ghost pre = device@;
        device.set_button_state(button, state);
        proof {
            assert(q@.skip(i as int)[0] == q@[i as int]);
            assert(q@.skip(i as int).drop_first() =~= q@.skip(i as int + 1));
        }
        i = i + 1;
    }
    proof {
        assert(q@.skip(n as int) =~= Seq::<(ButtonState, Button)>::empty());
    }
}

impl Console for Ps1 {
    open spec fn wf(&self) -> bool {
        self.bus.wf()
    }

    open spec fn bus_state(&self) -> Bus {
        *self.bus
    }

    open spec fn can_update(&self) -> bool {
        self.bus.sched.now + FRAME_CYCLES <= CYCLE_MAX
    }

    fn update(&mut self) -> (r: Result<(), Fault>) {
        self.bus.update()
    }

    fn get_frame(&mut self) -> (r: Option<CpuFrame>) {
        match self.bus.take_frame() {
            Some(frame) => Some(CpuFrame::from(frame)),
            None => None,
        }
    }

    fn get_audio_samples(&mut self) -> (r: &[i16]) {
        self.bus.get_audio_samples().as_slice()
    }

    fn clear_audio_samples(&mut self) {
        self.bus.clear_audio_samples()
    }

    fn connect_device(&mut self, port: usize, device_type: DeviceType) {
        let new_pad = match device_type {
            DeviceType::Unknown => Device::Disconnected,
            DeviceType::Keyboard => Device::DigitalPad(DigitalPad::new()),
            DeviceType::DualShock => Device::DualShock(DualShockPad::new()),
        };

        let (pad1, pad2) = self.bus.pad_memcard.gamepads_mut();
        if port == 0 {
            pad1.connect_device(new_pad);
        } else {
            pad2.connect_device(new_pad);
        }
    }

    fn handle_inputs(&mut self, inputs: ButtonQueue) {
        apply_button_queue(&mut self.bus.pad_memcard.pad1.device, &inputs);
    }

    fn refresh_devices(&mut self) {
        let (pad1, pad2) = self.bus.pad_memcard.gamepads_mut();
        pad1.device_mut().new_frame();
        pad2.device_mut().new_frame();
    }
}

} // verus!
