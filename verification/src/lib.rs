//! Register- and timing-level model of a 32-bit game console's core bus:
//! a lazy clock scheduler, an interrupt level tracker, a DMA engine and a
//! serial pad/memory-card controller with cycle-accurate pulse timing.

use vstd::prelude::*;

pub mod bios;
pub mod bus;
pub mod cd;
pub mod config;
pub mod device;
pub mod dma;
pub mod error;
pub mod gamepad;
pub mod gfx;
pub mod input;
pub mod irq;
pub mod memory_card;
pub mod pad_memcard;
pub mod ps1;
pub mod settings;
pub mod sync;

use crate::bios::Metadata;
use crate::bus::{Bus, advance_rel};
use crate::cd::Disc;
use crate::device::device_for_type;
use crate::error::{Fault, MipsResult};
use crate::gfx::CpuFrame;
use crate::input::{ButtonQueue, DeviceType};
use crate::pad_memcard::{PeripheralV, PmcV};
use crate::ps1::{Ps1, apply_buttons};

verus! {

/// Count of bus clock cycles. Signed: scheduling windows may transiently
/// produce negative differences, but cycle counts are otherwise nonnegative.
pub type ClockCycle = i64;

/// Number of bus cycles the console advances for one host frame.
pub const FRAME_CYCLES: i64 = 564_480;

/// The surface a frontend drives a console through. Every method's effect
/// is pinned to the bus the console owns, exposed to contracts through
/// [`Console::bus_state`].
pub trait Console: Sized {
    spec fn wf(&self) -> bool;

    /// The bus the console owns, as the contracts see it.
    spec fn bus_state(&self) -> Bus;

    /// There is headroom left on the master cycle counter for one more
    /// frame.
    spec fn can_update(&self) -> bool;

    /// Advance one host frame's worth of cycles, catching up whichever
    /// subsystems fall due.
    fn update(&mut self) -> (r: Result<(), Fault>)
        requires
            old(self).wf(),
            old(self).can_update(),
        ensures
            advance_rel(
                old(self).bus_state(),
                final(self).bus_state(),
                FRAME_CYCLES as int,
                r,
            ),
            r is Ok ==> final(self).wf(),
    ;

    /// Drain at most one completed video frame: the pending frame, if any,
    /// is handed out and its slot cleared.
    fn get_frame(&mut self) -> (r: Option<CpuFrame>)
        requires
            old(self).wf(),
        ensures
            final(self).wf(),
            r == (match old(self).bus_state().frame {
                Some(f) => Some(CpuFrame { pixels: f.pixels, width: f.width, height: f.height }),
                None => None::<CpuFrame>,
            }),
            final(self).bus_state() == (Bus { frame: None, ..old(self).bus_state() }),
    ;

    /// The audio samples accumulated since the last drain; nothing changes.
    fn get_audio_samples(&mut self) -> (r: &[i16])
        requires
            old(self).wf(),
        ensures
            final(self).wf(),
            r@ == old(self).bus_state().audio@,
            *final(self) == *old(self),
    ;

    /// Drop the accumulated audio samples; everything else stays.
    fn clear_audio_samples(&mut self)
        requires
            old(self).wf(),
        ensures
            final(self).wf(),
            final(self).bus_state().audio@.len() == 0,
            final(self).bus_state().sched == old(self).bus_state().sched,
            final(self).bus_state().irq == old(self).bus_state().irq,
            final(self).bus_state().pad_memcard == old(self).bus_state().pad_memcard,
            final(self).bus_state().dma == old(self).bus_state().dma,
            final(self).bus_state().sinks == old(self).bus_state().sinks,
            final(self).bus_state().bios == old(self).bus_state().bios,
            final(self).bus_state().disc == old(self).bus_state().disc,
            final(self).bus_state().frame == old(self).bus_state().frame,
    ;

    /// Connect a host device of the given kind to a controller port: the
    /// port's gamepad slot ends up holding a fresh device of the mapped
    /// kind (its sequence state kept), displacing the old one; the memory
    /// cards and everything else stay.
    fn connect_device(&mut self, port: usize, device_type: DeviceType)
        requires
            old(self).wf(),
            port < 2,
        ensures
            final(self).wf(),
            ({
                let pre = old(self).bus_state();
                let post = final(self).bus_state();
                &&& post.eq_except_pad_memcard(&pre)
                &&& post.sched == pre.sched
                &&& post.irq == pre.irq
                &&& (port == 0 ==> post.pad_memcard@ == (PmcV {
                    pad1: PeripheralV {
                        device: device_for_type(device_type),
                        ..pre.pad_memcard@.pad1
                    },
                    ..pre.pad_memcard@
                }))
                &&& (port == 1 ==> post.pad_memcard@ == (PmcV {
                    pad2: PeripheralV {
                        device: device_for_type(device_type),
                        ..pre.pad_memcard@.pad2
                    },
                    ..pre.pad_memcard@
                }))
            }),
    ;

    /// Apply queued button transitions, in order, to the first controller;
    /// everything else stays.
    fn handle_inputs(&mut self, inputs: ButtonQueue)
        requires
            old(self).wf(),
        ensures
            final(self).wf(),
            ({
                let pre = old(self).bus_state();
                let post = final(self).bus_state();
                &&& post.eq_except_pad_memcard(&pre)
                &&& post.sched == pre.sched
                &&& post.irq == pre.irq
                &&& post.pad_memcard@ == (PmcV {
                    pad1: PeripheralV {
                        device: apply_buttons(pre.pad_memcard@.pad1.device, inputs@),
                        ..pre.pad_memcard@.pad1
                    },
                    ..pre.pad_memcard@
                })
            }),
    ;

    /// Per-frame tick for every connected peripheral. None of the devices
    /// modelled here keeps per-frame state, so the tick changes nothing.
    fn refresh_devices(&mut self)
        requires
            old(self).wf(),
        ensures
            *final(self) == *old(self),
    ;
}

/// Owner of the active console, if a title is loaded.
pub struct ConsoleManager {
    pub active: Option<Ps1>,
    /// What an absent console plays.
    pub silence: Vec<i16>,
}

impl ConsoleManager {
    pub open spec fn wf(&self) -> bool {
        match self.active {
            Some(c) => c.wf(),
            None => true,
        }
    }

    pub open spec fn spec_active(&self) -> Option<Ps1> {
        self.active
    }

    /// Headroom is left on the active console's cycle counter for one more
    /// frame (trivially true with none loaded).
    pub open spec fn can_update(&self) -> bool {
        match self.active {
            Some(c) => Console::can_update(&c),
            None => true,
        }
    }

    pub fn new() -> (r: ConsoleManager)
        ensures
            r.wf(),
            r.spec_active() is None,
    {
        ConsoleManager { active: None, silence: Vec::new() }
    }

    /// Build a console for a title from what the loader collaborator read:
    /// the BIOS image with its matched metadata, and the disc, if any.
    /// Fails exactly when the BIOS image is not recognized; the previous
    /// console, if any, is then kept.
    pub fn load_game(
        &mut self,
        bios_rom: Vec<u8>,
        bios_metadata: Option<Metadata>,
        disc: Option<Disc>,
    ) -> (r: MipsResult<()>)
        requires
            old(self).wf(),
        ensures
            final(self).wf(),
            match r {
                Ok(()) => {
                    &&& bios_rom@.len() == crate::bios::BIOS_SIZE
                    &&& bios_metadata is Some
                    &&& final(self).spec_active() is Some
                },
                Err(e) => {
                    &&& (bios_rom@.len() != crate::bios::BIOS_SIZE || bios_metadata is None)
                    &&& (match e {
                        crate::error::MipsError::Ps1Error(pe) => pe is UnknownBios,
                    })
                    &&& *final(self) == *old(self)
                },
            },
    {
        match Ps1::new(bios_rom, bios_metadata, disc) {
            Ok(console) => {
                self.active = Some(console);
                Ok(())
            },
            Err(e) => Err(e),
        }
    }

    /// Advance the active console by one frame; with none loaded, nothing
    /// happens.
    pub fn update(&mut self) -> (r: Result<(), Fault>)
        requires
            old(self).wf(),
            old(self).can_update(),
        ensures
            r is Ok ==> final(self).wf(),
            final(self).silence == old(self).silence,
            match old(self).spec_active() {
                None => r is Ok && *final(self) == *old(self),
                Some(c) => {
                    &&& final(self).spec_active() is Some
                    &&& advance_rel(
                        *c.bus,
                        *final(self).spec_active()->Some_0.bus,
                        FRAME_CYCLES as int,
                        r,
                    )
                },
            },
    {
        match &mut self.active {
            Some(console) => console.update(),
            None => Ok(()),
        }
    }

    /// Drain at most one completed frame from the active console: the
    /// pending frame, if any, is handed out and its slot cleared.
    pub fn get_frame(&mut self) -> (r: Option<CpuFrame>)
        requires
            old(self).wf(),
        ensures
            final(self).wf(),
            final(self).silence == old(self).silence,
            match old(self).spec_active() {
                None => r is None && *final(self) == *old(self),
                Some(c) => {
                    &&& r == (match c.bus.frame {
                        Some(f) => Some(
                            CpuFrame { pixels: f.pixels, width: f.width, height: f.height },
                        ),
                        None => None::<CpuFrame>,
                    })
                    &&& final(self).spec_active() is Some
                    &&& *final(self).spec_active()->Some_0.bus == (Bus { frame: None, ..*c.bus })
                },
            },
    {
        match &mut self.active {
            Some(console) => console.get_frame(),
            None => None,
        }
    }

    /// The active console's accumulated audio samples; silence with none
    /// loaded. Nothing changes.
    pub fn get_audio_samples(&mut self) -> (r: &[i16])
        requires
            old(self).wf(),
        ensures
            final(self).wf(),
            *final(self) == *old(self),
            r@ == (match old(self).spec_active() {
                Some(c) => c.bus.audio@,
                None => old(self).silence@,
            }),
    {
        match &mut self.active {
            Some(console) => console.get_audio_samples(),
            None => self.silence.as_slice(),
        }
    }

    /// Drop the active console's accumulated audio samples; everything else
    /// stays.
    pub fn clear_audio_samples(&mut self)
        requires
            old(self).wf(),
        ensures
            final(self).wf(),
            final(self).silence == old(self).silence,
            match old(self).spec_active() {
                None => *final(self) == *old(self),
                Some(c) => final(self).spec_active() is Some && ({
                    let post = *final(self).spec_active()->Some_0.bus;
                    &&& post.audio@.len() == 0
                    &&& post.sched == c.bus.sched
                    &&& post.irq == c.bus.irq
                    &&& post.pad_memcard == c.bus.pad_memcard
                    &&& post.dma == c.bus.dma
                    &&& post.sinks == c.bus.sinks
                    &&& post.bios == c.bus.bios
                    &&& post.disc == c.bus.disc
                    &&& post.frame == c.bus.frame
                }),
            },
    {
        match &mut self.active {
            Some(console) => console.clear_audio_samples(),
            None => {},
        }
    }

    /// Connect a host device to a controller port of the active console:
    /// that port's gamepad slot ends up holding a fresh device of the
    /// mapped kind, displacing the old one.
    pub fn connect_device(&mut self, port: usize, device: DeviceType)
        requires
            old(self).wf(),
            port < 2,
        ensures
            final(self).wf(),
            final(self).silence == old(self).silence,
            match old(self).spec_active() {
                None => *final(self) == *old(self),
                Some(c) => final(self).spec_active() is Some && ({
                    let pre = *c.bus;
                    let post = *final(self).spec_active()->Some_0.bus;
                    &&& post.eq_except_pad_memcard(&pre)
                    &&& post.sched == pre.sched
                    &&& post.irq == pre.irq
                    &&& (port == 0 ==> post.pad_memcard@ == (PmcV {
                        pad1: PeripheralV {
                            device: device_for_type(device),
                            ..pre.pad_memcard@.pad1
                        },
                        ..pre.pad_memcard@
                    }))
                    &&& (port == 1 ==> post.pad_memcard@ == (PmcV {
                        pad2: PeripheralV {
                            device: device_for_type(device),
                            ..pre.pad_memcard@.pad2
                        },
                        ..pre.pad_memcard@
                    }))
                }),
            },
    {
        match &mut self.active {
            Some(console) => console.connect_device(port, device),
            None => {},
        }
    }

    /// Apply queued button transitions, in order, to the active console's
    /// first controller; everything else stays.
    pub fn handle_inputs(&mut self, inputs: ButtonQueue)
        requires
            old(self).wf(),
        ensures
            final(self).wf(),
            final(self).silence == old(self).silence,
            match old(self).spec_active() {
                None => *final(self) == *old(self),
                Some(c) => final(self).spec_active() is Some && ({
                    let pre = *c.bus;
                    let post = *final(self).spec_active()->Some_0.bus;
                    &&& post.eq_except_pad_memcard(&pre)
                    &&& post.sched == pre.sched
                    &&& post.irq == pre.irq
                    &&& post.pad_memcard@ == (PmcV {
                        pad1: PeripheralV {
                            device: apply_buttons(pre.pad_memcard@.pad1.device, inputs@),
                            ..pre.pad_memcard@.pad1
                        },
                        ..pre.pad_memcard@
                    })
                }),
            },
    {
        match &mut self.active {
            Some(console) => console.handle_inputs(inputs),
            None => {},
        }
    }

    /// Per-frame tick for the active console's peripherals. None of the
    /// devices modelled here keeps per-frame state, so the tick changes
    /// nothing.
    pub fn refresh_devices(&mut self)
        requires
            old(self).wf(),
        ensures
            *final(self) == *old(self),
    {
        match &mut self.active {
            Some(console) => console.refresh_devices(),
            None => {},
        }
    }
}

} // verus!
