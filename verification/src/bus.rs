//! The bus: exclusive owner of all subsystem state, dispatching register
//! reads and writes to the right subsystem by address.

use vstd::prelude::*;
use crate::bios::Bios;
use crate::cd::Disc;
use crate::dma::DmaState;
use crate::gfx::Frame;
use crate::error::Fault;
use crate::irq::InterruptState;
use crate::pad_memcard::PadMemCard;
use crate::sync::Scheduler;
use crate::ClockCycle;

verus! {

/// Width of a register access.
#[derive(Clone, Copy, PartialEq, Eq, Structural, Debug)]
pub enum AccessWidth {
    Byte,
    HalfWord,
    Word,
}

/// Word queues crossing the DMA ports into the subsystems whose internals
/// are outside this core (SPU, GPU, MDEC, CD-ROM). A store pushes the word
/// into the owning subsystem's inbound queue; a load drains the subsystem's
/// outbound queue.
pub struct PortSinks {
    pub spu_in: Vec<u32>,
    pub spu_out: Vec<u32>,
    pub gpu_in: Vec<u32>,
    pub gpu_out: Vec<u32>,
    pub mdec_in: Vec<u32>,
    pub mdec_out: Vec<u32>,
    /// Byte offset the MDEC subsystem reports for its output words.
    pub mdec_out_offset: u32,
    pub cd_out: Vec<u32>,
}

impl PortSinks {
    pub fn new() -> (r: PortSinks)
        ensures
            r.spu_in@.len() == 0,
            r.spu_out@.len() == 0,
            r.gpu_in@.len() == 0,
            r.gpu_out@.len() == 0,
            r.mdec_in@.len() == 0,
            r.mdec_out@.len() == 0,
            r.mdec_out_offset == 0,
            r.cd_out@.len() == 0,
    {
        PortSinks {
            spu_in: Vec::new(),
            spu_out: Vec::new(),
            gpu_in: Vec::new(),
            gpu_out: Vec::new(),
            mdec_in: Vec::new(),
            mdec_out: Vec::new(),
            mdec_out_offset: 0,
            cd_out: Vec::new(),
        }
    }

    pub open spec fn eq_except_spu_in(&self, other: &PortSinks) -> bool {
        &&& self.spu_out == other.spu_out
        &&& self.gpu_in == other.gpu_in
        &&& self.gpu_out == other.gpu_out
        &&& self.mdec_in == other.mdec_in
        &&& self.mdec_out == other.mdec_out
        &&& self.mdec_out_offset == other.mdec_out_offset
        &&& self.cd_out == other.cd_out
    }

    pub open spec fn eq_except_spu_out(&self, other: &PortSinks) -> bool {
        &&& self.spu_in == other.spu_in
        &&& self.gpu_in == other.gpu_in
        &&& self.gpu_out == other.gpu_out
        &&& self.mdec_in == other.mdec_in
        &&& self.mdec_out == other.mdec_out
        &&& self.mdec_out_offset == other.mdec_out_offset
        &&& self.cd_out == other.cd_out
    }

    pub open spec fn eq_except_gpu_in(&self, other: &PortSinks) -> bool {
        &&& self.spu_in == other.spu_in
        &&& self.spu_out == other.spu_out
        &&& self.gpu_out == other.gpu_out
        &&& self.mdec_in == other.mdec_in
        &&& self.mdec_out == other.mdec_out
        &&& self.mdec_out_offset == other.mdec_out_offset
        &&& self.cd_out == other.cd_out
    }

    pub open spec fn eq_except_gpu_out(&self, other: &PortSinks) -> bool {
        &&& self.spu_in == other.spu_in
        &&& self.spu_out == other.spu_out
        &&& self.gpu_in == other.gpu_in
        &&& self.mdec_in == other.mdec_in
        &&& self.mdec_out == other.mdec_out
        &&& self.mdec_out_offset == other.mdec_out_offset
        &&& self.cd_out == other.cd_out
    }

    pub open spec fn eq_except_mdec_in(&self, other: &PortSinks) -> bool {
        &&& self.spu_in == other.spu_in
        &&& self.spu_out == other.spu_out
        &&& self.gpu_in == other.gpu_in
        &&& self.gpu_out == other.gpu_out
        &&& self.mdec_out == other.mdec_out
        &&& self.mdec_out_offset == other.mdec_out_offset
        &&& self.cd_out == other.cd_out
    }

    pub open spec fn eq_except_mdec_out(&self, other: &PortSinks) -> bool {
        &&& self.spu_in == other.spu_in
        &&& self.spu_out == other.spu_out
        &&& self.gpu_in == other.gpu_in
        &&& self.gpu_out == other.gpu_out
        &&& self.mdec_in == other.mdec_in
        &&& self.mdec_out_offset == other.mdec_out_offset
        &&& self.cd_out == other.cd_out
    }

    pub open spec fn eq_except_cd_out(&self, other: &PortSinks) -> bool {
        &&& self.spu_in == other.spu_in
        &&& self.spu_out == other.spu_out
        &&& self.gpu_in == other.gpu_in
        &&& self.gpu_out == other.gpu_out
        &&& self.mdec_in == other.mdec_in
        &&& self.mdec_out == other.mdec_out
        &&& self.mdec_out_offset == other.mdec_out_offset
    }
}

/// Owner of all subsystem state. Created once per loaded title.
pub struct Bus {
    pub sched: Scheduler,
    pub irq: InterruptState,
    pub pad_memcard: PadMemCard,
    pub dma: DmaState,
    pub sinks: PortSinks,
    pub bios: Bios,
    pub disc: Option<Disc>,
    pub frame: Option<Frame>,
    pub audio: Vec<i16>,
}

impl Bus {
    pub open spec fn wf(&self) -> bool {
        &&& self.sched.wf()
        &&& self.pad_memcard.wf()
        &&& self.bios.wf()
    }

    /// Everything but the DMA port queues is untouched.
    pub open spec fn eq_except_sinks(&self, other: &Bus) -> bool {
        &&& self.sched == other.sched
        &&& self.irq == other.irq
        &&& self.pad_memcard == other.pad_memcard
        &&& self.dma == other.dma
        &&& self.bios == other.bios
        &&& self.disc == other.disc
        &&& self.frame == other.frame
        &&& self.audio == other.audio
    }

    /// Everything the pad/memory-card subsystem never touches is untouched
    /// (its own registers, the scheduler and the interrupt tracker are
    /// spoken for separately).
    pub open spec fn eq_except_pad_memcard(&self, other: &Bus) -> bool {
        &&& self.dma == other.dma
        &&& self.sinks == other.sinks
        &&& self.bios == other.bios
        &&& self.disc == other.disc
        &&& self.frame == other.frame
        &&& self.audio == other.audio
    }

    /// A bus wired to the given BIOS image, with an optionally inserted
    /// disc; every subsystem starts idle.
    pub fn new(bios: Bios, disc: Option<Disc>) -> (r: Bus)
        requires
            bios.wf(),
        ensures
            r.wf(),
            r.sched.now == 0,
            forall|t: crate::sync::SyncToken|
                #[trigger] r.sched.clock(t) == (crate::sync::TokenClock {
                    last_sync: 0,
                    next_event: crate::sync::NO_EVENT,
                }),
            r.irq == (InterruptState { status: 0, mask: 0, level: 0 }),
            r.pad_memcard@ == crate::pad_memcard::pmc_power_up(),
            forall|p: crate::dma::Port|
                #[trigger] r.dma.channel(p) == (crate::dma::Channel {
                    cur_address: 0,
                    remaining_words: 0,
                }),
            r.sinks.spu_in@.len() == 0,
            r.sinks.spu_out@.len() == 0,
            r.sinks.gpu_in@.len() == 0,
            r.sinks.gpu_out@.len() == 0,
            r.sinks.mdec_in@.len() == 0,
            r.sinks.mdec_out@.len() == 0,
            r.sinks.mdec_out_offset == 0,
            r.sinks.cd_out@.len() == 0,
            r.bios == bios,
            r.disc == disc,
            r.frame is None,
            r.audio@.len() == 0,
    {
        Bus {
            sched: Scheduler::new(),
            irq: InterruptState::new(),
            pad_memcard: PadMemCard::new(),
            dma: DmaState::new(),
            sinks: PortSinks::new(),
            bios,
            disc,
            frame: None,
            audio: Vec::new(),
        }
    }

    /// Hot-swap the disc.
    pub fn insert_disc(&mut self, disc: Disc)
        ensures
            final(self).disc == Some(disc),
            final(self).sched == old(self).sched,
            final(self).irq == old(self).irq,
            final(self).pad_memcard == old(self).pad_memcard,
            final(self).dma == old(self).dma,
            final(self).sinks == old(self).sinks,
            final(self).bios == old(self).bios,
            final(self).frame == old(self).frame,
            final(self).audio == old(self).audio,
    {
        self.disc = Some(disc);
    }

    /// Drain the completed frame, if one is pending.
    pub fn take_frame(&mut self) -> (r: Option<Frame>)
        ensures
            r == old(self).frame,
            final(self).frame is None,
            final(self).sched == old(self).sched,
            final(self).irq == old(self).irq,
            final(self).pad_memcard == old(self).pad_memcard,
            final(self).dma == old(self).dma,
            final(self).sinks == old(self).sinks,
            final(self).bios == old(self).bios,
            final(self).disc == old(self).disc,
            final(self).audio == old(self).audio,
    {
        let mut f: Option<Frame> = None;
        core::mem::swap(&mut self.frame, &mut f);
        f
    }

    /// The audio samples accumulated since the last drain.
    pub fn get_audio_samples(&self) -> (r: &Vec<i16>)
        ensures
            r == &self.audio,
    {
        &self.audio
    }

    /// Drop the accumulated audio samples.
    pub fn clear_audio_samples(&mut self)
        ensures
            final(self).audio@.len() == 0,
            final(self).sched == old(self).sched,
            final(self).irq == old(self).irq,
            final(self).pad_memcard == old(self).pad_memcard,
            final(self).dma == old(self).dma,
            final(self).sinks == old(self).sinks,
            final(self).bios == old(self).bios,
            final(self).disc == old(self).disc,
            final(self).frame == old(self).frame,
    {
        self.audio.clear();
    }
}

/// Base address of the pad/memory-card controller's register block.
pub const PAD_MEMCARD_BASE: u32 = 0x1f80_1040;

/// One past the last controller register address.
pub const PAD_MEMCARD_END: u32 = 0x1f80_1050;

/// Interrupt status register address.
pub const IRQ_STATUS_ADDR: u32 = 0x1f80_1070;

/// Interrupt mask register address.
pub const IRQ_MASK_ADDR: u32 = 0x1f80_1074;

/// Base address of the BIOS ROM window.
pub const BIOS_BASE: u32 = 0x1fc0_0000;

/// One past the last BIOS ROM address.
pub const BIOS_END: u32 = 0x1fc8_0000;

/// Bytes a `width`-sized access covers.
pub open spec fn width_bytes(width: AccessWidth) -> int {
    match width {
        AccessWidth::Byte => 1,
        AccessWidth::HalfWord => 2,
        AccessWidth::Word => 4,
    }
}

/// The bytes of `rom` starting at `off`, assembled little-endian into a
/// `width`-sized value.
pub open spec fn bios_value(rom: Seq<u8>, off: int, width: AccessWidth) -> u32 {
    match width {
        AccessWidth::Byte => rom[off] as u32,
        AccessWidth::HalfWord => (rom[off] + rom[off + 1] * 0x100) as u32,
        AccessWidth::Word => (rom[off] + rom[off + 1] * 0x100 + rom[off + 2] * 0x1_0000 + rom[off
            + 3] * 0x100_0000) as u32,
    }
}

/// Everything one clock advance decides, relating the bus before and after:
/// the master counter moves by `cycles`, and the pad/memory-card catch-up
/// runs exactly when its mandatory wake-up has become due. Only that
/// controller has a catch-up handler in this core; the other subsystems
/// live behind their ports.
pub open spec fn advance_rel(pre: Bus, post: Bus, cycles: int, r: Result<(), Fault>) -> bool {
    let s1 = Scheduler { now: (pre.sched.now + cycles) as i64, ..pre.sched };
    if s1.pad_memcard.next_event <= s1.now {
        match crate::pad_memcard::pad_run_outcome(s1, pre.irq, pre.pad_memcard@) {
            Ok(o) => {
                &&& r is Ok
                &&& post.wf()
                &&& post.sched == o.0
                &&& post.irq == o.1
                &&& post.pad_memcard@ == o.2
                &&& post.eq_except_pad_memcard(&pre)
            },
            Err(f) => r == Err::<(), Fault>(f),
        }
    } else {
        &&& r is Ok
        &&& post.wf()
        &&& post.sched == s1
        &&& post.irq == pre.irq
        &&& post.pad_memcard == pre.pad_memcard
        &&& post.eq_except_pad_memcard(&pre)
    }
}

impl Bus {
    /// Advance the master clock by `cycles`, then perform the catch-up of
    /// any subsystem whose mandatory wake-up has become due.
    pub fn advance(&mut self, cycles: ClockCycle) -> (r: Result<(), Fault>)
        requires
            old(self).wf(),
            0 <= cycles,
            old(self).sched.now + cycles <= crate::sync::CYCLE_MAX,
        ensures
            advance_rel(*old(self), *final(self), cycles as int, r),
    {
        self.sched.advance(cycles);
        proof {
            let s1 = Scheduler { now: (old(self).sched.now + cycles) as i64, ..old(self).sched };
            crate::pad_memcard::lemma_scheduler_clocks(self.sched, s1);
        }
        if self.sched.is_due(crate::sync::SyncToken::PadMemCard) {
            match crate::pad_memcard::run(self) {
                Ok(()) => {},
                Err(f) => {
                    return Err(f);
                },
            }
        }
        Ok(())
    }

    /// Advance the console by one host frame's worth of cycles.
    pub fn update(&mut self) -> (r: Result<(), Fault>)
        requires
            old(self).wf(),
            old(self).sched.now + crate::FRAME_CYCLES <= crate::sync::CYCLE_MAX,
        ensures
            advance_rel(*old(self), *final(self), crate::FRAME_CYCLES as int, r),
            r is Ok ==> final(self).wf(),
    {
        self.advance(crate::FRAME_CYCLES)
    }

    /// Dispatch a register write by address: the pad/memory-card controller
    /// block or the interrupt controller. An address outside every mapped
    /// range is a fatal unimplemented condition.
    pub fn store(&mut self, width: AccessWidth, addr: u32, val: u32) -> (r: Result<(), Fault>)
        requires
            old(self).wf(),
        ensures
            ({
                if PAD_MEMCARD_BASE <= addr < PAD_MEMCARD_END {
                    match crate::pad_memcard::pad_store_outcome(
                        old(self).sched,
                        old(self).irq,
                        old(self).pad_memcard@,
                        width,
                        (addr - PAD_MEMCARD_BASE) as u32,
                        val,
                    ) {
                        Err(f) => r == Err::<(), Fault>(f),
                        Ok(o) => {
                            &&& r is Ok
                            &&& final(self).wf()
                            &&& final(self).sched == o.0
                            &&& final(self).irq == o.1
                            &&& final(self).pad_memcard@ == o.2
                            &&& final(self).eq_except_pad_memcard(old(self))
                        },
                    }
                } else if addr == IRQ_STATUS_ADDR {
                    &&& r is Ok
                    &&& final(self).wf()
                    &&& final(self).irq == (InterruptState {
                        status: old(self).irq.status & (val as u16),
                        ..old(self).irq
                    })
                    &&& final(self).sched == old(self).sched
                    &&& final(self).pad_memcard == old(self).pad_memcard
                    &&& final(self).eq_except_pad_memcard(old(self))
                } else if addr == IRQ_MASK_ADDR {
                    &&& r is Ok
                    &&& final(self).wf()
                    &&& final(self).irq == (InterruptState { mask: val as u16, ..old(self).irq })
                    &&& final(self).sched == old(self).sched
                    &&& final(self).pad_memcard == old(self).pad_memcard
                    &&& final(self).eq_except_pad_memcard(old(self))
                } else {
                    r == Err::<(), Fault>(crate::error::Fault::UnmappedAddress(addr))
                }
            }),
    {
        if PAD_MEMCARD_BASE <= addr && addr < PAD_MEMCARD_END {
            crate::pad_memcard::store(self, width, addr - PAD_MEMCARD_BASE, val)
        } else if addr == IRQ_STATUS_ADDR {
            // Writing the status register acknowledges every latch written
            // as zero.
            self.irq.ack(#[verifier::truncate] (val as u16));
            Ok(())
        } else if addr == IRQ_MASK_ADDR {
            self.irq.set_mask(#[verifier::truncate] (val as u16));
            Ok(())
        } else {
            Err(crate::error::Fault::UnmappedAddress(addr))
        }
    }

    /// Dispatch a register read by address: the pad/memory-card controller
    /// block, the interrupt controller or the BIOS ROM window. An address
    /// outside every mapped range is a fatal unimplemented condition.
    pub fn load(&mut self, width: AccessWidth, addr: u32) -> (r: Result<u32, Fault>)
        requires
            old(self).wf(),
        ensures
            ({
                if PAD_MEMCARD_BASE <= addr < PAD_MEMCARD_END {
                    match crate::pad_memcard::pad_load_outcome(
                        old(self).sched,
                        old(self).irq,
                        old(self).pad_memcard@,
                        width,
                        (addr - PAD_MEMCARD_BASE) as u32,
                    ) {
                        Err(f) => r == Err::<u32, Fault>(f),
                        Ok(o) => {
                            &&& r == Ok::<u32, Fault>(o.3)
                            &&& final(self).wf()
                            &&& final(self).sched == o.0
                            &&& final(self).irq == o.1
                            &&& final(self).pad_memcard@ == o.2
                            &&& final(self).eq_except_pad_memcard(old(self))
                        },
                    }
                } else {
                    let unchanged = {
                        &&& final(self).wf()
                        &&& final(self).sched == old(self).sched
                        &&& final(self).irq == old(self).irq
                        &&& final(self).pad_memcard == old(self).pad_memcard
                        &&& final(self).eq_except_pad_memcard(old(self))
                    };
                    if addr == IRQ_STATUS_ADDR {
                        r == Ok::<u32, Fault>(old(self).irq.status as u32) && unchanged
                    } else if addr == IRQ_MASK_ADDR {
                        r == Ok::<u32, Fault>(old(self).irq.mask as u32) && unchanged
                    } else if BIOS_BASE <= addr && addr + width_bytes(width) <= BIOS_END {
                        r == Ok::<u32, Fault>(
                            bios_value(old(self).bios.spec_rom(), addr - BIOS_BASE, width),
                        ) && unchanged
                    } else {
                        r == Err::<u32, Fault>(crate::error::Fault::UnmappedAddress(addr))
                    }
                }
            }),
    {
        if PAD_MEMCARD_BASE <= addr && addr < PAD_MEMCARD_END {
            crate::pad_memcard::load(self, width, addr - PAD_MEMCARD_BASE)
        } else if addr == IRQ_STATUS_ADDR {
            Ok(self.irq.status as u32)
        } else if addr == IRQ_MASK_ADDR {
            Ok(self.irq.mask as u32)
        } else if BIOS_BASE <= addr && match width {
            AccessWidth::Byte => addr <= BIOS_END - 1,
            AccessWidth::HalfWord => addr <= BIOS_END - 2,
            AccessWidth::Word => addr <= BIOS_END - 4,
        } {
            let off = (addr - BIOS_BASE) as usize;
            let v = match width {
                AccessWidth::Byte => self.bios.byte(off) as u32,
                AccessWidth::HalfWord => {
                    self.bios.byte(off) as u32 + self.bios.byte(off + 1) as u32 * 0x100
                },
                AccessWidth::Word => {
                    self.bios.byte(off) as u32 + self.bios.byte(off + 1) as u32 * 0x100
                        + self.bios.byte(off + 2) as u32 * 0x1_0000 + self.bios.byte(off + 3) as u32
                        * 0x100_0000
                },
            };
            Ok(v)
        } else {
            Err(crate::error::Fault::UnmappedAddress(addr))
        }
    }
}

} // verus!
