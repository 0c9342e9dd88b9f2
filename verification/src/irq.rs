//! Top-level interrupt controller.
//!
//! Each interrupt source drives a level; the controller latches a status bit
//! on every rising edge (level set while previously clear). Acknowledging a
//! bit clears only the latch: a source whose level is still high will latch
//! again on its next rising edge.

use vstd::prelude::*;

verus! {

/// The interrupt sources of the console.
#[derive(Clone, Copy, PartialEq, Eq, Structural, Debug)]
pub enum Interrupt {
    VBlank,
    GpuIrq,
    CdRom,
    Dma,
    Timer0,
    Timer1,
    Timer2,
    PadMemCard,
    Sio,
    Spu,
}

/// Bit of `which` in the status, mask and level registers.
pub open spec fn irq_bit(which: Interrupt) -> u16 {
    match which {
        Interrupt::VBlank => 0x1,
        Interrupt::GpuIrq => 0x2,
        Interrupt::CdRom => 0x4,
        Interrupt::Dma => 0x8,
        Interrupt::Timer0 => 0x10,
        Interrupt::Timer1 => 0x20,
        Interrupt::Timer2 => 0x40,
        Interrupt::PadMemCard => 0x80,
        Interrupt::Sio => 0x100,
        Interrupt::Spu => 0x200,
    }
}

impl Interrupt {
    pub fn bit(self) -> (r: u16)
        ensures
            r == irq_bit(self),
    {
        match self {
            Interrupt::VBlank => 0x1,
            Interrupt::GpuIrq => 0x2,
            Interrupt::CdRom => 0x4,
            Interrupt::Dma => 0x8,
            Interrupt::Timer0 => 0x10,
            Interrupt::Timer1 => 0x20,
            Interrupt::Timer2 => 0x40,
            Interrupt::PadMemCard => 0x80,
            Interrupt::Sio => 0x100,
            Interrupt::Spu => 0x200,
        }
    }
}

/// Latched status, enable mask and the current level of every source.
#[derive(Clone, Copy, PartialEq, Eq, Structural, Debug)]
pub struct InterruptState {
    /// Edge-latched pending bits, readable and acknowledgeable by software.
    pub status: u16,
    /// Software-controlled enable mask.
    pub mask: u16,
    /// Current level of each source, as last reported by the subsystems.
    pub level: u16,
}

/// `s` after the level of `which` is reported as `level`: the level cache
/// follows, and a rising edge latches the status bit.
pub open spec fn irq_after(s: InterruptState, which: Interrupt, level: bool) -> InterruptState {
    InterruptState {
        status: if level && s.level & irq_bit(which) == 0 {
            s.status | irq_bit(which)
        } else {
            s.status
        },
        mask: s.mask,
        level: if level {
            s.level | irq_bit(which)
        } else {
            s.level & !irq_bit(which)
        },
    }
}

impl InterruptState {
    pub fn new() -> (r: InterruptState)
        ensures
            r.status == 0,
            r.mask == 0,
            r.level == 0,
    {
        InterruptState { status: 0, mask: 0, level: 0 }
    }

    /// Report the current level of `which`. A rising edge latches the
    /// status bit; a high level alone never does.
    pub fn set_level(&mut self, which: Interrupt, level: bool)
        ensures
            *final(self) == irq_after(*old(self), which, level),
    {
        let bit = which.bit();
        if level {
            if self.level & bit == 0 {
                self.status = self.status | bit;
            }
            self.level = self.level | bit;
        } else {
            self.level = self.level & !bit;
        }
    }

    /// Acknowledge: writing the status register keeps only the bits written
    /// as 1 (each 0 written clears that latch).
    pub fn ack(&mut self, keep: u16)
        ensures
            final(self).status == old(self).status & keep,
            final(self).mask == old(self).mask,
            final(self).level == old(self).level,
    {
        self.status = self.status & keep;
    }

    pub fn set_mask(&mut self, mask: u16)
        ensures
            final(self).mask == mask,
            final(self).status == old(self).status,
            final(self).level == old(self).level,
    {
        self.mask = mask;
    }

    /// Level of the line into the processor: any enabled latched bit.
    pub fn active(&self) -> (r: bool)
        ensures
            r == (self.status & self.mask != 0),
    {
        self.status & self.mask != 0
    }
}

} // verus!
