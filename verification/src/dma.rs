//! DMA engine: per-channel store/load against a fixed set of addressable
//! ports, returning timing overhead and, for the MDEC output port, a byte
//! offset correction.

use vstd::prelude::*;
use crate::ClockCycle;
use crate::bus::Bus;
use crate::error::Fault;

verus! {

/// The addressable DMA ports.
#[derive(Clone, Copy, PartialEq, Eq, Structural, Debug)]
pub enum Port {
    /// Macroblock decoder input.
    MDecIn,
    /// Macroblock decoder output.
    MDecOut,
    Gpu,
    CdRom,
    Spu,
    /// Extension port.
    Pio,
    /// Ordered-termination-table clear, walking a linked list backwards.
    Otc,
}

/// State of one DMA channel; mutated only by the DMA engine.
#[derive(Clone, Copy, PartialEq, Eq, Structural, Debug)]
pub struct Channel {
    pub cur_address: u32,
    pub remaining_words: u32,
}

/// The channel set, one per port.
#[derive(Clone, Copy, PartialEq, Eq, Structural, Debug)]
pub struct DmaState {
    pub mdec_in: Channel,
    pub mdec_out: Channel,
    pub gpu: Channel,
    pub cd_rom: Channel,
    pub spu: Channel,
    pub pio: Channel,
    pub otc: Channel,
}

impl DmaState {
    pub open spec fn channel(&self, port: Port) -> Channel {
        match port {
            Port::MDecIn => self.mdec_in,
            Port::MDecOut => self.mdec_out,
            Port::Gpu => self.gpu,
            Port::CdRom => self.cd_rom,
            Port::Spu => self.spu,
            Port::Pio => self.pio,
            Port::Otc => self.otc,
        }
    }

    pub fn new() -> (r: DmaState)
        ensures
            forall|p: Port|
                #[trigger] r.channel(p) == (Channel { cur_address: 0, remaining_words: 0 }),
    {
        let c = Channel { cur_address: 0, remaining_words: 0 };
        DmaState { mdec_in: c, mdec_out: c, gpu: c, cd_rom: c, spu: c, pio: c, otc: c }
    }

    /// Read access for the engine.
    pub fn get(&self, port: Port) -> (r: Channel)
        ensures
            r == self.channel(port),
    {
        match port {
            Port::MDecIn => self.mdec_in,
            Port::MDecOut => self.mdec_out,
            Port::Gpu => self.gpu,
            Port::CdRom => self.cd_rom,
            Port::Spu => self.spu,
            Port::Pio => self.pio,
            Port::Otc => self.otc,
        }
    }

    pub fn set(&mut self, port: Port, c: Channel)
        ensures
            final(self).channel(port) == c,
            forall|p: Port| p != port ==> #[trigger] final(self).channel(p) == old(self).channel(p),
    {
        match port {
            Port::MDecIn => self.mdec_in = c,
            Port::MDecOut => self.mdec_out = c,
            Port::Gpu => self.gpu = c,
            Port::CdRom => self.cd_rom = c,
            Port::Spu => self.spu = c,
            Port::Pio => self.pio = c,
            Port::Otc => self.otc = c,
        }
    }
}

/// Previous ordered-table entry address: wrapping 4-byte step back, masked
/// to the 21-bit RAM range.
pub open spec fn otc_prev_entry(addr: u32) -> u32 {
    if addr >= 4 {
        (addr - 4) as u32 & 0x1f_ffff
    } else {
        ((addr - 4 + 0x1_0000_0000) as u32) & 0x1f_ffff
    }
}

/// Value an OTC port load yields: the end-of-table marker when only the
/// final entry remains, otherwise a pointer to the previous table entry.
pub open spec fn otc_load_value(c: Channel) -> u32 {
    if c.remaining_words == 1 {
        0xff_ffff
    } else {
        otc_prev_entry(c.cur_address)
    }
}

/// Perform a DMA port write. Returns the timing overhead of the write; the
/// word itself is pushed across the port into the owning subsystem. A port
/// with no store path is a fatal unimplemented condition.
pub fn store(bus: &mut Bus, port: Port, v: u32) -> (r: Result<ClockCycle, Fault>)
    ensures
        final(bus).eq_except_sinks(old(bus)),
        match port {
            Port::Spu => {
                &&& r == Ok::<ClockCycle, Fault>(47)
                &&& final(bus).sinks.spu_in@ == old(bus).sinks.spu_in@.push(v)
                &&& final(bus).sinks.eq_except_spu_in(&old(bus).sinks)
            },
            Port::Gpu => {
                &&& r == Ok::<ClockCycle, Fault>(0)
                &&& final(bus).sinks.gpu_in@ == old(bus).sinks.gpu_in@.push(v)
                &&& final(bus).sinks.eq_except_gpu_in(&old(bus).sinks)
            },
            Port::MDecIn => {
                &&& r == Ok::<ClockCycle, Fault>(0)
                &&& final(bus).sinks.mdec_in@ == old(bus).sinks.mdec_in@.push(v)
                &&& final(bus).sinks.eq_except_mdec_in(&old(bus).sinks)
            },
            _ => {
                &&& r == Err::<ClockCycle, Fault>(Fault::DmaStoreUnimplemented(port))
                &&& final(bus).sinks == old(bus).sinks
            },
        },
{
    match port {
        Port::Spu => {
            // Approximation of the real average store latency; explicitly
            // inexact.
            bus.sinks.spu_in.push(v);
            Ok(47)
        },
        Port::Gpu => {
            bus.sinks.gpu_in.push(v);
            Ok(0)
        },
        Port::MDecIn => {
            bus.sinks.mdec_in.push(v);
            Ok(0)
        },
        _ => Err(Fault::DmaStoreUnimplemented(port)),
    }
}

/// Perform a DMA port read. Returns the value alongside the write byte
/// offset (nonzero only for the MDEC output port) and the delay penalty of
/// the read. A port with no load path is a fatal unimplemented condition.
pub fn load(bus: &mut Bus, port: Port) -> (r: Result<(u32, u32, ClockCycle), Fault>)
    ensures
        final(bus).eq_except_sinks(old(bus)),
        match port {
            Port::Otc => {
                &&& r == Ok::<(u32, u32, ClockCycle), Fault>(
                    (otc_load_value(old(bus).dma.channel(Port::Otc)), 0, 0),
                )
                &&& final(bus).sinks == old(bus).sinks
            },
            Port::CdRom => {
                &&& r == Ok::<(u32, u32, ClockCycle), Fault>(
                    (front_or_zero(old(bus).sinks.cd_out@), 0, 8),
                )
                &&& final(bus).sinks.cd_out@ == rest_of(old(bus).sinks.cd_out@)
                &&& final(bus).sinks.eq_except_cd_out(&old(bus).sinks)
            },
            Port::Spu => {
                &&& r == Ok::<(u32, u32, ClockCycle), Fault>(
                    (front_or_zero(old(bus).sinks.spu_out@), 0, 0),
                )
                &&& final(bus).sinks.spu_out@ == rest_of(old(bus).sinks.spu_out@)
                &&& final(bus).sinks.eq_except_spu_out(&old(bus).sinks)
            },
            Port::MDecOut => {
                &&& r == Ok::<(u32, u32, ClockCycle), Fault>(
                    (
                        front_or_zero(old(bus).sinks.mdec_out@),
                        old(bus).sinks.mdec_out_offset,
                        0,
                    ),
                )
                &&& final(bus).sinks.mdec_out@ == rest_of(old(bus).sinks.mdec_out@)
                &&& final(bus).sinks.eq_except_mdec_out(&old(bus).sinks)
            },
            Port::Gpu => {
                &&& r == Ok::<(u32, u32, ClockCycle), Fault>(
                    (front_or_zero(old(bus).sinks.gpu_out@), 0, 0),
                )
                &&& final(bus).sinks.gpu_out@ == rest_of(old(bus).sinks.gpu_out@)
                &&& final(bus).sinks.eq_except_gpu_out(&old(bus).sinks)
            },
            _ => {
                &&& r == Err::<(u32, u32, ClockCycle), Fault>(Fault::DmaLoadUnimplemented(port))
                &&& final(bus).sinks == old(bus).sinks
            },
        },
{
    match port {
        Port::Otc => {
            let channel = bus.dma.get(Port::Otc);
            let v = if channel.remaining_words == 1 {
                // Last entry holds the end-of-table marker.
                0xff_ffff
            } else {
                // Pointer to the previous table entry.
                channel.cur_address.wrapping_sub(4) & 0x1f_ffff
            };
            Ok((v, 0, 0))
        },
        Port::CdRom => {
            // Fixed latency of a CD-ROM port read.
            let v = pop_front_or_zero(&mut bus.sinks.cd_out);
            Ok((v, 0, 8))
        },
        Port::Spu => {
            let v = pop_front_or_zero(&mut bus.sinks.spu_out);
            Ok((v, 0, 0))
        },
        Port::MDecOut => {
            let v = pop_front_or_zero(&mut bus.sinks.mdec_out);
            let offset = bus.sinks.mdec_out_offset;
            Ok((v, offset, 0))
        },
        Port::Gpu => {
            let v = pop_front_or_zero(&mut bus.sinks.gpu_out);
            Ok((v, 0, 0))
        },
        _ => Err(Fault::DmaLoadUnimplemented(port)),
    }
}

/// First queued word, or zero when the producing subsystem has nothing
/// staged.
pub open spec fn front_or_zero(s: Seq<u32>) -> u32 {
    if s.len() == 0 {
        0
    } else {
        s[0]
    }
}

/// The queue with its first word consumed (unchanged when empty).
pub open spec fn rest_of(s: Seq<u32>) -> Seq<u32> {
    if s.len() == 0 {
        s
    } else {
        s.remove(0)
    }
}

fn pop_front_or_zero(q: &mut Vec<u32>) -> (r: u32)
    ensures
        r == front_or_zero(old(q)@),
        final(q)@ == rest_of(old(q)@),
{
    if q.len() == 0 {
        0
    } else {
        q.remove(0)
    }
}

} // verus!
