//! Lazy clock reconciliation between independently-paced subsystems.
//!
//! Each subsystem owns one [`SyncToken`]. The scheduler records, per token,
//! the cycle at which the subsystem was last brought up to date and the
//! earliest future cycle at which it must be revisited even without register
//! traffic. Subsystems are never polled every cycle: an access resynchronizes
//! them lazily, and the horizon tells the outer loop when a delegated
//! catch-up is due.

use vstd::prelude::*;
use crate::ClockCycle;

verus! {

/// Identifies one independently-clocked subsystem.
#[derive(Clone, Copy, PartialEq, Eq, Structural, Debug)]
pub enum SyncToken {
    Dma,
    PadMemCard,
    CdRom,
    Gpu,
    Spu,
    Mdec,
}

/// Bookkeeping for one token.
#[derive(Clone, Copy, PartialEq, Eq, Structural, Debug)]
pub struct TokenClock {
    /// Cycle at which the subsystem was last resynchronized.
    pub last_sync: ClockCycle,
    /// Absolute cycle of the next mandatory wake-up.
    pub next_event: ClockCycle,
}

/// Upper bound on the master cycle counter; keeps all scheduling arithmetic
/// far away from the edges of `i64`.
pub const CYCLE_MAX: i64 = 0x1000_0000_0000_0000;

/// Largest relative delay a subsystem may ask to be woken after.
pub const EVENT_MAX: i64 = 0x1_0000_0000;

/// Horizon used for a subsystem with no pending event.
pub const NO_EVENT: i64 = 0x2000_0000_0000_0000;

pub struct Scheduler {
    /// Master cycle counter, advanced once per host frame.
    pub now: ClockCycle,
    pub dma: TokenClock,
    pub pad_memcard: TokenClock,
    pub cd_rom: TokenClock,
    pub gpu: TokenClock,
    pub spu: TokenClock,
    pub mdec: TokenClock,
}

impl Scheduler {
    /// Bookkeeping of `token`.
    pub open spec fn clock(&self, token: SyncToken) -> TokenClock {
        match token {
            SyncToken::Dma => self.dma,
            SyncToken::PadMemCard => self.pad_memcard,
            SyncToken::CdRom => self.cd_rom,
            SyncToken::Gpu => self.gpu,
            SyncToken::Spu => self.spu,
            SyncToken::Mdec => self.mdec,
        }
    }

    /// This scheduler with `token`'s bookkeeping replaced.
    pub open spec fn with_clock(self, token: SyncToken, c: TokenClock) -> Scheduler {
        match token {
            SyncToken::Dma => Scheduler { dma: c, ..self },
            SyncToken::PadMemCard => Scheduler { pad_memcard: c, ..self },
            SyncToken::CdRom => Scheduler { cd_rom: c, ..self },
            SyncToken::Gpu => Scheduler { gpu: c, ..self },
            SyncToken::Spu => Scheduler { spu: c, ..self },
            SyncToken::Mdec => Scheduler { mdec: c, ..self },
        }
    }

    pub open spec fn clock_wf(&self, token: SyncToken) -> bool {
        &&& 0 <= self.clock(token).last_sync <= self.now
        &&& 0 <= self.clock(token).next_event <= NO_EVENT
    }

    pub open spec fn wf(&self) -> bool {
        &&& 0 <= self.now <= CYCLE_MAX
        &&& self.clock_wf(SyncToken::Dma)
        &&& self.clock_wf(SyncToken::PadMemCard)
        &&& self.clock_wf(SyncToken::CdRom)
        &&& self.clock_wf(SyncToken::Gpu)
        &&& self.clock_wf(SyncToken::Spu)
        &&& self.clock_wf(SyncToken::Mdec)
    }

    pub fn new() -> (r: Scheduler)
        ensures
            r.wf(),
            r.now == 0,
            forall|t: SyncToken|
                #[trigger] r.clock(t) == (TokenClock { last_sync: 0, next_event: NO_EVENT }),
    {
        let idle = TokenClock { last_sync: 0, next_event: NO_EVENT };
        Scheduler {
            now: 0,
            dma: idle,
            pad_memcard: idle,
            cd_rom: idle,
            gpu: idle,
            spu: idle,
            mdec: idle,
        }
    }

    /// Advance the master counter by `cycles`.
    pub fn advance(&mut self, cycles: ClockCycle)
        requires
            old(self).wf(),
            0 <= cycles,
            old(self).now + cycles <= CYCLE_MAX,
        ensures
            final(self).wf(),
            final(self).now == old(self).now + cycles,
            forall|t: SyncToken| #[trigger] final(self).clock(t) == old(self).clock(t),
    {
        self.now = self.now + cycles;
    }

    /// Cycles elapsed since `token` was last resynchronized; moves the
    /// token's bookkeeping up to now. Never resynchronizes the same elapsed
    /// interval twice: a second call without an intervening `advance`
    /// returns 0.
    pub fn resync(&mut self, token: SyncToken) -> (elapsed: ClockCycle)
        requires
            old(self).wf(),
        ensures
            final(self).wf(),
            elapsed == old(self).now - old(self).clock(token).last_sync,
            0 <= elapsed,
            final(self).now == old(self).now,
            final(self).clock(token) == (TokenClock {
                last_sync: old(self).now,
                next_event: old(self).clock(token).next_event,
            }),
            forall|t: SyncToken|
                t != token ==> #[trigger] final(self).clock(t) == old(self).clock(t),
    {
        let now = self.now;
        let c = match token {
            SyncToken::Dma => &mut self.dma,
            SyncToken::PadMemCard => &mut self.pad_memcard,
            SyncToken::CdRom => &mut self.cd_rom,
            SyncToken::Gpu => &mut self.gpu,
            SyncToken::Spu => &mut self.spu,
            SyncToken::Mdec => &mut self.mdec,
        };
        let elapsed = now - c.last_sync;
        c.last_sync = now;
        elapsed
    }

    /// Record that `token` must be revisited at most `cycles_from_now`
    /// cycles from now, even absent register traffic.
    pub fn next_event(&mut self, token: SyncToken, cycles_from_now: ClockCycle)
        requires
            old(self).wf(),
            0 <= cycles_from_now <= EVENT_MAX,
        ensures
            final(self).wf(),
            final(self).now == old(self).now,
            final(self).clock(token).last_sync == old(self).clock(token).last_sync,
            final(self).clock(token).next_event == old(self).now + cycles_from_now,
            forall|t: SyncToken|
                t != token ==> #[trigger] final(self).clock(t) == old(self).clock(t),
    {
        let now = self.now;
        let c = match token {
            SyncToken::Dma => &mut self.dma,
            SyncToken::PadMemCard => &mut self.pad_memcard,
            SyncToken::CdRom => &mut self.cd_rom,
            SyncToken::Gpu => &mut self.gpu,
            SyncToken::Spu => &mut self.spu,
            SyncToken::Mdec => &mut self.mdec,
        };
        c.next_event = now + cycles_from_now;
    }

    /// True when `token`'s mandatory wake-up is due.
    pub fn is_due(&self, token: SyncToken) -> (r: bool)
        requires
            self.wf(),
        ensures
            r == (self.clock(token).next_event <= self.now),
    {
        let c = match token {
            SyncToken::Dma => &self.dma,
            SyncToken::PadMemCard => &self.pad_memcard,
            SyncToken::CdRom => &self.cd_rom,
            SyncToken::Gpu => &self.gpu,
            SyncToken::Spu => &self.spu,
            SyncToken::Mdec => &self.mdec,
        };
        c.next_event <= self.now
    }
}

} // verus!
