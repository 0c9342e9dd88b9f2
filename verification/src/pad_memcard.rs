//! Serial pad / memory-card controller.
//!
//! A register-mapped controller exchanging bytes serially with up to four
//! downstream peripherals (two ports, each wired to a pad and a memory
//! card). All transfer timings derive from the baud divider; each device
//! answers a byte with a response and a DSR (data-ready) pulse request,
//! scheduled independently of the byte-transfer pipeline.

use vstd::prelude::*;
use crate::ClockCycle;
use crate::bus::{AccessWidth, Bus};
use crate::device::{
    Device, DeviceV, device_dsr, device_response, device_select, device_step, device_wf,
};
use crate::error::Fault;
use crate::irq::Interrupt;
use crate::irq::InterruptState;
use crate::sync::{Scheduler, SyncToken, TokenClock};

verus! {

/// Which of the two pad/memory-card port pairs the select line addresses.
#[derive(Clone, Copy, PartialEq, Eq, Structural, Debug)]
pub enum Target {
    PadMemCard1,
    PadMemCard2,
}

impl Target {
    /// Target encoded in bit 13 of the control register.
    pub fn from_control(ctrl: u16) -> (r: Target)
        ensures
            r == spec_target_from_control(ctrl),
    {
        if ctrl & 0x2000 == 0 {
            Target::PadMemCard1
        } else {
            Target::PadMemCard2
        }
    }
}

pub open spec fn spec_target_from_control(ctrl: u16) -> Target {
    if ctrl & 0x2000 == 0 {
        Target::PadMemCard1
    } else {
        Target::PadMemCard2
    }
}

/// The in-flight serial transaction, from the moment a byte is queued to the
/// moment the response byte becomes readable.
#[derive(Clone, Copy, PartialEq, Eq, Structural, Debug)]
pub enum TransferState {
    /// Bus is idle.
    Idle,
    /// A transfer was just queued: cycles until the TX-started phase ends,
    /// then the remaining delay until the response is readable, then the
    /// response byte itself.
    TxStart(ClockCycle, ClockCycle, u8),
    /// Transfer in progress: cycles until the response byte lands in the RX
    /// register, and that byte.
    RxAvailable(ClockCycle, u8),
}

impl TransferState {
    pub open spec fn spec_is_idle(&self) -> bool {
        *self == TransferState::Idle
    }

    pub fn is_idle(&self) -> (r: bool)
        ensures
            r == self.spec_is_idle(),
    {
        match self {
            TransferState::Idle => true,
            _ => false,
        }
    }

    /// Remaining delays are positive and bounded; a transfer in either
    /// phase still has work to do.
    pub open spec fn wf(&self) -> bool {
        match *self {
            TransferState::Idle => true,
            TransferState::TxStart(d1, d2, _) => {
                1 <= d1 <= DELAY_MAX && 1 <= d2 <= DELAY_MAX
            },
            TransferState::RxAvailable(d, _) => 1 <= d <= DELAY_MAX,
        }
    }
}

/// Upper bound on every stored delay (transfer phases and DSR pulses).
pub const DELAY_MAX: i64 = 1_000_000;

/// State of the DSR (data-ready) pulse of one physical device slot, timed
/// independently of the transfer state machine.
#[derive(Clone, Copy, PartialEq, Eq, Structural, Debug)]
pub enum DsrState {
    /// No pulse pending.
    Idle,
    /// A pulse is scheduled: cycles until it starts, then its length.
    Pending(ClockCycle, ClockCycle),
    /// A pulse is taking place: cycles until it ends.
    Active(ClockCycle),
}

/// State of `s` after `cycles` cycles have elapsed.
pub open spec fn dsr_run(s: DsrState, cycles: int) -> DsrState {
    if cycles <= 0 {
        s
    } else {
        match s {
            DsrState::Idle => DsrState::Idle,
            DsrState::Pending(delay, duration) => {
                if cycles < delay {
                    DsrState::Pending((delay - cycles) as i64, duration)
                } else if cycles - delay < duration {
                    DsrState::Active((duration - (cycles - delay)) as i64)
                } else {
                    DsrState::Idle
                }
            },
            DsrState::Active(duration) => {
                if cycles < duration {
                    DsrState::Active((duration - cycles) as i64)
                } else {
                    DsrState::Idle
                }
            },
        }
    }
}

/// `s` with the start of its pulse postponed by `offset` cycles. An active
/// pulse cannot be postponed; callers rule that case out.
pub open spec fn dsr_delayed(s: DsrState, offset: int) -> DsrState {
    match s {
        DsrState::Idle => DsrState::Idle,
        DsrState::Pending(delay, duration) => DsrState::Pending((delay + offset) as i64, duration),
        DsrState::Active(d) => DsrState::Active(d),
    }
}

impl DsrState {
    pub open spec fn wf(&self) -> bool {
        match *self {
            DsrState::Idle => true,
            DsrState::Pending(delay, duration) => {
                0 <= delay <= DELAY_MAX && 0 <= duration <= DELAY_MAX
            },
            DsrState::Active(d) => 0 <= d <= DELAY_MAX,
        }
    }

    pub open spec fn spec_is_active(&self) -> bool {
        self is Active
    }

    pub fn is_active(&self) -> (r: bool)
        ensures
            r == self.spec_is_active(),
    {
        match self {
            DsrState::Active(_) => true,
            _ => false,
        }
    }

    /// Postpone the start of the pulse by `offset` cycles.
    pub fn delay_by(&self, offset: ClockCycle) -> (r: DsrState)
        requires
            self.wf(),
            !self.spec_is_active(),
            0 <= offset <= DELAY_MAX,
            match *self {
                DsrState::Pending(delay, _) => delay + offset <= DELAY_MAX,
                _ => true,
            },
        ensures
            r == dsr_delayed(*self, offset as int),
            r.wf(),
            !r.spec_is_active(),
    {
        match *self {
            DsrState::Idle => DsrState::Idle,
            DsrState::Pending(delay, duration) => DsrState::Pending(delay + offset, duration),
            DsrState::Active(d) => DsrState::Active(d),
        }
    }

    /// Cycles until the pulse starts, when one is pending.
    pub fn to_dsr(&self) -> (r: Option<ClockCycle>)
        ensures
            r == (match *self {
                DsrState::Pending(delay, _) => Some(delay),
                _ => None::<ClockCycle>,
            }),
    {
        match *self {
            DsrState::Idle => None,
            DsrState::Pending(delay, _) => Some(delay),
            DsrState::Active(_) => None,
        }
    }

    /// Let `cycles` cycles elapse.
    pub fn run(&mut self, cycles: ClockCycle)
        requires
            old(self).wf(),
            0 <= cycles,
        ensures
            *final(self) == dsr_run(*old(self), cycles as int),
            final(self).wf(),
    {
        if cycles <= 0 {
            return ;
        }
        match *self {
            DsrState::Idle => {},
            DsrState::Pending(delay, duration) => {
                if cycles < delay {
                    *self = DsrState::Pending(delay - cycles, duration);
                } else if cycles - delay < duration {
                    *self = DsrState::Active(duration - (cycles - delay));
                } else {
                    *self = DsrState::Idle;
                }
            },
            DsrState::Active(duration) => {
                if cycles < duration {
                    *self = DsrState::Active(duration - cycles);
                } else {
                    *self = DsrState::Idle;
                }
            },
        }
    }
}

// Transfer timing, all derived from the baud divider `bd`. The hardware's
// behaviour is only known for dividers in `[80, 239]`; outside that range a
// transfer is a fatal unimplemented condition rather than a guess.

/// Smallest baud divider with known timing.
pub const BAUD_MIN: u16 = 80;

/// Largest baud divider with known timing.
pub const BAUD_MAX: u16 = 239;

/// Cycles from queueing a byte to the end of the TX-started phase.
pub open spec fn to_tx_start(bd: int) -> int {
    bd - 40
}

/// Total cycles from queueing a byte to its response being readable.
pub open spec fn tx_total(bd: int) -> int {
    (bd - 11) * 11
}

/// Cycles from the end of the TX-started phase to the response being
/// readable.
pub open spec fn to_tx_end(bd: int) -> int {
    tx_total(bd) - to_tx_start(bd)
}

/// Cycles from queueing a byte to the moment the addressed devices process
/// the command (about one divider before the response is readable).
pub open spec fn to_dsr_start(bd: int) -> int {
    tx_total(bd) - bd
}

/// The two transfer phases partition the total transfer time, and the
/// devices process the command exactly one divider before its end; for
/// every baud divider with known timing all four delays are positive and
/// small.
pub proof fn lemma_transfer_timing(bd: int)
    requires
        BAUD_MIN <= bd <= BAUD_MAX,
    ensures
        to_tx_start(bd) + to_tx_end(bd) == tx_total(bd),
        to_dsr_start(bd) == tx_total(bd) - bd,
        1 <= to_tx_start(bd) <= 199,
        1 <= to_tx_end(bd) <= 2309,
        1 <= to_dsr_start(bd) <= 2269,
        tx_total(bd) <= 2508,
{
}

/// One controller-port slot: the connected device plus the protocol-side
/// position in the current command sequence.
pub struct Peripheral {
    /// Connected device (an explicit `Disconnected` stands in for an empty
    /// slot).
    pub device: Device,
    /// Position within the current command byte sequence; reset on select.
    pub seq: u8,
    /// False once the device is done with the current transaction.
    pub active: bool,
}

/// Ghost image of a [`Peripheral`].
#[verifier::ext_equal]
pub struct PeripheralV {
    pub device: DeviceV,
    pub seq: u8,
    pub active: bool,
}

impl View for Peripheral {
    type V = PeripheralV;

    open spec fn view(&self) -> PeripheralV {
        PeripheralV { device: self.device@, seq: self.seq, active: self.active }
    }
}

pub open spec fn per_wf(p: PeripheralV) -> bool {
    &&& device_wf(p.device)
    &&& (p.active ==> p.seq < 251)
}

/// Response byte the slot puts on the bus for command byte `cmd`: the
/// device's reply while the transaction is live, an open bus (all ones)
/// otherwise.
pub open spec fn per_response(p: PeripheralV, cmd: u8) -> u8 {
    if !p.active {
        0xff
    } else {
        device_response(p.device, p.seq, cmd)
    }
}

/// DSR request of the slot: only a live transaction pulses.
pub open spec fn per_dsr(p: PeripheralV, cmd: u8) -> DsrState {
    if !p.active {
        DsrState::Idle
    } else {
        device_dsr(p.device, p.seq, cmd)
    }
}

/// Slot state after exchanging `cmd`: the device steps, the sequence
/// counter advances, and the transaction stays live exactly while the
/// device keeps requesting DSR pulses.
pub open spec fn per_step(p: PeripheralV, cmd: u8) -> PeripheralV {
    if !p.active {
        p
    } else {
        PeripheralV {
            device: device_step(p.device, p.seq, cmd),
            seq: (p.seq + 1) as u8,
            active: per_dsr(p, cmd) != DsrState::Idle,
        }
    }
}

/// Slot state when its select line is asserted: ready for a fresh command
/// sequence.
pub open spec fn per_select(p: PeripheralV) -> PeripheralV {
    PeripheralV { device: device_select(p.device), seq: 0, active: true }
}

impl Peripheral {
    pub open spec fn wf(&self) -> bool {
        per_wf(self@)
    }

    pub fn new(device: Device) -> (r: Peripheral)
        requires
            device_wf(device@),
        ensures
            r@ == (PeripheralV { device: device@, seq: 0, active: false }),
            r.wf(),
    {
        Peripheral { device, seq: 0, active: false }
    }

    /// Called when the slot's select line goes low: prepare for an incoming
    /// command.
    pub fn select(&mut self)
        requires
            old(self).wf(),
        ensures
            final(self)@ == per_select(old(self)@),
            final(self).wf(),
    {
        self.active = true;
        self.seq = 0;
        self.device.select();
    }

    /// Exchange one byte. Returns the slot's response and the state of the
    /// DSR pulse announcing more data; a device that wants to end the
    /// transaction returns an idle DSR.
    pub fn exchange_byte(&mut self, cmd: u8) -> (r: (u8, DsrState))
        requires
            old(self).wf(),
        ensures
            final(self).wf(),
            r.0 == per_response(old(self)@, cmd),
            r.1 == per_dsr(old(self)@, cmd),
            final(self)@ == per_step(old(self)@, cmd),
            !r.1.spec_is_active(),
            r.1.wf(),
            match r.1 {
                DsrState::Pending(d, _) => d <= 360,
                _ => true,
            },
    {
        if !self.active {
            return (0xff, DsrState::Idle);
        }

        proof {
            crate::device::lemma_device_dsr_shape(self.device@, self.seq, cmd);
        }
        let (resp, dsr_state) = self.device.handle_command(self.seq, cmd);

        // No DSR request means an error or nothing left to reply: either
        // way the rest of this transaction is ignored.
        self.active = dsr_state != DsrState::Idle;
        self.seq = self.seq + 1;

        (resp, dsr_state)
    }

    /// The connected device.
    pub fn device(&self) -> (r: &Device)
        ensures
            *r == self.device,
    {
        &self.device
    }

    /// The connected device, mutably.
    pub fn device_mut(&mut self) -> (r: &mut Device)
        ensures
            *r == old(self).device,
            final(self).device == *final(r),
            final(self).seq == old(self).seq,
            final(self).active == old(self).active,
    {
        &mut self.device
    }

    /// Connect `device`, returning the one it displaces (a `Disconnected`
    /// value when the slot was empty). The caller becomes responsible for
    /// the returned device.
    pub fn connect_device(&mut self, device: Device) -> (r: Device)
        requires
            old(self).wf(),
            device_wf(device@),
        ensures
            final(self).wf(),
            r == old(self).device,
            final(self)@ == (PeripheralV { device: device@, ..old(self)@ }),
    {
        let mut device = device;
        core::mem::swap(&mut self.device, &mut device);
        self.device.connected();
        device
    }

    /// Disconnect the device and return it; the slot is left explicitly
    /// empty.
    pub fn disconnect_device(&mut self) -> (r: Device)
        requires
            old(self).wf(),
        ensures
            final(self).wf(),
            r == old(self).device,
            final(self)@ == (PeripheralV { device: DeviceV::Disconnected, ..old(self)@ }),
    {
        self.connect_device(Device::Disconnected)
    }
}

/// An empty gamepad slot.
pub fn disconnected_gamepad() -> (r: Peripheral)
    ensures
        r@ == (PeripheralV { device: DeviceV::Disconnected, seq: 0, active: false }),
        r.wf(),
{
    Peripheral::new(Device::Disconnected)
}

/// An empty memory-card slot.
pub fn disconnected_memory_card() -> (r: Peripheral)
    ensures
        r@ == (PeripheralV { device: DeviceV::Disconnected, seq: 0, active: false }),
        r.wf(),
{
    Peripheral::new(Device::Disconnected)
}

/// The pad/memory-card controller: register file, the four device slots
/// with their DSR pulse timers, and the transfer state machine.
pub struct PadMemCard {
    /// Serial clock divider. Timing is only known for values in
    /// `[BAUD_MIN, BAUD_MAX]`.
    pub baud_div: u16,
    /// Serial config register; stored for readback only.
    pub mode: u8,
    /// Transmission enabled.
    pub tx_en: bool,
    /// Pending TX byte. This is a single-byte register, not a FIFO: a
    /// second write before consumption drops the first byte.
    pub tx_pending: Option<u8>,
    /// Select line asserted (the physical line is driven low when true);
    /// `target` says which port pair it addresses.
    pub select: bool,
    /// Which pad/memory-card port pair the select line addresses.
    pub target: Target,
    /// Control bits 3 and 5: function unknown, kept for accurate readback.
    pub unknown: u8,
    /// RX enable; setting it is a fatal unimplemented condition.
    pub rx_en: bool,
    /// Raise an interrupt when a DSR pulse arrives.
    pub dsr_it: bool,
    /// Current interrupt level.
    pub interrupt: bool,
    /// RX register contents. A single byte, not a FIFO: overwriting it
    /// while unread is a fatal condition.
    pub response: u8,
    /// RX register holds an unread byte.
    pub rx_not_empty: bool,
    /// Gamepad in slot 1 and its DSR pulse.
    pub pad1: Peripheral,
    pub pad1_dsr: DsrState,
    /// Gamepad in slot 2 and its DSR pulse.
    pub pad2: Peripheral,
    pub pad2_dsr: DsrState,
    /// Memory card in slot 1 and its DSR pulse.
    pub memcard1: Peripheral,
    pub memcard1_dsr: DsrState,
    /// Memory card in slot 2 and its DSR pulse.
    pub memcard2: Peripheral,
    pub memcard2_dsr: DsrState,
    /// Transfer state machine.
    pub transfer_state: TransferState,
}

/// Ghost image of the controller.
#[verifier::ext_equal]
pub struct PmcV {
    pub baud_div: u16,
    pub mode: u8,
    pub tx_en: bool,
    pub tx_pending: Option<u8>,
    pub select: bool,
    pub target: Target,
    pub unknown: u8,
    pub rx_en: bool,
    pub dsr_it: bool,
    pub interrupt: bool,
    pub response: u8,
    pub rx_not_empty: bool,
    pub pad1: PeripheralV,
    pub pad1_dsr: DsrState,
    pub pad2: PeripheralV,
    pub pad2_dsr: DsrState,
    pub memcard1: PeripheralV,
    pub memcard1_dsr: DsrState,
    pub memcard2: PeripheralV,
    pub memcard2_dsr: DsrState,
    pub transfer_state: TransferState,
}

impl View for PadMemCard {
    type V = PmcV;

    open spec fn view(&self) -> PmcV {
        PmcV {
            baud_div: self.baud_div,
            mode: self.mode,
            tx_en: self.tx_en,
            tx_pending: self.tx_pending,
            select: self.select,
            target: self.target,
            unknown: self.unknown,
            rx_en: self.rx_en,
            dsr_it: self.dsr_it,
            interrupt: self.interrupt,
            response: self.response,
            rx_not_empty: self.rx_not_empty,
            pad1: self.pad1@,
            pad1_dsr: self.pad1_dsr,
            pad2: self.pad2@,
            pad2_dsr: self.pad2_dsr,
            memcard1: self.memcard1@,
            memcard1_dsr: self.memcard1_dsr,
            memcard2: self.memcard2@,
            memcard2_dsr: self.memcard2_dsr,
            transfer_state: self.transfer_state,
        }
    }
}

/// Controller invariant: well-formed slots, timers and transfer machine,
/// and no DSR activity on a port the select line does not address
/// (deselected devices never drive DSR).
pub open spec fn pmc_wf(m: PmcV) -> bool {
    &&& per_wf(m.pad1)
    &&& per_wf(m.pad2)
    &&& per_wf(m.memcard1)
    &&& per_wf(m.memcard2)
    &&& m.pad1_dsr.wf()
    &&& m.pad2_dsr.wf()
    &&& m.memcard1_dsr.wf()
    &&& m.memcard2_dsr.wf()
    &&& m.transfer_state.wf()
    &&& (!(m.select && m.target == Target::PadMemCard1) ==> m.pad1_dsr == DsrState::Idle
        && m.memcard1_dsr == DsrState::Idle)
    &&& (!(m.select && m.target == Target::PadMemCard2) ==> m.pad2_dsr == DsrState::Idle
        && m.memcard2_dsr == DsrState::Idle)
}

/// Any of the four slots' DSR pulses is taking place.
pub open spec fn spec_dsr_active(m: PmcV) -> bool {
    ||| m.pad1_dsr.spec_is_active()
    ||| m.pad2_dsr.spec_is_active()
    ||| m.memcard1_dsr.spec_is_active()
    ||| m.memcard2_dsr.spec_is_active()
}

/// A queued TX byte can be flushed into the transfer pipeline: one is
/// pending, TX is enabled and the bus is idle.
pub open spec fn can_exchange(m: PmcV) -> bool {
    &&& m.tx_pending is Some
    &&& m.tx_en
    &&& m.transfer_state == TransferState::Idle
}

/// The fatal condition a flush attempt raises, if any: a baud divider with
/// unknown timing, or TX while the select line is not asserted (on the real
/// machine such a transfer never completes).
pub open spec fn exchange_fault(m: PmcV) -> Option<Fault> {
    if !can_exchange(m) {
        None
    } else if m.baud_div < BAUD_MIN || m.baud_div > BAUD_MAX {
        Some(Fault::UnimplementedBaudDivider(m.baud_div))
    } else if !m.select {
        Some(Fault::TxWithoutSelection)
    } else {
        None
    }
}

/// Controller state after a flush attempt that raises no fault: a no-op
/// unless a byte can be flushed; otherwise both devices of the addressed
/// port receive the byte, their responses are wired-AND together, their DSR
/// requests are delayed to the moment the devices process the command, and
/// the transfer machine starts.
pub open spec fn exchange_result(m: PmcV) -> PmcV {
    if !can_exchange(m) || exchange_fault(m) is Some {
        m
    } else {
        let b = match m.tx_pending {
            Some(b) => b,
            None => 0u8,
        };
        let bd = m.baud_div as int;
        if m.target == Target::PadMemCard1 {
            PmcV {
                tx_pending: None,
                pad1: per_step(m.pad1, b),
                memcard1: per_step(m.memcard1, b),
                pad1_dsr: dsr_delayed(per_dsr(m.pad1, b), to_dsr_start(bd)),
                memcard1_dsr: dsr_delayed(per_dsr(m.memcard1, b), to_dsr_start(bd)),
                transfer_state: TransferState::TxStart(
                    to_tx_start(bd) as i64,
                    to_tx_end(bd) as i64,
                    per_response(m.pad1, b) & per_response(m.memcard1, b),
                ),
                ..m
            }
        } else {
            PmcV {
                tx_pending: None,
                pad2: per_step(m.pad2, b),
                memcard2: per_step(m.memcard2, b),
                pad2_dsr: dsr_delayed(per_dsr(m.pad2, b), to_dsr_start(bd)),
                memcard2_dsr: dsr_delayed(per_dsr(m.memcard2, b), to_dsr_start(bd)),
                transfer_state: TransferState::TxStart(
                    to_tx_start(bd) as i64,
                    to_tx_end(bd) as i64,
                    per_response(m.pad2, b) & per_response(m.memcard2, b),
                ),
                ..m
            }
        }
    }
}

/// STAT register: bit 0 TX ready (down only between queueing a byte and the
/// end of the TX-started phase), bit 1 RX not empty, bit 2 hard-wired high,
/// bit 3 parity error (always clear), bit 7 any addressed DSR active, bit 9
/// interrupt level, the rest unimplemented and read as zero.
pub open spec fn spec_stat(m: PmcV) -> u32 {
    let tx_ready: u32 = if m.transfer_state is TxStart {
        0
    } else if m.tx_pending is None {
        1
    } else {
        0
    };
    tx_ready | (if m.rx_not_empty { 2u32 } else { 0u32 }) | 4u32 | (if spec_dsr_active(m) {
        0x80u32
    } else {
        0u32
    }) | (if m.interrupt {
        0x200u32
    } else {
        0u32
    })
}

/// CONTROL register readback.
pub open spec fn spec_control(m: PmcV) -> u16 {
    (m.unknown as u16) | (if m.tx_en { 1u16 } else { 0u16 }) | (if m.select {
        2u16
    } else {
        0u16
    }) | (if m.rx_en { 4u16 } else { 0u16 }) | (if m.dsr_it { 0x1000u16 } else { 0u16 }) | (
    if m.target == Target::PadMemCard2 {
        0x2000u16
    } else {
        0u16
    })
}

/// The fatal condition a control write raises, if any (a soft reset never
/// faults): RX enable, or the unsupported interrupt sources of bits 8-11.
pub open spec fn ctrl_fault(m: PmcV, ctrl: u16) -> Option<Fault> {
    if ctrl & 0x40 != 0 {
        None
    } else if (ctrl >> 2) & 1 == 1 {
        Some(Fault::RxEnableUnimplemented)
    } else if ctrl & 0xf00 != 0 {
        Some(Fault::UnsupportedPadInterrupts(ctrl))
    } else {
        None
    }
}

/// Controller state after a control write that raises no fault.
///
/// A soft reset (bit 6) reinitializes divider, mode, select, target, the
/// unknown bits, the interrupt flag, RX-not-empty and the transfer machine,
/// but leaves the RX register contents, the TX state and the devices alone.
/// Otherwise the read/write bits land in their fields (bit 4 acknowledges
/// the interrupt) and the level is refreshed at once: the DSR interrupt is
/// level-triggered, so acknowledging it - or enabling it - while a pulse is
/// still physically active re-raises it immediately, a known hardware quirk
/// preserved as a logged anomaly. Asserting select towards a port - or
/// re-targeting while selected - notifies both its devices that a fresh
/// transaction starts, any port the select line leaves has its DSR pulses
/// forced idle, and the level is refreshed once more.
pub open spec fn ctrl_result(m: PmcV, ctrl: u16) -> PmcV {
    if ctrl & 0x40 != 0 {
        PmcV {
            baud_div: 0,
            mode: 0,
            select: false,
            target: Target::PadMemCard1,
            unknown: 0,
            interrupt: false,
            rx_not_empty: false,
            transfer_state: TransferState::Idle,
            pad1_dsr: DsrState::Idle,
            pad2_dsr: DsrState::Idle,
            memcard1_dsr: DsrState::Idle,
            memcard2_dsr: DsrState::Idle,
            ..m
        }
    } else {
        let interrupt1 = if ctrl & 0x10 != 0 {
            false
        } else {
            m.interrupt
        };
        let sel = (ctrl >> 1) & 1 == 1;
        let tgt = spec_target_from_control(ctrl);
        let m1 = PmcV {
            interrupt: interrupt1 || (spec_dsr_active(m) && (ctrl >> 12) & 1 == 1),
            unknown: (ctrl & 0x28) as u8,
            tx_en: ctrl & 1 == 1,
            select: sel,
            rx_en: (ctrl >> 2) & 1 == 1,
            dsr_it: (ctrl >> 12) & 1 == 1,
            target: tgt,
            ..m
        };
        let m2 = if sel && (!m.select || tgt != m.target) {
            if tgt == Target::PadMemCard1 {
                PmcV { pad1: per_select(m.pad1), memcard1: per_select(m.memcard1), ..m1 }
            } else {
                PmcV { pad2: per_select(m.pad2), memcard2: per_select(m.memcard2), ..m1 }
            }
        } else {
            m1
        };
        let m3 = PmcV {
            pad1_dsr: if sel && tgt == Target::PadMemCard1 {
                m.pad1_dsr
            } else {
                DsrState::Idle
            },
            memcard1_dsr: if sel && tgt == Target::PadMemCard1 {
                m.memcard1_dsr
            } else {
                DsrState::Idle
            },
            pad2_dsr: if sel && tgt == Target::PadMemCard2 {
                m.pad2_dsr
            } else {
                DsrState::Idle
            },
            memcard2_dsr: if sel && tgt == Target::PadMemCard2 {
                m.memcard2_dsr
            } else {
                DsrState::Idle
            },
            ..m2
        };
        PmcV { interrupt: m3.interrupt || (spec_dsr_active(m3) && m3.dsr_it), ..m3 }
    }
}

/// The controller's power-up state: everything idle, both ports empty.
pub open spec fn pmc_power_up() -> PmcV {
    PmcV {
        baud_div: 0,
        mode: 0,
        tx_en: false,
        tx_pending: None,
        select: false,
        target: Target::PadMemCard1,
        unknown: 0,
        rx_en: false,
        dsr_it: false,
        interrupt: false,
        response: 0xff,
        rx_not_empty: false,
        pad1: PeripheralV { device: DeviceV::Disconnected, seq: 0, active: false },
        pad1_dsr: DsrState::Idle,
        pad2: PeripheralV { device: DeviceV::Disconnected, seq: 0, active: false },
        pad2_dsr: DsrState::Idle,
        memcard1: PeripheralV { device: DeviceV::Disconnected, seq: 0, active: false },
        memcard1_dsr: DsrState::Idle,
        memcard2: PeripheralV { device: DeviceV::Disconnected, seq: 0, active: false },
        memcard2_dsr: DsrState::Idle,
        transfer_state: TransferState::Idle,
    }
}

impl PadMemCard {
    pub open spec fn wf(&self) -> bool {
        pmc_wf(self@)
    }

    /// Controller at power-up: everything idle, both ports empty.
    pub fn new() -> (r: PadMemCard)
        ensures
            r.wf(),
            r@ == pmc_power_up(),
    {
        PadMemCard {
            baud_div: 0,
            mode: 0,
            tx_en: false,
            tx_pending: None,
            select: false,
            target: Target::PadMemCard1,
            interrupt: false,
            unknown: 0,
            rx_en: false,
            dsr_it: false,
            response: 0xff,
            rx_not_empty: false,
            pad1: disconnected_gamepad(),
            pad1_dsr: DsrState::Idle,
            pad2: disconnected_gamepad(),
            pad2_dsr: DsrState::Idle,
            memcard1: disconnected_memory_card(),
            memcard1_dsr: DsrState::Idle,
            memcard2: disconnected_memory_card(),
            memcard2_dsr: DsrState::Idle,
            transfer_state: TransferState::Idle,
        }
    }

    /// The two gamepad slots, mutably.
    pub fn gamepads_mut(&mut self) -> (r: (&mut Peripheral, &mut Peripheral))
        ensures
            *r.0 == old(self).pad1,
            *r.1 == old(self).pad2,
            final(self).pad1 == *final(r.0),
            final(self).pad2 == *final(r.1),
            eq_except_gamepads(*final(self), *old(self)),
    {
        (&mut self.pad1, &mut self.pad2)
    }

    /// The two memory-card slots.
    pub fn memory_cards(&self) -> (r: (&Peripheral, &Peripheral))
        ensures
            *r.0 == self.memcard1,
            *r.1 == self.memcard2,
    {
        (&self.memcard1, &self.memcard2)
    }

    /// The two memory-card slots, mutably.
    pub fn memory_cards_mut(&mut self) -> (r: (&mut Peripheral, &mut Peripheral))
        ensures
            *r.0 == old(self).memcard1,
            *r.1 == old(self).memcard2,
            final(self).memcard1 == *final(r.0),
            final(self).memcard2 == *final(r.1),
            eq_except_memcards(*final(self), *old(self)),
    {
        (&mut self.memcard1, &mut self.memcard2)
    }

    /// Flush the queued TX byte into the transfer pipeline if the
    /// controller is ready for it; report the fatal conditions of
    /// [`exchange_fault`] without touching any state.
    pub fn maybe_exchange_byte(&mut self) -> (r: Result<(), Fault>)
        requires
            old(self).wf(),
        ensures
            match exchange_fault(old(self)@) {
                Some(f) => r == Err::<(), Fault>(f) && *final(self) == *old(self),
                None => r is Ok && final(self)@ == exchange_result(old(self)@)
                    && final(self).wf(),
            },
    {
        let to_send = match self.tx_pending {
            Some(b) => b,
            None => {
                return Ok(());
            },
        };
        if !self.tx_en {
            return Ok(());
        }
        if !self.transfer_state.is_idle() {
            // Wait for the current transfer before sending the next byte.
            return Ok(());
        }
        if self.baud_div < BAUD_MIN || self.baud_div > BAUD_MAX {
            // Timing outside this range is a documented hardware gap.
            return Err(Fault::UnimplementedBaudDivider(self.baud_div));
        }
        if !self.select {
            // On the real machine such a transfer never completes.
            return Err(Fault::TxWithoutSelection);
        }

        self.tx_pending = None;

        let bd = self.baud_div as i64;
        proof {
            lemma_transfer_timing(bd as int);
        }
        let start = bd - 40;
        let total = (bd - 11) * 11;
        let end = total - start;
        // The devices process the command about one divider before the
        // response becomes readable.
        let dsr_start = total - bd;

        let response = match self.target {
            Target::PadMemCard1 => {
                let (pad_response, pad_dsr) = self.pad1.exchange_byte(to_send);
                let (mc_response, mc_dsr) = self.memcard1.exchange_byte(to_send);
                self.pad1_dsr = pad_dsr.delay_by(dsr_start);
                self.memcard1_dsr = mc_dsr.delay_by(dsr_start);
                pad_response & mc_response
            },
            Target::PadMemCard2 => {
                let (pad_response, pad_dsr) = self.pad2.exchange_byte(to_send);
                let (mc_response, mc_dsr) = self.memcard2.exchange_byte(to_send);
                self.pad2_dsr = pad_dsr.delay_by(dsr_start);
                self.memcard2_dsr = mc_dsr.delay_by(dsr_start);
                pad_response & mc_response
            },
        };

        self.transfer_state = TransferState::TxStart(start, end, response);

        Ok(())
    }

    /// Whether any slot's DSR pulse is taking place.
    pub fn dsr_active(&self) -> (r: bool)
        ensures
            r == spec_dsr_active(self@),
    {
        self.pad1_dsr.is_active() || self.pad2_dsr.is_active() || self.memcard1_dsr.is_active()
            || self.memcard2_dsr.is_active()
    }

    /// Read the RX register: hands out the byte and clears it.
    pub fn get_response(&mut self) -> (r: u8)
        requires
            old(self).wf(),
        ensures
            final(self).wf(),
            r == old(self)@.response,
            final(self)@ == (PmcV { rx_not_empty: false, response: 0xff, ..old(self)@ }),
    {
        let res = self.response;
        self.rx_not_empty = false;
        self.response = 0xff;
        res
    }

    /// STAT register.
    pub fn stat(&self) -> (r: u32)
        ensures
            r == spec_stat(self@),
    {
        // In tests on the real machine this bit only goes down between the
        // write of a TX byte and the end of the TX-started phase.
        let tx_ready: u32 = match self.transfer_state {
            TransferState::TxStart(_, _, _) => 0,
            _ => if self.tx_pending.is_none() {
                1
            } else {
                0
            },
        };

        // Bit 2 (TX-ready flag 2) is hard-wired high; bit 3 (parity error)
        // is always clear here; bits 11 and up would carry the baud
        // counter, unimplemented and read as zero.
        tx_ready | (if self.rx_not_empty { 2u32 } else { 0u32 }) | 4u32 | (if self.dsr_active() {
            0x80u32
        } else {
            0u32
        }) | (if self.interrupt {
            0x200u32
        } else {
            0u32
        })
    }

    /// MODE register write; stored for readback only.
    pub fn set_mode(&mut self, mode: u8)
        requires
            old(self).wf(),
        ensures
            final(self).wf(),
            final(self)@ == (PmcV { mode: mode, ..old(self)@ }),
    {
        self.mode = mode;
    }

    /// CONTROL register readback.
    pub fn control(&self) -> (r: u16)
        ensures
            r == spec_control(self@),
    {
        (self.unknown as u16) | (if self.tx_en { 1u16 } else { 0u16 }) | (if self.select {
            2u16
        } else {
            0u16
        }) | (if self.rx_en { 4u16 } else { 0u16 }) | (if self.dsr_it {
            0x1000u16
        } else {
            0u16
        }) | (match self.target {
            Target::PadMemCard1 => 0u16,
            Target::PadMemCard2 => 0x2000u16,
        })
    }

    /// CONTROL register write; report the fatal conditions of
    /// [`ctrl_fault`] without touching any state.
    pub fn set_control(&mut self, ctrl: u16) -> (r: Result<(), Fault>)
        requires
            old(self).wf(),
        ensures
            match ctrl_fault(old(self)@, ctrl) {
                Some(f) => r == Err::<(), Fault>(f) && *final(self) == *old(self),
                None => r is Ok && final(self)@ == ctrl_result(old(self)@, ctrl)
                    && final(self).wf(),
            },
    {
        if ctrl & 0x40 != 0 {
            // Soft reset. It does not clear the RX register contents.
            self.baud_div = 0;
            self.mode = 0;
            self.select = false;
            self.target = Target::PadMemCard1;
            self.unknown = 0;
            self.interrupt = false;
            self.rx_not_empty = false;
            self.transfer_state = TransferState::Idle;
            self.pad1_dsr = DsrState::Idle;
            self.memcard1_dsr = DsrState::Idle;
            self.pad2_dsr = DsrState::Idle;
            self.memcard2_dsr = DsrState::Idle;
            return Ok(());
        }

        // The unimplemented paths abort before any state changes.
        if (ctrl >> 2) & 1 == 1 {
            return Err(Fault::RxEnableUnimplemented);
        }
        if ctrl & 0xf00 != 0 {
            return Err(Fault::UnsupportedPadInterrupts(ctrl));
        }

        let prev_select = self.select;
        let prev_target = self.target;

        self.interrupt = if ctrl & 0x10 != 0 {
            // Interrupt acknowledge.
            false
        } else {
            self.interrupt
        };
        // Bits 3 and 5: function unknown, read/write.
        self.unknown = (ctrl & 0x28) as u8;
        self.tx_en = ctrl & 1 == 1;
        self.select = (ctrl >> 1) & 1 == 1;
        self.rx_en = (ctrl >> 2) & 1 == 1;
        self.dsr_it = (ctrl >> 12) & 1 == 1;
        self.target = Target::from_control(ctrl);

        // Level-triggered: a pulse still physically active re-raises the
        // interrupt at once, even straight after an acknowledge. A known
        // hardware quirk, preserved as a logged anomaly.
        self.refresh_irq_level();

        // Asserting select towards a port, or re-targeting while selected,
        // starts a fresh transaction: notify both of its devices.
        if self.select && (!prev_select || self.target != prev_target) {
            match self.target {
                Target::PadMemCard1 => {
                    self.pad1.select();
                    self.memcard1.select();
                },
                Target::PadMemCard2 => {
                    self.pad2.select();
                    self.memcard2.select();
                },
            }
        }

        // Unselected pads and memory cards do not drive DSR.
        let keep1 = self.select && match self.target {
            Target::PadMemCard1 => true,
            Target::PadMemCard2 => false,
        };
        if !keep1 {
            self.pad1_dsr = DsrState::Idle;
            self.memcard1_dsr = DsrState::Idle;
        }
        let keep2 = self.select && match self.target {
            Target::PadMemCard1 => false,
            Target::PadMemCard2 => true,
        };
        if !keep2 {
            self.pad2_dsr = DsrState::Idle;
            self.memcard2_dsr = DsrState::Idle;
        }

        self.refresh_irq_level();

        Ok(())
    }

    /// Raise the interrupt level if an addressed slot's DSR pulse is taking
    /// place while the DSR interrupt is enabled. Level-triggered: the level
    /// stays up until acknowledged.
    pub fn refresh_irq_level(&mut self)
        ensures
            final(self)@ == (PmcV {
                interrupt: old(self)@.interrupt || (spec_dsr_active(old(self)@)
                    && old(self)@.dsr_it),
                ..old(self)@
            }),
    {
        let level = self.dsr_active() && self.dsr_it;
        self.interrupt = self.interrupt || level;
    }
}

/// Everything but the two gamepad slots is equal.
pub open spec fn eq_except_gamepads(a: PadMemCard, b: PadMemCard) -> bool {
    &&& a.baud_div == b.baud_div
    &&& a.mode == b.mode
    &&& a.tx_en == b.tx_en
    &&& a.tx_pending == b.tx_pending
    &&& a.select == b.select
    &&& a.target == b.target
    &&& a.unknown == b.unknown
    &&& a.rx_en == b.rx_en
    &&& a.dsr_it == b.dsr_it
    &&& a.interrupt == b.interrupt
    &&& a.response == b.response
    &&& a.rx_not_empty == b.rx_not_empty
    &&& a.pad1_dsr == b.pad1_dsr
    &&& a.pad2_dsr == b.pad2_dsr
    &&& a.memcard1 == b.memcard1
    &&& a.memcard1_dsr == b.memcard1_dsr
    &&& a.memcard2 == b.memcard2
    &&& a.memcard2_dsr == b.memcard2_dsr
    &&& a.transfer_state == b.transfer_state
}

/// Everything but the two memory-card slots is equal.
pub open spec fn eq_except_memcards(a: PadMemCard, b: PadMemCard) -> bool {
    &&& a.baud_div == b.baud_div
    &&& a.mode == b.mode
    &&& a.tx_en == b.tx_en
    &&& a.tx_pending == b.tx_pending
    &&& a.select == b.select
    &&& a.target == b.target
    &&& a.unknown == b.unknown
    &&& a.rx_en == b.rx_en
    &&& a.dsr_it == b.dsr_it
    &&& a.interrupt == b.interrupt
    &&& a.response == b.response
    &&& a.rx_not_empty == b.rx_not_empty
    &&& a.pad1 == b.pad1
    &&& a.pad1_dsr == b.pad1_dsr
    &&& a.pad2 == b.pad2
    &&& a.pad2_dsr == b.pad2_dsr
    &&& a.memcard1_dsr == b.memcard1_dsr
    &&& a.memcard2_dsr == b.memcard2_dsr
    &&& a.transfer_state == b.transfer_state
}

/// The transfer machine and the RX register after `cycles` cycles elapse,
/// with any buffered TX byte retried after each phase ends (software
/// normally waits for the DSR pulse, but may queue ahead of the hardware's
/// own pace).
///
/// Delivering a response into the RX register while it still holds an
/// unread byte is fatal (it is a single-byte register, not a FIFO), and a
/// retried byte can raise the faults of [`exchange_fault`].
pub open spec fn run_transfer_spec(m: PmcV, cycles: int) -> Result<PmcV, Fault>
    decreases cycles,
{
    if cycles <= 0 {
        Ok(m)
    } else {
        match m.transfer_state {
            TransferState::Idle => match exchange_fault(m) {
                Some(f) => Err(f),
                None => Ok(exchange_result(m)),
            },
            TransferState::TxStart(d1, d2, b) => {
                if d1 < 1 {
                    Ok(m)
                } else if cycles < d1 {
                    Ok(
                        PmcV {
                            transfer_state: TransferState::TxStart((d1 - cycles) as i64, d2, b),
                            ..m
                        },
                    )
                } else {
                    run_transfer_spec(
                        PmcV { transfer_state: TransferState::RxAvailable(d2, b), ..m },
                        cycles - d1,
                    )
                }
            },
            TransferState::RxAvailable(d, b) => {
                if d < 1 {
                    Ok(m)
                } else if cycles < d {
                    Ok(
                        PmcV {
                            transfer_state: TransferState::RxAvailable((d - cycles) as i64, b),
                            ..m
                        },
                    )
                } else if m.rx_not_empty {
                    Err(Fault::RxOverflow)
                } else {
                    let delivered = PmcV {
                        response: b,
                        rx_not_empty: true,
                        transfer_state: TransferState::Idle,
                        ..m
                    };
                    match exchange_fault(delivered) {
                        Some(f) => Err(f),
                        None => run_transfer_spec(exchange_result(delivered), cycles - d),
                    }
                }
            },
        }
    }
}

/// The four DSR pulse timers after `cycles` cycles elapse, with the
/// interrupt level refreshed from the result.
pub open spec fn dsr_ticked(m: PmcV, cycles: int) -> PmcV {
    let m1 = PmcV {
        pad1_dsr: dsr_run(m.pad1_dsr, cycles),
        pad2_dsr: dsr_run(m.pad2_dsr, cycles),
        memcard1_dsr: dsr_run(m.memcard1_dsr, cycles),
        memcard2_dsr: dsr_run(m.memcard2_dsr, cycles),
        ..m
    };
    PmcV { interrupt: m1.interrupt || (spec_dsr_active(m1) && m1.dsr_it), ..m1 }
}

/// One lazy catch-up of the controller: the transfer machine advances over
/// the elapsed cycles (retrying any buffered byte), then the DSR pulse
/// timers advance and the interrupt level is refreshed.
pub open spec fn controller_run_spec(m: PmcV, elapsed: int) -> Result<PmcV, Fault> {
    match run_transfer_spec(m, elapsed) {
        Ok(m1) => Ok(dsr_ticked(m1, elapsed)),
        Err(f) => Err(f),
    }
}

/// `cur`, lowered to `s`'s pending-pulse delay when that is sooner.
pub open spec fn dsr_event_min(cur: i64, s: DsrState) -> i64 {
    match s {
        DsrState::Pending(d, _) => if d < cur {
            d
        } else {
            cur
        },
        _ => cur,
    }
}

/// Cycles until the controller must next be revisited even without register
/// traffic: the earliest pending DSR pulse when the DSR interrupt is
/// enabled, a large default horizon otherwise.
pub open spec fn spec_next_sync(m: PmcV) -> i64 {
    if m.dsr_it {
        dsr_event_min(
            dsr_event_min(
                dsr_event_min(dsr_event_min(DELAY_MAX, m.pad1_dsr), m.pad2_dsr),
                m.memcard1_dsr,
            ),
            m.memcard2_dsr,
        )
    } else {
        DELAY_MAX
    }
}

impl PadMemCard {
    /// Advance the transfer state machine over `cycles` elapsed cycles.
    #[verifier::rlimit(100)]
    pub fn run_transfer(&mut self, cycles: ClockCycle) -> (r: Result<(), Fault>)
        requires
            old(self).wf(),
            0 <= cycles,
        ensures
            match run_transfer_spec(old(self)@, cycles as int) {
                Ok(m) => r is Ok && final(self)@ == m && final(self).wf(),
                Err(f) => r == Err::<(), Fault>(f),
            },
    {
        let ghost orig = self@;
        let ghost total = cycles as int;
        let mut rem = cycles;
        while rem > 0
            invariant
                self.wf(),
                0 <= rem,
                orig == old(self)@,
                total == cycles as int,
                run_transfer_spec(orig, total) == run_transfer_spec(self@, rem as int),
            decreases rem,
        {
            let ghost pre = self@;
            let ghost prerem = rem as int;
            let elapsed: ClockCycle;
            match self.transfer_state {
                TransferState::Idle => {
                    elapsed = rem;
                },
                TransferState::TxStart(delay, to_rx, rx_byte) => {
                    if rem < delay {
                        self.transfer_state = TransferState::TxStart(delay - rem, to_rx, rx_byte);
                        elapsed = rem;
                    } else {
                        self.transfer_state = TransferState::RxAvailable(to_rx, rx_byte);
                        elapsed = delay;
                    }
                },
                TransferState::RxAvailable(delay, rx_byte) => {
                    if rem < delay {
                        self.transfer_state = TransferState::RxAvailable(delay - rem, rx_byte);
                        elapsed = rem;
                    } else {
                        if self.rx_not_empty {
                            // The RX register is a single byte, not a FIFO.
                            proof {
                                assert(run_transfer_spec(pre, prerem) == Err::<PmcV, Fault>(
                                    Fault::RxOverflow,
                                ));
                            }
                            return Err(Fault::RxOverflow);
                        }
                        self.response = rx_byte;
                        self.rx_not_empty = true;
                        self.transfer_state = TransferState::Idle;
                        elapsed = delay;
                    }
                },
            }
            let ghost mid = self@;
            proof {
                if pre.transfer_state is RxAvailable && mid.transfer_state is Idle {
                    assert(mid == (PmcV {
                        response: mid.response,
                        rx_not_empty: true,
                        transfer_state: TransferState::Idle,
                        ..pre
                    }));
                }
            }

            // Retry a buffered transfer now that a phase has ended.
            match self.maybe_exchange_byte() {
                Ok(()) => {},
                Err(f) => {
                    proof {
                        assert(run_transfer_spec(pre, prerem) == Err::<PmcV, Fault>(f));
                    }
                    return Err(f);
                },
            }

            rem = rem - elapsed;
            proof {
                assert(run_transfer_spec(pre, prerem) == run_transfer_spec(self@, rem as int));
            }
        }
        Ok(())
    }

    /// Advance the four DSR pulse timers over `cycles` elapsed cycles and
    /// refresh the interrupt level.
    pub fn run_dsr(&mut self, cycles: ClockCycle)
        requires
            old(self).wf(),
            0 <= cycles,
        ensures
            final(self).wf(),
            final(self)@ == dsr_ticked(old(self)@, cycles as int),
    {
        self.pad1_dsr.run(cycles);
        self.pad2_dsr.run(cycles);
        self.memcard1_dsr.run(cycles);
        self.memcard2_dsr.run(cycles);

        // A pulse may just have become active: refresh the interrupt.
        self.refresh_irq_level();
    }

    /// Cycles until the controller must next be revisited even without
    /// register traffic.
    pub fn next_sync_delay(&self) -> (r: ClockCycle)
        requires
            self.wf(),
        ensures
            r == spec_next_sync(self@),
            0 <= r <= DELAY_MAX,
    {
        let mut next_event: ClockCycle = DELAY_MAX;

        if self.dsr_it {
            if let Some(e) = self.pad1_dsr.to_dsr() {
                if e < next_event {
                    next_event = e;
                }
            }
            if let Some(e) = self.pad2_dsr.to_dsr() {
                if e < next_event {
                    next_event = e;
                }
            }
            if let Some(e) = self.memcard1_dsr.to_dsr() {
                if e < next_event {
                    next_event = e;
                }
            }
            if let Some(e) = self.memcard2_dsr.to_dsr() {
                if e < next_event {
                    next_event = e;
                }
            }
        }

        next_event
    }
}

/// Resynchronize the controller: run the transfer machine and the DSR
/// timers over the cycles elapsed since it was last brought up to date, and
/// report the resulting interrupt level to the interrupt tracker.
fn run_controller(bus: &mut Bus) -> (r: Result<(), Fault>)
    requires
        old(bus).wf(),
    ensures
        ({
            let elapsed = old(bus).sched.now - old(bus).sched.clock(
                SyncToken::PadMemCard,
            ).last_sync;
            match controller_run_spec(old(bus).pad_memcard@, elapsed) {
                Ok(m) => {
                    &&& r is Ok
                    &&& final(bus).wf()
                    &&& final(bus).pad_memcard@ == m
                    &&& final(bus).irq == crate::irq::irq_after(
                        old(bus).irq,
                        Interrupt::PadMemCard,
                        m.interrupt,
                    )
                    &&& final(bus).sched.now == old(bus).sched.now
                    &&& final(bus).sched.clock(SyncToken::PadMemCard).last_sync == old(
                        bus,
                    ).sched.now
                    &&& final(bus).sched.clock(SyncToken::PadMemCard).next_event == old(
                        bus,
                    ).sched.clock(SyncToken::PadMemCard).next_event
                    &&& (forall|t: SyncToken|
                        t != SyncToken::PadMemCard ==> #[trigger] final(bus).sched.clock(t) == old(
                            bus,
                        ).sched.clock(t))
                    &&& final(bus).eq_except_pad_memcard(old(bus))
                },
                Err(f) => r == Err::<(), Fault>(f),
            }
        }),
{
    let elapsed = bus.sched.resync(SyncToken::PadMemCard);

    match bus.pad_memcard.run_transfer(elapsed) {
        Ok(()) => {},
        Err(f) => {
            return Err(f);
        },
    }
    bus.pad_memcard.run_dsr(elapsed);

    let level = bus.pad_memcard.interrupt;
    bus.irq.set_level(Interrupt::PadMemCard, level);

    Ok(())
}

/// Record the controller's next mandatory wake-up with the scheduler.
fn predict_next_sync(bus: &mut Bus)
    requires
        old(bus).wf(),
    ensures
        final(bus).wf(),
        final(bus).pad_memcard == old(bus).pad_memcard,
        final(bus).irq == old(bus).irq,
        final(bus).sched.now == old(bus).sched.now,
        final(bus).sched.clock(SyncToken::PadMemCard).last_sync == old(bus).sched.clock(
            SyncToken::PadMemCard,
        ).last_sync,
        final(bus).sched.clock(SyncToken::PadMemCard).next_event == old(bus).sched.now
            + spec_next_sync(old(bus).pad_memcard@),
        forall|t: SyncToken|
            t != SyncToken::PadMemCard ==> #[trigger] final(bus).sched.clock(t) == old(
                bus,
            ).sched.clock(t),
        final(bus).eq_except_pad_memcard(old(bus)),
{
    let d = bus.pad_memcard.next_sync_delay();
    bus.sched.next_event(SyncToken::PadMemCard, d);
}

/// Everything [`run`] decides, as a function of the scheduler, interrupt
/// tracker and controller it starts from: the updated triple, or the fault
/// that aborts the catch-up.
pub open spec fn pad_run_outcome(sched: Scheduler, irq: InterruptState, m: PmcV) -> Result<
    (Scheduler, InterruptState, PmcV),
    Fault,
> {
    let elapsed = sched.now - sched.clock(SyncToken::PadMemCard).last_sync;
    match controller_run_spec(m, elapsed) {
        Err(f) => Err(f),
        Ok(m1) => Ok(
            (
                sched.with_clock(
                    SyncToken::PadMemCard,
                    TokenClock {
                        last_sync: sched.now,
                        next_event: (sched.now + spec_next_sync(m1)) as i64,
                    },
                ),
                crate::irq::irq_after(irq, Interrupt::PadMemCard, m1.interrupt),
                m1,
            ),
        ),
    }
}

/// Bring the controller up to date and schedule its next mandatory wake-up.
pub fn run(bus: &mut Bus) -> (r: Result<(), Fault>)
    requires
        old(bus).wf(),
    ensures
        match pad_run_outcome(old(bus).sched, old(bus).irq, old(bus).pad_memcard@) {
            Ok(o) => {
                &&& r is Ok
                &&& final(bus).wf()
                &&& final(bus).sched == o.0
                &&& final(bus).irq == o.1
                &&& final(bus).pad_memcard@ == o.2
                &&& final(bus).eq_except_pad_memcard(old(bus))
            },
            Err(f) => r == Err::<(), Fault>(f),
        },
{
    match run_controller(bus) {
        Ok(()) => {},
        Err(f) => {
            return Err(f);
        },
    }
    predict_next_sync(bus);
    proof {
        let target = old(bus).sched.with_clock(
            SyncToken::PadMemCard,
            TokenClock {
                last_sync: old(bus).sched.now,
                next_event: (old(bus).sched.now + spec_next_sync(bus.pad_memcard@)) as i64,
            },
        );
        lemma_scheduler_clocks(bus.sched, target);
    }
    Ok(())
}

/// Two schedulers with the same master counter and the same bookkeeping for
/// every token are equal.
pub proof fn lemma_scheduler_clocks(a: Scheduler, b: Scheduler)
    requires
        a.now == b.now,
        forall|t: SyncToken| #[trigger] a.clock(t) == b.clock(t),
    ensures
        a == b,
{
    assert(a.clock(SyncToken::Dma) == b.clock(SyncToken::Dma));
    assert(a.clock(SyncToken::PadMemCard) == b.clock(SyncToken::PadMemCard));
    assert(a.clock(SyncToken::CdRom) == b.clock(SyncToken::CdRom));
    assert(a.clock(SyncToken::Gpu) == b.clock(SyncToken::Gpu));
    assert(a.clock(SyncToken::Spu) == b.clock(SyncToken::Spu));
    assert(a.clock(SyncToken::Mdec) == b.clock(SyncToken::Mdec));
}

/// The register write of [`store`] once the controller is up to date: TX at
/// offset 0 (byte access only; a byte already pending is dropped in favour
/// of the new one), MODE at 8, CONTROL at 10 (halfword or word access
/// only), BAUD at 14. A write anywhere else is a logged anomaly and is
/// ignored.
pub open spec fn reg_store_spec(m: PmcV, width: AccessWidth, off: u32, val: u32) -> Result<
    PmcV,
    Fault,
> {
    if off == 0 {
        if width != AccessWidth::Byte {
            Err(Fault::PadAccessWidth)
        } else {
            Ok(PmcV { tx_pending: Some((val & 0xff) as u8), ..m })
        }
    } else if off == 8 {
        Ok(PmcV { mode: (val & 0xff) as u8, ..m })
    } else if off == 10 {
        if width == AccessWidth::Byte {
            Err(Fault::PadControlByteAccess)
        } else {
            match ctrl_fault(m, (val & 0xffff) as u16) {
                Some(f) => Err(f),
                None => Ok(ctrl_result(m, (val & 0xffff) as u16)),
            }
        }
    } else if off == 14 {
        Ok(PmcV { baud_div: (val & 0xffff) as u16, ..m })
    } else {
        Ok(m)
    }
}

/// Everything [`store`] decides, as a function of the scheduler, interrupt
/// tracker and controller it starts from: the updated triple, or the fault
/// that aborts the write.
pub open spec fn pad_store_outcome(
    sched: Scheduler,
    irq: InterruptState,
    m: PmcV,
    width: AccessWidth,
    off: u32,
    val: u32,
) -> Result<(Scheduler, InterruptState, PmcV), Fault> {
    let elapsed = sched.now - sched.clock(SyncToken::PadMemCard).last_sync;
    match controller_run_spec(m, elapsed) {
        Err(f) => Err(f),
        Ok(m1) => {
            let irq1 = crate::irq::irq_after(irq, Interrupt::PadMemCard, m1.interrupt);
            match reg_store_spec(m1, width, off, val) {
                Err(f) => Err(f),
                Ok(m2) => {
                    let irq2 = if off == 10 {
                        crate::irq::irq_after(irq1, Interrupt::PadMemCard, m2.interrupt)
                    } else {
                        irq1
                    };
                    match exchange_fault(m2) {
                        Some(f) => Err(f),
                        None => {
                            let m3 = exchange_result(m2);
                            Ok(
                                (
                                    sched.with_clock(
                                        SyncToken::PadMemCard,
                                        TokenClock {
                                            last_sync: sched.now,
                                            next_event: (sched.now + spec_next_sync(m3)) as i64,
                                        },
                                    ),
                                    irq2,
                                    m3,
                                ),
                            )
                        },
                    }
                },
            }
        },
    }
}

/// Write a controller register. The controller first catches up on elapsed
/// cycles, the write is dispatched by offset, any queued TX byte is flushed,
/// and the next wake-up is scheduled; a control write also reports the new
/// interrupt level to the interrupt tracker.
#[verifier::rlimit(100)]
pub fn store(bus: &mut Bus, width: AccessWidth, off: u32, val: u32) -> (r: Result<(), Fault>)
    requires
        old(bus).wf(),
    ensures
        match pad_store_outcome(old(bus).sched, old(bus).irq, old(bus).pad_memcard@, width, off, val) {
            Err(f) => r == Err::<(), Fault>(f),
            Ok(o) => {
                &&& r is Ok
                &&& final(bus).wf()
                &&& final(bus).sched == o.0
                &&& final(bus).irq == o.1
                &&& final(bus).pad_memcard@ == o.2
                &&& final(bus).eq_except_pad_memcard(old(bus))
            },
        },
{
    match run_controller(bus) {
        Ok(()) => {},
        Err(f) => {
            return Err(f);
        },
    }

    match reg_store(bus, width, off, val) {
        Ok(()) => {},
        Err(f) => {
            return Err(f);
        },
    }

    match bus.pad_memcard.maybe_exchange_byte() {
        Ok(()) => {},
        Err(f) => {
            return Err(f);
        },
    }

    predict_next_sync(bus);
    proof {
        let target = old(bus).sched.with_clock(
            SyncToken::PadMemCard,
            TokenClock {
                last_sync: old(bus).sched.now,
                next_event: (old(bus).sched.now + spec_next_sync(bus.pad_memcard@)) as i64,
            },
        );
        lemma_scheduler_clocks(bus.sched, target);
    }
    Ok(())
}

/// The register dispatch of [`store`], once the controller is up to date.
#[verifier::rlimit(100)]
fn reg_store(bus: &mut Bus, width: AccessWidth, off: u32, val: u32) -> (r: Result<(), Fault>)
    requires
        old(bus).wf(),
    ensures
        match reg_store_spec(old(bus).pad_memcard@, width, off, val) {
            Err(f) => r == Err::<(), Fault>(f),
            Ok(m2) => {
                &&& r is Ok
                &&& final(bus).wf()
                &&& final(bus).pad_memcard@ == m2
                &&& final(bus).irq == (if off == 10 {
                    crate::irq::irq_after(old(bus).irq, Interrupt::PadMemCard, m2.interrupt)
                } else {
                    old(bus).irq
                })
                &&& final(bus).sched == old(bus).sched
                &&& final(bus).eq_except_pad_memcard(old(bus))
            },
        },
{
    if off == 0 {
        if !matches!(width, AccessWidth::Byte) {
            return Err(Fault::PadAccessWidth);
        }
        // A byte already pending is dropped in favour of the new one: this
        // register has no buffering depth.
        bus.pad_memcard.tx_pending = Some((val & 0xff) as u8);
    } else if off == 8 {
        bus.pad_memcard.set_mode((val & 0xff) as u8);
    } else if off == 10 {
        if matches!(width, AccessWidth::Byte) {
            // A byte access here does not behave like the halfword one.
            return Err(Fault::PadControlByteAccess);
        }
        match bus.pad_memcard.set_control((val & 0xffff) as u16) {
            Ok(()) => {},
            Err(f) => {
                return Err(f);
            },
        }
        let level = bus.pad_memcard.interrupt;
        bus.irq.set_level(Interrupt::PadMemCard, level);
    } else if off == 14 {
        bus.pad_memcard.baud_div = (val & 0xffff) as u16;
    } else {
        // Write to an unmapped controller register: a logged anomaly,
        // ignored.
    }
    Ok(())
}

/// The value a register read yields once the controller is up to date: RX
/// at offset 0 (byte access only; reading drains the register), STAT at 4,
/// MODE at 8, CONTROL at 10, BAUD at 14. A read anywhere else is a logged
/// anomaly and yields zero.
pub open spec fn reg_load_value(m: PmcV, off: u32) -> u32 {
    if off == 0 {
        m.response as u32
    } else if off == 4 {
        spec_stat(m)
    } else if off == 8 {
        m.mode as u32
    } else if off == 10 {
        spec_control(m) as u32
    } else if off == 14 {
        m.baud_div as u32
    } else {
        0
    }
}

/// Everything [`load`] decides, as a function of the scheduler, interrupt
/// tracker and controller it starts from: the updated triple and the value
/// read, or the fault that aborts the read.
pub open spec fn pad_load_outcome(
    sched: Scheduler,
    irq: InterruptState,
    m: PmcV,
    width: AccessWidth,
    off: u32,
) -> Result<(Scheduler, InterruptState, PmcV, u32), Fault> {
    let elapsed = sched.now - sched.clock(SyncToken::PadMemCard).last_sync;
    match controller_run_spec(m, elapsed) {
        Err(f) => Err(f),
        Ok(m1) => {
            if off == 0 && width != AccessWidth::Byte {
                Err(Fault::PadAccessWidth)
            } else {
                let m2 = if off == 0 {
                    PmcV { rx_not_empty: false, response: 0xff, ..m1 }
                } else {
                    m1
                };
                Ok(
                    (
                        sched.with_clock(
                            SyncToken::PadMemCard,
                            TokenClock {
                                last_sync: sched.now,
                                next_event: (sched.now + spec_next_sync(m2)) as i64,
                            },
                        ),
                        crate::irq::irq_after(irq, Interrupt::PadMemCard, m1.interrupt),
                        m2,
                        reg_load_value(m1, off),
                    ),
                )
            }
        },
    }
}

/// Read a controller register. The controller first catches up on elapsed
/// cycles, the read is dispatched by offset, and the next wake-up is
/// scheduled. Reading the RX register drains it.
#[verifier::rlimit(100)]
pub fn load(bus: &mut Bus, width: AccessWidth, off: u32) -> (r: Result<u32, Fault>)
    requires
        old(bus).wf(),
    ensures
        match pad_load_outcome(old(bus).sched, old(bus).irq, old(bus).pad_memcard@, width, off) {
            Err(f) => r == Err::<u32, Fault>(f),
            Ok(o) => {
                &&& r == Ok::<u32, Fault>(o.3)
                &&& final(bus).wf()
                &&& final(bus).sched == o.0
                &&& final(bus).irq == o.1
                &&& final(bus).pad_memcard@ == o.2
                &&& final(bus).eq_except_pad_memcard(old(bus))
            },
        },
{
    match run_controller(bus) {
        Ok(()) => {},
        Err(f) => {
            return Err(f);
        },
    }

    let v: u32;
    if off == 0 {
        if !matches!(width, AccessWidth::Byte) {
            return Err(Fault::PadAccessWidth);
        }
        v = bus.pad_memcard.get_response() as u32;
    } else if off == 4 {
        v = bus.pad_memcard.stat();
    } else if off == 8 {
        v = bus.pad_memcard.mode as u32;
    } else if off == 10 {
        v = bus.pad_memcard.control() as u32;
    } else if off == 14 {
        v = bus.pad_memcard.baud_div as u32;
    } else {
        // Read of an unmapped controller register: a logged anomaly.
        v = 0;
    }

    predict_next_sync(bus);
    proof {
        let target = old(bus).sched.with_clock(
            SyncToken::PadMemCard,
            TokenClock {
                last_sync: old(bus).sched.now,
                next_event: (old(bus).sched.now + spec_next_sync(bus.pad_memcard@)) as i64,
            },
        );
        lemma_scheduler_clocks(bus.sched, target);
    }
    Ok(v)
}

/// Selecting a port resets the command sequence of both devices attached to
/// it, whatever their prior transaction history: a control write that
/// asserts select towards a port (or re-targets it while selected) leaves
/// both of that port's slots at sequence position zero and live.
pub proof fn lemma_select_resets_sequence(m: PmcV, ctrl: u16)
    requires
        ctrl & 0x40 == 0,
        ctrl_fault(m, ctrl) is None,
        (ctrl >> 1) & 1 == 1,
        !m.select || spec_target_from_control(ctrl) != m.target,
    ensures
        spec_target_from_control(ctrl) == Target::PadMemCard1 ==> {
            &&& ctrl_result(m, ctrl).pad1.seq == 0
            &&& ctrl_result(m, ctrl).pad1.active
            &&& ctrl_result(m, ctrl).memcard1.seq == 0
            &&& ctrl_result(m, ctrl).memcard1.active
        },
        spec_target_from_control(ctrl) == Target::PadMemCard2 ==> {
            &&& ctrl_result(m, ctrl).pad2.seq == 0
            &&& ctrl_result(m, ctrl).pad2.active
            &&& ctrl_result(m, ctrl).memcard2.seq == 0
            &&& ctrl_result(m, ctrl).memcard2.active
        },
{
}

/// A disconnected slot always replies an open bus (all ones) with an idle
/// DSR, whatever the command byte, and consuming the byte is the only
/// protocol-state change: the slot merely goes inactive.
pub proof fn lemma_disconnected_slot(p: PeripheralV, cmd: u8)
    requires
        per_wf(p),
        p.device == DeviceV::Disconnected,
    ensures
        per_response(p, cmd) == 0xff,
        per_dsr(p, cmd) == DsrState::Idle,
        per_step(p, cmd).device == DeviceV::Disconnected,
        !per_step(p, cmd).active,
        p.active ==> per_step(p, cmd).seq == p.seq + 1,
        !p.active ==> per_step(p, cmd) == p,
{
}

/// A soft reset returns the transfer machine to idle and clears mode,
/// select, target, the unknown bits, the interrupt flag and RX-not-empty,
/// but leaves the unread RX byte (and the TX state and devices) untouched.
pub proof fn lemma_soft_reset(m: PmcV, ctrl: u16)
    requires
        ctrl & 0x40 != 0,
    ensures
        ctrl_result(m, ctrl) == (PmcV {
            baud_div: 0,
            mode: 0,
            select: false,
            target: Target::PadMemCard1,
            unknown: 0,
            interrupt: false,
            rx_not_empty: false,
            transfer_state: TransferState::Idle,
            pad1_dsr: DsrState::Idle,
            pad2_dsr: DsrState::Idle,
            memcard1_dsr: DsrState::Idle,
            memcard2_dsr: DsrState::Idle,
            ..m
        }),
        ctrl_result(m, ctrl).response == m.response,
        ctrl_result(m, ctrl).tx_pending == m.tx_pending,
        ctrl_result(m, ctrl).tx_en == m.tx_en,
        ctrl_result(m, ctrl).dsr_it == m.dsr_it,
        ctrl_result(m, ctrl).pad1 == m.pad1,
        ctrl_result(m, ctrl).pad2 == m.pad2,
        ctrl_result(m, ctrl).memcard1 == m.memcard1,
        ctrl_result(m, ctrl).memcard2 == m.memcard2,
{
}

/// The DSR interrupt level counts active, DSR-enabled slots of the
/// currently addressed port only: under the controller invariant no other
/// slot can be pulsing at all, and a control write that deselects a port or
/// re-targets the other one forces the abandoned port's pulses idle at
/// once, dropping its contribution to the line.
pub proof fn lemma_dsr_level_targeted_only(m: PmcV, ctrl: u16)
    requires
        pmc_wf(m),
        ctrl & 0x40 == 0,
        ctrl_fault(m, ctrl) is None,
    ensures
        !m.select ==> !spec_dsr_active(m),
        m.select && m.target == Target::PadMemCard1 ==> spec_dsr_active(m) == (
        m.pad1_dsr.spec_is_active() || m.memcard1_dsr.spec_is_active()),
        m.select && m.target == Target::PadMemCard2 ==> spec_dsr_active(m) == (
        m.pad2_dsr.spec_is_active() || m.memcard2_dsr.spec_is_active()),
        !((ctrl >> 1) & 1 == 1 && spec_target_from_control(ctrl) == Target::PadMemCard1) ==> {
            &&& ctrl_result(m, ctrl).pad1_dsr == DsrState::Idle
            &&& ctrl_result(m, ctrl).memcard1_dsr == DsrState::Idle
        },
        !((ctrl >> 1) & 1 == 1 && spec_target_from_control(ctrl) == Target::PadMemCard2) ==> {
            &&& ctrl_result(m, ctrl).pad2_dsr == DsrState::Idle
            &&& ctrl_result(m, ctrl).memcard2_dsr == DsrState::Idle
        },
{
}

/// Acknowledging the controller interrupt (or enabling the DSR interrupt)
/// while a DSR pulse of the addressed port is still physically active
/// re-raises the level immediately: the line is level-triggered, not
/// edge-triggered, and a control write never clears it while the pulse
/// lasts. A known hardware quirk, preserved as-is.
pub proof fn lemma_ack_while_dsr_active_retriggers(m: PmcV, ctrl: u16)
    requires
        pmc_wf(m),
        ctrl_fault(m, ctrl) is None,
        ctrl & 0x40 == 0,
        spec_dsr_active(m),
        (ctrl >> 12) & 1 == 1,
    ensures
        ctrl_result(m, ctrl).interrupt,
{
}

} // verus!
