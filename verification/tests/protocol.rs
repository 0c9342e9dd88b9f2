//! Serial pad/memory-card protocol: timing, selection, reset and the
//! end-to-end exchange scenarios.

use mips_core::bus::{AccessWidth, Bus};
use mips_core::bios::Bios;
use mips_core::device::Device;
use mips_core::error::Fault;
use mips_core::gamepad::DigitalPad;
use mips_core::pad_memcard::{self, DsrState, PadMemCard, Target, TransferState};

fn fresh_bus() -> Bus {
    Bus::new(Bios::new_dummy(), None)
}

fn pad_store(bus: &mut Bus, width: AccessWidth, off: u32, val: u32) {
    pad_memcard::store(bus, width, off, val).expect("register write faulted");
}

fn pad_load(bus: &mut Bus, width: AccessWidth, off: u32) -> u32 {
    pad_memcard::load(bus, width, off).expect("register read faulted")
}

/// Transfer timing for the common divider 136: the two phases partition the
/// total transfer time, and RX-not-empty rises exactly at
/// `to_tx_start + to_tx_end` cycles after the byte was queued.
#[test]
fn transfer_phases_partition_total_time() {
    // For baud divider 136: to_tx_start = 96, tx_total = 125 * 11 = 1375,
    // to_tx_end = 1279, to_dsr_start = 1239.
    let mut bus = fresh_bus();
    bus.pad_memcard.pad1.connect_device(Device::DigitalPad(DigitalPad::new()));

    pad_store(&mut bus, AccessWidth::HalfWord, 14, 136);
    pad_store(&mut bus, AccessWidth::HalfWord, 10, 0x0003); // TX enable + select
    pad_store(&mut bus, AccessWidth::Byte, 0, 0x01);

    // While the TX-started phase runs, STAT bit 0 (TX ready) stays down.
    assert_eq!(pad_load(&mut bus, AccessWidth::Word, 4) & 1, 0);
    bus.sched.advance(95);
    assert_eq!(pad_load(&mut bus, AccessWidth::Word, 4) & 1, 0);
    bus.sched.advance(1);
    assert_eq!(pad_load(&mut bus, AccessWidth::Word, 4) & 1, 1);

    // One cycle before the total transfer time the response is not there...
    bus.sched.advance(1375 - 96 - 1);
    assert_eq!(pad_load(&mut bus, AccessWidth::Word, 4) & 2, 0);
    // ...and exactly at 1375 elapsed cycles it is.
    bus.sched.advance(1);
    assert_eq!(pad_load(&mut bus, AccessWidth::Word, 4) & 2, 2);
}

/// The same partition holds across the whole known divider range: the
/// response lands exactly `(bd - 11) * 11` cycles after the byte is queued.
#[test]
fn transfer_total_time_across_divider_range() {
    for bd in [80u32, 100, 136, 200, 239] {
        let mut bus = fresh_bus();
        bus.pad_memcard.pad1.connect_device(Device::DigitalPad(DigitalPad::new()));
        pad_store(&mut bus, AccessWidth::HalfWord, 14, bd);
        pad_store(&mut bus, AccessWidth::HalfWord, 10, 0x0003);
        pad_store(&mut bus, AccessWidth::Byte, 0, 0x01);

        let total = (bd as i64 - 11) * 11;
        bus.sched.advance(total - 1);
        assert_eq!(pad_load(&mut bus, AccessWidth::Word, 4) & 2, 0, "divider {bd}");
        bus.sched.advance(1);
        assert_eq!(pad_load(&mut bus, AccessWidth::Word, 4) & 2, 2, "divider {bd}");
    }
}

/// Selecting a port resets the command sequence of both attached devices,
/// whatever their prior transaction history.
#[test]
fn selecting_resets_sequence_counters() {
    let mut bus = fresh_bus();
    bus.pad_memcard.pad1.connect_device(Device::DigitalPad(DigitalPad::new()));

    pad_store(&mut bus, AccessWidth::HalfWord, 14, 136);
    pad_store(&mut bus, AccessWidth::HalfWord, 10, 0x0003);
    pad_store(&mut bus, AccessWidth::Byte, 0, 0x01);
    assert_eq!(bus.pad_memcard.pad1.seq, 1);
    assert_eq!(bus.pad_memcard.memcard1.seq, 1);

    // Deselect, then select again: both slots are back at byte 0.
    pad_store(&mut bus, AccessWidth::HalfWord, 10, 0x0001);
    pad_store(&mut bus, AccessWidth::HalfWord, 10, 0x0003);
    assert_eq!(bus.pad_memcard.pad1.seq, 0);
    assert!(bus.pad_memcard.pad1.active);
    assert_eq!(bus.pad_memcard.memcard1.seq, 0);
    assert!(bus.pad_memcard.memcard1.active);
}

/// A disconnected slot always replies an open bus (0xff) with an idle DSR,
/// for any command byte.
#[test]
fn disconnected_slot_replies_open_bus() {
    for cmd in [0x01u8, 0x42, 0x81, 0x00, 0xff] {
        let mut per = pad_memcard::disconnected_gamepad();
        per.select();
        let (resp, dsr) = per.exchange_byte(cmd);
        assert_eq!(resp, 0xff);
        assert_eq!(dsr, DsrState::Idle);
        assert!(!per.active);
        assert!(matches!(per.device, Device::Disconnected));
    }
}

/// A soft reset mid-transfer returns the machine to idle and clears mode,
/// select, target, the unknown bits, the interrupt flag and RX-not-empty,
/// but leaves the unread RX byte untouched.
#[test]
fn soft_reset_keeps_unread_rx_byte() {
    let mut pmc = PadMemCard::new();
    pmc.pad1.connect_device(Device::DigitalPad(DigitalPad::new()));
    pmc.baud_div = 136;
    pmc.mode = 0x0d;
    pmc.unknown = 0x28;
    pmc.tx_en = true;
    pmc.select = true;
    pmc.interrupt = true;
    pmc.response = 0x41;
    pmc.rx_not_empty = true;
    pmc.tx_pending = Some(0x01);
    pmc.maybe_exchange_byte().unwrap();
    assert!(matches!(pmc.transfer_state, TransferState::TxStart(_, _, _)));

    pmc.set_control(0x40).unwrap();

    assert_eq!(pmc.transfer_state, TransferState::Idle);
    assert_eq!(pmc.mode, 0);
    assert!(!pmc.select);
    assert_eq!(pmc.target, Target::PadMemCard1);
    assert_eq!(pmc.unknown, 0);
    assert!(!pmc.interrupt);
    assert!(!pmc.rx_not_empty);
    // The RX register contents survive the reset.
    assert_eq!(pmc.response, 0x41);
    // TX state is not part of the reset.
    assert!(pmc.tx_en);
    assert_eq!(pmc.baud_div, 0);
}

/// Deselecting a port, or re-targeting the other one, immediately drops its
/// DSR contribution to the interrupt line.
#[test]
fn retargeting_drops_dsr_contribution() {
    let mut bus = fresh_bus();
    bus.pad_memcard.pad1.connect_device(Device::DigitalPad(DigitalPad::new()));
    pad_store(&mut bus, AccessWidth::HalfWord, 14, 136);
    pad_store(&mut bus, AccessWidth::HalfWord, 10, 0x0003);
    pad_store(&mut bus, AccessWidth::Byte, 0, 0x01);

    // Run into the DSR pulse: it starts to_dsr_start + 360 = 1599 cycles in
    // and lasts 64.
    bus.sched.advance(1630);
    assert_eq!(pad_load(&mut bus, AccessWidth::Word, 4) & 0x80, 0x80);
    assert!(bus.pad_memcard.pad1_dsr.is_active());

    // Point the select line at the other port: the pulse is forced idle and
    // STAT bit 7 drops at once.
    pad_store(&mut bus, AccessWidth::HalfWord, 10, 0x2003);
    assert_eq!(bus.pad_memcard.pad1_dsr, DsrState::Idle);
    assert_eq!(bus.pad_memcard.memcard1_dsr, DsrState::Idle);
    assert_eq!(pad_load(&mut bus, AccessWidth::Word, 4) & 0x80, 0);
}

/// End-to-end: a digital pad on port 0, selected, polled with
/// `[0x01, 0x42]`. The pad sees sequence positions 0 and 1, and each
/// response byte becomes readable exactly at the transfer's total time.
#[test]
fn digital_pad_poll_scenario() {
    let mut bus = fresh_bus();
    bus.pad_memcard.pad1.connect_device(Device::DigitalPad(DigitalPad::new()));

    pad_store(&mut bus, AccessWidth::HalfWord, 14, 136);
    pad_store(&mut bus, AccessWidth::HalfWord, 10, 0x0003);
    assert_eq!(bus.pad_memcard.pad1.seq, 0);

    // Byte 0: the pad answers 0x01 with an open bus and asks for a DSR
    // pulse.
    pad_store(&mut bus, AccessWidth::Byte, 0, 0x01);
    assert_eq!(bus.pad_memcard.pad1.seq, 1);
    bus.sched.advance(1374);
    assert_eq!(pad_load(&mut bus, AccessWidth::Word, 4) & 2, 0);
    bus.sched.advance(1);
    assert_eq!(pad_load(&mut bus, AccessWidth::Word, 4) & 2, 2);
    assert_eq!(pad_load(&mut bus, AccessWidth::Byte, 0), 0xff);

    // Wait out the DSR pulse before the next byte, as software would.
    bus.sched.advance(400);

    // Byte 1: the poll command; the pad identifies as a digital pad.
    pad_store(&mut bus, AccessWidth::Byte, 0, 0x42);
    assert_eq!(bus.pad_memcard.pad1.seq, 2);
    bus.sched.advance(1375);
    assert_eq!(pad_load(&mut bus, AccessWidth::Word, 4) & 2, 2);
    assert_eq!(pad_load(&mut bus, AccessWidth::Byte, 0), 0x41);
}

/// Writing a TX byte while select is not asserted raises the fatal
/// condition rather than silently doing nothing.
#[test]
fn tx_without_selection_is_fatal() {
    let mut bus = fresh_bus();
    pad_store(&mut bus, AccessWidth::HalfWord, 14, 136);
    pad_store(&mut bus, AccessWidth::HalfWord, 10, 0x0001); // TX enable, no select

    let r = pad_memcard::store(&mut bus, AccessWidth::Byte, 0, 0x01);
    assert_eq!(r, Err(Fault::TxWithoutSelection));
}

/// A baud divider outside the range with known timing is a fatal
/// unimplemented condition when a transfer starts.
#[test]
fn out_of_range_divider_is_fatal() {
    for bd in [0u32, 79, 240, 0xffff] {
        let mut bus = fresh_bus();
        pad_store(&mut bus, AccessWidth::HalfWord, 14, bd);
        pad_store(&mut bus, AccessWidth::HalfWord, 10, 0x0003);
        let r = pad_memcard::store(&mut bus, AccessWidth::Byte, 0, 0x01);
        assert_eq!(r, Err(Fault::UnimplementedBaudDivider(bd as u16)));
    }
}

/// Overwriting the single-byte RX register while it is unread is fatal.
#[test]
fn rx_overflow_is_fatal() {
    let mut bus = fresh_bus();
    bus.pad_memcard.pad1.connect_device(Device::DigitalPad(DigitalPad::new()));
    pad_store(&mut bus, AccessWidth::HalfWord, 14, 136);
    pad_store(&mut bus, AccessWidth::HalfWord, 10, 0x0003);
    pad_store(&mut bus, AccessWidth::Byte, 0, 0x01);
    bus.sched.advance(1375);
    // Leave the response unread and push a second byte through.
    pad_store(&mut bus, AccessWidth::Byte, 0, 0x42);
    bus.sched.advance(1375);
    let r = pad_memcard::run(&mut bus);
    assert_eq!(r, Err(Fault::RxOverflow));
}

/// The DSR interrupt is level-triggered: acknowledging it while the pulse
/// is still physically active re-raises it immediately, and so does
/// enabling the DSR interrupt mid-pulse. A known hardware quirk, preserved
/// rather than fixed.
#[test]
fn ack_while_dsr_active_retriggers() {
    let mut bus = fresh_bus();
    bus.pad_memcard.pad1.connect_device(Device::DigitalPad(DigitalPad::new()));
    pad_store(&mut bus, AccessWidth::HalfWord, 14, 136);
    pad_store(&mut bus, AccessWidth::HalfWord, 10, 0x0003);
    pad_store(&mut bus, AccessWidth::Byte, 0, 0x01);

    // Run into the DSR pulse (it starts 1599 cycles in and lasts 64), then
    // enable the DSR interrupt mid-pulse: the level rises at once.
    bus.sched.advance(1630);
    pad_memcard::run(&mut bus).unwrap();
    assert!(bus.pad_memcard.pad1_dsr.is_active());
    pad_store(&mut bus, AccessWidth::HalfWord, 10, 0x1003);
    assert!(bus.pad_memcard.interrupt);
    assert_eq!(pad_load(&mut bus, AccessWidth::Word, 4) & 0x200, 0x200);

    // Acknowledge while the pulse is still active: the level re-raises
    // immediately instead of clearing.
    pad_store(&mut bus, AccessWidth::HalfWord, 10, 0x1013);
    assert!(bus.pad_memcard.interrupt);
    assert_eq!(pad_load(&mut bus, AccessWidth::Word, 4) & 0x200, 0x200);

    // Once the pulse has passed, the same acknowledge clears the level.
    bus.sched.advance(200);
    pad_store(&mut bus, AccessWidth::HalfWord, 10, 0x1013);
    assert!(!bus.pad_memcard.interrupt);
    assert_eq!(pad_load(&mut bus, AccessWidth::Word, 4) & 0x200, 0);
}

/// Setting the RX-enable control bit is a fatal unimplemented condition.
#[test]
fn rx_enable_is_fatal() {
    let mut pmc = PadMemCard::new();
    assert_eq!(pmc.set_control(0x0004), Err(Fault::RxEnableUnimplemented));
}

/// The unsupported interrupt sources of control bits 8-11 are fatal.
#[test]
fn unsupported_interrupts_are_fatal() {
    let mut pmc = PadMemCard::new();
    assert_eq!(
        pmc.set_control(0x0100),
        Err(Fault::UnsupportedPadInterrupts(0x0100))
    );
}

/// Byte access to the halfword-only control register is fatal.
#[test]
fn control_byte_access_is_fatal() {
    let mut bus = fresh_bus();
    let r = pad_memcard::store(&mut bus, AccessWidth::Byte, 10, 0x03);
    assert_eq!(r, Err(Fault::PadControlByteAccess));
}

/// STAT bit 2 is hard-wired high and bit 3 (parity error) stays clear.
#[test]
fn stat_fixed_bits() {
    let mut bus = fresh_bus();
    let stat = pad_load(&mut bus, AccessWidth::Word, 4);
    assert_eq!(stat & 4, 4);
    assert_eq!(stat & 8, 0);
}

/// The control register reads back what was written to its read/write
/// bits, including the two bits of unknown function.
#[test]
fn control_readback() {
    let mut bus = fresh_bus();
    pad_store(&mut bus, AccessWidth::HalfWord, 10, 0x2029);
    assert_eq!(pad_load(&mut bus, AccessWidth::Word, 10), 0x2029);
}
