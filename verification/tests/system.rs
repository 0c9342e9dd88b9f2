//! Bus-level pieces: DMA engine, interrupt tracker, scheduler, BIOS image
//! and the console surface.

use mips_core::bios::{BIOS_SIZE, Bios, Metadata};
use mips_core::bus::{AccessWidth, Bus};
use mips_core::dma::{self, Channel, Port};
use mips_core::error::Fault;
use mips_core::input::{Button, ButtonState, DeviceType};
use mips_core::irq::{Interrupt, InterruptState};
use mips_core::sync::{Scheduler, SyncToken};
use mips_core::ConsoleManager;

fn fresh_bus() -> Bus {
    Bus::new(Bios::new_dummy(), None)
}

/// An OTC load on the last table entry yields the end-of-table marker;
/// otherwise the previous entry's address, stepped back 4 bytes and masked
/// to the 21-bit RAM range.
#[test]
fn otc_load_values() {
    let mut bus = fresh_bus();
    bus.dma.set(Port::Otc, Channel { cur_address: 0x100, remaining_words: 1 });
    assert_eq!(dma::load(&mut bus, Port::Otc), Ok((0xff_ffff, 0, 0)));

    bus.dma.set(Port::Otc, Channel { cur_address: 0x100, remaining_words: 8 });
    assert_eq!(dma::load(&mut bus, Port::Otc), Ok((0xfc, 0, 0)));

    // The step back wraps and stays masked.
    bus.dma.set(Port::Otc, Channel { cur_address: 0, remaining_words: 2 });
    assert_eq!(dma::load(&mut bus, Port::Otc), Ok((0x1f_fffc, 0, 0)));
}

/// The documented per-port timing: an SPU store costs 47 cycles, a CD-ROM
/// load 8, GPU and MDEC-in nothing at this layer.
#[test]
fn dma_port_timing() {
    let mut bus = fresh_bus();
    assert_eq!(dma::store(&mut bus, Port::Spu, 7), Ok(47));
    assert_eq!(dma::store(&mut bus, Port::Gpu, 8), Ok(0));
    assert_eq!(dma::store(&mut bus, Port::MDecIn, 9), Ok(0));
    assert_eq!(bus.sinks.spu_in, vec![7]);
    assert_eq!(bus.sinks.gpu_in, vec![8]);
    assert_eq!(bus.sinks.mdec_in, vec![9]);

    bus.sinks.cd_out = vec![11, 12];
    assert_eq!(dma::load(&mut bus, Port::CdRom), Ok((11, 0, 8)));
    assert_eq!(dma::load(&mut bus, Port::CdRom), Ok((12, 0, 8)));

    bus.sinks.mdec_out = vec![21];
    bus.sinks.mdec_out_offset = 2;
    assert_eq!(dma::load(&mut bus, Port::MDecOut), Ok((21, 2, 0)));
}

/// A port/direction pair with no implemented path is a fatal condition,
/// never a silent default.
#[test]
fn dma_unimplemented_paths() {
    let mut bus = fresh_bus();
    assert_eq!(
        dma::store(&mut bus, Port::Otc, 0),
        Err(Fault::DmaStoreUnimplemented(Port::Otc))
    );
    assert_eq!(
        dma::load(&mut bus, Port::Pio),
        Err(Fault::DmaLoadUnimplemented(Port::Pio))
    );
}

/// The interrupt tracker latches on rising edges only; a high level alone
/// never re-latches, and an acknowledged latch re-arms on the next edge.
#[test]
fn irq_edge_latching() {
    let mut irq = InterruptState::new();
    irq.set_mask(0x80);

    irq.set_level(Interrupt::PadMemCard, true);
    assert!(irq.active());

    // Acknowledge while the level stays high: the latch clears and the
    // steady level does not re-latch.
    irq.ack(0);
    assert!(!irq.active());
    irq.set_level(Interrupt::PadMemCard, true);
    assert!(!irq.active());

    // A fresh edge after the level dropped latches again.
    irq.set_level(Interrupt::PadMemCard, false);
    irq.set_level(Interrupt::PadMemCard, true);
    assert!(irq.active());

    // Masked-out sources do not reach the processor line.
    irq.set_mask(0);
    assert!(!irq.active());
}

/// Resynchronizing twice without the clock moving yields no elapsed cycles:
/// an interval is never accounted for twice.
#[test]
fn scheduler_never_resyncs_twice() {
    let mut sched = Scheduler::new();
    sched.advance(1000);
    assert_eq!(sched.resync(SyncToken::PadMemCard), 1000);
    assert_eq!(sched.resync(SyncToken::PadMemCard), 0);
    // Other tokens still owe the full interval.
    assert_eq!(sched.resync(SyncToken::Gpu), 1000);

    sched.advance(250);
    assert_eq!(sched.resync(SyncToken::PadMemCard), 250);
}

/// The per-token wake-up horizon.
#[test]
fn scheduler_horizon() {
    let mut sched = Scheduler::new();
    sched.advance(100);
    sched.next_event(SyncToken::PadMemCard, 50);
    assert!(!sched.is_due(SyncToken::PadMemCard));
    sched.advance(49);
    assert!(!sched.is_due(SyncToken::PadMemCard));
    sched.advance(1);
    assert!(sched.is_due(SyncToken::PadMemCard));
}

/// A recognized BIOS image is adopted whole; a wrong-sized or unrecognized
/// one is a typed load failure.
#[test]
fn bios_loading() {
    let meta = Metadata { animation_jump_hook: Some(0x100) };
    let bios = Bios::new(vec![0; BIOS_SIZE], Some(meta)).expect("image must load");
    assert_eq!(bios.metadata(), meta);
    assert_eq!(bios.rom().len(), BIOS_SIZE);

    assert!(Bios::new(vec![0; 16], Some(meta)).is_err());
    assert!(Bios::new(vec![0; BIOS_SIZE], None).is_err());
}

/// Patching the animation hook stores the instruction little-endian at the
/// hook offset; without a hook the patch fails and the ROM stays.
#[test]
fn bios_animation_patch() {
    let meta = Metadata { animation_jump_hook: Some(8) };
    let mut bios = Bios::new(vec![0; BIOS_SIZE], Some(meta)).unwrap();
    bios.patch_animation_jump_hook(0x0403_0201).unwrap();
    assert_eq!(&bios.rom()[8..12], &[0x01, 0x02, 0x03, 0x04]);

    let mut dummy = Bios::new_dummy();
    assert!(dummy.patch_animation_jump_hook(0).is_err());
    assert!(dummy.rom().iter().all(|b| *b == 0));
}

/// The bus maps the controller block, the interrupt registers and the BIOS
/// window, and faults on anything else.
#[test]
fn bus_address_dispatch() {
    let meta = Metadata { animation_jump_hook: None };
    let mut rom = vec![0; BIOS_SIZE];
    rom[0] = 0x11;
    rom[1] = 0x22;
    rom[2] = 0x33;
    rom[3] = 0x44;
    let mut bus = Bus::new(Bios::new(rom, Some(meta)).unwrap(), None);

    // BIOS window, all three widths, little-endian.
    assert_eq!(bus.load(AccessWidth::Word, 0x1fc0_0000), Ok(0x4433_2211));
    assert_eq!(bus.load(AccessWidth::HalfWord, 0x1fc0_0002), Ok(0x4433));
    assert_eq!(bus.load(AccessWidth::Byte, 0x1fc0_0003), Ok(0x44));

    // Controller block: write and read back the baud divider.
    bus.store(AccessWidth::HalfWord, 0x1f80_104e, 136).unwrap();
    assert_eq!(bus.load(AccessWidth::HalfWord, 0x1f80_104e), Ok(136));

    // Interrupt registers.
    bus.store(AccessWidth::HalfWord, 0x1f80_1074, 0x7f).unwrap();
    assert_eq!(bus.load(AccessWidth::HalfWord, 0x1f80_1074), Ok(0x7f));

    // Anything unmapped is fatal.
    assert_eq!(
        bus.load(AccessWidth::Word, 0x1f80_2000),
        Err(Fault::UnmappedAddress(0x1f80_2000))
    );
    assert_eq!(
        bus.store(AccessWidth::Word, 0x0000_0000, 1),
        Err(Fault::UnmappedAddress(0))
    );
}

/// The console manager surface: loading a title, ticking frames, wiring a
/// controller and feeding it inputs.
#[test]
fn console_manager_round_trip() {
    let mut mgr = ConsoleManager::new();

    // Nothing is loaded yet: the surface stays inert.
    mgr.update().unwrap();
    assert!(mgr.get_frame().is_none());
    assert!(mgr.get_audio_samples().is_empty());

    let meta = Metadata { animation_jump_hook: None };
    assert!(mgr
        .load_game(vec![0; BIOS_SIZE], Some(meta), None)
        .is_ok());
    assert!(mgr.load_game(vec![0; 3], Some(meta), None).is_err());

    mgr.connect_device(0, DeviceType::Keyboard);
    mgr.handle_inputs(vec![(ButtonState::Pressed, Button::Cross)]);
    mgr.refresh_devices();
    mgr.update().unwrap();
    mgr.clear_audio_samples();

    let console = mgr.active.as_ref().unwrap();
    match console.bus.pad_memcard.pad1.device() {
        mips_core::device::Device::DigitalPad(pad) => {
            assert_eq!(pad.buttons, 0xffff & !(1 << 14));
        },
        _ => panic!("a digital pad must be connected"),
    }
}

/// Connecting a device hands back the displaced one.
#[test]
fn connect_device_swaps() {
    let mut per = mips_core::pad_memcard::disconnected_gamepad();
    let old = per.connect_device(mips_core::device::Device::DigitalPad(
        mips_core::gamepad::DigitalPad::new(),
    ));
    assert!(matches!(old, mips_core::device::Device::Disconnected));
    let old = per.disconnect_device();
    assert!(matches!(old, mips_core::device::Device::DigitalPad(_)));
}
