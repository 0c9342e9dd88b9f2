//! Device variants: digital pad, DualShock, memory card, and the input
//! configuration.

use mips_core::config::{ButtonMap, InputConfig, parse_u32};
use mips_core::device::Device;
use mips_core::gamepad::{DigitalPad, DualShockPad};
use mips_core::input::{Button, ButtonState, DeviceType};
use mips_core::memory_card::MemoryCard;
use mips_core::pad_memcard::DsrState;

/// A digital pad runs the classic five-byte poll: open bus, identifier
/// 0x41, acknowledge 0x5a, then the active-low button word.
#[test]
fn digital_pad_poll_bytes() {
    let mut pad = DigitalPad::new();
    pad.set_button_state(Button::Cross, ButtonState::Pressed);
    pad.set_button_state(Button::DUp, ButtonState::Pressed);

    assert_eq!(pad.handle_command(0, 0x01).0, 0xff);
    assert_eq!(pad.handle_command(1, 0x42).0, 0x41);
    assert_eq!(pad.handle_command(2, 0x00).0, 0x5a);
    // Cross is bit 14, DUp bit 4: cleared in the active-low word 0xbfef.
    assert_eq!(pad.handle_command(3, 0x00).0, 0xef);
    let (hi, dsr) = pad.handle_command(4, 0x00);
    assert_eq!(hi, 0xbf);
    assert_eq!(dsr, DsrState::Idle);
}

/// A released button sets its bit back.
#[test]
fn digital_pad_release_restores_bit() {
    let mut pad = DigitalPad::new();
    pad.set_button_state(Button::Start, ButtonState::Pressed);
    assert_eq!(pad.buttons, 0xffff & !(1 << 3));
    pad.set_button_state(Button::Start, ButtonState::Released);
    assert_eq!(pad.buttons, 0xffff);
}

/// A pad that is not addressed with 0x01 ends the transaction at once.
#[test]
fn digital_pad_ignores_other_addresses() {
    let mut pad = DigitalPad::new();
    let (resp, dsr) = pad.handle_command(0, 0x81);
    assert_eq!(resp, 0xff);
    assert_eq!(dsr, DsrState::Idle);
}

/// The analog toggle flips a DualShock between its 0x41 and 0x73
/// identifiers, and analog mode appends the four axis bytes.
#[test]
fn dualshock_analog_mode() {
    let mut pad = DualShockPad::new();
    assert_eq!(pad.handle_command(1, 0x42).0, 0x41);

    pad.set_button_state(Button::Analog, ButtonState::Pressed);
    assert!(pad.analog);
    assert_eq!(pad.handle_command(1, 0x42).0, 0x73);

    pad.set_axis_state((-32768, 32767), (0, 256));
    assert_eq!(pad.handle_command(7, 0x00).0, 0x00); // left x, full left
    assert_eq!(pad.handle_command(8, 0x00).0, 0xff); // left y, full down
    assert_eq!(pad.handle_command(5, 0x00).0, 0x80); // right x, centred
    assert_eq!(pad.handle_command(6, 0x00).0, 0x81); // right y, one step

    // In analog mode the transaction runs to byte 8.
    assert_eq!(pad.handle_command(4, 0x00).1, DsrState::Pending(360, 64));
    assert_eq!(pad.handle_command(8, 0x00).1, DsrState::Idle);
}

fn run_memcard(card: &mut MemoryCard, bytes: &[u8]) -> Vec<u8> {
    let mut replies = Vec::new();
    for (seq, b) in bytes.iter().enumerate() {
        let (resp, _) = card.handle_command(seq as u8, *b);
        replies.push(resp);
    }
    replies
}

/// The identification command returns the card's fixed geometry record.
#[test]
fn memory_card_identification() {
    let mut card = MemoryCard::new_blank();
    let replies = run_memcard(
        &mut card,
        &[0x81, 0x53, 0x00, 0x00, 0x00, 0x00, 0x00, 0x00, 0x00, 0x00],
    );
    assert_eq!(
        replies,
        vec![0xff, 0x08, 0x5a, 0x5d, 0x5c, 0x5d, 0x04, 0x00, 0x00, 0x80]
    );
}

/// A sector read streams the flash contents with the running checksum and
/// the good-end byte.
#[test]
fn memory_card_sector_read() {
    let mut flash = vec![0u8; 131_072];
    // Sector 0x0102 starts at byte 0x0102 * 128.
    let base = 0x0102 * 128;
    for i in 0..128 {
        flash[base + i] = i as u8;
    }
    let mut card = MemoryCard::new(flash);

    let mut tx = vec![0x81, 0x52, 0x00, 0x00, 0x01, 0x02, 0x00, 0x00, 0x00, 0x00];
    tx.extend(std::iter::repeat(0u8).take(130));
    let replies = run_memcard(&mut card, &tx);

    // Acknowledge pair, then the confirmed address.
    assert_eq!(&replies[6..10], &[0x5c, 0x5d, 0x01, 0x02]);
    // The data bytes themselves.
    for i in 0..128 {
        assert_eq!(replies[10 + i], i as u8);
    }
    // Checksum: msb ^ lsb ^ data; the data bytes 0..=127 cancel out.
    assert_eq!(replies[138], 0x01 ^ 0x02);
    assert_eq!(replies[139], 0x47);
}

/// A sector write lands in the flash, bumps the write counter once, and
/// acknowledges with the good-end byte.
#[test]
fn memory_card_sector_write() {
    let mut card = MemoryCard::new_blank();
    assert_eq!(card.write_counter(), 0);

    let mut tx = vec![0x81, 0x57, 0x00, 0x00, 0x00, 0x05];
    let data: Vec<u8> = (0..128).map(|i| (i * 3) as u8).collect();
    tx.extend(&data);
    let mut chk = 0x00u8 ^ 0x05;
    for b in &data {
        chk ^= b;
    }
    tx.push(chk);
    tx.extend(&[0x00, 0x00, 0x00]);

    let replies = run_memcard(&mut card, &tx);
    assert_eq!(replies[135], 0x5c);
    assert_eq!(replies[136], 0x5d);
    assert_eq!(replies[137], 0x47);

    assert_eq!(card.write_counter(), 1);
    let flash = card.get_memory();
    for i in 0..128 {
        assert_eq!(flash[5 * 128 + i], (i * 3) as u8);
    }
}

/// A write whose checksum mismatches ends with the bad-checksum byte.
#[test]
fn memory_card_write_bad_checksum() {
    let mut card = MemoryCard::new_blank();
    let mut tx = vec![0x81, 0x57, 0x00, 0x00, 0x00, 0x05];
    tx.extend(std::iter::repeat(0x11u8).take(128));
    tx.push(0x00); // wrong checksum
    tx.extend(&[0x00, 0x00, 0x00]);
    let replies = run_memcard(&mut card, &tx);
    assert_eq!(replies[137], 0x4e);
}

/// An out-of-range sector aborts a read at the confirmed-address byte.
#[test]
fn memory_card_read_bad_sector() {
    let mut card = MemoryCard::new_blank();
    let mut replies = Vec::new();
    let mut dsrs = Vec::new();
    for (seq, b) in [0x81u8, 0x52, 0x00, 0x00, 0x12, 0x34, 0x00, 0x00, 0x00]
        .iter()
        .enumerate()
    {
        let (resp, dsr) = card.handle_command(seq as u8, *b);
        replies.push(resp);
        dsrs.push(dsr);
    }
    assert_eq!(replies[8], 0xff);
    assert_eq!(dsrs[8], DsrState::Idle);
}

/// A write that does not change the flash leaves the write counter alone.
#[test]
fn memory_card_unchanged_write_not_counted() {
    let mut card = MemoryCard::new_blank();
    let mut tx = vec![0x81, 0x57, 0x00, 0x00, 0x00, 0x00];
    tx.extend(std::iter::repeat(0xffu8).take(128)); // blank flash is all 0xff
    let mut chk = 0x00u8;
    for _ in 0..128 {
        chk ^= 0xff;
    }
    tx.push(chk);
    tx.extend(&[0x00, 0x00, 0x00]);
    run_memcard(&mut card, &tx);
    assert_eq!(card.write_counter(), 0);
}

/// The device abstraction defaults: capabilities meaningless to a variant
/// answer with zero values.
#[test]
fn device_capability_defaults() {
    let pad = Device::DigitalPad(DigitalPad::new());
    assert_eq!(pad.get_rumble(), (0, 0));
    assert!(pad.get_memory().is_none());
    assert_eq!(pad.write_counter(), 0);
    assert_eq!(pad.description(), "Digital Pad");

    let card = Device::MemoryCard(MemoryCard::new_blank());
    assert!(card.get_memory().is_some());
    assert_eq!(card.description(), "Memory Card");
}

/// A configuration text maps through the INI grammar into the device type
/// and the button bindings.
#[test]
fn input_config_from_ini_text() {
    let text = b"[Device]\nType=Keyboard\n\n[Bindings]\nZ=14\nUp=4\nEsc=3\n";
    let config = InputConfig::from_text(text).expect("config must parse");
    assert_eq!(config.device_type, DeviceType::Keyboard);
    let bindings = config.bindings();
    assert_eq!(bindings.len(), 3);
    assert_eq!(bindings[0], (b"Z".to_vec(), Button::Cross));
    assert_eq!(bindings[1], (b"Up".to_vec(), Button::DUp));
    assert_eq!(bindings[2], (b"Esc".to_vec(), Button::Start));
}

/// The DualShock spelling and the fallback for an unknown one.
#[test]
fn input_config_device_types() {
    let ds = InputConfig::from_text(b"[Device]\nType=Dualshock\n[Bindings]\n").unwrap();
    assert_eq!(ds.device_type, DeviceType::DualShock);
    let unknown = InputConfig::from_text(b"[Device]\nType=Wheel\n[Bindings]\n").unwrap();
    assert_eq!(unknown.device_type, DeviceType::Unknown);
}

/// A missing section, a missing type key or a bad binding value rejects the
/// configuration.
#[test]
fn input_config_rejects_bad_texts() {
    assert!(InputConfig::from_text(b"[Bindings]\nZ=14\n").is_none());
    assert!(InputConfig::from_text(b"[Device]\nName=x\n[Bindings]\n").is_none());
    assert!(InputConfig::from_text(b"[Device]\nType=Keyboard\n[Bindings]\nZ=16\n").is_none());
    assert!(InputConfig::from_text(b"[Device]\nType=Keyboard\n[Bindings]\nZ=abc\n").is_none());
}

/// Decimal parsing: exact values, rejection of junk, and the overflow edge.
#[test]
fn parse_u32_values() {
    assert_eq!(parse_u32(b"0"), Some(0));
    assert_eq!(parse_u32(b"255"), Some(255));
    assert_eq!(parse_u32(b"4294967295"), Some(4294967295));
    assert_eq!(parse_u32(b"4294967296"), None);
    assert_eq!(parse_u32(b""), None);
    assert_eq!(parse_u32(b"12a"), None);
}

/// The button map keeps the last binding for a name bound twice (a later
/// configuration line overrides an earlier one) and answers nothing for an
/// unbound input.
#[test]
fn button_map_lookup() {
    let config = InputConfig::from_text(
        b"[Device]\nType=Keyboard\n[Bindings]\nZ=14\nZ=15\nX=13\n",
    )
    .unwrap();
    let map = ButtonMap::from_config(config);
    assert_eq!(map.button(b"Z"), Some(Button::Square));
    assert_eq!(map.button(b"X"), Some(Button::Circle));
    assert_eq!(map.button(b"Q"), None);
    assert_eq!(ButtonMap::new().button(b"Z"), None);
}
