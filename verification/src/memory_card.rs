//! Memory-card variant: a 128 KB flash image behind the classic serial
//! protocol (sector read, sector write and identification), plus a write
//! counter the persistence collaborator polls to decide when to flush the
//! image to storage.
//!
//! A card transaction: byte 0 must be `0x81` (addressing memory cards),
//! byte 1 carries the command and is answered with the card's flag byte,
//! then the command-specific sequence runs, ending with a status byte that
//! comes without a DSR pulse.

use vstd::prelude::*;
use crate::pad_memcard::DsrState;

verus! {

/// Size of the card's flash: 1024 sectors of 128 bytes.
pub const FLASH_SIZE: usize = 131_072;

/// Cycles between the card processing a command byte and the start of its
/// DSR pulse.
pub const MEMCARD_DSR_DELAY: i64 = 170;

/// Length of the card's DSR pulse.
pub const MEMCARD_DSR_DURATION: i64 = 64;

/// The DSR pulse the card requests when it has more to say.
pub open spec fn mc_pulse() -> DsrState {
    DsrState::Pending(MEMCARD_DSR_DELAY, MEMCARD_DSR_DURATION)
}

/// Sector-read command byte.
pub const MC_CMD_READ: u8 = 0x52;

/// Sector-write command byte.
pub const MC_CMD_WRITE: u8 = 0x57;

/// Identification command byte.
pub const MC_CMD_ID: u8 = 0x53;

pub struct MemoryCard {
    /// Raw flash image.
    pub flash: Vec<u8>,
    /// Incremented whenever a write command changed the flash contents.
    pub write_counter: u32,
    /// Flag byte reported at the start of every transaction; bit 3 is set
    /// until the card has been read or written since power-up.
    pub flag: u8,
    /// Command byte of the transaction in progress (0 when none).
    pub cmd: u8,
    /// Sector address, most significant byte.
    pub addr_msb: u8,
    /// Sector address, least significant byte.
    pub addr_lsb: u8,
    /// Running checksum (address bytes xor data bytes).
    pub chk: u8,
    /// Previous command byte, echoed while data is streaming in.
    pub last: u8,
    /// Whether the write in progress changed any flash byte.
    pub dirty: bool,
    /// Whether the checksum the console sent mismatched ours.
    pub bad_chk: bool,
}

/// Ghost image of a [`MemoryCard`].
#[verifier::ext_equal]
pub struct McView {
    pub flash: Seq<u8>,
    pub write_counter: u32,
    pub flag: u8,
    pub cmd: u8,
    pub addr_msb: u8,
    pub addr_lsb: u8,
    pub chk: u8,
    pub last: u8,
    pub dirty: bool,
    pub bad_chk: bool,
}

impl View for MemoryCard {
    type V = McView;

    open spec fn view(&self) -> McView {
        McView {
            flash: self.flash@,
            write_counter: self.write_counter,
            flag: self.flag,
            cmd: self.cmd,
            addr_msb: self.addr_msb,
            addr_lsb: self.addr_lsb,
            chk: self.chk,
            last: self.last,
            dirty: self.dirty,
            bad_chk: self.bad_chk,
        }
    }
}

pub open spec fn mc_wf(m: McView) -> bool {
    m.flash.len() == FLASH_SIZE
}

/// The addressed sector.
pub open spec fn mc_sector(m: McView) -> int {
    m.addr_msb * 256 + m.addr_lsb
}

/// Whether the addressed sector exists (there are 1024).
pub open spec fn mc_sector_valid(m: McView) -> bool {
    mc_sector(m) < 1024
}

/// Flash index of byte `i` of the addressed sector.
pub open spec fn mc_flash_index(m: McView, i: int) -> int {
    mc_sector(m) * 128 + i
}

/// `wc` stepped by one, wrapping.
pub open spec fn wc_next(wc: u32) -> u32 {
    if wc == 0xffff_ffff {
        0
    } else {
        (wc + 1) as u32
    }
}

/// Reply of the card to command byte `cmd` at position `seq`.
pub open spec fn mc_response(m: McView, seq: u8, cmd: u8) -> u8 {
    if seq == 0 {
        0xff
    } else if seq == 1 {
        m.flag
    } else if m.cmd == MC_CMD_READ {
        if seq == 2 {
            0x5a
        } else if seq == 3 {
            0x5d
        } else if seq == 4 {
            0x00
        } else if seq == 5 {
            m.addr_msb
        } else if seq == 6 {
            0x5c
        } else if seq == 7 {
            0x5d
        } else if seq == 8 {
            if mc_sector_valid(m) {
                m.addr_msb
            } else {
                0xff
            }
        } else if seq == 9 {
            m.addr_lsb
        } else if 10 <= seq && seq <= 137 {
            if mc_sector_valid(m) {
                m.flash[mc_flash_index(m, seq - 10)]
            } else {
                0xff
            }
        } else if seq == 138 {
            m.chk
        } else if seq == 139 {
            0x47
        } else {
            0xff
        }
    } else if m.cmd == MC_CMD_WRITE {
        if seq == 2 {
            0x5a
        } else if seq == 3 {
            0x5d
        } else if seq == 4 {
            0x00
        } else if seq == 5 {
            m.addr_msb
        } else if 6 <= seq && seq <= 134 {
            m.last
        } else if seq == 135 {
            0x5c
        } else if seq == 136 {
            0x5d
        } else if seq == 137 {
            if !mc_sector_valid(m) {
                0xff
            } else if m.bad_chk {
                0x4e
            } else {
                0x47
            }
        } else {
            0xff
        }
    } else if m.cmd == MC_CMD_ID {
        if seq == 2 {
            0x5a
        } else if seq == 3 {
            0x5d
        } else if seq == 4 {
            0x5c
        } else if seq == 5 {
            0x5d
        } else if seq == 6 {
            0x04
        } else if seq == 7 {
            0x00
        } else if seq == 8 {
            0x00
        } else if seq == 9 {
            0x80
        } else {
            0xff
        }
    } else {
        0xff
    }
}

/// DSR request of the card: it keeps the transaction alive up to the byte
/// before its final status reply, and aborts on a bad address byte 0,
/// unknown command or out-of-range sector.
pub open spec fn mc_dsr(m: McView, seq: u8, cmd: u8) -> DsrState {
    if seq == 0 {
        if cmd == 0x81 {
            mc_pulse()
        } else {
            DsrState::Idle
        }
    } else if seq == 1 {
        if cmd == MC_CMD_READ || cmd == MC_CMD_WRITE || cmd == MC_CMD_ID {
            mc_pulse()
        } else {
            DsrState::Idle
        }
    } else if m.cmd == MC_CMD_READ {
        if seq == 8 && !mc_sector_valid(m) {
            DsrState::Idle
        } else if seq <= 138 {
            mc_pulse()
        } else {
            DsrState::Idle
        }
    } else if m.cmd == MC_CMD_WRITE {
        if seq <= 136 {
            mc_pulse()
        } else {
            DsrState::Idle
        }
    } else if m.cmd == MC_CMD_ID {
        if seq <= 8 {
            mc_pulse()
        } else {
            DsrState::Idle
        }
    } else {
        DsrState::Idle
    }
}

/// Card state after handling command byte `cmd` at position `seq`.
pub open spec fn mc_step(m: McView, seq: u8, cmd: u8) -> McView {
    let m1 = McView { last: cmd, ..m };
    if seq == 0 {
        McView { cmd: 0, chk: 0, dirty: false, bad_chk: false, ..m1 }
    } else if seq == 1 {
        McView { cmd: cmd, ..m1 }
    } else if m.cmd == MC_CMD_READ {
        if seq == 4 {
            McView { addr_msb: cmd, ..m1 }
        } else if seq == 5 {
            McView { addr_lsb: cmd, chk: m.addr_msb ^ cmd, ..m1 }
        } else if 10 <= seq && seq <= 137 && mc_sector_valid(m) {
            McView { chk: m.chk ^ m.flash[mc_flash_index(m, seq - 10)], ..m1 }
        } else if seq == 139 {
            McView { flag: m.flag & 0xf7, ..m1 }
        } else {
            m1
        }
    } else if m.cmd == MC_CMD_WRITE {
        if seq == 4 {
            McView { addr_msb: cmd, ..m1 }
        } else if seq == 5 {
            McView { addr_lsb: cmd, chk: m.addr_msb ^ cmd, ..m1 }
        } else if 6 <= seq && seq <= 133 {
            if mc_sector_valid(m) {
                McView {
                    flash: m.flash.update(mc_flash_index(m, seq - 6), cmd),
                    chk: m.chk ^ cmd,
                    dirty: m.dirty || m.flash[mc_flash_index(m, seq - 6)] != cmd,
                    ..m1
                }
            } else {
                McView { chk: m.chk ^ cmd, ..m1 }
            }
        } else if seq == 134 {
            McView { bad_chk: cmd != m.chk, ..m1 }
        } else if seq == 137 {
            if mc_sector_valid(m) {
                McView {
                    write_counter: if m.dirty {
                        wc_next(m.write_counter)
                    } else {
                        m.write_counter
                    },
                    dirty: false,
                    flag: if !m.bad_chk {
                        m.flag & 0xf7
                    } else {
                        m.flag
                    },
                    ..m1
                }
            } else {
                m1
            }
        } else {
            m1
        }
    } else {
        m1
    }
}

/// Card state after its select line is asserted: the transaction-parsing
/// registers clear, the flash and the counters stay.
pub open spec fn mc_select(m: McView) -> McView {
    McView { cmd: 0, chk: 0, last: 0, dirty: false, bad_chk: false, ..m }
}

impl MemoryCard {
    pub open spec fn wf(&self) -> bool {
        mc_wf(self@)
    }

    /// A card holding the given flash image, untouched since power-up.
    pub fn new(flash: Vec<u8>) -> (r: MemoryCard)
        requires
            flash@.len() == FLASH_SIZE,
        ensures
            r.wf(),
            r@ == (McView {
                flash: flash@,
                write_counter: 0,
                flag: 0x08,
                cmd: 0,
                addr_msb: 0,
                addr_lsb: 0,
                chk: 0,
                last: 0,
                dirty: false,
                bad_chk: false,
            }),
    {
        MemoryCard {
            flash,
            write_counter: 0,
            flag: 0x08,
            cmd: 0,
            addr_msb: 0,
            addr_lsb: 0,
            chk: 0,
            last: 0,
            dirty: false,
            bad_chk: false,
        }
    }

    /// A card whose flash is fully erased (all `0xff`).
    pub fn new_blank() -> (r: MemoryCard)
        ensures
            r.wf(),
            r@.flash == Seq::<u8>::new(FLASH_SIZE as nat, |i: int| 0xffu8),
            r@.write_counter == 0,
            r@.flag == 0x08,
            r@.cmd == 0,
    {
        let mut flash: Vec<u8> = Vec::new();
        let mut i: usize = 0;
        while i < FLASH_SIZE
            invariant
                i <= FLASH_SIZE,
                flash@.len() == i,
                forall|j: int| 0 <= j < i ==> flash@[j] == 0xffu8,
            decreases FLASH_SIZE - i,
        {
            flash.push(0xffu8);
            i = i + 1;
        }
        proof {
            assert(flash@ =~= Seq::<u8>::new(FLASH_SIZE as nat, |i: int| 0xffu8));
        }
        MemoryCard::new(flash)
    }

    pub fn select(&mut self)
        ensures
            final(self)@ == mc_select(old(self)@),
    {
        self.cmd = 0;
        self.chk = 0;
        self.last = 0;
        self.dirty = false;
        self.bad_chk = false;
    }

    pub fn handle_command(&mut self, seq: u8, cmd: u8) -> (r: (u8, DsrState))
        requires
            old(self).wf(),
        ensures
            final(self).wf(),
            r.0 == mc_response(old(self)@, seq, cmd),
            r.1 == mc_dsr(old(self)@, seq, cmd),
            final(self)@ == mc_step(old(self)@, seq, cmd),
    {
        let pulse = DsrState::Pending(MEMCARD_DSR_DELAY, MEMCARD_DSR_DURATION);
        let response: u8;
        let dsr: DsrState;
        if seq == 0 {
            response = 0xff;
            dsr = if cmd == 0x81 { pulse } else { DsrState::Idle };
            self.cmd = 0;
            self.chk = 0;
            self.dirty = false;
            self.bad_chk = false;
        } else if seq == 1 {
            response = self.flag;
            dsr = if cmd == MC_CMD_READ || cmd == MC_CMD_WRITE || cmd == MC_CMD_ID {
                pulse
            } else {
                DsrState::Idle
            };
            self.cmd = cmd;
        } else if self.cmd == MC_CMD_READ {
            let sector_valid = self.addr_msb < 4;
            if seq == 2 {
                response = 0x5a;
                dsr = pulse;
            } else if seq == 3 {
                response = 0x5d;
                dsr = pulse;
            } else if seq == 4 {
                response = 0x00;
                dsr = pulse;
                self.addr_msb = cmd;
            } else if seq == 5 {
                response = self.addr_msb;
                dsr = pulse;
                self.addr_lsb = cmd;
                self.chk = self.addr_msb ^ cmd;
            } else if seq == 6 {
                response = 0x5c;
                dsr = pulse;
            } else if seq == 7 {
                response = 0x5d;
                dsr = pulse;
            } else if seq == 8 {
                if sector_valid {
                    response = self.addr_msb;
                    dsr = pulse;
                } else {
                    response = 0xff;
                    dsr = DsrState::Idle;
                }
            } else if seq == 9 {
                response = self.addr_lsb;
                dsr = pulse;
            } else if 10 <= seq && seq <= 137 {
                if sector_valid {
                    let idx = (self.addr_msb as usize) * 32768 + (self.addr_lsb as usize) * 128
                        + (seq as usize - 10);
                    let b = self.flash[idx];
                    response = b;
                    dsr = pulse;
                    self.chk = self.chk ^ b;
                } else {
                    response = 0xff;
                    dsr = pulse;
                }
            } else if seq == 138 {
                response = self.chk;
                dsr = pulse;
            } else if seq == 139 {
                response = 0x47;
                dsr = DsrState::Idle;
                self.flag = self.flag & 0xf7;
            } else {
                response = 0xff;
                dsr = DsrState::Idle;
            }
        } else if self.cmd == MC_CMD_WRITE {
            let sector_valid = self.addr_msb < 4;
            if seq == 2 {
                response = 0x5a;
                dsr = pulse;
            } else if seq == 3 {
                response = 0x5d;
                dsr = pulse;
            } else if seq == 4 {
                response = 0x00;
                dsr = pulse;
                self.addr_msb = cmd;
            } else if seq == 5 {
                response = self.addr_msb;
                dsr = pulse;
                self.addr_lsb = cmd;
                self.chk = self.addr_msb ^ cmd;
            } else if 6 <= seq && seq <= 133 {
                response = self.last;
                dsr = pulse;
                if sector_valid {
                    let idx = (self.addr_msb as usize) * 32768 + (self.addr_lsb as usize) * 128
                        + (seq as usize - 6);
                    if self.flash[idx] != cmd {
                        self.dirty = true;
                    }
                    self.flash.set(idx, cmd);
                    self.chk = self.chk ^ cmd;
                } else {
                    self.chk = self.chk ^ cmd;
                }
            } else if seq == 134 {
                response = self.last;
                dsr = pulse;
                self.bad_chk = cmd != self.chk;
            } else if seq == 135 {
                response = 0x5c;
                dsr = pulse;
            } else if seq == 136 {
                response = 0x5d;
                dsr = pulse;
            } else if seq == 137 {
                dsr = DsrState::Idle;
                if !sector_valid {
                    response = 0xff;
                } else {
                    if self.bad_chk {
                        response = 0x4e;
                    } else {
                        response = 0x47;
                        self.flag = self.flag & 0xf7;
                    }
                    if self.dirty {
                        self.write_counter = self.write_counter.wrapping_add(1);
                        self.dirty = false;
                    } else {
                        self.dirty = false;
                    }
                }
            } else {
                response = 0xff;
                dsr = DsrState::Idle;
            }
        } else if self.cmd == MC_CMD_ID {
            if seq == 2 {
                response = 0x5a;
                dsr = pulse;
            } else if seq == 3 {
                response = 0x5d;
                dsr = pulse;
            } else if seq == 4 {
                response = 0x5c;
                dsr = pulse;
            } else if seq == 5 {
                response = 0x5d;
                dsr = pulse;
            } else if seq == 6 {
                response = 0x04;
                dsr = pulse;
            } else if seq == 7 {
                response = 0x00;
                dsr = pulse;
            } else if seq == 8 {
                response = 0x00;
                dsr = pulse;
            } else if seq == 9 {
                response = 0x80;
                dsr = DsrState::Idle;
            } else {
                response = 0xff;
                dsr = DsrState::Idle;
            }
        } else {
            response = 0xff;
            dsr = DsrState::Idle;
        }
        self.last = cmd;
        (response, dsr)
    }

    /// The raw flash image, for the persistence collaborator.
    pub fn get_memory(&self) -> (r: &Vec<u8>)
        ensures
            r@ == self@.flash,
    {
        &self.flash
    }

    /// How many write commands have changed the flash so far.
    pub fn write_counter(&self) -> (r: u32)
        ensures
            r == self@.write_counter,
    {
        self.write_counter
    }
}

} // verus!
