//! BIOS ROM image and its identifying metadata.
//!
//! Identifying a ROM blob (hashing it against a database) is the loader
//! collaborator's job; the core receives the raw image together with the
//! metadata the loader matched, and rejects an image the loader could not
//! recognize.

use vstd::prelude::*;
use crate::error::{MipsError, MipsResult, Ps1Error};

verus! {

/// Size of a BIOS ROM image: 512 KB.
pub const BIOS_SIZE: usize = 524_288;

/// Identifying metadata of a recognized BIOS image.
#[derive(Clone, Copy, PartialEq, Eq, Structural, Debug)]
pub struct Metadata {
    /// Offset of the jump into the boot-animation code, when known. Patching
    /// it lets the console skip the animation.
    pub animation_jump_hook: Option<u32>,
}

pub struct Bios {
    rom: Vec<u8>,
    metadata: Metadata,
}

impl Bios {
    pub closed spec fn wf(&self) -> bool {
        self.rom@.len() == BIOS_SIZE
    }

    pub closed spec fn spec_rom(&self) -> Seq<u8> {
        self.rom@
    }

    pub closed spec fn spec_metadata(&self) -> Metadata {
        self.metadata
    }

    /// Adopt a ROM image and the metadata the loader matched for it. An
    /// unrecognized image (no metadata) or one of the wrong size is a fatal
    /// load-time error.
    pub fn new(rom: Vec<u8>, metadata: Option<Metadata>) -> (r: MipsResult<Bios>)
        ensures
            match r {
                Ok(b) => {
                    &&& rom@.len() == BIOS_SIZE
                    &&& metadata is Some
                    &&& b.wf()
                    &&& b.spec_rom() == rom@
                    &&& b.spec_metadata() == metadata->Some_0
                },
                Err(e) => {
                    &&& (rom@.len() != BIOS_SIZE || metadata is None)
                    &&& (match e {
                        MipsError::Ps1Error(pe) => pe is UnknownBios,
                    })
                },
            },
    {
        if rom.len() != BIOS_SIZE {
            return Err(MipsError::Ps1Error(Ps1Error::UnknownBios(
                "BIOS image has the wrong size".to_owned(),
            )));
        }
        match metadata {
            Some(m) => Ok(Bios { rom, metadata: m }),
            None => Err(MipsError::Ps1Error(Ps1Error::UnknownBios(
                "BIOS not supported".to_owned(),
            ))),
        }
    }

    /// The metadata matched at load time.
    pub fn metadata(&self) -> (r: Metadata)
        ensures
            r == self.spec_metadata(),
    {
        self.metadata
    }

    /// The raw ROM image.
    pub fn rom(&self) -> (r: &Vec<u8>)
        ensures
            r@ == self.spec_rom(),
    {
        &self.rom
    }

    /// A BIOS image of all zero bytes, with empty metadata.
    pub fn new_dummy() -> (r: Bios)
        ensures
            r.wf(),
            r.spec_rom() == Seq::<u8>::new(BIOS_SIZE as nat, |i: int| 0u8),
            r.spec_metadata() == (Metadata { animation_jump_hook: None }),
    {
        let mut rom: Vec<u8> = Vec::new();
        let mut i: usize = 0;
        while i < BIOS_SIZE
            invariant
                i <= BIOS_SIZE,
                rom@.len() == i,
                forall|j: int| 0 <= j < i ==> rom@[j] == 0u8,
            decreases BIOS_SIZE - i,
        {
            rom.push(0u8);
            i = i + 1;
        }
        proof {
            assert(rom@ =~= Seq::<u8>::new(BIOS_SIZE as nat, |i: int| 0u8));
        }
        Bios { rom, metadata: Metadata { animation_jump_hook: None } }
    }

    /// Replace the jump to the boot-logo animation code with `instruction`
    /// (stored little-endian at the metadata's hook offset). Fails, leaving
    /// the ROM untouched, when the metadata carries no usable hook.
    pub fn patch_animation_jump_hook(&mut self, instruction: u32) -> (r: MipsResult<()>)
        requires
            old(self).wf(),
        ensures
            final(self).wf(),
            final(self).spec_metadata() == old(self).spec_metadata(),
            match old(self).spec_metadata().animation_jump_hook {
                Some(h) => {
                    if h + 3 < BIOS_SIZE {
                        &&& r is Ok
                        &&& final(self).spec_rom() == old(self).spec_rom()
                            .update(h as int, instruction as u8)
                            .update(h + 1, (instruction >> 8) as u8)
                            .update(h + 2, (instruction >> 16) as u8)
                            .update(h + 3, (instruction >> 24) as u8)
                    } else {
                        &&& r is Err
                        &&& final(self).spec_rom() == old(self).spec_rom()
                    }
                },
                None => r is Err && final(self).spec_rom() == old(self).spec_rom(),
            },
    {
        match self.metadata.animation_jump_hook {
            Some(h) => {
                let h = h as usize;
                if h <= BIOS_SIZE - 4 {
                    self.rom.set(h, #[verifier::truncate] (instruction as u8));
                    self.rom.set(h + 1, #[verifier::truncate] ((instruction >> 8) as u8));
                    self.rom.set(h + 2, #[verifier::truncate] ((instruction >> 16) as u8));
                    self.rom.set(h + 3, #[verifier::truncate] ((instruction >> 24) as u8));
                    Ok(())
                } else {
                    Err(MipsError::Ps1Error(Ps1Error::PatchBiosFailed))
                }
            },
            None => Err(MipsError::Ps1Error(Ps1Error::PatchBiosFailed)),
        }
    }

    /// One ROM byte, little-endian assembled by the bus for wider accesses.
    pub fn byte(&self, offset: usize) -> (r: u8)
        requires
            self.wf(),
            offset < BIOS_SIZE,
        ensures
            r == self.spec_rom()[offset as int],
    {
        self.rom[offset]
    }
}

} // verus!
