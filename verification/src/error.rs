//! Error taxonomy.
//!
//! Configuration and load errors are recoverable results surfaced at the
//! console-creation boundary. Unimplemented-hardware-path conditions are
//! fatal by design: they stand for genuinely unknown hardware behaviour, and
//! guessing would silently produce wrong emulation. The library reports them
//! as [`Fault`] values; a caller is expected to abort loudly on one, never to
//! paper over it.

use vstd::prelude::*;
use crate::dma::Port;

verus! {

/// Recoverable errors of the console core.
#[derive(Debug)]
pub enum Ps1Error {
    /// The supplied BIOS image is not recognized (or not of the right size).
    UnknownBios(String),
    /// The BIOS metadata carries no animation jump hook to patch.
    PatchBiosFailed,
    /// A file or directory handed in by the loader was absent.
    FileOrDirNotFound(String),
}

/// Top-level recoverable error type.
#[derive(Debug)]
pub enum MipsError {
    Ps1Error(Ps1Error),
}

pub type MipsResult<T> = Result<T, MipsError>;

impl From<Ps1Error> for MipsError {
    fn from(e: Ps1Error) -> (r: MipsError) {
        MipsError::Ps1Error(e)
    }
}

impl vstd::std_specs::convert::FromSpecImpl<Ps1Error> for MipsError {
    open spec fn obeys_from_spec() -> bool {
        true
    }

    open spec fn from_spec(e: Ps1Error) -> MipsError {
        MipsError::Ps1Error(e)
    }
}

/// Fatal unimplemented-hardware-path conditions. Each stands for register
/// traffic whose real-hardware behaviour is unknown or unverified; execution
/// must abort loudly rather than guess.
#[derive(Clone, Copy, PartialEq, Eq, Structural, Debug)]
pub enum Fault {
    /// A transfer was started with a baud divider outside the `[80, 239]`
    /// range whose timing is known.
    UnimplementedBaudDivider(u16),
    /// A TX byte was flushed while the select line was not asserted.
    TxWithoutSelection,
    /// A response byte arrived while the single-byte RX register was still
    /// unread.
    RxOverflow,
    /// The RX-enable control bit was set.
    RxEnableUnimplemented,
    /// A control write asked for an unsupported interrupt source (bits 8-11).
    UnsupportedPadInterrupts(u16),
    /// The TX/RX register was accessed with a width other than one byte.
    PadAccessWidth,
    /// The control register was accessed as a single byte.
    PadControlByteAccess,
    /// A DMA store to a port with no store path.
    DmaStoreUnimplemented(Port),
    /// A DMA load from a port with no load path.
    DmaLoadUnimplemented(Port),
    /// A bus access fell outside every mapped register range.
    UnmappedAddress(u32),
}

impl MipsError {
    /// Human-readable description.
    pub fn message(&self) -> String {
        match self {
            MipsError::Ps1Error(e) => e.message(),
        }
    }
}

impl Ps1Error {
    /// Human-readable description.
    pub fn message(&self) -> String {
        match self {
            Ps1Error::UnknownBios(s) => s.clone(),
            Ps1Error::PatchBiosFailed => "BIOS animation hook patch failed".to_owned(),
            Ps1Error::FileOrDirNotFound(s) => s.clone(),
        }
    }
}

} // verus!
