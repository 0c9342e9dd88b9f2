//! Video frame containers surfaced to the frontend.

use vstd::prelude::*;

verus! {

/// One finished frame as produced by the console core.
pub struct Frame {
    /// Packed 32-bit pixels, row-major.
    pub pixels: Vec<u32>,
    pub width: u32,
    pub height: u32,
}

/// One finished frame in the shape the frontend consumes.
pub struct CpuFrame {
    pub pixels: Vec<u32>,
    pub width: u32,
    pub height: u32,
}

impl From<Frame> for CpuFrame {
    fn from(frame: Frame) -> (r: CpuFrame) {
        CpuFrame { width: frame.width, height: frame.height, pixels: frame.pixels }
    }
}

impl vstd::std_specs::convert::FromSpecImpl<Frame> for CpuFrame {
    open spec fn obeys_from_spec() -> bool {
        true
    }

    open spec fn from_spec(frame: Frame) -> CpuFrame {
        CpuFrame { width: frame.width, height: frame.height, pixels: frame.pixels }
    }
}

} // verus!
