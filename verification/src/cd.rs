//! Disc handle, as the core sees it.
//!
//! Parsing a disc-image container and decoding sectors belong to an outside
//! collaborator; the core only keeps the identity of the inserted disc (its
//! serial number and region) and the fact that one is present. Absence of a
//! disc is a valid state: the console boots to the BIOS menu.

use vstd::prelude::*;

verus! {

/// Region a disc is mastered for.
#[derive(Clone, Copy, PartialEq, Eq, Structural, Debug)]
pub enum Region {
    Japan,
    NorthAmerica,
    Europe,
}

/// An inserted disc.
pub struct Disc {
    serial: Vec<u8>,
    region: Region,
}

impl Disc {
    pub closed spec fn spec_serial(&self) -> Seq<u8> {
        self.serial@
    }

    pub closed spec fn spec_region(&self) -> Region {
        self.region
    }

    /// Adopt the identity the disc collaborator extracted from the image.
    pub fn new(serial: Vec<u8>, region: Region) -> (r: Disc)
        ensures
            r.spec_serial() == serial@,
            r.spec_region() == region,
    {
        Disc { serial, region }
    }

    pub fn serial_number(&self) -> (r: &Vec<u8>)
        ensures
            r@ == self.spec_serial(),
    {
        &self.serial
    }

    pub fn region(&self) -> (r: Region)
        ensures
            r == self.spec_region(),
    {
        self.region
    }
}

} // verus!
