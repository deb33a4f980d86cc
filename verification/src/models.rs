//! The interfaces the crate's utilities share: parsing a header,
//! running a utility over what it holds, and persisting its outcome.

use vstd::prelude::*;

use crate::error::NesError;

verus! {

/// The parsing interface of a cartridge header.
pub trait Header {
    /// Resolve the header fields and verify the format signature.
    fn parse(&mut self) -> Result<(), NesError>;

    /// Verify the format signature of a resolved header.
    fn check_magic(&self) -> Result<(), NesError>;

    /// The header's fields as printable text.
    fn dump(&self) -> String;
}

/// A utility that processes what it holds in one run.
pub trait Util {
    fn run(&mut self);
}

/// A utility that persists its outcome, to its own path or to a given
/// one.
pub trait Save {
    fn save(&mut self);

    fn save_as(&mut self, path: &str);
}

/// The full utility interface: run, then persist.
pub trait NesUtil: Util + Save {

}

} // verus!
