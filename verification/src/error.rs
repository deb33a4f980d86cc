//! The failure kinds of the crate. Every one of them is surfaced as an
//! explicit result value, never as an abort.

use vstd::prelude::*;

verus! {

/// Everything that can go wrong while handling a cartridge image.
#[derive(Debug, Clone, Copy, PartialEq, Eq, Structural)]
pub enum NesError {
    CLIArguments,
    FileNotFound,
    FileInvalid,
    WrongNesFormat,
    HeaderNotParsed,
    NotImplementedOpcode,
    MissingChr,
}

/// The human-readable text of an error.
pub open spec fn error_message(e: NesError) -> Seq<char> {
    match e {
        NesError::CLIArguments => "Invalid CLI arguments"@,
        NesError::FileNotFound => "File not found"@,
        NesError::FileInvalid => "Invalid file"@,
        NesError::WrongNesFormat => "Invalid NES format"@,
        NesError::HeaderNotParsed => "The NES header has not been parsed"@,
        NesError::NotImplementedOpcode => "Not implemented operation code"@,
        NesError::MissingChr => "This program doesn't have a CHR ROM"@,
    }
}

impl NesError {
    /// The error as a printable message.
    pub fn message(&self) -> (r: String)
        ensures
            r@ == error_message(*self),
    {
        match *self {
            NesError::CLIArguments => String::from_str("Invalid CLI arguments"),
            NesError::FileNotFound => String::from_str("File not found"),
            NesError::FileInvalid => String::from_str("Invalid file"),
            NesError::WrongNesFormat => String::from_str("Invalid NES format"),
            NesError::HeaderNotParsed => String::from_str("The NES header has not been parsed"),
            NesError::NotImplementedOpcode => String::from_str("Not implemented operation code"),
            NesError::MissingChr => String::from_str("This program doesn't have a CHR ROM"),
        }
    }
}

} // verus!
