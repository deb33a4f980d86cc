//! Utilities for NES cartridge images: a 6502 disassembler for the
//! program-code block, CHR graphics decoding, Game Genie code decoding,
//! and the console's pseudo-random number generator.

pub mod addressing;
pub mod block;
pub mod chr;
pub mod disassembler;
pub mod error;
pub mod game_genie;
pub mod header;
pub mod line;
pub mod models;
pub mod opcode;
pub mod prng;
pub mod registers;
pub mod util;
