//! The 6502 opcode table: a total mapping from every byte value to its
//! mnemonic, instruction length and addressing mode, undocumented
//! opcodes included. Branch instructions carry a one-byte relative
//! displacement; it renders like a zero-page operand.

use vstd::prelude::*;

use crate::addressing::{operand_width, AddressingMode};
use crate::util::{join_bytes, join_hex};

verus! {

/// An entry of the opcode table.
#[derive(Clone, Copy)]
pub struct OpCode {
    pub code: u8,
    pub mnemonic: &'static str,
    pub len: u8,
    pub mode: AddressingMode,
}

/// Ghost model of an opcode-table entry.
pub struct OpModel {
    pub code: u8,
    pub mnemonic: Seq<char>,
    pub len: u8,
    pub mode: AddressingMode,
}

impl View for OpCode {
    type V = OpModel;

    open spec fn view(&self) -> OpModel {
        OpModel { code: self.code, mnemonic: self.mnemonic@, len: self.len, mode: self.mode }
    }
}

/// The table entry for a byte value: its mnemonic, its instruction
/// length in bytes, and its addressing mode.
pub open spec fn opcode_entry(code: u8) -> (Seq<char>, u8, AddressingMode) {
    match code {
        0x69 => ("adc"@, 2, AddressingMode::Immediate),
        0x65 => ("adc"@, 2, AddressingMode::ZeroPage),
        0x75 => ("adc"@, 2, AddressingMode::ZeroPageX),
        0x6d => ("adc"@, 3, AddressingMode::Absolute),
        0x7d => ("adc"@, 3, AddressingMode::AbsoluteX),
        0x79 => ("adc"@, 3, AddressingMode::AbsoluteY),
        0x61 => ("adc"@, 2, AddressingMode::IndexedIndirect),
        0x71 => ("adc"@, 2, AddressingMode::IndirectIndexed),
        0x29 => ("and"@, 2, AddressingMode::Immediate),
        0x25 => ("and"@, 2, AddressingMode::ZeroPage),
        0x35 => ("and"@, 2, AddressingMode::ZeroPageX),
        0x2d => ("and"@, 3, AddressingMode::Absolute),
        0x3d => ("and"@, 3, AddressingMode::AbsoluteX),
        0x39 => ("and"@, 3, AddressingMode::AbsoluteY),
        0x21 => ("and"@, 2, AddressingMode::IndexedIndirect),
        0x31 => ("and"@, 2, AddressingMode::IndirectIndexed),
        0x0a => ("asl"@, 1, AddressingMode::Implied),
        0x06 => ("asl"@, 2, AddressingMode::ZeroPage),
        0x16 => ("asl"@, 2, AddressingMode::ZeroPageX),
        0x0e => ("asl"@, 3, AddressingMode::Absolute),
        0x1e => ("asl"@, 3, AddressingMode::AbsoluteX),
        0x90 => ("bcc"@, 2, AddressingMode::ZeroPage),
        0xb0 => ("bcs"@, 2, AddressingMode::ZeroPage),
        0xf0 => ("beq"@, 2, AddressingMode::ZeroPage),
        0x24 => ("bit"@, 2, AddressingMode::ZeroPage),
        0x2c => ("bit"@, 3, AddressingMode::Absolute),
        0x30 => ("bmi"@, 2, AddressingMode::ZeroPage),
        0xd0 => ("bne"@, 2, AddressingMode::ZeroPage),
        0x10 => ("bpl"@, 2, AddressingMode::ZeroPage),
        0x00 => ("brk"@, 1, AddressingMode::Implied),
        0x50 => ("bvc"@, 2, AddressingMode::ZeroPage),
        0x70 => ("bvs"@, 2, AddressingMode::ZeroPage),
        0x18 => ("clc"@, 1, AddressingMode::Implied),
        0xd8 => ("cld"@, 1, AddressingMode::Implied),
        0x58 => ("cli"@, 1, AddressingMode::Implied),
        0xb8 => ("clv"@, 1, AddressingMode::Implied),
        0xc9 => ("cmp"@, 2, AddressingMode::Immediate),
        0xc5 => ("cmp"@, 2, AddressingMode::ZeroPage),
        0xd5 => ("cmp"@, 2, AddressingMode::ZeroPageX),
        0xcd => ("cmp"@, 3, AddressingMode::Absolute),
        0xdd => ("cmp"@, 3, AddressingMode::AbsoluteX),
        0xd9 => ("cmp"@, 3, AddressingMode::AbsoluteY),
        0xc1 => ("cmp"@, 2, AddressingMode::IndexedIndirect),
        0xd1 => ("cmp"@, 2, AddressingMode::IndirectIndexed),
        0xe0 => ("cpx"@, 2, AddressingMode::Immediate),
        0xe4 => ("cpx"@, 2, AddressingMode::ZeroPage),
        0xec => ("cpx"@, 3, AddressingMode::Absolute),
        0xc0 => ("cpy"@, 2, AddressingMode::Immediate),
        0xc4 => ("cpy"@, 2, AddressingMode::ZeroPage),
        0xcc => ("cpy"@, 3, AddressingMode::Absolute),
        0xc6 => ("dec"@, 2, AddressingMode::ZeroPage),
        0xd6 => ("dec"@, 2, AddressingMode::ZeroPageX),
        0xce => ("dec"@, 3, AddressingMode::Absolute),
        0xde => ("dec"@, 3, AddressingMode::AbsoluteX),
        0xca => ("dex"@, 1, AddressingMode::Implied),
        0x88 => ("dey"@, 1, AddressingMode::Implied),
        0x49 => ("eor"@, 2, AddressingMode::Immediate),
        0x45 => ("eor"@, 2, AddressingMode::ZeroPage),
        0x55 => ("eor"@, 2, AddressingMode::ZeroPageX),
        0x4d => ("eor"@, 3, AddressingMode::Absolute),
        0x5d => ("eor"@, 3, AddressingMode::AbsoluteX),
        0x59 => ("eor"@, 3, AddressingMode::AbsoluteY),
        0x41 => ("eor"@, 2, AddressingMode::IndexedIndirect),
        0x51 => ("eor"@, 2, AddressingMode::IndirectIndexed),
        0xe6 => ("inc"@, 2, AddressingMode::ZeroPage),
        0xf6 => ("inc"@, 2, AddressingMode::ZeroPageX),
        0xee => ("inc"@, 3, AddressingMode::Absolute),
        0xfe => ("inc"@, 3, AddressingMode::AbsoluteX),
        0xe8 => ("inx"@, 1, AddressingMode::Implied),
        0xc8 => ("iny"@, 1, AddressingMode::Implied),
        0x4c => ("jmp"@, 3, AddressingMode::Absolute),
        0x6c => ("jmp"@, 3, AddressingMode::Indirect),
        0x20 => ("jsr"@, 3, AddressingMode::Absolute),
        0xa9 => ("lda"@, 2, AddressingMode::Immediate),
        0xa5 => ("lda"@, 2, AddressingMode::ZeroPage),
        0xb5 => ("lda"@, 2, AddressingMode::ZeroPageX),
        0xad => ("lda"@, 3, AddressingMode::Absolute),
        0xbd => ("lda"@, 3, AddressingMode::AbsoluteX),
        0xb9 => ("lda"@, 3, AddressingMode::AbsoluteY),
        0xa1 => ("lda"@, 2, AddressingMode::IndexedIndirect),
        0xb1 => ("lda"@, 2, AddressingMode::IndirectIndexed),
        0xa2 => ("ldx"@, 2, AddressingMode::Immediate),
        0xa6 => ("ldx"@, 2, AddressingMode::ZeroPage),
        0xb6 => ("ldx"@, 2, AddressingMode::ZeroPageY),
        0xae => ("ldx"@, 3, AddressingMode::Absolute),
        0xbe => ("ldx"@, 3, AddressingMode::AbsoluteY),
        0xa0 => ("ldy"@, 2, AddressingMode::Immediate),
        0xa4 => ("ldy"@, 2, AddressingMode::ZeroPage),
        0xb4 => ("ldy"@, 2, AddressingMode::ZeroPageX),
        0xac => ("ldy"@, 3, AddressingMode::Absolute),
        0xbc => ("ldy"@, 3, AddressingMode::AbsoluteX),
        0x4a => ("lsr"@, 1, AddressingMode::Implied),
        0x46 => ("lsr"@, 2, AddressingMode::ZeroPage),
        0x56 => ("lsr"@, 2, AddressingMode::ZeroPageX),
        0x4e => ("lsr"@, 3, AddressingMode::Absolute),
        0x5e => ("lsr"@, 3, AddressingMode::AbsoluteX),
        0xea => ("nop"@, 1, AddressingMode::Implied),
        0x09 => ("ora"@, 2, AddressingMode::Immediate),
        0x05 => ("ora"@, 2, AddressingMode::ZeroPage),
        0x15 => ("ora"@, 2, AddressingMode::ZeroPageX),
        0x0d => ("ora"@, 3, AddressingMode::Absolute),
        0x1d => ("ora"@, 3, AddressingMode::AbsoluteX),
        0x19 => ("ora"@, 3, AddressingMode::AbsoluteY),
        0x01 => ("ora"@, 2, AddressingMode::IndexedIndirect),
        0x11 => ("ora"@, 2, AddressingMode::IndirectIndexed),
        0x48 => ("pha"@, 1, AddressingMode::Implied),
        0x08 => ("php"@, 1, AddressingMode::Implied),
        0x68 => ("pla"@, 1, AddressingMode::Implied),
        0x28 => ("plp"@, 1, AddressingMode::Implied),
        0x2a => ("rol"@, 1, AddressingMode::Implied),
        0x26 => ("rol"@, 2, AddressingMode::ZeroPage),
        0x36 => ("rol"@, 2, AddressingMode::ZeroPageX),
        0x2e => ("rol"@, 3, AddressingMode::Absolute),
        0x3e => ("rol"@, 3, AddressingMode::AbsoluteX),
        0x6a => ("ror"@, 1, AddressingMode::Implied),
        0x66 => ("ror"@, 2, AddressingMode::ZeroPage),
        0x76 => ("ror"@, 2, AddressingMode::ZeroPageX),
        0x6e => ("ror"@, 3, AddressingMode::Absolute),
        0x7e => ("ror"@, 3, AddressingMode::AbsoluteX),
        0x40 => ("rti"@, 1, AddressingMode::Implied),
        0x60 => ("rts"@, 1, AddressingMode::Implied),
        0xe9 => ("sbc"@, 2, AddressingMode::Immediate),
        0xe5 => ("sbc"@, 2, AddressingMode::ZeroPage),
        0xf5 => ("sbc"@, 2, AddressingMode::ZeroPageX),
        0xed => ("sbc"@, 3, AddressingMode::Absolute),
        0xfd => ("sbc"@, 3, AddressingMode::AbsoluteX),
        0xf9 => ("sbc"@, 3, AddressingMode::AbsoluteY),
        0xe1 => ("sbc"@, 2, AddressingMode::IndexedIndirect),
        0xf1 => ("sbc"@, 2, AddressingMode::IndirectIndexed),
        0x38 => ("sec"@, 1, AddressingMode::Implied),
        0xf8 => ("sed"@, 1, AddressingMode::Implied),
        0x78 => ("sei"@, 1, AddressingMode::Implied),
        0x85 => ("sta"@, 2, AddressingMode::ZeroPage),
        0x95 => ("sta"@, 2, AddressingMode::ZeroPageX),
        0x8d => ("sta"@, 3, AddressingMode::Absolute),
        0x9d => ("sta"@, 3, AddressingMode::AbsoluteX),
        0x99 => ("sta"@, 3, AddressingMode::AbsoluteY),
        0x81 => ("sta"@, 2, AddressingMode::IndexedIndirect),
        0x91 => ("sta"@, 2, AddressingMode::IndirectIndexed),
        0x86 => ("stx"@, 2, AddressingMode::ZeroPage),
        0x96 => ("stx"@, 2, AddressingMode::ZeroPageY),
        0x8e => ("stx"@, 3, AddressingMode::Absolute),
        0x84 => ("sty"@, 2, AddressingMode::ZeroPage),
        0x94 => ("sty"@, 2, AddressingMode::ZeroPageX),
        0x8c => ("sty"@, 3, AddressingMode::Absolute),
        0xaa => ("tax"@, 1, AddressingMode::Implied),
        0xa8 => ("tay"@, 1, AddressingMode::Implied),
        0xba => ("tsx"@, 1, AddressingMode::Implied),
        0x8a => ("txa"@, 1, AddressingMode::Implied),
        0x9a => ("txs"@, 1, AddressingMode::Implied),
        0x98 => ("tya"@, 1, AddressingMode::Implied),
        0x93 => ("ahx"@, 2, AddressingMode::IndirectIndexed),
        0x9f => ("ahx"@, 3, AddressingMode::AbsoluteY),
        0x4b => ("alr"@, 2, AddressingMode::Immediate),
        0x0b => ("anc"@, 2, AddressingMode::Immediate),
        0x2b => ("anc"@, 2, AddressingMode::Immediate),
        0x6b => ("arr"@, 2, AddressingMode::Immediate),
        0xcb => ("axs"@, 2, AddressingMode::Immediate),
        0xc7 => ("dcp"@, 2, AddressingMode::ZeroPage),
        0xd7 => ("dcp"@, 2, AddressingMode::ZeroPageX),
        0xcf => ("dcp"@, 3, AddressingMode::Absolute),
        0xdf => ("dcp"@, 3, AddressingMode::AbsoluteX),
        0xdb => ("dcp"@, 3, AddressingMode::AbsoluteY),
        0xd3 => ("dcp"@, 2, AddressingMode::IndirectIndexed),
        0xc3 => ("dcp"@, 2, AddressingMode::IndexedIndirect),
        0xe7 => ("isb"@, 2, AddressingMode::ZeroPage),
        0xf7 => ("isb"@, 2, AddressingMode::ZeroPageX),
        0xef => ("isb"@, 3, AddressingMode::Absolute),
        0xff => ("isb"@, 3, AddressingMode::AbsoluteX),
        0xfb => ("isb"@, 3, AddressingMode::AbsoluteY),
        0xe3 => ("isb"@, 2, AddressingMode::IndexedIndirect),
        0xf3 => ("isb"@, 2, AddressingMode::IndirectIndexed),
        0xbb => ("las"@, 3, AddressingMode::AbsoluteY),
        0xa7 => ("lax"@, 2, AddressingMode::ZeroPage),
        0xb7 => ("lax"@, 2, AddressingMode::ZeroPageY),
        0xaf => ("lax"@, 3, AddressingMode::Absolute),
        0xbf => ("lax"@, 3, AddressingMode::AbsoluteY),
        0xa3 => ("lax"@, 2, AddressingMode::IndexedIndirect),
        0xb3 => ("lax"@, 2, AddressingMode::IndirectIndexed),
        0xab => ("lxa"@, 2, AddressingMode::Immediate),
        0x80 => ("hex"@, 2, AddressingMode::Immediate),
        0x82 => ("hex"@, 2, AddressingMode::Immediate),
        0x89 => ("hex"@, 2, AddressingMode::Immediate),
        0xc2 => ("hex"@, 2, AddressingMode::Immediate),
        0xe2 => ("hex"@, 2, AddressingMode::Immediate),
        0x04 => ("hex"@, 2, AddressingMode::ZeroPage),
        0x44 => ("hex"@, 2, AddressingMode::ZeroPage),
        0x64 => ("hex"@, 2, AddressingMode::ZeroPage),
        0x14 => ("hex"@, 2, AddressingMode::ZeroPageX),
        0x34 => ("hex"@, 2, AddressingMode::ZeroPageX),
        0x54 => ("hex"@, 2, AddressingMode::ZeroPageX),
        0x74 => ("hex"@, 2, AddressingMode::ZeroPageX),
        0xd4 => ("hex"@, 2, AddressingMode::ZeroPageX),
        0xf4 => ("hex"@, 2, AddressingMode::ZeroPageX),
        0x0c => ("hex"@, 3, AddressingMode::Absolute),
        0x1c => ("hex"@, 3, AddressingMode::AbsoluteX),
        0x3c => ("hex"@, 3, AddressingMode::AbsoluteX),
        0x5c => ("hex"@, 3, AddressingMode::AbsoluteX),
        0x7c => ("hex"@, 3, AddressingMode::AbsoluteX),
        0xdc => ("hex"@, 3, AddressingMode::AbsoluteX),
        0xfc => ("hex"@, 3, AddressingMode::AbsoluteX),
        0x02 => ("nop"@, 1, AddressingMode::Implied),
        0x12 => ("nop"@, 1, AddressingMode::Implied),
        0x22 => ("nop"@, 1, AddressingMode::Implied),
        0x32 => ("nop"@, 1, AddressingMode::Implied),
        0x42 => ("nop"@, 1, AddressingMode::Implied),
        0x52 => ("nop"@, 1, AddressingMode::Implied),
        0x62 => ("nop"@, 1, AddressingMode::Implied),
        0x72 => ("nop"@, 1, AddressingMode::Implied),
        0x92 => ("nop"@, 1, AddressingMode::Implied),
        0xb2 => ("nop"@, 1, AddressingMode::Implied),
        0xd2 => ("nop"@, 1, AddressingMode::Implied),
        0xf2 => ("nop"@, 1, AddressingMode::Implied),
        0x1a => ("nop"@, 1, AddressingMode::Implied),
        0x3a => ("nop"@, 1, AddressingMode::Implied),
        0x5a => ("nop"@, 1, AddressingMode::Implied),
        0x7a => ("nop"@, 1, AddressingMode::Implied),
        0xda => ("nop"@, 1, AddressingMode::Implied),
        0xfa => ("nop"@, 1, AddressingMode::Implied),
        0x27 => ("rla"@, 2, AddressingMode::ZeroPage),
        0x37 => ("rla"@, 2, AddressingMode::ZeroPageX),
        0x2f => ("rla"@, 3, AddressingMode::Absolute),
        0x3f => ("rla"@, 3, AddressingMode::AbsoluteX),
        0x3b => ("rla"@, 3, AddressingMode::AbsoluteY),
        0x33 => ("rla"@, 2, AddressingMode::IndirectIndexed),
        0x23 => ("rla"@, 2, AddressingMode::IndexedIndirect),
        0x67 => ("rra"@, 2, AddressingMode::ZeroPage),
        0x77 => ("rra"@, 2, AddressingMode::ZeroPageX),
        0x6f => ("rra"@, 3, AddressingMode::Absolute),
        0x7f => ("rra"@, 3, AddressingMode::AbsoluteX),
        0x7b => ("rra"@, 3, AddressingMode::AbsoluteY),
        0x63 => ("rra"@, 2, AddressingMode::IndexedIndirect),
        0x73 => ("rra"@, 2, AddressingMode::IndirectIndexed),
        0x87 => ("sax"@, 2, AddressingMode::ZeroPage),
        0x97 => ("sax"@, 2, AddressingMode::ZeroPageY),
        0x8f => ("sax"@, 3, AddressingMode::Absolute),
        0x83 => ("sax"@, 2, AddressingMode::IndexedIndirect),
        0xeb => ("sbc"@, 2, AddressingMode::Immediate),
        0x9e => ("shx"@, 3, AddressingMode::AbsoluteY),
        0x9c => ("shy"@, 3, AddressingMode::AbsoluteX),
        0x07 => ("slo"@, 2, AddressingMode::ZeroPage),
        0x17 => ("slo"@, 2, AddressingMode::ZeroPageX),
        0x0f => ("slo"@, 3, AddressingMode::Absolute),
        0x1f => ("slo"@, 3, AddressingMode::AbsoluteX),
        0x1b => ("slo"@, 3, AddressingMode::AbsoluteY),
        0x03 => ("slo"@, 2, AddressingMode::IndexedIndirect),
        0x13 => ("slo"@, 2, AddressingMode::IndirectIndexed),
        0x47 => ("sre"@, 2, AddressingMode::ZeroPage),
        0x57 => ("sre"@, 2, AddressingMode::ZeroPageX),
        0x4f => ("sre"@, 3, AddressingMode::Absolute),
        0x5f => ("sre"@, 3, AddressingMode::AbsoluteX),
        0x5b => ("sre"@, 3, AddressingMode::AbsoluteY),
        0x43 => ("sre"@, 2, AddressingMode::IndexedIndirect),
        0x53 => ("sre"@, 2, AddressingMode::IndirectIndexed),
        0x9b => ("tas"@, 3, AddressingMode::AbsoluteY),
        0x8b => ("xaa"@, 2, AddressingMode::Immediate),
    }
}

/// The mnemonic of an opcode.
pub open spec fn opcode_mnemonic(code: u8) -> Seq<char> {
    opcode_entry(code).0
}

/// The instruction length of an opcode, operand included.
pub open spec fn opcode_len(code: u8) -> u8 {
    opcode_entry(code).1
}

/// The addressing mode of an opcode.
pub open spec fn opcode_mode(code: u8) -> AddressingMode {
    opcode_entry(code).2
}

/// The full table entry of an opcode as a ghost record.
pub open spec fn opcode_model(code: u8) -> OpModel {
    OpModel {
        code,
        mnemonic: opcode_mnemonic(code),
        len: opcode_len(code),
        mode: opcode_mode(code),
    }
}

/// The table is internally consistent: every entry's length is the
/// opcode byte plus exactly the operand width its addressing mode
/// carries, so lengths run from one to three bytes and the implied
/// mode is exactly the one-byte case.
pub proof fn lemma_opcode_entry_bounds()
    ensures
        forall|c: u8| #[trigger] opcode_len(c) == 1 + operand_width(opcode_mode(c)),
        forall|c: u8| 1 <= #[trigger] opcode_len(c) <= 3,
        forall|c: u8| opcode_mode(c) == AddressingMode::Implied <==> #[trigger] opcode_len(c) == 1,
{
}

/// Every mnemonic of the table is three characters long.
pub proof fn lemma_opcode_mnemonic_len()
    ensures
        forall|c: u8| #[trigger] opcode_mnemonic(c).len() == 3,
{
    assert forall|c: u8| #[trigger] opcode_mnemonic(c).len() == 3 by {
        reveal_strlit("adc");
        reveal_strlit("and");
        reveal_strlit("asl");
        reveal_strlit("bcc");
        reveal_strlit("bcs");
        reveal_strlit("beq");
        reveal_strlit("bit");
        reveal_strlit("bmi");
        reveal_strlit("bne");
        reveal_strlit("bpl");
        reveal_strlit("brk");
        reveal_strlit("bvc");
        reveal_strlit("bvs");
        reveal_strlit("clc");
        reveal_strlit("cld");
        reveal_strlit("cli");
        reveal_strlit("clv");
        reveal_strlit("cmp");
        reveal_strlit("cpx");
        reveal_strlit("cpy");
        reveal_strlit("dec");
        reveal_strlit("dex");
        reveal_strlit("dey");
        reveal_strlit("eor");
        reveal_strlit("inc");
        reveal_strlit("inx");
        reveal_strlit("iny");
        reveal_strlit("jmp");
        reveal_strlit("jsr");
        reveal_strlit("lda");
        reveal_strlit("ldx");
        reveal_strlit("ldy");
        reveal_strlit("lsr");
        reveal_strlit("hex");
        reveal_strlit("ora");
        reveal_strlit("pha");
        reveal_strlit("php");
        reveal_strlit("pla");
        reveal_strlit("plp");
        reveal_strlit("rol");
        reveal_strlit("ror");
        reveal_strlit("rti");
        reveal_strlit("rts");
        reveal_strlit("sbc");
        reveal_strlit("sec");
        reveal_strlit("sed");
        reveal_strlit("sei");
        reveal_strlit("sta");
        reveal_strlit("stx");
        reveal_strlit("sty");
        reveal_strlit("tax");
        reveal_strlit("tay");
        reveal_strlit("tsx");
        reveal_strlit("txa");
        reveal_strlit("txs");
        reveal_strlit("tya");
        reveal_strlit("ahx");
        reveal_strlit("alr");
        reveal_strlit("anc");
        reveal_strlit("arr");
        reveal_strlit("axs");
        reveal_strlit("dcp");
        reveal_strlit("isb");
        reveal_strlit("las");
        reveal_strlit("lax");
        reveal_strlit("lxa");
        reveal_strlit("nop");
        reveal_strlit("rla");
        reveal_strlit("rra");
        reveal_strlit("sax");
        reveal_strlit("shx");
        reveal_strlit("shy");
        reveal_strlit("slo");
        reveal_strlit("sre");
        reveal_strlit("tas");
        reveal_strlit("xaa");
    }
}

impl OpCode {
    fn new(code: u8, mnemonic: &'static str, len: u8, mode: AddressingMode) -> (r: Self)
        ensures
            r.code == code,
            r.mnemonic == mnemonic,
            r.len == len,
            r.mode == mode,
    {
        Self { code, mnemonic, len, mode }
    }

    /// The operand bytes as hexadecimal digit pairs, run together.
    pub fn arg_to_string(arg_bytes: &[u8]) -> (r: String)
        ensures
            r@ == join_hex(arg_bytes@, Seq::empty()),
    {
        proof {
            reveal_strlit("");
            assert(""@ =~= Seq::<char>::empty());
        }
        join_bytes(arg_bytes, "")
    }
}

/// Look a byte value up in the opcode table. The table is total: every
/// byte value resolves to an entry.
pub fn get_nes_opcode(code: &u8) -> (r: Option<OpCode>)
    ensures
        r matches Some(op) && op.code == *code && op.mnemonic@ == opcode_mnemonic(*code)
            && op.len == opcode_len(*code) && op.mode == opcode_mode(*code),
{
    let ret = match *code {
        0x69 => ("adc", 2, AddressingMode::Immediate),
        0x65 => ("adc", 2, AddressingMode::ZeroPage),
        0x75 => ("adc", 2, AddressingMode::ZeroPageX),
        0x6d => ("adc", 3, AddressingMode::Absolute),
        0x7d => ("adc", 3, AddressingMode::AbsoluteX),
        0x79 => ("adc", 3, AddressingMode::AbsoluteY),
        0x61 => ("adc", 2, AddressingMode::IndexedIndirect),
        0x71 => ("adc", 2, AddressingMode::IndirectIndexed),
        0x29 => ("and", 2, AddressingMode::Immediate),
        0x25 => ("and", 2, AddressingMode::ZeroPage),
        0x35 => ("and", 2, AddressingMode::ZeroPageX),
        0x2d => ("and", 3, AddressingMode::Absolute),
        0x3d => ("and", 3, AddressingMode::AbsoluteX),
        0x39 => ("and", 3, AddressingMode::AbsoluteY),
        0x21 => ("and", 2, AddressingMode::IndexedIndirect),
        0x31 => ("and", 2, AddressingMode::IndirectIndexed),
        0x0a => ("asl", 1, AddressingMode::Implied),
        0x06 => ("asl", 2, AddressingMode::ZeroPage),
        0x16 => ("asl", 2, AddressingMode::ZeroPageX),
        0x0e => ("asl", 3, AddressingMode::Absolute),
        0x1e => ("asl", 3, AddressingMode::AbsoluteX),
        0x90 => ("bcc", 2, AddressingMode::ZeroPage),
        0xb0 => ("bcs", 2, AddressingMode::ZeroPage),
        0xf0 => ("beq", 2, AddressingMode::ZeroPage),
        0x24 => ("bit", 2, AddressingMode::ZeroPage),
        0x2c => ("bit", 3, AddressingMode::Absolute),
        0x30 => ("bmi", 2, AddressingMode::ZeroPage),
        0xd0 => ("bne", 2, AddressingMode::ZeroPage),
        0x10 => ("bpl", 2, AddressingMode::ZeroPage),
        0x00 => ("brk", 1, AddressingMode::Implied),
        0x50 => ("bvc", 2, AddressingMode::ZeroPage),
        0x70 => ("bvs", 2, AddressingMode::ZeroPage),
        0x18 => ("clc", 1, AddressingMode::Implied),
        0xd8 => ("cld", 1, AddressingMode::Implied),
        0x58 => ("cli", 1, AddressingMode::Implied),
        0xb8 => ("clv", 1, AddressingMode::Implied),
        0xc9 => ("cmp", 2, AddressingMode::Immediate),
        0xc5 => ("cmp", 2, AddressingMode::ZeroPage),
        0xd5 => ("cmp", 2, AddressingMode::ZeroPageX),
        0xcd => ("cmp", 3, AddressingMode::Absolute),
        0xdd => ("cmp", 3, AddressingMode::AbsoluteX),
        0xd9 => ("cmp", 3, AddressingMode::AbsoluteY),
        0xc1 => ("cmp", 2, AddressingMode::IndexedIndirect),
        0xd1 => ("cmp", 2, AddressingMode::IndirectIndexed),
        0xe0 => ("cpx", 2, AddressingMode::Immediate),
        0xe4 => ("cpx", 2, AddressingMode::ZeroPage),
        0xec => ("cpx", 3, AddressingMode::Absolute),
        0xc0 => ("cpy", 2, AddressingMode::Immediate),
        0xc4 => ("cpy", 2, AddressingMode::ZeroPage),
        0xcc => ("cpy", 3, AddressingMode::Absolute),
        0xc6 => ("dec", 2, AddressingMode::ZeroPage),
        0xd6 => ("dec", 2, AddressingMode::ZeroPageX),
        0xce => ("dec", 3, AddressingMode::Absolute),
        0xde => ("dec", 3, AddressingMode::AbsoluteX),
        0xca => ("dex", 1, AddressingMode::Implied),
        0x88 => ("dey", 1, AddressingMode::Implied),
        0x49 => ("eor", 2, AddressingMode::Immediate),
        0x45 => ("eor", 2, AddressingMode::ZeroPage),
        0x55 => ("eor", 2, AddressingMode::ZeroPageX),
        0x4d => ("eor", 3, AddressingMode::Absolute),
        0x5d => ("eor", 3, AddressingMode::AbsoluteX),
        0x59 => ("eor", 3, AddressingMode::AbsoluteY),
        0x41 => ("eor", 2, AddressingMode::IndexedIndirect),
        0x51 => ("eor", 2, AddressingMode::IndirectIndexed),
        0xe6 => ("inc", 2, AddressingMode::ZeroPage),
        0xf6 => ("inc", 2, AddressingMode::ZeroPageX),
        0xee => ("inc", 3, AddressingMode::Absolute),
        0xfe => ("inc", 3, AddressingMode::AbsoluteX),
        0xe8 => ("inx", 1, AddressingMode::Implied),
        0xc8 => ("iny", 1, AddressingMode::Implied),
        0x4c => ("jmp", 3, AddressingMode::Absolute),
        0x6c => ("jmp", 3, AddressingMode::Indirect),
        0x20 => ("jsr", 3, AddressingMode::Absolute),
        0xa9 => ("lda", 2, AddressingMode::Immediate),
        0xa5 => ("lda", 2, AddressingMode::ZeroPage),
        0xb5 => ("lda", 2, AddressingMode::ZeroPageX),
        0xad => ("lda", 3, AddressingMode::Absolute),
        0xbd => ("lda", 3, AddressingMode::AbsoluteX),
        0xb9 => ("lda", 3, AddressingMode::AbsoluteY),
        0xa1 => ("lda", 2, AddressingMode::IndexedIndirect),
        0xb1 => ("lda", 2, AddressingMode::IndirectIndexed),
        0xa2 => ("ldx", 2, AddressingMode::Immediate),
        0xa6 => ("ldx", 2, AddressingMode::ZeroPage),
        0xb6 => ("ldx", 2, AddressingMode::ZeroPageY),
        0xae => ("ldx", 3, AddressingMode::Absolute),
        0xbe => ("ldx", 3, AddressingMode::AbsoluteY),
        0xa0 => ("ldy", 2, AddressingMode::Immediate),
        0xa4 => ("ldy", 2, AddressingMode::ZeroPage),
        0xb4 => ("ldy", 2, AddressingMode::ZeroPageX),
        0xac => ("ldy", 3, AddressingMode::Absolute),
        0xbc => ("ldy", 3, AddressingMode::AbsoluteX),
        0x4a => ("lsr", 1, AddressingMode::Implied),
        0x46 => ("lsr", 2, AddressingMode::ZeroPage),
        0x56 => ("lsr", 2, AddressingMode::ZeroPageX),
        0x4e => ("lsr", 3, AddressingMode::Absolute),
        0x5e => ("lsr", 3, AddressingMode::AbsoluteX),
        0xea => ("nop", 1, AddressingMode::Implied),
        0x09 => ("ora", 2, AddressingMode::Immediate),
        0x05 => ("ora", 2, AddressingMode::ZeroPage),
        0x15 => ("ora", 2, AddressingMode::ZeroPageX),
        0x0d => ("ora", 3, AddressingMode::Absolute),
        0x1d => ("ora", 3, AddressingMode::AbsoluteX),
        0x19 => ("ora", 3, AddressingMode::AbsoluteY),
        0x01 => ("ora", 2, AddressingMode::IndexedIndirect),
        0x11 => ("ora", 2, AddressingMode::IndirectIndexed),
        0x48 => ("pha", 1, AddressingMode::Implied),
        0x08 => ("php", 1, AddressingMode::Implied),
        0x68 => ("pla", 1, AddressingMode::Implied),
        0x28 => ("plp", 1, AddressingMode::Implied),
        0x2a => ("rol", 1, AddressingMode::Implied),
        0x26 => ("rol", 2, AddressingMode::ZeroPage),
        0x36 => ("rol", 2, AddressingMode::ZeroPageX),
        0x2e => ("rol", 3, AddressingMode::Absolute),
        0x3e => ("rol", 3, AddressingMode::AbsoluteX),
        0x6a => ("ror", 1, AddressingMode::Implied),
        0x66 => ("ror", 2, AddressingMode::ZeroPage),
        0x76 => ("ror", 2, AddressingMode::ZeroPageX),
        0x6e => ("ror", 3, AddressingMode::Absolute),
        0x7e => ("ror", 3, AddressingMode::AbsoluteX),
        0x40 => ("rti", 1, AddressingMode::Implied),
        0x60 => ("rts", 1, AddressingMode::Implied),
        0xe9 => ("sbc", 2, AddressingMode::Immediate),
        0xe5 => ("sbc", 2, AddressingMode::ZeroPage),
        0xf5 => ("sbc", 2, AddressingMode::ZeroPageX),
        0xed => ("sbc", 3, AddressingMode::Absolute),
        0xfd => ("sbc", 3, AddressingMode::AbsoluteX),
        0xf9 => ("sbc", 3, AddressingMode::AbsoluteY),
        0xe1 => ("sbc", 2, AddressingMode::IndexedIndirect),
        0xf1 => ("sbc", 2, AddressingMode::IndirectIndexed),
        0x38 => ("sec", 1, AddressingMode::Implied),
        0xf8 => ("sed", 1, AddressingMode::Implied),
        0x78 => ("sei", 1, AddressingMode::Implied),
        0x85 => ("sta", 2, AddressingMode::ZeroPage),
        0x95 => ("sta", 2, AddressingMode::ZeroPageX),
        0x8d => ("sta", 3, AddressingMode::Absolute),
        0x9d => ("sta", 3, AddressingMode::AbsoluteX),
        0x99 => ("sta", 3, AddressingMode::AbsoluteY),
        0x81 => ("sta", 2, AddressingMode::IndexedIndirect),
        0x91 => ("sta", 2, AddressingMode::IndirectIndexed),
        0x86 => ("stx", 2, AddressingMode::ZeroPage),
        0x96 => ("stx", 2, AddressingMode::ZeroPageY),
        0x8e => ("stx", 3, AddressingMode::Absolute),
        0x84 => ("sty", 2, AddressingMode::ZeroPage),
        0x94 => ("sty", 2, AddressingMode::ZeroPageX),
        0x8c => ("sty", 3, AddressingMode::Absolute),
        0xaa => ("tax", 1, AddressingMode::Implied),
        0xa8 => ("tay", 1, AddressingMode::Implied),
        0xba => ("tsx", 1, AddressingMode::Implied),
        0x8a => ("txa", 1, AddressingMode::Implied),
        0x9a => ("txs", 1, AddressingMode::Implied),
        0x98 => ("tya", 1, AddressingMode::Implied),
        0x93 => ("ahx", 2, AddressingMode::IndirectIndexed),
        0x9f => ("ahx", 3, AddressingMode::AbsoluteY),
        0x4b => ("alr", 2, AddressingMode::Immediate),
        0x0b => ("anc", 2, AddressingMode::Immediate),
        0x2b => ("anc", 2, AddressingMode::Immediate),
        0x6b => ("arr", 2, AddressingMode::Immediate),
        0xcb => ("axs", 2, AddressingMode::Immediate),
        0xc7 => ("dcp", 2, AddressingMode::ZeroPage),
        0xd7 => ("dcp", 2, AddressingMode::ZeroPageX),
        0xcf => ("dcp", 3, AddressingMode::Absolute),
        0xdf => ("dcp", 3, AddressingMode::AbsoluteX),
        0xdb => ("dcp", 3, AddressingMode::AbsoluteY),
        0xd3 => ("dcp", 2, AddressingMode::IndirectIndexed),
        0xc3 => ("dcp", 2, AddressingMode::IndexedIndirect),
        0xe7 => ("isb", 2, AddressingMode::ZeroPage),
        0xf7 => ("isb", 2, AddressingMode::ZeroPageX),
        0xef => ("isb", 3, AddressingMode::Absolute),
        0xff => ("isb", 3, AddressingMode::AbsoluteX),
        0xfb => ("isb", 3, AddressingMode::AbsoluteY),
        0xe3 => ("isb", 2, AddressingMode::IndexedIndirect),
        0xf3 => ("isb", 2, AddressingMode::IndirectIndexed),
        0xbb => ("las", 3, AddressingMode::AbsoluteY),
        0xa7 => ("lax", 2, AddressingMode::ZeroPage),
        0xb7 => ("lax", 2, AddressingMode::ZeroPageY),
        0xaf => ("lax", 3, AddressingMode::Absolute),
        0xbf => ("lax", 3, AddressingMode::AbsoluteY),
        0xa3 => ("lax", 2, AddressingMode::IndexedIndirect),
        0xb3 => ("lax", 2, AddressingMode::IndirectIndexed),
        0xab => ("lxa", 2, AddressingMode::Immediate),
        0x80 => ("hex", 2, AddressingMode::Immediate),
        0x82 => ("hex", 2, AddressingMode::Immediate),
        0x89 => ("hex", 2, AddressingMode::Immediate),
        0xc2 => ("hex", 2, AddressingMode::Immediate),
        0xe2 => ("hex", 2, AddressingMode::Immediate),
        0x04 => ("hex", 2, AddressingMode::ZeroPage),
        0x44 => ("hex", 2, AddressingMode::ZeroPage),
        0x64 => ("hex", 2, AddressingMode::ZeroPage),
        0x14 => ("hex", 2, AddressingMode::ZeroPageX),
        0x34 => ("hex", 2, AddressingMode::ZeroPageX),
        0x54 => ("hex", 2, AddressingMode::ZeroPageX),
        0x74 => ("hex", 2, AddressingMode::ZeroPageX),
        0xd4 => ("hex", 2, AddressingMode::ZeroPageX),
        0xf4 => ("hex", 2, AddressingMode::ZeroPageX),
        0x0c => ("hex", 3, AddressingMode::Absolute),
        0x1c => ("hex", 3, AddressingMode::AbsoluteX),
        0x3c => ("hex", 3, AddressingMode::AbsoluteX),
        0x5c => ("hex", 3, AddressingMode::AbsoluteX),
        0x7c => ("hex", 3, AddressingMode::AbsoluteX),
        0xdc => ("hex", 3, AddressingMode::AbsoluteX),
        0xfc => ("hex", 3, AddressingMode::AbsoluteX),
        0x02 => ("nop", 1, AddressingMode::Implied),
        0x12 => ("nop", 1, AddressingMode::Implied),
        0x22 => ("nop", 1, AddressingMode::Implied),
        0x32 => ("nop", 1, AddressingMode::Implied),
        0x42 => ("nop", 1, AddressingMode::Implied),
        0x52 => ("nop", 1, AddressingMode::Implied),
        0x62 => ("nop", 1, AddressingMode::Implied),
        0x72 => ("nop", 1, AddressingMode::Implied),
        0x92 => ("nop", 1, AddressingMode::Implied),
        0xb2 => ("nop", 1, AddressingMode::Implied),
        0xd2 => ("nop", 1, AddressingMode::Implied),
        0xf2 => ("nop", 1, AddressingMode::Implied),
        0x1a => ("nop", 1, AddressingMode::Implied),
        0x3a => ("nop", 1, AddressingMode::Implied),
        0x5a => ("nop", 1, AddressingMode::Implied),
        0x7a => ("nop", 1, AddressingMode::Implied),
        0xda => ("nop", 1, AddressingMode::Implied),
        0xfa => ("nop", 1, AddressingMode::Implied),
        0x27 => ("rla", 2, AddressingMode::ZeroPage),
        0x37 => ("rla", 2, AddressingMode::ZeroPageX),
        0x2f => ("rla", 3, AddressingMode::Absolute),
        0x3f => ("rla", 3, AddressingMode::AbsoluteX),
        0x3b => ("rla", 3, AddressingMode::AbsoluteY),
        0x33 => ("rla", 2, AddressingMode::IndirectIndexed),
        0x23 => ("rla", 2, AddressingMode::IndexedIndirect),
        0x67 => ("rra", 2, AddressingMode::ZeroPage),
        0x77 => ("rra", 2, AddressingMode::ZeroPageX),
        0x6f => ("rra", 3, AddressingMode::Absolute),
        0x7f => ("rra", 3, AddressingMode::AbsoluteX),
        0x7b => ("rra", 3, AddressingMode::AbsoluteY),
        0x63 => ("rra", 2, AddressingMode::IndexedIndirect),
        0x73 => ("rra", 2, AddressingMode::IndirectIndexed),
        0x87 => ("sax", 2, AddressingMode::ZeroPage),
        0x97 => ("sax", 2, AddressingMode::ZeroPageY),
        0x8f => ("sax", 3, AddressingMode::Absolute),
        0x83 => ("sax", 2, AddressingMode::IndexedIndirect),
        0xeb => ("sbc", 2, AddressingMode::Immediate),
        0x9e => ("shx", 3, AddressingMode::AbsoluteY),
        0x9c => ("shy", 3, AddressingMode::AbsoluteX),
        0x07 => ("slo", 2, AddressingMode::ZeroPage),
        0x17 => ("slo", 2, AddressingMode::ZeroPageX),
        0x0f => ("slo", 3, AddressingMode::Absolute),
        0x1f => ("slo", 3, AddressingMode::AbsoluteX),
        0x1b => ("slo", 3, AddressingMode::AbsoluteY),
        0x03 => ("slo", 2, AddressingMode::IndexedIndirect),
        0x13 => ("slo", 2, AddressingMode::IndirectIndexed),
        0x47 => ("sre", 2, AddressingMode::ZeroPage),
        0x57 => ("sre", 2, AddressingMode::ZeroPageX),
        0x4f => ("sre", 3, AddressingMode::Absolute),
        0x5f => ("sre", 3, AddressingMode::AbsoluteX),
        0x5b => ("sre", 3, AddressingMode::AbsoluteY),
        0x43 => ("sre", 2, AddressingMode::IndexedIndirect),
        0x53 => ("sre", 2, AddressingMode::IndirectIndexed),
        0x9b => ("tas", 3, AddressingMode::AbsoluteY),
        0x8b => ("xaa", 2, AddressingMode::Immediate),
    };

    let (mnemonic, len, mode) = ret;
    let opcode = OpCode::new(*code, mnemonic, len, mode);

    Some(opcode)
}

} // verus!
