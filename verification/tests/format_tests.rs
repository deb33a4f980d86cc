use nes_utils::addressing::AddressingMode;
use nes_utils::error::NesError;
use nes_utils::opcode::{get_nes_opcode, OpCode};
use nes_utils::registers::get_mapped_register;
use nes_utils::util::{byte_to_hex, join_bytes, path_to_name, u16_from_mem, unwrap_str,
    usize_to_string, vec_bytes_to_string, word_to_hex};

#[test]
fn raw_operand_templates() {
    assert_eq!(AddressingMode::Absolute.fmt_arg("1234"), "$1234");
    assert_eq!(AddressingMode::AbsoluteX.fmt_arg("1234"), "$1234, x");
    assert_eq!(AddressingMode::AbsoluteY.fmt_arg("1234"), "$1234, y");
    assert_eq!(AddressingMode::Immediate.fmt_arg("10"), "#$10");
    assert_eq!(AddressingMode::IndexedIndirect.fmt_arg("40"), "($40, x)");
    assert_eq!(AddressingMode::Indirect.fmt_arg("1234"), "$1234");
    assert_eq!(AddressingMode::IndirectIndexed.fmt_arg("40"), "($40), y");
    assert_eq!(AddressingMode::ZeroPage.fmt_arg("40"), "$40");
    assert_eq!(AddressingMode::ZeroPageX.fmt_arg("40"), "$40, x");
    assert_eq!(AddressingMode::ZeroPageY.fmt_arg("40"), "$40, y");
    assert_eq!(AddressingMode::Implied.fmt_arg("ignored"), "");
}

#[test]
fn symbol_operand_templates_drop_the_sigils() {
    assert_eq!(AddressingMode::Absolute.fmt_arg_with_reg("PPUCTRL"), "PPUCTRL");
    assert_eq!(AddressingMode::AbsoluteX.fmt_arg_with_reg("PPUCTRL"), "PPUCTRL, x");
    assert_eq!(AddressingMode::AbsoluteY.fmt_arg_with_reg("PPUCTRL"), "PPUCTRL, y");
    assert_eq!(AddressingMode::Immediate.fmt_arg_with_reg("PPUCTRL"), "PPUCTRL");
    assert_eq!(AddressingMode::IndexedIndirect.fmt_arg_with_reg("PPUCTRL"), "(PPUCTRL, x)");
    assert_eq!(AddressingMode::IndirectIndexed.fmt_arg_with_reg("PPUCTRL"), "(PPUCTRL), y");
    assert_eq!(AddressingMode::Implied.fmt_arg_with_reg("PPUCTRL"), "");
}

#[test]
fn opcode_table_is_total() {
    for code in 0..=255u8 {
        let op = get_nes_opcode(&code).unwrap();
        assert_eq!(op.code, code);
        assert!(1 <= op.len && op.len <= 3);
        assert_eq!(op.mnemonic.len(), 3);
        // the length is the opcode byte plus the mode's operand width
        let width = match op.mode {
            AddressingMode::Implied => 0,
            AddressingMode::Immediate
            | AddressingMode::ZeroPage
            | AddressingMode::ZeroPageX
            | AddressingMode::ZeroPageY
            | AddressingMode::IndexedIndirect
            | AddressingMode::IndirectIndexed => 1,
            AddressingMode::Absolute
            | AddressingMode::AbsoluteX
            | AddressingMode::AbsoluteY
            | AddressingMode::Indirect => 2,
        };
        assert_eq!(op.len, 1 + width);
    }
}

#[test]
fn opcode_table_entries() {
    let lda_imm = get_nes_opcode(&0xa9).unwrap();
    assert_eq!(lda_imm.mnemonic, "lda");
    assert_eq!(lda_imm.len, 2);
    assert_eq!(lda_imm.mode, AddressingMode::Immediate);

    let lda_abs = get_nes_opcode(&0xad).unwrap();
    assert_eq!(lda_abs.mnemonic, "lda");
    assert_eq!(lda_abs.len, 3);
    assert_eq!(lda_abs.mode, AddressingMode::Absolute);

    let brk = get_nes_opcode(&0x00).unwrap();
    assert_eq!(brk.mnemonic, "brk");
    assert_eq!(brk.len, 1);
    assert_eq!(brk.mode, AddressingMode::Implied);

    let jmp_ind = get_nes_opcode(&0x6c).unwrap();
    assert_eq!(jmp_ind.mnemonic, "jmp");
    assert_eq!(jmp_ind.mode, AddressingMode::Indirect);

    // branches take a one-byte relative operand
    for code in [0x90u8, 0xb0, 0xf0, 0x30, 0xd0, 0x10, 0x50, 0x70] {
        let b = get_nes_opcode(&code).unwrap();
        assert_eq!(b.len, 2);
        assert_eq!(b.mode, AddressingMode::ZeroPage);
    }

    // the documented no-operation is a single byte
    let nop = get_nes_opcode(&0xea).unwrap();
    assert_eq!(nop.mnemonic, "nop");
    assert_eq!(nop.len, 1);
    assert_eq!(nop.mode, AddressingMode::Implied);

    // an undocumented opcode resolves too
    let lax = get_nes_opcode(&0xa7).unwrap();
    assert_eq!(lax.mnemonic, "lax");
}

#[test]
fn mapped_registers_resolve_by_address() {
    assert_eq!(get_mapped_register(0x2000), Some(String::from("PPUCTRL")));
    assert_eq!(get_mapped_register(0x2002), Some(String::from("PPUSTATUS")));
    assert_eq!(get_mapped_register(0x4014), Some(String::from("OAMDMA")));
    assert_eq!(get_mapped_register(0x4017), Some(String::from("JOY2")));
    assert_eq!(get_mapped_register(0x1234), None);
    assert_eq!(get_mapped_register(0x2008), None);
}

#[test]
fn little_endian_reversal() {
    assert_eq!(u16_from_mem(0x00, 0x20), 0x2000);
    assert_eq!(u16_from_mem(0x34, 0x12), 0x1234);
    assert_eq!(u16_from_mem(0xff, 0x00), 0x00ff);
    assert_eq!(u16_from_mem(0x00, 0x00), 0x0000);
}

#[test]
fn hex_rendering() {
    assert_eq!(byte_to_hex(0x00), "00");
    assert_eq!(byte_to_hex(0x0f), "0f");
    assert_eq!(byte_to_hex(0xff), "ff");
    assert_eq!(word_to_hex(0x2000), "2000");
    assert_eq!(word_to_hex(0x0005), "05");
    assert_eq!(word_to_hex(0x0123), "123");
    assert_eq!(word_to_hex(0xffff), "ffff");
    assert_eq!(usize_to_string(0), "0");
    assert_eq!(usize_to_string(7), "7");
    assert_eq!(usize_to_string(12034), "12034");
}

#[test]
fn byte_joins() {
    assert_eq!(join_bytes(&[0xa9, 0x10], " "), "a9 10");
    assert_eq!(join_bytes(&[0xa9], " "), "a9");
    assert_eq!(join_bytes(&[], " "), "");
    assert_eq!(join_bytes(&[0x01, 0x02, 0x03], "-"), "01-02-03");
    assert_eq!(vec_bytes_to_string(&vec![0xde, 0xad]), "de ad");
    assert_eq!(OpCode::arg_to_string(&[0x20, 0x00]), "2000");
    assert_eq!(OpCode::arg_to_string(&[]), "");
}

#[test]
fn optional_strings_wrap() {
    assert_eq!(unwrap_str(&Some(String::from("main")), "", ":\n"), "main:\n");
    assert_eq!(unwrap_str(&None, "", ":\n"), "");
    assert_eq!(unwrap_str(&Some(String::from("x")), "<", ">"), "<x>");
}

#[test]
fn path_stems() {
    assert_eq!(path_to_name("games/game.nes"), "game");
    assert_eq!(path_to_name("a/b/c.d.e"), "c");
    assert_eq!(path_to_name("noext"), "noext");
    assert_eq!(path_to_name(".hidden"), "");
    assert_eq!(path_to_name("dir.with.dots/file"), "file");
}

#[test]
fn error_messages() {
    assert_eq!(NesError::CLIArguments.message(), "Invalid CLI arguments");
    assert_eq!(NesError::FileNotFound.message(), "File not found");
    assert_eq!(NesError::FileInvalid.message(), "Invalid file");
    assert_eq!(NesError::WrongNesFormat.message(), "Invalid NES format");
    assert_eq!(NesError::HeaderNotParsed.message(), "The NES header has not been parsed");
    assert_eq!(NesError::NotImplementedOpcode.message(), "Not implemented operation code");
    assert_eq!(NesError::MissingChr.message(), "This program doesn't have a CHR ROM");
}
