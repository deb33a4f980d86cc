use nes_utils::disassembler::NesDisassembler;
use nes_utils::error::NesError;
use nes_utils::line::Line;
use nes_utils::opcode::get_nes_opcode;

const PRG_UNIT: usize = 16384;
const CHR_UNIT: usize = 8192;

/// A syntactically valid image: header, optional trainer, program
/// bytes padded to whole units with one-byte instructions, graphics
/// bytes as a running counter.
fn make_image(prg: &[u8], prg_units: u8, chr_units: u8, flags6: u8) -> Vec<u8> {
    let mut mem = vec![
        0x4e, 0x45, 0x53, 0x1a, prg_units, chr_units, flags6, 0x00, 0x00, 0x00, 0x00, 0x00, 0x00,
        0x00, 0x00, 0x00,
    ];
    if flags6 & 0b0000_0100 != 0 {
        mem.extend(std::iter::repeat(0x55).take(512));
    }
    assert!(prg.len() <= prg_units as usize * PRG_UNIT);
    mem.extend_from_slice(prg);
    // 0x0a is a one-byte instruction (asl)
    mem.extend(std::iter::repeat(0x0a).take(prg_units as usize * PRG_UNIT - prg.len()));
    for i in 0..chr_units as usize * CHR_UNIT {
        mem.push((i % 256) as u8);
    }
    mem
}

fn run_pipeline(mem: &Vec<u8>) -> String {
    let path = String::from("games/game.nes");
    let mut d = NesDisassembler::new(&path, mem);
    d.run().unwrap();
    d.fmt_lines()
}

/// The instruction lines of a listing: what follows the program
/// section banner.
fn listing_lines(text: &str) -> Vec<&str> {
    let tail = text.split("\n; PRG ROM\n\n").nth(1).unwrap();
    tail.lines().collect()
}

#[test]
fn single_instruction_decodes_to_one_line() {
    let code = get_nes_opcode(&0xa9).unwrap();
    let mut line = Line {
        bytes: vec![0xa9, 0x10],
        opcode: code,
        label: None,
        fmt_arg: String::new(),
        comment: None,
    };
    let equ = line.fmt();
    assert!(equ.is_none());
    assert_eq!(line.opcode.mnemonic, "lda");
    assert_eq!(line.fmt_arg, "#$10");
    assert_eq!(line.bytes.len(), 2);
}

#[test]
fn register_operand_resolves_to_its_symbol() {
    let code = get_nes_opcode(&0xad).unwrap();
    let mut line = Line {
        bytes: vec![0xad, 0x00, 0x20],
        opcode: code,
        label: None,
        fmt_arg: String::new(),
        comment: None,
    };
    let equ = line.fmt();
    assert_eq!(equ, Some((0x2000, String::from("PPUCTRL"))));
    assert_eq!(line.fmt_arg, "PPUCTRL");
}

#[test]
fn unknown_address_renders_as_hex() {
    let code = get_nes_opcode(&0xad).unwrap();
    let mut line = Line {
        bytes: vec![0xad, 0x34, 0x12],
        opcode: code,
        label: None,
        fmt_arg: String::new(),
        comment: None,
    };
    let equ = line.fmt();
    assert!(equ.is_none());
    assert_eq!(line.fmt_arg, "$1234");
}

#[test]
fn raw_data_lines_render_their_bytes() {
    // 0x0c maps to the raw-data mnemonic with a two-byte operand
    let code = get_nes_opcode(&0x0c).unwrap();
    assert_eq!(code.mnemonic, "hex");
    let mut line = Line {
        bytes: vec![0x0c, 0xde, 0xad],
        opcode: code,
        label: None,
        fmt_arg: String::new(),
        comment: None,
    };
    let equ = line.fmt();
    assert!(equ.is_none());
    assert_eq!(line.fmt_arg, "de ad");
}

#[test]
fn line_length_sums_all_rendered_parts() {
    let code = get_nes_opcode(&0xa9).unwrap();
    let mut line = Line {
        bytes: vec![0xa9, 0x10],
        opcode: code,
        label: None,
        fmt_arg: String::new(),
        comment: None,
    };
    line.fmt();
    assert_eq!(line.len(), 3 + 4);
    line.comment = Some(String::from(" ; a9 10"));
    assert_eq!(line.len(), 3 + 4 + 8);
    line.label = Some(String::from("start"));
    assert_eq!(line.len(), 3 + 4 + 8 + 5);
}

#[test]
fn line_renders_label_mnemonic_operand_comment() {
    let code = get_nes_opcode(&0xa9).unwrap();
    let mut line = Line {
        bytes: vec![0xa9, 0x10],
        opcode: code,
        label: None,
        fmt_arg: String::new(),
        comment: None,
    };
    line.fmt();
    assert_eq!(line.render(), "lda #$10\n");
    line.comment = Some(String::from("  ; a9 10"));
    assert_eq!(line.render(), "lda #$10  ; a9 10\n");
    line.label = Some(String::from("start"));
    assert_eq!(line.render(), "start:\nlda #$10  ; a9 10\n");
}

#[test]
fn pipeline_decodes_first_instruction() {
    let mem = make_image(&[0xa9, 0x10], 1, 0, 0);
    let text = run_pipeline(&mem);
    let lines = listing_lines(&text);
    assert!(lines[0].starts_with("lda #$10"));
    assert!(lines[0].contains(" ; a9 10"));
    assert!(lines[1].starts_with("asl "));
}

#[test]
fn trainer_shifts_the_program_start() {
    // with the trainer bit set the program bytes sit 512 bytes later
    let mem = make_image(&[0xa9, 0x42], 1, 0, 0b0000_0100);
    assert_eq!(mem.len(), 16 + 512 + PRG_UNIT);
    assert_eq!(mem[528], 0xa9);
    let text = run_pipeline(&mem);
    let lines = listing_lines(&text);
    assert!(lines[0].starts_with("lda #$42"));
}

#[test]
fn constants_are_collected_once_in_first_seen_order() {
    let prg = [
        0xad, 0x00, 0x20, // lda PPUCTRL
        0xad, 0x02, 0x20, // lda PPUSTATUS
        0xad, 0x00, 0x20, // lda PPUCTRL again
        0x8d, 0x00, 0x20, // sta PPUCTRL again
    ];
    let text = run_pipeline(&make_image(&prg, 1, 0, 0));
    assert_eq!(text.matches("PPUCTRL equ $2000\n").count(), 1);
    assert_eq!(text.matches("PPUSTATUS equ $2002\n").count(), 1);
    let ctrl = text.find("PPUCTRL equ").unwrap();
    let status = text.find("PPUSTATUS equ").unwrap();
    assert!(ctrl < status);
    assert_eq!(text.matches("lda PPUCTRL").count(), 2);
    assert_eq!(text.matches("sta PPUCTRL").count(), 1);
}

#[test]
fn comments_all_start_in_the_same_column() {
    let prg = [
        0x0a, // asl, a short line
        0xad, 0x00, 0x20, // lda PPUCTRL, a long line
        0xa9, 0x10, // lda #$10
        0x0c, 0xde, 0xad, // a raw data line
    ];
    let text = run_pipeline(&make_image(&prg, 1, 0, 0));
    let lines = listing_lines(&text);
    let columns: Vec<usize> = lines
        .iter()
        .filter(|l| !l.is_empty())
        .map(|l| l.find(';').unwrap())
        .collect();
    assert!(columns.len() > 3);
    for c in &columns {
        assert_eq!(*c, columns[0]);
    }
    // the longest line carries no padding: right before its separator
    // stands its own text, not an alignment space
    let unpadded = lines
        .iter()
        .filter(|l| !l.is_empty())
        .any(|l| {
            let col = l.find(';').unwrap();
            l.as_bytes()[col - 2] != b' '
        });
    assert!(unpadded);
}

#[test]
fn decoding_consumes_the_block_exactly() {
    let prg = [0xa9, 0x10, 0xad, 0x00, 0x20, 0x4c, 0x00, 0x80];
    let text = run_pipeline(&make_image(&prg, 1, 0, 0));
    let mut consumed = 0;
    for line in listing_lines(&text) {
        if line.is_empty() {
            continue;
        }
        let comment = line.split(" ; ").nth(1).unwrap();
        consumed += comment.split_whitespace().count();
    }
    assert_eq!(consumed, PRG_UNIT);
}

#[test]
fn empty_program_block_yields_an_empty_listing() {
    let mem = make_image(&[], 0, 0, 0);
    assert_eq!(mem.len(), 16);
    let text = run_pipeline(&mem);
    let tail = text.split("\n; PRG ROM\n\n").nth(1).unwrap();
    assert_eq!(tail, "");
}

#[test]
fn pipeline_is_deterministic() {
    let prg = [0xa9, 0x10, 0xad, 0x00, 0x20, 0x0a];
    let mem = make_image(&prg, 1, 1, 0);
    let first = run_pipeline(&mem);
    let second = run_pipeline(&mem);
    assert_eq!(first, second);

    // a second run over the same session is idempotent too
    let path = String::from("games/game.nes");
    let mut d = NesDisassembler::new(&path, &mem);
    d.run().unwrap();
    let once = d.fmt_lines();
    d.run().unwrap();
    assert_eq!(d.fmt_lines(), once);
    assert_eq!(once, first);
}

#[test]
fn wrong_magic_aborts_the_run() {
    let mut mem = make_image(&[], 1, 0, 0);
    mem[0] = 0x00;
    let path = String::from("bad.nes");
    let mut d = NesDisassembler::new(&path, &mem);
    assert_eq!(d.run(), Err(NesError::WrongNesFormat));
}

#[test]
fn graphics_block_sizes_follow_the_unit_counts() {
    for (prg_units, chr_units) in [(1u8, 1u8), (2, 1), (1, 2)] {
        let mem = make_image(&[], prg_units, chr_units, 0);
        assert_eq!(
            mem.len(),
            16 + prg_units as usize * PRG_UNIT + chr_units as usize * CHR_UNIT
        );
        let path = String::from("games/game.nes");
        let mut d = NesDisassembler::new(&path, &mem);
        d.run().unwrap();
        let chr = d.chr_data().as_ref().unwrap();
        assert_eq!(chr.len(), chr_units as usize * CHR_UNIT);
        // the graphics block starts right after the program block
        let start = 16 + prg_units as usize * PRG_UNIT;
        assert_eq!(chr.as_slice(), &mem[start..]);
    }
}

#[test]
fn absent_graphics_block_stays_unresolved() {
    let mem = make_image(&[], 1, 0, 0);
    let path = String::from("games/game.nes");
    let mut d = NesDisassembler::new(&path, &mem);
    d.run().unwrap();
    let chr = d.chr_data().as_ref().unwrap();
    assert_eq!(chr.len(), 0);
}

#[test]
fn listing_sections_come_in_fixed_order() {
    let prg = [0xad, 0x00, 0x20];
    let text = run_pipeline(&make_image(&prg, 1, 0, 0));
    let regs = text.find("; Mapped registers\n").unwrap();
    let header = text.find("\n; Header\n").unwrap();
    let prg_banner = text.find("\n; PRG ROM\n").unwrap();
    assert_eq!(regs, 0);
    assert!(regs < header && header < prg_banner);
    assert!(text.contains("hex 4e 45 53 1a\n"));
}

#[test]
fn two_byte_raw_data_opcode() {
    let code = get_nes_opcode(&0x80).unwrap();
    assert_eq!(code.mnemonic, "hex");
    assert_eq!(code.len, 2);
    let mut line = Line {
        bytes: vec![0x80, 0xab],
        opcode: code,
        label: None,
        fmt_arg: String::new(),
        comment: None,
    };
    assert!(line.fmt().is_none());
    assert_eq!(line.fmt_arg, "ab");
}

#[test]
fn instruction_cut_by_the_block_boundary_stays_raw() {
    // the block's very last byte announces a three-byte instruction;
    // its operand would sit past the boundary, so the byte is kept as
    // raw data and decoding halts exactly on the boundary
    let mut prg = vec![0x0au8; PRG_UNIT];
    prg[PRG_UNIT - 1] = 0xad;
    let text = run_pipeline(&make_image(&prg, 1, 0, 0));
    let lines = listing_lines(&text);
    let last = lines.iter().rev().find(|l| !l.is_empty()).unwrap();
    assert!(last.starts_with("hex "));
    assert!(last.ends_with(" ; ad"));

    let mut consumed = 0;
    for line in &lines {
        if line.is_empty() {
            continue;
        }
        consumed += line.split(" ; ").nth(1).unwrap().split_whitespace().count();
    }
    assert_eq!(consumed, PRG_UNIT);
}
