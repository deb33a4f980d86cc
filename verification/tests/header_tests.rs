use nes_utils::error::NesError;
use nes_utils::header::NesHeader;
use nes_utils::models::Header;

fn sample_header() -> Vec<u8> {
    vec![
        0x4e, 0x45, 0x53, 0x1a, // magic
        0x02, // program-code units
        0x01, // graphics-data units
        0x00, // flags6
        0x00, // flags7
        0x00, // program-RAM units
        0x00, // flags9
        0x00, // flags10
        0x00, 0x00, 0x00, 0x00, 0x00, // reserved
    ]
}

#[test]
fn parse_extracts_all_nine_fields() {
    let mut mem = sample_header();
    mem[7] = 0x40;
    mem[8] = 0x07;
    mem[9] = 0x09;
    mem[10] = 0x0a;
    mem[11] = 0x01;
    mem[15] = 0x05;
    let mut h = NesHeader::new(&mem);
    assert!(h.parse().is_ok());

    assert_eq!(h.field("magic").value, Some(vec![0x4e, 0x45, 0x53, 0x1a]));
    assert_eq!(h.field("len_prg_rom").value, Some(vec![0x02]));
    assert_eq!(h.field("len_chr_rom").value, Some(vec![0x01]));
    assert_eq!(h.field("f6").value, Some(vec![0x00]));
    assert_eq!(h.field("f7").value, Some(vec![0x40]));
    assert_eq!(h.field("len_prg_ram").value, Some(vec![0x07]));
    assert_eq!(h.field("f9").value, Some(vec![0x09]));
    assert_eq!(h.field("f10").value, Some(vec![0x0a]));
    assert_eq!(h.field("reserved").value, Some(vec![0x01, 0x00, 0x00, 0x00, 0x05]));
}

#[test]
fn field_offsets_follow_the_layout() {
    let mem = sample_header();
    let h = NesHeader::new(&mem);
    assert_eq!(h.field("magic").pos, 0);
    assert_eq!(h.field("magic").size, 4);
    assert_eq!(h.field("len_prg_rom").pos, 4);
    assert_eq!(h.field("len_chr_rom").pos, 5);
    assert_eq!(h.field("f6").pos, 6);
    assert_eq!(h.field("f7").pos, 7);
    assert_eq!(h.field("len_prg_ram").pos, 8);
    assert_eq!(h.field("f9").pos, 9);
    assert_eq!(h.field("f10").pos, 10);
    assert_eq!(h.field("reserved").pos, 11);
    assert_eq!(h.field("reserved").size, 5);
}

#[test]
fn unknown_field_is_empty() {
    let mem = sample_header();
    let h = NesHeader::new(&mem);
    let b = h.field("no_such_field");
    assert_eq!(b.pos, 0);
    assert_eq!(b.size, 0);
    assert!(b.value.is_none());
}

#[test]
fn wrong_magic_is_rejected() {
    for i in 0..4 {
        let mut mem = sample_header();
        mem[i] ^= 0xff;
        let mut h = NesHeader::new(&mem);
        assert_eq!(h.parse(), Err(NesError::WrongNesFormat));
    }
}

#[test]
fn check_magic_before_parse_fails() {
    let mem = sample_header();
    let h = NesHeader::new(&mem);
    assert_eq!(h.check_magic(), Err(NesError::WrongNesFormat));
}

#[test]
fn trainer_bit_is_bit_two_of_flags6() {
    for f6 in 0..=255u8 {
        let mut mem = sample_header();
        mem[6] = f6;
        let mut h = NesHeader::new(&mem);
        h.parse().unwrap();
        assert_eq!(h.is_trainer(), f6 & 0b0000_0100 != 0);
    }
}

#[test]
fn chr_presence_is_a_nonzero_unit_count() {
    for units in [0u8, 1, 2, 255] {
        let mut mem = sample_header();
        mem[5] = units;
        let mut h = NesHeader::new(&mem);
        h.parse().unwrap();
        assert_eq!(h.is_chr(), units > 0);
    }
}

#[test]
fn unparsed_header_announces_nothing() {
    let mut mem = sample_header();
    mem[5] = 1;
    mem[6] = 0x04;
    let h = NesHeader::new(&mem);
    assert!(!h.is_trainer());
    assert!(!h.is_chr());
}

#[test]
fn render_dumps_each_field_as_hex() {
    let mut mem = sample_header();
    let mut h = NesHeader::new(&mem);
    h.parse().unwrap();
    let expected = "hex 4e 45 53 1a\nhex 02\nhex 01\nhex 00\nhex 00\nhex 00\nhex 00\nhex 00\nhex 00 00 00 00 00";
    assert_eq!(h.render(), expected);
    // the trait method dumps the same text
    mem[4] = 0x02;
    let mut h2 = NesHeader::new(&mem);
    Header::parse(&mut h2).unwrap();
    assert_eq!(Header::dump(&h2), expected);
}
