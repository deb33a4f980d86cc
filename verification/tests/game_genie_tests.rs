use nes_utils::game_genie::{decode, letter_to_bin, NesGameGenie};

#[test]
fn letters_map_to_their_four_bit_values() {
    assert_eq!(letter_to_bin('A'), Some(0));
    assert_eq!(letter_to_bin('P'), Some(1));
    assert_eq!(letter_to_bin('Z'), Some(2));
    assert_eq!(letter_to_bin('L'), Some(3));
    assert_eq!(letter_to_bin('G'), Some(4));
    assert_eq!(letter_to_bin('I'), Some(5));
    assert_eq!(letter_to_bin('T'), Some(6));
    assert_eq!(letter_to_bin('Y'), Some(7));
    assert_eq!(letter_to_bin('E'), Some(8));
    assert_eq!(letter_to_bin('O'), Some(9));
    assert_eq!(letter_to_bin('X'), Some(10));
    assert_eq!(letter_to_bin('U'), Some(11));
    assert_eq!(letter_to_bin('K'), Some(12));
    assert_eq!(letter_to_bin('S'), Some(13));
    assert_eq!(letter_to_bin('V'), Some(14));
    assert_eq!(letter_to_bin('N'), Some(15));
    assert_eq!(letter_to_bin('Q'), None);
    assert_eq!(letter_to_bin('a'), None);
    assert_eq!(letter_to_bin('0'), None);
}

#[test]
fn eight_letter_code_decodes_with_compare_value() {
    let mut d = NesGameGenie::new(String::from("SZEKKIVG"));
    assert!(d.is_valid());
    d.decode();
    assert_eq!(d.value, 0xa5);
    assert_eq!(d.address, 0x4d0c);
    assert_eq!(d.compare, Some(0xc6));
}

#[test]
fn six_letter_code_decodes_without_compare_value() {
    let mut d = NesGameGenie::new(String::from("SXIOPO"));
    assert!(d.is_valid());
    d.decode();
    assert_eq!(d.value, 0xad);
    assert_eq!(d.address, 0x11d9);
    assert_eq!(d.compare, None);
}

#[test]
fn one_call_decoding() {
    let d = decode(String::from("SZEKKIVG"));
    assert_eq!(d.value, 0xa5);
    assert_eq!(d.address, 0x4d0c);
    assert_eq!(d.compare, Some(0xc6));
}

#[test]
fn decoding_is_deterministic() {
    let a = decode(String::from("SXIOPO"));
    let b = decode(String::from("SXIOPO"));
    assert_eq!(a.value, b.value);
    assert_eq!(a.address, b.address);
    assert_eq!(a.compare, b.compare);
}

#[test]
fn invalid_codes_are_recognized() {
    // a letter outside the alphabet
    assert!(!NesGameGenie::new(String::from("QZEKKIVG")).is_valid());
    // a wrong length
    assert!(!NesGameGenie::new(String::from("SZE")).is_valid());
    assert!(!NesGameGenie::new(String::from("SZEKKIV")).is_valid());
    assert!(!NesGameGenie::new(String::from("")).is_valid());
    // lowercase letters are not part of the alphabet
    assert!(!NesGameGenie::new(String::from("szekkivg")).is_valid());
}
