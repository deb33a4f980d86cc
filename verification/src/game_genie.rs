//! Game Genie code decoding: the letters of a six- or eight-letter
//! code carry, bit by bit and in a fixed scattered order, a target
//! address, a patch value, and optionally a compare value.

use vstd::prelude::*;

verus! {

/// The four-bit value a code letter stands for, if the letter belongs
/// to the Game Genie alphabet.
pub open spec fn letter_value(letter: char) -> Option<u8> {
    if letter == 'A' {
        Some(0u8)
    } else if letter == 'P' {
        Some(1u8)
    } else if letter == 'Z' {
        Some(2u8)
    } else if letter == 'L' {
        Some(3u8)
    } else if letter == 'G' {
        Some(4u8)
    } else if letter == 'I' {
        Some(5u8)
    } else if letter == 'T' {
        Some(6u8)
    } else if letter == 'Y' {
        Some(7u8)
    } else if letter == 'E' {
        Some(8u8)
    } else if letter == 'O' {
        Some(9u8)
    } else if letter == 'X' {
        Some(10u8)
    } else if letter == 'U' {
        Some(11u8)
    } else if letter == 'K' {
        Some(12u8)
    } else if letter == 'S' {
        Some(13u8)
    } else if letter == 'V' {
        Some(14u8)
    } else if letter == 'N' {
        Some(15u8)
    } else {
        None
    }
}

/// The four-bit value of a code letter.
pub fn letter_to_bin(letter: char) -> (r: Option<u8>)
    ensures
        r == letter_value(letter),
{
    let ret = match letter {
        'A' => 0b000_0000,
        'P' => 0b000_0001,
        'Z' => 0b000_0010,
        'L' => 0b000_0011,
        'G' => 0b000_0100,
        'I' => 0b000_0101,
        'T' => 0b000_0110,
        'Y' => 0b000_0111,
        'E' => 0b000_1000,
        'O' => 0b000_1001,
        'X' => 0b000_1010,
        'U' => 0b000_1011,
        'K' => 0b000_1100,
        'S' => 0b000_1101,
        'V' => 0b000_1110,
        'N' => 0b000_1111,
        _ => return None,
    };

    Some(ret)
}

/// The bit-source table for six-letter codes.
pub open spec fn table6_spec() -> Seq<Seq<char>> {
    seq![
        seq!['1', '6', '7', '8'],
        seq!['H', '2', '3', '4'],
        seq!['-', 'I', 'J', 'K'],
        seq!['L', 'A', 'B', 'C'],
        seq!['D', 'M', 'N', 'O'],
        seq!['5', 'E', 'F', 'G'],
    ]
}

/// The bit-source table for eight-letter codes.
pub open spec fn table8_spec() -> Seq<Seq<char>> {
    seq![
        seq!['1', '6', '7', '8'],
        seq!['H', '2', '3', '4'],
        seq!['-', 'I', 'J', 'K'],
        seq!['L', 'A', 'B', 'C'],
        seq!['D', 'M', 'N', 'O'],
        seq!['%', 'E', 'F', 'G'],
        seq!['!', '^', '&', '*'],
        seq!['5', '@', '#', '$'],
    ]
}

/// The ghost model of a table: each row as a character sequence.
pub open spec fn table_view(t: Seq<Vec<char>>) -> Seq<Seq<char>> {
    t.map_values(|r: Vec<char>| r@)
}

/// The column of `sym` in `row` at or after `x`, or -1 if it does not
/// occur there.
pub open spec fn row_pos(sym: char, row: Seq<char>, x: int) -> int
    decreases row.len() - x,
{
    if x < 0 || x >= row.len() {
        -1
    } else if row[x] == sym {
        x
    } else {
        row_pos(sym, row, x + 1)
    }
}

/// The first (column, row) where `sym` occurs in the table, scanning
/// rows from `y` down and each row left to right; (9, 4) if it does
/// not occur.
pub open spec fn table_pos(sym: char, t: Seq<Seq<char>>, y: int) -> (int, int)
    decreases t.len() - y,
{
    if y < 0 || y >= t.len() {
        (9int, 4int)
    } else if row_pos(sym, t[y], 0) >= 0 {
        (row_pos(sym, t[y], 0), y)
    } else {
        table_pos(sym, t, y + 1)
    }
}

/// Where a symbol sits in a bit-source table.
pub open spec fn code_pos_spec(sym: char, t: Seq<Seq<char>>) -> (int, int) {
    table_pos(sym, t, 0)
}

/// Locate a symbol in a table: the first matching cell scanning rows
/// top to bottom and columns left to right, or (9, 4) if absent.
fn code_pos(symbol: char, table: &[Vec<char>]) -> (r: (usize, usize))
    ensures
        (r.0 as int, r.1 as int) == code_pos_spec(symbol, table_view(table@)),
{
    let ghost t = table_view(table@);
    let rows = table.len();
    let mut y: usize = 0;
    while y < rows
        invariant
            y <= rows,
            rows == table@.len(),
            t == table_view(table@),
            code_pos_spec(symbol, t) == table_pos(symbol, t, y as int),
        decreases rows - y,
    {
        let row = &table[y];
        let cols = row.len();
        let mut x: usize = 0;
        while x < cols
            invariant
                x <= cols,
                y < rows,
                rows == table@.len(),
                cols == table@[y as int]@.len(),
                row@ == table@[y as int]@,
                t == table_view(table@),
                code_pos_spec(symbol, t) == table_pos(symbol, t, y as int),
                row_pos(symbol, t[y as int], 0) == row_pos(symbol, t[y as int], x as int),
            decreases cols - x,
        {
            proof {
                assert(t[y as int] == table@[y as int]@);
            }
            if row[x] == symbol {
                proof {
                    assert(row_pos(symbol, t[y as int], x as int) == x);
                }
                return (x, y);
            }
            proof {
                assert(row_pos(symbol, t[y as int], x as int) == row_pos(
                    symbol, t[y as int], x + 1));
            }
            x = x + 1;
        }
        proof {
            assert(t[y as int] == table@[y as int]@);
            assert(row_pos(symbol, t[y as int], x as int) == -1);
        }
        y = y + 1;
    }

    (9, 4)
}

/// The bit a symbol contributes: the bit of the code letter in the
/// symbol's row, at the symbol's column counted from the high end; no
/// bit when the symbol is absent from the table, sits past the fourth
/// column, points past the code's end, or points at a letter outside
/// the alphabet.
pub open spec fn gg_bit(code: Seq<char>, t: Seq<Seq<char>>, sym: char) -> Option<u8> {
    let p = code_pos_spec(sym, t);
    if 0 <= p.0 <= 3 && 0 <= p.1 < code.len() {
        match letter_value(code[p.1]) {
            Some(v) => Some((v >> ((3 - p.0) as u8)) & 1),
            None => None,
        }
    } else {
        None
    }
}

/// The number assembled by walking `order`: each symbol's bit shifted
/// in from the right, symbols without a bit skipped.
pub open spec fn gg_value(code: Seq<char>, order: Seq<char>, t: Seq<Seq<char>>) -> nat
    decreases order.len(),
{
    if order.len() == 0 {
        0
    } else {
        let prev = gg_value(code, order.drop_last(), t);
        match gg_bit(code, t, order.last()) {
            Some(b) => (prev * 2 + b) as nat,
            None => prev,
        }
    }
}

/// Powers of two.
pub open spec fn two_to(n: nat) -> nat
    decreases n,
{
    if n == 0 {
        1
    } else {
        2 * two_to((n - 1) as nat)
    }
}

/// An assembled number has no more bits than the order has symbols.
pub proof fn lemma_gg_value_bound(code: Seq<char>, order: Seq<char>, t: Seq<Seq<char>>)
    ensures
        gg_value(code, order, t) < two_to(order.len()),
    decreases order.len(),
{
    if order.len() > 0 {
        lemma_gg_value_bound(code, order.drop_last(), t);
        assert(forall|v: u8, sh: u8| #[trigger] (v >> sh & 1) <= 1) by (bit_vector);
        match gg_bit(code, t, order.last()) {
            Some(b) => {
                assert(b <= 1);
            },
            None => {},
        }
    }
}

/// Assemble the number spelled by `order` out of the code letters.
fn get_value(code: &[char], order: &str, table: &[Vec<char>]) -> (r: usize)
    requires
        order@.len() <= 15,
    ensures
        r == gg_value(code@, order@, table_view(table@)),
{
    let ghost t = table_view(table@);
    let mut ret: usize = 0;
    let olen = order.unicode_len();
    let mut i: usize = 0;
    while i < olen
        invariant
            i <= olen,
            olen == order@.len() <= 15,
            t == table_view(table@),
            ret == gg_value(code@, order@.take(i as int), t),
            ret < two_to(i as nat),
        decreases olen - i,
    {
        // Get the location
        let symbol = order.get_char(i);
        let (x, y) = code_pos(symbol, table);

        proof {
            lemma_gg_value_bound(code@, order@.take(i as int), t);
            assert(order@.take(i + 1).drop_last() =~= order@.take(i as int));
            assert(order@.take(i + 1).last() == order@[i as int]);
            lemma_two_to_small();
            lemma_two_to_monotone(i as nat, 15);
        }

        if x <= 3 && y < code.len() {
            // Linked code letter
            let letter = code[y];

            // Letter value
            match letter_to_bin(letter) {
                Some(letter_value) => {
                    // Get the good bit value
                    let bit = letter_value >> (3 - x) as u8 & 1;
                    proof {
                        let lv = letter_value;
                        let sh = (3 - x) as u8;
                        assert(lv >> sh & 1 <= 1) by (bit_vector);
                        assert(ret << 1usize | (lv >> sh & 1) as usize == ret * 2 + (
                        lv >> sh & 1) as usize) by (bit_vector)
                            requires
                                ret < 32768usize,
                        ;
                    }
                    ret = (ret << 1) | bit as usize;
                },
                None => {},
            };
        }
        i = i + 1;
    }
    proof {
        assert(order@.take(olen as int) =~= order@);
    }
    ret
}

/// The power-of-two values the decoders lean on.
proof fn lemma_two_to_small()
    ensures
        two_to(8) == 256,
        two_to(15) == 32768,
{
    assert(two_to(0) == 1);
    assert(two_to(1) == 2);
    assert(two_to(2) == 4);
    assert(two_to(3) == 8);
    assert(two_to(4) == 16);
    assert(two_to(5) == 32);
    assert(two_to(6) == 64);
    assert(two_to(7) == 128);
    assert(two_to(8) == 256);
    assert(two_to(9) == 512);
    assert(two_to(10) == 1024);
    assert(two_to(11) == 2048);
    assert(two_to(12) == 4096);
    assert(two_to(13) == 8192);
    assert(two_to(14) == 16384);
    assert(two_to(15) == 32768);
}

/// Powers of two grow with the exponent.
proof fn lemma_two_to_monotone(a: nat, b: nat)
    requires
        a <= b,
    ensures
        two_to(a) <= two_to(b),
    decreases b,
{
    if a < b {
        lemma_two_to_monotone(a, (b - 1) as nat);
    }
}

/// A code is decodable when it has six or eight letters, all from the
/// Game Genie alphabet.
pub open spec fn code_valid(s: Seq<char>) -> bool {
    (s.len() == 6 || s.len() == 8) && (forall|i: int|
        0 <= i < s.len() ==> (#[trigger] letter_value(s[i])) is Some)
}

/// The bit-source table a code of this length reads from.
pub open spec fn table_for(code: Seq<char>) -> Seq<Seq<char>> {
    if code.len() == 6 {
        table6_spec()
    } else {
        table8_spec()
    }
}

/// The patch value a code decodes to.
pub open spec fn decoded_value(code: Seq<char>) -> nat {
    gg_value(code, "12345678"@, table_for(code))
}

/// The target address a code decodes to.
pub open spec fn decoded_address(code: Seq<char>) -> nat {
    gg_value(code, "ABCDEFGHIJKLMNO"@, table_for(code))
}

/// The compare value an eight-letter code decodes to.
pub open spec fn decoded_compare(code: Seq<char>) -> nat {
    gg_value(code, "!@#$%^&*"@, table_for(code))
}

/// Translate every code letter to its four-bit value.
fn convert_code(code: &String) -> (r: Vec<u8>)
    requires
        forall|i: int|
            0 <= i < code@.len() ==> (#[trigger] letter_value(code@[i])) is Some,
    ensures
        r@.len() == code@.len(),
        forall|i: int| 0 <= i < code@.len() ==> Some(r@[i]) == letter_value(code@[i]),
{
    let mut ret: Vec<u8> = Vec::new();
    let len = code.as_str().unicode_len();
    let mut i: usize = 0;
    while i < len
        invariant
            i <= len,
            len == code@.len(),
            ret@.len() == i,
            forall|j: int| 0 <= j < code@.len() ==> (#[trigger] letter_value(code@[j])) is Some,
            forall|j: int| 0 <= j < i ==> Some(ret@[j]) == letter_value(code@[j]),
        decreases len - i,
    {
        let letter = code.as_str().get_char(i);
        let value = match letter_to_bin(letter) {
            Some(value) => value,
            None => {
                proof {
                    assert(false);
                }
                0
            },
        };
        ret.push(value);
        i = i + 1;
    }

    ret
}

/// Ghost model of a Game Genie decoding session.
pub struct GgModel {
    pub code: Seq<char>,
    pub code_genie: Seq<u8>,
    pub value: u8,
    pub address: u16,
    pub compare: Option<u8>,
}

/// Interacting with one Game Genie code.
pub struct NesGameGenie {
    code: String,
    code_genie: Vec<u8>,
    pub value: u8,
    pub address: u16,
    pub compare: Option<u8>,
}

impl View for NesGameGenie {
    type V = GgModel;

    closed spec fn view(&self) -> GgModel {
        GgModel {
            code: self.code@,
            code_genie: self.code_genie@,
            value: self.value,
            address: self.address,
            compare: self.compare,
        }
    }
}

impl NesGameGenie {
    /// Hold a code, not yet decoded.
    pub fn new(code: String) -> (r: Self)
        ensures
            r@.code == code@,
            r@.code_genie == Seq::<u8>::empty(),
            r@.value == 0,
            r@.address == 0,
            r@.compare is None,
    {
        Self { code, code_genie: Vec::new(), value: 0, address: 0, compare: None }
    }

    /// Whether the held code can be decoded: six or eight letters, all
    /// from the Game Genie alphabet.
    pub fn is_valid(&self) -> (r: bool)
        ensures
            r == code_valid(self@.code),
    {
        let len = self.code.as_str().unicode_len();
        if len != 6 && len != 8 {
            return false;
        }
        let mut i: usize = 0;
        while i < len
            invariant
                i <= len,
                len == self@.code.len(),
                forall|j: int|
                    0 <= j < i ==> (#[trigger] letter_value(self@.code[j])) is Some,
            decreases len - i,
        {
            if letter_to_bin(self.code.as_str().get_char(i)).is_none() {
                return false;
            }
            i = i + 1;
        }
        true
    }

    /// Pull the value, address and compare bits out of the code through
    /// the given table.
    fn decode_with_table(&mut self, table: &[Vec<char>])
        ensures
            final(self)@.code == old(self)@.code,
            final(self)@.code_genie == old(self)@.code_genie,
            final(self)@.value == gg_value(
                old(self)@.code,
                "12345678"@,
                table_view(table@),
            ) as u8,
            final(self)@.address == gg_value(
                old(self)@.code,
                "ABCDEFGHIJKLMNO"@,
                table_view(table@),
            ) as u16,
            old(self)@.code.len() == 8 ==> final(self)@.compare == Some(
                gg_value(old(self)@.code, "!@#$%^&*"@, table_view(table@)) as u8,
            ),
            old(self)@.code.len() != 8 ==> final(self)@.compare == old(self)@.compare,
    {
        proof {
            reveal_strlit("12345678");
            reveal_strlit("ABCDEFGHIJKLMNO");
            reveal_strlit("!@#$%^&*");
            assert("12345678"@.len() == 8);
            assert("ABCDEFGHIJKLMNO"@.len() == 15);
            assert("!@#$%^&*"@.len() == 8);
        }
        let code = chars_of(&self.code);
        let ghost t = table_view(table@);

        proof {
            lemma_gg_value_bound(self@.code, "12345678"@, t);
            lemma_gg_value_bound(self@.code, "ABCDEFGHIJKLMNO"@, t);
            lemma_gg_value_bound(self@.code, "!@#$%^&*"@, t);
            lemma_two_to_small();
        }

        self.value = get_value(code.as_slice(), "12345678", table) as u8;
        self.address = get_value(code.as_slice(), "ABCDEFGHIJKLMNO", table) as u16;

        if code.len() == 8 {
            let value = get_value(code.as_slice(), "!@#$%^&*", table) as u8;
            self.compare = Some(value);
        }
    }

    /// Decode the held code: translate its letters, pick the table for
    /// its length, and assemble value, address and compare bits.
    pub fn decode(&mut self)
        requires
            code_valid(old(self)@.code),
        ensures
            final(self)@.code == old(self)@.code,
            final(self)@.code_genie.len() == old(self)@.code.len(),
            forall|i: int|
                0 <= i < old(self)@.code.len() ==> Some(final(self)@.code_genie[i])
                    == letter_value(old(self)@.code[i]),
            final(self)@.value == decoded_value(old(self)@.code) as u8,
            final(self)@.address == decoded_address(old(self)@.code) as u16,
            old(self)@.code.len() == 8 ==> final(self)@.compare == Some(
                decoded_compare(old(self)@.code) as u8,
            ),
            old(self)@.code.len() == 6 ==> final(self)@.compare == old(self)@.compare,
    {
        let cg = convert_code(&self.code);
        self.code_genie = cg;

        let len = self.code.as_str().unicode_len();
        if len == 6 {
            let table = table_6();
            self.decode_with_table(table.as_slice());
        } else {
            let table = table_8();
            self.decode_with_table(table.as_slice());
        }
    }
}

/// Decode a Game Genie code in one call.
pub fn decode(code: String) -> (d: NesGameGenie)
    requires
        code_valid(code@),
    ensures
        d@.code == code@,
        d@.value == decoded_value(code@) as u8,
        d@.address == decoded_address(code@) as u16,
        code@.len() == 8 ==> d@.compare == Some(decoded_compare(code@) as u8),
        code@.len() == 6 ==> d@.compare is None,
{
    let mut d = NesGameGenie::new(code);
    d.decode();

    d
}

/// The characters of a string as a vector.
fn chars_of(s: &String) -> (r: Vec<char>)
    ensures
        r@ == s@,
{
    let mut ret: Vec<char> = Vec::new();
    let len = s.as_str().unicode_len();
    let mut i: usize = 0;
    while i < len
        invariant
            i <= len,
            len == s@.len(),
            ret@ =~= s@.take(i as int),
        decreases len - i,
    {
        ret.push(s.as_str().get_char(i));
        proof {
            assert(ret@ =~= s@.take(i + 1));
        }
        i = i + 1;
    }
    proof {
        assert(s@.take(len as int) =~= s@);
    }
    ret
}

/// One four-cell row of a bit-source table.
fn make_row(a: char, b: char, c: char, d: char) -> (r: Vec<char>)
    ensures
        r@ == seq![a, b, c, d],
{
    let mut v: Vec<char> = Vec::new();
    v.push(a);
    v.push(b);
    v.push(c);
    v.push(d);
    proof {
        assert(v@ =~= seq![a, b, c, d]);
    }
    v
}

/// The bit-source table for six-letter codes.
fn table_6() -> (t: Vec<Vec<char>>)
    ensures
        table_view(t@) == table6_spec(),
{
    let mut t: Vec<Vec<char>> = Vec::new();
    t.push(make_row('1', '6', '7', '8'));
    t.push(make_row('H', '2', '3', '4'));
    t.push(make_row('-', 'I', 'J', 'K'));
    t.push(make_row('L', 'A', 'B', 'C'));
    t.push(make_row('D', 'M', 'N', 'O'));
    t.push(make_row('5', 'E', 'F', 'G'));
    proof {
        assert(table_view(t@) =~= table6_spec());
    }
    t
}

/// The bit-source table for eight-letter codes.
fn table_8() -> (t: Vec<Vec<char>>)
    ensures
        table_view(t@) == table8_spec(),
{
    let mut t: Vec<Vec<char>> = Vec::new();
    t.push(make_row('1', '6', '7', '8'));
    t.push(make_row('H', '2', '3', '4'));
    t.push(make_row('-', 'I', 'J', 'K'));
    t.push(make_row('L', 'A', 'B', 'C'));
    t.push(make_row('D', 'M', 'N', 'O'));
    t.push(make_row('%', 'E', 'F', 'G'));
    t.push(make_row('!', '^', '&', '*'));
    t.push(make_row('5', '@', '#', '$'));
    proof {
        assert(table_view(t@) =~= table8_spec());
    }
    t
}

} // verus!
