//! The 16-byte cartridge header: nine named byte-range fields, the
//! format signature check, and the header's textual dump.

use vstd::prelude::*;

use crate::block::{Block, BlockModel};
use crate::error::NesError;
use crate::util::{byte_to_hex, join_hex, str_eq, vec_bytes_to_string};

verus! {

/// The size of the cartridge header in bytes.
pub const HEADER_SIZE: usize = 16;

/// The size of the optional trainer block in bytes.
pub const TRAINER_SIZE: usize = 512;

/// The size of one program-code unit in bytes.
pub const PRG_ROM_UNIT_SIZE: usize = 0x4000;

/// The size of one graphics-data unit in bytes.
pub const CHR_ROM_UNIT_SIZE: usize = 0x2000;

/// The size of one graphics bank: half a graphics-data unit.
pub const CHR_ROM_BANK_SIZE: usize = 0x1000;

/// The fixed four-byte format signature that opens every valid header.
pub open spec fn magic_seq() -> Seq<u8> {
    seq![0x4eu8, 0x45u8, 0x53u8, 0x1au8]
}

/// The parsed cartridge header: one `Block` per named field over a copy
/// of the first 16 bytes of the image.
pub struct NesHeader {
    magic: Block,
    len_prg_rom: Block,
    len_chr_rom: Block,
    f6: Block,
    f7: Block,
    len_prg_ram: Block,
    f9: Block,
    f10: Block,
    reserved: Block,
    mem: Vec<u8>,
}

/// Ghost model of a `NesHeader`.
pub struct HeaderModel {
    pub magic: BlockModel,
    pub len_prg_rom: BlockModel,
    pub len_chr_rom: BlockModel,
    pub f6: BlockModel,
    pub f7: BlockModel,
    pub len_prg_ram: BlockModel,
    pub f9: BlockModel,
    pub f10: BlockModel,
    pub reserved: BlockModel,
    pub mem: Seq<u8>,
}

impl View for NesHeader {
    type V = HeaderModel;

    closed spec fn view(&self) -> HeaderModel {
        HeaderModel {
            magic: self.magic@,
            len_prg_rom: self.len_prg_rom@,
            len_chr_rom: self.len_chr_rom@,
            f6: self.f6@,
            f7: self.f7@,
            len_prg_ram: self.len_prg_ram@,
            f9: self.f9@,
            f10: self.f10@,
            reserved: self.reserved@,
            mem: self.mem@,
        }
    }
}

/// The bytes a header field renders with: its resolved value, or a
/// single zero byte while the field is unresolved.
pub open spec fn field_bytes(b: BlockModel) -> Seq<u8> {
    match b.value {
        Some(v) => v,
        None => seq![0u8],
    }
}

/// One line of the header dump.
pub open spec fn header_line(b: BlockModel) -> Seq<char> {
    "hex "@ + join_hex(field_bytes(b), seq![' '])
}

/// The full header dump: one `hex` line per field, in layout order,
/// joined by newlines.
pub open spec fn rendered_header(h: HeaderModel) -> Seq<char> {
    header_line(h.magic) + "\n"@ + header_line(h.len_prg_rom) + "\n"@ + header_line(h.len_chr_rom)
        + "\n"@ + header_line(h.f6) + "\n"@ + header_line(h.f7) + "\n"@ + header_line(
    h.len_prg_ram) + "\n"@ + header_line(h.f9) + "\n"@ + header_line(h.f10) + "\n"@ + header_line(
    h.reserved)
}

/// The fields of a header sit at their fixed layout offsets over a
/// 16-byte copy of the image's start.
pub open spec fn header_wf(h: HeaderModel) -> bool {
    &&& h.mem.len() == 16
    &&& h.magic.pos == 0 && h.magic.size == 4
    &&& h.len_prg_rom.pos == 4 && h.len_prg_rom.size == 1
    &&& h.len_chr_rom.pos == 5 && h.len_chr_rom.size == 1
    &&& h.f6.pos == 6 && h.f6.size == 1
    &&& h.f7.pos == 7 && h.f7.size == 1
    &&& h.len_prg_ram.pos == 8 && h.len_prg_ram.size == 1
    &&& h.f9.pos == 9 && h.f9.size == 1
    &&& h.f10.pos == 10 && h.f10.size == 1
    &&& h.reserved.pos == 11 && h.reserved.size == 5
}

/// All nine fields of a header have been resolved.
pub open spec fn header_parsed(h: HeaderModel) -> bool {
    &&& h.magic.value is Some
    &&& h.len_prg_rom.value is Some
    &&& h.len_chr_rom.value is Some
    &&& h.f6.value is Some
    &&& h.f7.value is Some
    &&& h.len_prg_ram.value is Some
    &&& h.f9.value is Some
    &&& h.f10.value is Some
    &&& h.reserved.value is Some
}

impl NesHeader {

    /// Build a header over the first 16 bytes of an image. The fields
    /// stay unresolved until `parse` runs.
    pub fn new(mem: &Vec<u8>) -> (r: Self)
        requires
            mem@.len() >= 16,
        ensures
            header_wf(r@),
            r@.mem == mem@.subrange(0, 16),
            !header_parsed(r@),
            r@.magic.value is None,
            r@.len_prg_rom.value is None,
            r@.len_chr_rom.value is None,
            r@.f6.value is None,
            r@.f7.value is None,
            r@.len_prg_ram.value is None,
            r@.f9.value is None,
            r@.f10.value is None,
            r@.reserved.value is None,
    {
        Self {
            magic: Block::new(0, 4),
            len_prg_rom: Block::new(4, 1),
            len_chr_rom: Block::new(5, 1),
            f6: Block::new(6, 1),
            f7: Block::new(7, 1),
            len_prg_ram: Block::new(8, 1),
            f9: Block::new(9, 1),
            f10: Block::new(10, 1),
            reserved: Block::new(11, 5),
            mem: vstd::slice::slice_to_vec(&mem.as_slice()[0..16]),
        }
    }

    /// A copy of the named field's block, or an empty default block for
    /// an unknown name.
    pub fn field(&self, key: &str) -> (r: Block)
        ensures
            key@ == "magic"@ ==> r@ == self@.magic,
            key@ == "len_prg_rom"@ ==> r@ == self@.len_prg_rom,
            key@ == "len_chr_rom"@ ==> r@ == self@.len_chr_rom,
            key@ == "f6"@ ==> r@ == self@.f6,
            key@ == "f7"@ ==> r@ == self@.f7,
            key@ == "len_prg_ram"@ ==> r@ == self@.len_prg_ram,
            key@ == "f9"@ ==> r@ == self@.f9,
            key@ == "f10"@ ==> r@ == self@.f10,
            key@ == "reserved"@ ==> r@ == self@.reserved,
            key@ != "magic"@ && key@ != "len_prg_rom"@ && key@ != "len_chr_rom"@ && key@ != "f6"@
                && key@ != "f7"@ && key@ != "len_prg_ram"@ && key@ != "f9"@ && key@ != "f10"@
                && key@ != "reserved"@ ==> r.pos == 0 && r.size == 0 && r.value is None,
    {
        proof {
            reveal_strlit("magic");
            reveal_strlit("len_prg_rom");
            reveal_strlit("len_chr_rom");
            reveal_strlit("f6");
            reveal_strlit("f7");
            reveal_strlit("len_prg_ram");
            reveal_strlit("f9");
            reveal_strlit("f10");
            reveal_strlit("reserved");
            assert("magic"@.len() == 5);
            assert("len_prg_rom"@.len() == 11);
            assert("len_chr_rom"@.len() == 11);
            assert("len_prg_ram"@.len() == 11);
            assert("f6"@.len() == 2);
            assert("f7"@.len() == 2);
            assert("f9"@.len() == 2);
            assert("f10"@.len() == 3);
            assert("reserved"@.len() == 8);
            assert("len_prg_rom"@[4] == 'p' && "len_chr_rom"@[4] == 'c' && "len_prg_ram"@[4]
                == 'p');
            assert("len_prg_rom"@[9] == 'o' && "len_prg_ram"@[9] == 'a');
            assert("f6"@[1] == '6' && "f7"@[1] == '7' && "f9"@[1] == '9');
        }
        if str_eq(key, "magic") {
            dup(&self.magic)
        } else if str_eq(key, "len_prg_rom") {
            dup(&self.len_prg_rom)
        } else if str_eq(key, "len_chr_rom") {
            dup(&self.len_chr_rom)
        } else if str_eq(key, "f6") {
            dup(&self.f6)
        } else if str_eq(key, "f7") {
            dup(&self.f7)
        } else if str_eq(key, "len_prg_ram") {
            dup(&self.len_prg_ram)
        } else if str_eq(key, "f9") {
            dup(&self.f9)
        } else if str_eq(key, "f10") {
            dup(&self.f10)
        } else if str_eq(key, "reserved") {
            dup(&self.reserved)
        } else {
            Block::default()
        }
    }

    /// Whether the header announces a trainer block: bit 2 of the
    /// resolved `f6` field. An unresolved field counts as no trainer.
    pub fn is_trainer(&self) -> (r: bool)
        ensures
            r == match self@.f6.value {
                Some(v) => v.len() > 0 && v[0] & 0x04 != 0,
                None => false,
            },
    {
        if let Some(value) = &self.f6.value {
            if value.len() > 0 {
                return value[0] & 0b0000_0100 != 0;
            }
        }

        false
    }

    /// Whether the header announces a nonempty graphics-data block: a
    /// nonzero resolved unit count. An unresolved field counts as none.
    pub fn is_chr(&self) -> (r: bool)
        ensures
            r == match self@.len_chr_rom.value {
                Some(v) => v.len() > 0 && v[0] > 0,
                None => false,
            },
    {
        if let Some(value) = &self.len_chr_rom.value {
            if value.len() > 0 {
                return value[0] > 0;
            }
        }

        false
    }

    /// Resolve all nine fields out of the header bytes, then verify the
    /// format signature. A wrong signature is fatal: without it no
    /// layout can be derived.
    pub fn parse(&mut self) -> (r: Result<(), NesError>)
        ensures
            final(self)@.mem == old(self)@.mem,
            header_wf(final(self)@) == header_wf(old(self)@),
            old(self)@.magic.pos == final(self)@.magic.pos,
            header_wf(old(self)@) ==> {
                &&& final(self)@.magic.value == Some(old(self)@.mem.subrange(0, 4))
                &&& final(self)@.len_prg_rom.value == Some(old(self)@.mem.subrange(4, 5))
                &&& final(self)@.len_chr_rom.value == Some(old(self)@.mem.subrange(5, 6))
                &&& final(self)@.f6.value == Some(old(self)@.mem.subrange(6, 7))
                &&& final(self)@.f7.value == Some(old(self)@.mem.subrange(7, 8))
                &&& final(self)@.len_prg_ram.value == Some(old(self)@.mem.subrange(8, 9))
                &&& final(self)@.f9.value == Some(old(self)@.mem.subrange(9, 10))
                &&& final(self)@.f10.value == Some(old(self)@.mem.subrange(10, 11))
                &&& final(self)@.reserved.value == Some(old(self)@.mem.subrange(11, 16))
                &&& header_parsed(final(self)@)
                &&& (r is Ok <==> old(self)@.mem.subrange(0, 4) == magic_seq())
            },
            r is Err ==> r == Err::<(), NesError>(NesError::WrongNesFormat),
    {
        let mem = vstd::slice::slice_to_vec(self.mem.as_slice());
        self.magic.value_from(&mem);
        self.len_prg_rom.value_from(&mem);
        self.len_chr_rom.value_from(&mem);
        self.f6.value_from(&mem);
        self.f7.value_from(&mem);
        self.len_prg_ram.value_from(&mem);
        self.f9.value_from(&mem);
        self.f10.value_from(&mem);
        self.reserved.value_from(&mem);

        self.check_magic()
    }

    /// Check the format signature of a resolved `magic` field. Anything
    /// but the fixed four bytes, an unresolved field included, is a
    /// format error.
    pub fn check_magic(&self) -> (r: Result<(), NesError>)
        ensures
            r is Ok <==> self@.magic.value == Some(magic_seq()),
            r is Err ==> r == Err::<(), NesError>(NesError::WrongNesFormat),
    {
        if let Some(v) = &self.magic.value {
            if v.len() == 4 && v[0] == 0x4e && v[1] == 0x45 && v[2] == 0x53 && v[3] == 0x1a {
                proof {
                    assert(self@.magic.value->Some_0 =~= magic_seq());
                }
                return Ok(());
            }
        }

        Err(NesError::WrongNesFormat)
    }

    /// The header dump: each field's bytes as a `hex` line, in layout
    /// order.
    pub fn render(&self) -> (r: String)
        ensures
            r@ == rendered_header(self@),
    {
        let mut r = render_field(&self.magic);
        r.append("\n");
        let s = render_field(&self.len_prg_rom);
        r.append(s.as_str());
        r.append("\n");
        let s = render_field(&self.len_chr_rom);
        r.append(s.as_str());
        r.append("\n");
        let s = render_field(&self.f6);
        r.append(s.as_str());
        r.append("\n");
        let s = render_field(&self.f7);
        r.append(s.as_str());
        r.append("\n");
        let s = render_field(&self.len_prg_ram);
        r.append(s.as_str());
        r.append("\n");
        let s = render_field(&self.f9);
        r.append(s.as_str());
        r.append("\n");
        let s = render_field(&self.f10);
        r.append(s.as_str());
        r.append("\n");
        let s = render_field(&self.reserved);
        r.append(s.as_str());
        r
    }
}

impl crate::models::Header for NesHeader {
    fn parse(&mut self) -> Result<(), NesError> {
        self.parse()
    }

    fn check_magic(&self) -> Result<(), NesError> {
        self.check_magic()
    }

    fn dump(&self) -> String {
        self.render()
    }
}

/// A structural copy of a block.
fn dup(b: &Block) -> (r: Block)
    ensures
        r@ == b@,
{
    Block {
        pos: b.pos,
        size: b.size,
        value: match &b.value {
            Some(v) => Some(vstd::slice::slice_to_vec(v.as_slice())),
            None => None,
        },
    }
}

/// One `hex` dump line for a header field.
fn render_field(b: &Block) -> (r: String)
    ensures
        r@ == header_line(b@),
{
    let bytes_str = match &b.value {
        Some(v) => vec_bytes_to_string(v),
        None => {
            let s = byte_to_hex(0);
            proof {
                assert(join_hex(seq![0u8], seq![' ']) == crate::util::hex_pair(0));
            }
            s
        },
    };
    String::from_str("hex ").concat(bytes_str.as_str())
}

} // verus!
