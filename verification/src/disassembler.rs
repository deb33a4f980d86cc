//! The disassembly pipeline: resolve the cartridge layout from the
//! header, walk the program-code block decoding one instruction per
//! step, align the raw-byte comments, and render the final listing.

use vstd::prelude::*;

use crate::block::{Block, BlockModel};
use crate::error::NesError;
use crate::header::{header_parsed, header_wf, magic_seq, rendered_header, HeaderModel, NesHeader,
    CHR_ROM_UNIT_SIZE, HEADER_SIZE, PRG_ROM_UNIT_SIZE, TRAINER_SIZE};
use crate::addressing::{rendered_arg, rendered_arg_sym};
use crate::line::{arg_addr, line_len, line_render, raw_arg_hex, rendered_line, Line, LineModel};
use crate::opcode::{get_nes_opcode, lemma_opcode_entry_bounds, lemma_opcode_mnemonic_len,
    opcode_len, opcode_mnemonic, opcode_model, OpCode, OpModel};
use crate::registers::{lemma_mapped_register_len, mapped_register};
use crate::util::{hex_word, join_bytes, join_hex, repeat_spaces, spaces, str_eq, word_to_hex};

verus! {

/// A named constant of the listing: a register address and its symbol.
pub type EquConst = (u16, String);

/// Whether an image opens with the fixed format signature.
pub open spec fn image_magic_ok(mem: Seq<u8>) -> bool {
    mem.subrange(0, 4) == magic_seq()
}

/// Whether an image announces a trainer block: bit 2 of its seventh
/// byte.
pub open spec fn image_trainer(mem: Seq<u8>) -> bool {
    mem[6] & 0x04 != 0
}

/// Where the program-code block starts: right after the header, shifted
/// by the fixed trainer size when a trainer is present.
pub open spec fn image_prg_start(mem: Seq<u8>) -> int {
    if image_trainer(mem) {
        528int
    } else {
        16int
    }
}

/// The size of the program-code block: its unit count times the unit
/// size.
pub open spec fn image_prg_size(mem: Seq<u8>) -> int {
    mem[4] * 0x4000
}

/// The size of the graphics-data block: its unit count times the unit
/// size.
pub open spec fn image_chr_size(mem: Seq<u8>) -> int {
    mem[5] * 0x2000
}

/// Where the program-code block ends, and the graphics-data block
/// starts.
pub open spec fn image_prg_end(mem: Seq<u8>) -> int {
    image_prg_start(mem) + image_prg_size(mem)
}

/// A freshly decoded line, before comment alignment: no label, no
/// comment, the operand rendered from the bytes under the table entry.
pub open spec fn decoded_line_model(bytes: Seq<u8>, op: OpModel) -> LineModel {
    LineModel { bytes, opcode: op, label: None, fmt_arg: line_render(bytes, op).0, comment: None }
}

/// The line decoded at `pc`: the instruction the opcode byte announces
/// when its operand fits before `end`; the bytes left over kept as one
/// raw data line otherwise, so that decoding never reads past `end`.
pub open spec fn decode_line_at(mem: Seq<u8>, pc: int, end: int) -> LineModel {
    let code = mem[pc];
    if pc + opcode_len(code) <= end {
        decoded_line_model(mem.subrange(pc, pc + opcode_len(code)), opcode_model(code))
    } else {
        let op = OpModel {
            code,
            mnemonic: "hex"@,
            len: (end - pc) as u8,
            mode: opcode_model(code).mode,
        };
        decoded_line_model(mem.subrange(pc, end), op)
    }
}

/// The program counter after the line at `pc`: advanced by the
/// instruction length, capped at the block's end.
pub open spec fn decode_next(mem: Seq<u8>, pc: int, end: int) -> int {
    if pc + opcode_len(mem[pc]) <= end {
        pc + opcode_len(mem[pc])
    } else {
        end
    }
}

/// The ordered sequence of lines decoded over `[pc, end)`.
pub open spec fn decode_lines(mem: Seq<u8>, pc: int, end: int) -> Seq<LineModel>
    decreases end - pc,
{
    if pc >= end {
        Seq::empty()
    } else {
        proof {
            lemma_opcode_entry_bounds();
        }
        seq![decode_line_at(mem, pc, end)] + decode_lines(mem, decode_next(mem, pc, end), end)
    }
}

/// The named constants collected over `[pc, end)`, first occurrence
/// first, appended to those already in `acc` and never repeated.
pub open spec fn decode_consts(mem: Seq<u8>, pc: int, end: int, acc: Seq<(u16, Seq<char>)>) -> Seq<
    (u16, Seq<char>),
>
    decreases end - pc,
{
    if pc >= end {
        acc
    } else {
        proof {
            lemma_opcode_entry_bounds();
        }
        let l = decode_line_at(mem, pc, end);
        let acc2 = match line_render(l.bytes, l.opcode).1 {
            Some(p) => if acc.contains(p) {
                acc
            } else {
                acc.push(p)
            },
            None => acc,
        };
        decode_consts(mem, decode_next(mem, pc, end), end, acc2)
    }
}

/// The ghost model of a vector of named constants.
pub open spec fn consts_model(s: Seq<(u16, String)>) -> Seq<(u16, Seq<char>)> {
    s.map_values(|p: (u16, String)| (p.0, p.1@))
}

/// The ghost model of a vector of lines.
pub open spec fn lines_model(s: Seq<Line>) -> Seq<LineModel> {
    s.map_values(|l: Line| l@)
}

/// The longest rendered length over a sequence of lines, 0 when empty.
pub open spec fn max_line_len(ls: Seq<LineModel>) -> int
    decreases ls.len(),
{
    if ls.len() == 0 {
        0
    } else if line_len(ls.last()) > max_line_len(ls.drop_last()) {
        line_len(ls.last())
    } else {
        max_line_len(ls.drop_last())
    }
}

/// A line with its right-aligned comment: padding spaces up to the
/// longest rendered length `n`, the fixed separator, then the line's
/// raw bytes in hexadecimal.
pub open spec fn aligned_line(l: LineModel, n: int) -> LineModel {
    LineModel {
        comment: Some(spaces((n - line_len(l)) as nat) + " ; "@ + join_hex(l.bytes, seq![' '])),
        ..l
    }
}

/// All lines with their comments aligned to one column.
pub open spec fn aligned(ls: Seq<LineModel>) -> Seq<LineModel> {
    Seq::new(ls.len(), |i: int| aligned_line(ls[i], max_line_len(ls)))
}

/// One `equ` declaration per named constant, in collection order.
pub open spec fn rendered_consts(cs: Seq<(u16, Seq<char>)>) -> Seq<char>
    decreases cs.len(),
{
    if cs.len() == 0 {
        Seq::empty()
    } else {
        rendered_consts(cs.drop_last()) + cs.last().1 + " equ $"@ + hex_word(cs.last().0) + "\n"@
    }
}

/// The instruction listing: every line's text in order.
pub open spec fn rendered_lines_text(ls: Seq<LineModel>) -> Seq<char>
    decreases ls.len(),
{
    if ls.len() == 0 {
        Seq::empty()
    } else {
        rendered_lines_text(ls.drop_last()) + rendered_line(ls.last())
    }
}

/// The full listing: the constants, the header dump, then the aligned
/// instruction lines, under their fixed section banners.
pub open spec fn rendered_output(d: DisasmModel) -> Seq<char> {
    "; Mapped registers\n\n"@ + rendered_consts(d.const_lines) + "\n; Header\n\n"@
        + rendered_header(d.header) + "\n"@ + "\n; PRG ROM\n\n"@ + rendered_lines_text(d.prg_lines)
}

/// Interacting with the NES header, the program-code block and the
/// graphics-data block of one image.
pub struct NesDisassembler {
    path: String,
    header: NesHeader,
    mem: Vec<u8>,
    const_lines: Vec<EquConst>,
    prg_lines: Vec<Line>,
    pc: usize,
    prg_rom: Block,
    chr_rom: Block,
}

/// Ghost model of a `NesDisassembler`.
pub struct DisasmModel {
    pub path: Seq<char>,
    pub header: HeaderModel,
    pub mem: Seq<u8>,
    pub const_lines: Seq<(u16, Seq<char>)>,
    pub prg_lines: Seq<LineModel>,
    pub pc: int,
    pub prg_rom: BlockModel,
    pub chr_rom: BlockModel,
}

impl View for NesDisassembler {
    type V = DisasmModel;

    closed spec fn view(&self) -> DisasmModel {
        DisasmModel {
            path: self.path@,
            header: self.header@,
            mem: self.mem@,
            const_lines: consts_model(self.const_lines@),
            prg_lines: lines_model(self.prg_lines@),
            pc: self.pc as int,
            prg_rom: self.prg_rom@,
            chr_rom: self.chr_rom@,
        }
    }
}

/// The disassembler holds a whole image and a header over its first 16
/// bytes.
pub open spec fn disasm_wf(d: DisasmModel) -> bool {
    &&& d.mem.len() >= 16
    &&& header_wf(d.header)
    &&& d.header.mem == d.mem.subrange(0, 16)
}

impl NesDisassembler {
    /// Take a whole image in, ready for `run`.
    pub fn new(path: &String, mem: &Vec<u8>) -> (r: Self)
        requires
            mem@.len() >= 16,
        ensures
            disasm_wf(r@),
            r@.path == path@,
            r@.mem == mem@,
            r@.const_lines == Seq::<(u16, Seq<char>)>::empty(),
            r@.prg_lines == Seq::<LineModel>::empty(),
            r@.pc == 0,
            r@.prg_rom.pos == 16 && r@.prg_rom.size == 0 && r@.prg_rom.value is None,
            r@.chr_rom.pos == 0 && r@.chr_rom.size == 0 && r@.chr_rom.value is None,
            !header_parsed(r@.header),
    {
        let r = Self {
            path: String::from_str(path.as_str()),
            header: NesHeader::new(mem),
            mem: vstd::slice::slice_to_vec(mem.as_slice()),
            const_lines: Vec::new(),
            prg_lines: Vec::new(),
            pc: 0,
            prg_rom: Block::new(HEADER_SIZE, 0),
            chr_rom: Block::new(0, 0),
        };
        proof {
            assert(consts_model(r.const_lines@) =~= Seq::<(u16, Seq<char>)>::empty());
            assert(lines_model(r.prg_lines@) =~= Seq::<LineModel>::empty());
        }
        r
    }

    /// Parse the header and resolve the layout: where the program-code
    /// and graphics-data blocks sit and how large they are, shifting
    /// past the trainer when one is present.
    pub fn parse(&mut self) -> (r: Result<(), NesError>)
        requires
            disasm_wf(old(self)@),
        ensures
            disasm_wf(final(self)@),
            final(self)@.path == old(self)@.path,
            final(self)@.mem == old(self)@.mem,
            final(self)@.const_lines == old(self)@.const_lines,
            final(self)@.prg_lines == old(self)@.prg_lines,
            r is Ok <==> image_magic_ok(old(self)@.mem),
            r is Err ==> r == Err::<(), NesError>(NesError::WrongNesFormat),
            r is Ok ==> {
                &&& header_parsed(final(self)@.header)
                &&& final(self)@.header == parsed_header_model(old(self)@.mem)
                &&& final(self)@.prg_rom.pos == image_prg_start(old(self)@.mem)
                &&& final(self)@.prg_rom.size == image_prg_size(old(self)@.mem)
                &&& final(self)@.chr_rom.pos == image_prg_end(old(self)@.mem)
                &&& final(self)@.chr_rom.size == image_chr_size(old(self)@.mem)
                &&& final(self)@.pc == image_prg_start(old(self)@.mem)
                &&& old(self)@.mem.len() >= image_prg_end(old(self)@.mem) ==> final(
                    self)@.prg_rom.value == Some(
                    old(self)@.mem.subrange(
                        image_prg_start(old(self)@.mem),
                        image_prg_end(old(self)@.mem),
                    ),
                )
                &&& old(self)@.mem.len() >= image_prg_end(old(self)@.mem) + image_chr_size(
                    old(self)@.mem,
                ) ==> final(self)@.chr_rom.value == Some(
                    old(self)@.mem.subrange(
                        image_prg_end(old(self)@.mem),
                        image_prg_end(old(self)@.mem) + image_chr_size(old(self)@.mem),
                    ),
                )
            },
    {
        let ghost m = self.mem@;
        match self.header.parse() {
            Ok(()) => {},
            Err(e) => {
                proof {
                    assert(m.subrange(0, 16).subrange(0, 4) =~= m.subrange(0, 4));
                }
                return Err(e);
            },
        }
        proof {
            assert(m.subrange(0, 16).subrange(0, 4) =~= m.subrange(0, 4));
            assert(m.subrange(0, 16).subrange(4, 5) =~= m.subrange(4, 5));
            assert(m.subrange(0, 16).subrange(5, 6) =~= m.subrange(5, 6));
            assert(m.subrange(0, 16).subrange(6, 7) =~= m.subrange(6, 7));
        }

        // Header size
        self.pc = HEADER_SIZE;
        self.prg_rom.pos = HEADER_SIZE;

        // Get header metadata
        let prg_units = match &self.header.field("len_prg_rom").value {
            Some(v) => v[0],
            None => 0,
        };
        let chr_units = match &self.header.field("len_chr_rom").value {
            Some(v) => v[0],
            None => 0,
        };
        proof {
            reveal_strlit("len_prg_rom");
            reveal_strlit("len_chr_rom");
            reveal_strlit("f6");
            assert("len_prg_rom"@[4] == 'p');
            assert("len_chr_rom"@[4] == 'c');
            assert(m.subrange(4, 5)[0] == m[4]);
            assert(m.subrange(5, 6)[0] == m[5]);
            assert(m.subrange(6, 7)[0] == m[6]);
        }
        proof {
            assert(m.subrange(0, 16).subrange(7, 8) =~= m.subrange(7, 8));
            assert(m.subrange(0, 16).subrange(8, 9) =~= m.subrange(8, 9));
            assert(m.subrange(0, 16).subrange(9, 10) =~= m.subrange(9, 10));
            assert(m.subrange(0, 16).subrange(10, 11) =~= m.subrange(10, 11));
            assert(m.subrange(0, 16).subrange(11, 16) =~= m.subrange(11, 16));
            assert(self.header@ == parsed_header_model(m));
        }
        self.prg_rom.size = prg_units as usize * PRG_ROM_UNIT_SIZE;
        self.chr_rom.size = chr_units as usize * CHR_ROM_UNIT_SIZE;

        // Check if there is the trainer (512 bytes)
        if self.header.is_trainer() {
            self.prg_rom.pos = HEADER_SIZE + TRAINER_SIZE;
            self.pc = self.prg_rom.pos;
        }
        self.chr_rom.pos = self.prg_rom.size + self.prg_rom.pos;

        // Fill the blocks
        let mem = vstd::slice::slice_to_vec(self.mem.as_slice());
        self.prg_rom.value_from(&mem);
        self.chr_rom.value_from(&mem);

        Ok(())
    }

    /// Decode the whole program-code block into lines, collecting each
    /// register symbol the operands resolve to, once, in order of first
    /// appearance.
    pub fn disassemble(&mut self) -> (r: Result<(), NesError>)
        requires
            disasm_wf(old(self)@),
            image_magic_ok(old(self)@.mem) ==> old(self)@.mem.len() >= image_prg_end(
                old(self)@.mem),
        ensures
            disasm_wf(final(self)@),
            final(self)@.path == old(self)@.path,
            final(self)@.mem == old(self)@.mem,
            r is Ok <==> image_magic_ok(old(self)@.mem),
            r is Err ==> r == Err::<(), NesError>(NesError::WrongNesFormat)
                && final(self)@.prg_lines == old(self)@.prg_lines && final(self)@.const_lines
                == old(self)@.const_lines,
            r is Ok ==> {
                &&& final(self)@.header == parsed_header_model(old(self)@.mem)
                &&& final(self)@.prg_rom.pos == image_prg_start(old(self)@.mem)
                &&& final(self)@.prg_rom.size == image_prg_size(old(self)@.mem)
                &&& final(self)@.chr_rom.pos == image_prg_end(old(self)@.mem)
                &&& final(self)@.chr_rom.size == image_chr_size(old(self)@.mem)
                &&& final(self)@.pc == image_prg_end(old(self)@.mem)
                &&& final(self)@.prg_lines == decode_lines(
                    old(self)@.mem,
                    image_prg_start(old(self)@.mem),
                    image_prg_end(old(self)@.mem),
                )
                &&& final(self)@.const_lines == decode_consts(
                    old(self)@.mem,
                    image_prg_start(old(self)@.mem),
                    image_prg_end(old(self)@.mem),
                    old(self)@.const_lines,
                )
                &&& old(self)@.mem.len() >= image_prg_end(old(self)@.mem) + image_chr_size(
                    old(self)@.mem,
                ) ==> final(self)@.chr_rom.value == Some(
                    old(self)@.mem.subrange(
                        image_prg_end(old(self)@.mem),
                        image_prg_end(old(self)@.mem) + image_chr_size(old(self)@.mem),
                    ),
                )
            },
    {
        let ghost m = self.mem@;
        let ghost acc0 = consts_model(self.const_lines@);

        // Header parsing + link metadata
        match self.parse() {
            Ok(()) => {},
            Err(e) => {
                return Err(e);
            },
        }
        self.prg_lines = Vec::new();

        let ghost start = image_prg_start(m);
        let ghost end_g = image_prg_end(m);
        proof {
            lemma_opcode_entry_bounds();
            assert(image_prg_size(m) <= 255 * 0x4000);
            assert(lines_model(self.prg_lines@) =~= Seq::<LineModel>::empty());
            assert(decode_lines(m, start, end_g) =~= lines_model(self.prg_lines@) + decode_lines(
                m, self.pc as int, end_g));
        }
        let end = self.prg_rom.pos + self.prg_rom.size;

        let ghost path0 = self.path@;
        let ghost header0 = self.header@;
        let ghost prg_rom0 = self.prg_rom@;
        let ghost chr_rom0 = self.chr_rom@;

        // Disassemble
        while self.pc < end
            invariant
                self.mem@ == m,
                self.path@ == path0,
                self.header@ == header0,
                self.prg_rom@ == prg_rom0,
                self.chr_rom@ == chr_rom0,
                start <= self.pc <= end,
                end == end_g,
                m.len() >= end_g,
                decode_lines(m, start, end_g) == lines_model(self.prg_lines@) + decode_lines(
                    m, self.pc as int, end_g),
                decode_consts(m, start, end_g, acc0) == decode_consts(
                    m, self.pc as int, end_g, consts_model(self.const_lines@)),
            decreases end - self.pc,
        {
            proof {
                lemma_opcode_entry_bounds();
            }
            // Check if the opcode has been implemented
            let byte = self.mem[self.pc];
            let code = match get_nes_opcode(&byte) {
                Some(value) => value,
                None => {
                    proof {
                        assert(false);
                    }
                    return Err(NesError::NotImplementedOpcode);
                },
            };

            let len = code.len as usize;
            let ghost pc_g = self.pc as int;
            let ghost consts_g = consts_model(self.const_lines@);

            let mut line = if len <= end - self.pc {
                let code_bytes = vstd::slice::slice_to_vec(
                    &self.mem.as_slice()[self.pc..self.pc + len],
                );
                // Next line
                self.pc = self.pc + len;
                Line {
                    bytes: code_bytes,
                    opcode: code,
                    label: None,
                    fmt_arg: String::new(),
                    comment: None,
                }
            } else {
                // The bytes left in the block cannot hold this
                // instruction's operand: keep them as one raw data line
                // and halt exactly at the block boundary.
                let rem = end - self.pc;
                let code_bytes = vstd::slice::slice_to_vec(&self.mem.as_slice()[self.pc..end]);
                let op = OpCode { code: byte, mnemonic: "hex", len: rem as u8, mode: code.mode };
                self.pc = end;
                Line { bytes: code_bytes, opcode: op, label: None, fmt_arg: String::new(), comment: None }
            };

            let equ = line.fmt();
            proof {
                assert(line@ == decode_line_at(m, pc_g, end_g));
                assert(self.pc as int == decode_next(m, pc_g, end_g));
            }
            if let Some(equ) = equ {
                if !const_seen(&self.const_lines, equ.0, equ.1.as_str()) {
                    let ghost p = (equ.0, equ.1@);
                    self.const_lines.push(equ);
                    proof {
                        assert(consts_model(self.const_lines@) =~= consts_g.push(p));
                    }
                }
            }

            // Fill self.prg_lines
            let ghost lines_g = lines_model(self.prg_lines@);
            self.prg_lines.push(line);
            proof {
                assert(lines_model(self.prg_lines@) =~= lines_g.push(line@));
                assert(lines_g + decode_lines(m, pc_g, end_g) =~= lines_g.push(
                    decode_line_at(m, pc_g, end_g)) + decode_lines(m, self.pc as int, end_g));
            }
        }

        proof {
            assert(decode_lines(m, self.pc as int, end_g) =~= Seq::<LineModel>::empty());
            assert(lines_model(self.prg_lines@) + Seq::<LineModel>::empty() =~= lines_model(
                self.prg_lines@));
        }

        Ok(())
    }
}

/// No line is longer than the longest line.
pub proof fn lemma_max_line_len_ge(ls: Seq<LineModel>, i: int)
    requires
        0 <= i < ls.len(),
    ensures
        line_len(ls[i]) <= max_line_len(ls),
    decreases ls.len(),
{
    if i < ls.len() - 1 {
        lemma_max_line_len_ge(ls.drop_last(), i);
        assert(ls.drop_last()[i] == ls[i]);
    }
}

/// The rendered length of a `hex` join: two digits per byte plus the
/// separators between them.
pub proof fn lemma_join_hex_len(s: Seq<u8>, sep: Seq<char>)
    ensures
        s.len() == 0 ==> join_hex(s, sep).len() == 0,
        s.len() >= 1 ==> join_hex(s, sep).len() == 2 * s.len() + (s.len() - 1) * sep.len(),
        sep.len() == 0 ==> join_hex(s, sep).len() == 2 * s.len(),
        s.len() >= 1 && sep.len() == 1 ==> join_hex(s, sep).len() == 3 * s.len() - 1,
    decreases s.len(),
{
    if s.len() == 0 {
        assert(join_hex(s, sep).len() == 0);
    } else if s.len() == 1 {
        assert(join_hex(s, sep) == crate::util::hex_pair(s[0]));
        assert((s.len() - 1) * sep.len() == 0) by (nonlinear_arith)
            requires
                s.len() == 1,
        ;
        assert(join_hex(s, sep).len() == 2);
    } else {
        lemma_join_hex_len(s.drop_last(), sep);
        assert(join_hex(s, sep) == join_hex(s.drop_last(), sep) + sep + crate::util::hex_pair(
            s.last()));
        assert((s.len() - 2) * sep.len() + sep.len() == (s.len() - 1) * sep.len())
            by (nonlinear_arith);
        assert(join_hex(s, sep).len() == join_hex(s.drop_last(), sep).len() + sep.len() + 2);
    }
    if s.len() >= 1 && sep.len() == 0 {
        assert((s.len() - 1) * sep.len() == 0) by (nonlinear_arith)
            requires
                sep.len() == 0,
        ;
    }
    if s.len() >= 1 && sep.len() == 1 {
        assert((s.len() - 1) * sep.len() == s.len() - 1) by (nonlinear_arith)
            requires
                s.len() >= 1 && sep.len() == 1,
        ;
    }
}

/// Every freshly decoded line is short: at most three raw bytes, no
/// label or comment yet, and a bounded rendered length.
pub proof fn lemma_decode_line_len(mem: Seq<u8>, pc: int, end: int)
    requires
        0 <= pc < end <= mem.len(),
    ensures
        1 <= decode_line_at(mem, pc, end).bytes.len() <= 3,
        decode_line_at(mem, pc, end).label is None,
        decode_line_at(mem, pc, end).comment is None,
        line_len(decode_line_at(mem, pc, end)) <= 100,
{
    lemma_opcode_entry_bounds();
    lemma_opcode_mnemonic_len();
    lemma_mapped_register_len();
    reveal_strlit("hex");
    reveal_strlit("$");
    reveal_strlit("#$");
    reveal_strlit("($");
    reveal_strlit("(");
    reveal_strlit(", x");
    reveal_strlit(", y");
    reveal_strlit(", x)");
    reveal_strlit("), y");
    assert("hex"@.len() == 3);
    assert("$"@.len() == 1 && "#$"@.len() == 2 && "($"@.len() == 2 && "("@.len() == 1);
    assert(", x"@.len() == 3 && ", y"@.len() == 3 && ", x)"@.len() == 4 && "), y"@.len() == 4);
    let code = mem[pc];
    let l = decode_line_at(mem, pc, end);
    assert(1 <= l.bytes.len() <= 3);
    assert(opcode_mnemonic(code).len() == 3);
    assert(l.opcode.mnemonic.len() == 3);
    lemma_join_hex_len(l.bytes.skip(1), seq![' ']);
    lemma_join_hex_len(l.bytes.skip(1).reverse(), Seq::empty());
    assert(l.bytes.skip(1).reverse().len() == l.bytes.skip(1).len());
    if l.opcode.mnemonic == "hex"@ {
        assert(l.fmt_arg == join_hex(l.bytes.skip(1), seq![' ']));
        assert(l.fmt_arg.len() <= 5);
    } else {
        assert(raw_arg_hex(l.bytes).len() <= 4);
        if l.bytes.len() >= 3 && mapped_register(arg_addr(l.bytes)) is Some {
            let name = mapped_register(arg_addr(l.bytes))->Some_0;
            assert(name.len() <= 10);
            assert(l.fmt_arg == rendered_arg_sym(l.opcode.mode, name));
            assert(l.fmt_arg.len() <= 16);
        } else {
            assert(l.fmt_arg == rendered_arg(l.opcode.mode, raw_arg_hex(l.bytes)));
            assert(l.fmt_arg.len() <= 11);
        }
    }
}

/// Every decoded line of a block is short.
pub proof fn lemma_decode_lines_bounded(mem: Seq<u8>, pc: int, end: int)
    requires
        0 <= pc <= end <= mem.len(),
    ensures
        forall|i: int|
            0 <= i < decode_lines(mem, pc, end).len() ==> line_len(
                #[trigger] decode_lines(mem, pc, end)[i],
            ) <= 100,
    decreases end - pc,
{
    if pc < end {
        lemma_opcode_entry_bounds();
        lemma_decode_line_len(mem, pc, end);
        lemma_decode_lines_bounded(mem, decode_next(mem, pc, end), end);
        assert forall|i: int| 0 <= i < decode_lines(mem, pc, end).len() implies line_len(
            #[trigger] decode_lines(mem, pc, end)[i],
        ) <= 100 by {
            if i > 0 {
                assert(decode_lines(mem, pc, end)[i] == decode_lines(
                    mem, decode_next(mem, pc, end), end)[i - 1]);
            }
        }
    }
}

impl NesDisassembler {
    /// Give every line a right-aligned comment holding its raw bytes:
    /// pad with spaces to the longest rendered length, so that every
    /// comment starts in the same output column.
    pub fn add_comments(&mut self)
        requires
            forall|i: int|
                0 <= i < old(self)@.prg_lines.len() ==> line_len(#[trigger] old(
                    self,
                )@.prg_lines[i]) <= usize::MAX,
        ensures
            final(self)@.prg_lines == aligned(old(self)@.prg_lines),
            final(self)@.path == old(self)@.path,
            final(self)@.header == old(self)@.header,
            final(self)@.mem == old(self)@.mem,
            final(self)@.const_lines == old(self)@.const_lines,
            final(self)@.pc == old(self)@.pc,
            final(self)@.prg_rom == old(self)@.prg_rom,
            final(self)@.chr_rom == old(self)@.chr_rom,
    {
        let ghost ls0 = lines_model(self.prg_lines@);
        let ghost path0 = self.path@;
        let ghost header0 = self.header@;
        let ghost mem0 = self.mem@;
        let ghost consts0 = consts_model(self.const_lines@);
        let ghost pc0 = self.pc@;
        let ghost prg_rom0 = self.prg_rom@;
        let ghost chr_rom0 = self.chr_rom@;

        let count = self.prg_lines.len();
        proof {
            assert(ls0 == old(self)@.prg_lines);
            assert forall|j: int| 0 <= j < ls0.len() implies line_len(#[trigger] ls0[j])
                <= usize::MAX by {
                assert(line_len(old(self)@.prg_lines[j]) <= usize::MAX);
            }
        }

        // The longest rendered length over all lines, 0 if there are
        // none.
        let mut n: usize = 0;
        let mut i: usize = 0;
        while i < count
            invariant
                i <= count,
                count == self.prg_lines@.len(),
                count == ls0.len(),
                lines_model(self.prg_lines@) == ls0,
                forall|j: int| 0 <= j < ls0.len() ==> line_len(#[trigger] ls0[j]) <= usize::MAX,
                n == max_line_len(ls0.take(i as int)),
            decreases count - i,
        {
            proof {
                assert(ls0[i as int] == self.prg_lines@[i as int]@);
            }
            let l = self.prg_lines[i].len();
            if l > n {
                n = l;
            }
            proof {
                assert(ls0.take(i + 1).drop_last() =~= ls0.take(i as int));
                assert(ls0.take(i + 1).last() == ls0[i as int]);
            }
            i = i + 1;
        }
        proof {
            assert(ls0.take(count as int) =~= ls0);
        }

        let mut i: usize = 0;
        while i < count
            invariant
                i <= count,
                count == self.prg_lines@.len(),
                count == ls0.len(),
                n == max_line_len(ls0),
                forall|j: int| 0 <= j < ls0.len() ==> line_len(#[trigger] ls0[j]) <= usize::MAX,
                forall|j: int|
                    i <= j < count ==> lines_model(self.prg_lines@)[j] == #[trigger] ls0[j],
                forall|j: int|
                    0 <= j < i ==> lines_model(self.prg_lines@)[j] == aligned_line(
                        #[trigger] ls0[j],
                        n as int,
                    ),
                self.path@ == path0,
                self.header@ == header0,
                self.mem@ == mem0,
                consts_model(self.const_lines@) == consts0,
                self.pc@ == pc0,
                self.prg_rom@ == prg_rom0,
                self.chr_rom@ == chr_rom0,
            decreases count - i,
        {
            proof {
                lemma_max_line_len_ge(ls0, i as int);
                assert(lines_model(self.prg_lines@)[i as int] == self.prg_lines@[i as int]@);
            }
            let l_len = self.prg_lines[i].len();
            let spaces_str = repeat_spaces(n - l_len);
            let bytes_str = join_bytes(self.prg_lines[i].bytes.as_slice(), " ");
            let mut comment = spaces_str;
            comment.append(" ; ");
            comment.append(bytes_str.as_str());
            proof {
                reveal_strlit(" ");
                assert(" "@ =~= seq![' ']);
                assert(comment@ =~= spaces((n - line_len(ls0[i as int])) as nat) + " ; "@
                    + join_hex(ls0[i as int].bytes, seq![' ']));
            }
            self.prg_lines[i].comment = Some(comment);
            proof {
                assert(lines_model(self.prg_lines@)[i as int] == aligned_line(
                    ls0[i as int], n as int));
            }
            i = i + 1;
        }
        proof {
            assert(lines_model(self.prg_lines@) =~= aligned(ls0));
        }
    }
}

impl NesDisassembler {
    /// The full listing as text: the collected constants, the header
    /// dump, then every aligned instruction line.
    pub fn fmt_lines(&self) -> (r: String)
        ensures
            r@ == rendered_output(self@),
    {
        let mut ret = String::from_str("; Mapped registers\n\n");

        let ghost cs = consts_model(self.const_lines@);
        let clen = self.const_lines.len();
        let mut i: usize = 0;
        while i < clen
            invariant
                i <= clen,
                clen == self.const_lines@.len(),
                clen == cs.len(),
                cs == consts_model(self.const_lines@),
                ret@ == "; Mapped registers\n\n"@ + rendered_consts(cs.take(i as int)),
            decreases clen - i,
        {
            let p = &self.const_lines[i];
            ret.append(p.1.as_str());
            ret.append(" equ $");
            let h = word_to_hex(p.0);
            ret.append(h.as_str());
            ret.append("\n");
            proof {
                assert(cs.take(i + 1).drop_last() =~= cs.take(i as int));
                assert(cs.take(i + 1).last() == cs[i as int]);
                assert(ret@ =~= "; Mapped registers\n\n"@ + rendered_consts(cs.take(i + 1)));
            }
            i = i + 1;
        }
        proof {
            assert(cs.take(clen as int) =~= cs);
        }

        // Dumping header
        ret.append("\n; Header\n\n");
        let h = self.header.render();
        ret.append(h.as_str());
        ret.append("\n");

        // Dumping PRG
        ret.append("\n; PRG ROM\n\n");

        let ghost ls = lines_model(self.prg_lines@);
        let ghost head = "; Mapped registers\n\n"@ + rendered_consts(cs) + "\n; Header\n\n"@
            + rendered_header(self@.header) + "\n"@ + "\n; PRG ROM\n\n"@;
        proof {
            assert(ret@ =~= head + rendered_lines_text(ls.take(0)));
        }
        let llen = self.prg_lines.len();
        let mut i: usize = 0;
        while i < llen
            invariant
                i <= llen,
                llen == self.prg_lines@.len(),
                llen == ls.len(),
                ls == lines_model(self.prg_lines@),
                head == "; Mapped registers\n\n"@ + rendered_consts(cs) + "\n; Header\n\n"@
                    + rendered_header(self@.header) + "\n"@ + "\n; PRG ROM\n\n"@,
                ret@ == head + rendered_lines_text(ls.take(i as int)),
            decreases llen - i,
        {
            let line_str = self.prg_lines[i].render();
            ret.append(line_str.as_str());
            proof {
                assert(ls.take(i + 1).drop_last() =~= ls.take(i as int));
                assert(ls.take(i + 1).last() == ls[i as int]);
                assert(ret@ =~= head + rendered_lines_text(ls.take(i + 1)));
            }
            i = i + 1;
        }
        proof {
            assert(ls.take(llen as int) =~= ls);
            assert(ret@ =~= rendered_output(self@));
        }
        ret
    }

    /// The path of the image this session was opened over.
    pub fn path(&self) -> (r: &String)
        ensures
            r@ == self@.path,
    {
        &self.path
    }

    /// The resolved bytes of the graphics-data block, if the image held
    /// them.
    pub fn chr_data(&self) -> (r: &Option<Vec<u8>>)
        ensures
            r matches Some(v) ==> self@.chr_rom.value == Some(v@),
            r is None ==> self@.chr_rom.value is None,
    {
        &self.chr_rom.value
    }

    /// The whole pipeline: parse the header, resolve the layout, decode
    /// the program-code block and align the comments. After a run the
    /// listing is ready to be rendered by `fmt_lines`.
    pub fn run(&mut self) -> (r: Result<(), NesError>)
        requires
            disasm_wf(old(self)@),
            image_magic_ok(old(self)@.mem) ==> old(self)@.mem.len() >= image_prg_end(
                old(self)@.mem),
        ensures
            disasm_wf(final(self)@),
            final(self)@.path == old(self)@.path,
            final(self)@.mem == old(self)@.mem,
            r is Ok <==> image_magic_ok(old(self)@.mem),
            r is Err ==> r == Err::<(), NesError>(NesError::WrongNesFormat),
            r is Ok && old(self)@.const_lines == Seq::<(u16, Seq<char>)>::empty()
                ==> rendered_output(final(self)@) == pipeline_text(old(self)@.mem),
            r is Ok ==> {
                &&& final(self)@.header == parsed_header_model(old(self)@.mem)
                &&& final(self)@.prg_lines == aligned(
                    decode_lines(
                        old(self)@.mem,
                        image_prg_start(old(self)@.mem),
                        image_prg_end(old(self)@.mem),
                    ),
                )
                &&& final(self)@.const_lines == decode_consts(
                    old(self)@.mem,
                    image_prg_start(old(self)@.mem),
                    image_prg_end(old(self)@.mem),
                    old(self)@.const_lines,
                )
                &&& final(self)@.chr_rom.pos == image_prg_end(old(self)@.mem)
                &&& final(self)@.chr_rom.size == image_chr_size(old(self)@.mem)
                &&& old(self)@.mem.len() >= image_prg_end(old(self)@.mem) + image_chr_size(
                    old(self)@.mem,
                ) ==> final(self)@.chr_rom.value == Some(
                    old(self)@.mem.subrange(
                        image_prg_end(old(self)@.mem),
                        image_prg_end(old(self)@.mem) + image_chr_size(old(self)@.mem),
                    ),
                )
            },
    {
        let ghost m = self.mem@;
        match self.disassemble() {
            Ok(()) => {},
            Err(e) => {
                return Err(e);
            },
        }
        proof {
            lemma_decode_lines_bounded(m, image_prg_start(m), image_prg_end(m));
        }
        self.add_comments();
        proof {
            if old(self)@.const_lines == Seq::<(u16, Seq<char>)>::empty() {
                assert(rendered_output(self@) =~= pipeline_text(m));
            }
        }
        Ok(())
    }
}

/// The bytes one line consumed, over a whole decoded sequence.
pub open spec fn total_line_bytes(ls: Seq<LineModel>) -> int
    decreases ls.len(),
{
    if ls.len() == 0 {
        0
    } else {
        ls[0].bytes.len() + total_line_bytes(ls.skip(1))
    }
}

/// Decoding consumes the block exactly: the bytes of the decoded lines
/// add up to the block's size, never more — the walk halts on the
/// block's end boundary — and an empty block decodes to no lines at
/// all.
pub proof fn lemma_decode_exact_consumption(mem: Seq<u8>, pc: int, end: int)
    requires
        0 <= pc <= end <= mem.len(),
    ensures
        total_line_bytes(decode_lines(mem, pc, end)) == end - pc,
        pc == end ==> decode_lines(mem, pc, end) == Seq::<LineModel>::empty(),
    decreases end - pc,
{
    if pc >= end {
        assert(total_line_bytes(decode_lines(mem, pc, end)) == 0);
    } else {
        lemma_opcode_entry_bounds();
        let next = decode_next(mem, pc, end);
        lemma_decode_exact_consumption(mem, next, end);
        let l0 = decode_line_at(mem, pc, end);
        let rest = decode_lines(mem, next, end);
        assert((seq![l0] + rest)[0] == l0);
        assert((seq![l0] + rest).skip(1) =~= rest);
        assert(l0.bytes.len() == next - pc);
    }
}

/// A sequence of named constants without a repeated pair.
pub open spec fn distinct_consts(s: Seq<(u16, Seq<char>)>) -> bool {
    forall|i: int, j: int| 0 <= i < j < s.len() ==> s[i] != s[j]
}

/// Collecting constants never repeats a pair and never reorders or
/// drops what was already collected: the result extends `acc`, in
/// order, by first occurrence.
pub proof fn lemma_constants_unique(mem: Seq<u8>, pc: int, end: int, acc: Seq<(u16, Seq<char>)>)
    requires
        distinct_consts(acc),
    ensures
        distinct_consts(decode_consts(mem, pc, end, acc)),
        decode_consts(mem, pc, end, acc).len() >= acc.len(),
        forall|i: int| 0 <= i < acc.len() ==> decode_consts(mem, pc, end, acc)[i] == acc[i],
    decreases end - pc,
{
    if pc >= end {
    } else {
        lemma_opcode_entry_bounds();
        let l = decode_line_at(mem, pc, end);
        let acc2 = match line_render(l.bytes, l.opcode).1 {
            Some(p) => if acc.contains(p) {
                acc
            } else {
                acc.push(p)
            },
            None => acc,
        };
        match line_render(l.bytes, l.opcode).1 {
            Some(p) => {
                if !acc.contains(p) {
                    assert(forall|i: int| 0 <= i < acc.len() ==> acc[i] != p);
                    assert(forall|i: int|
                        0 <= i < acc.len() ==> #[trigger] acc.push(p)[i] == acc[i]);
                    assert(acc.push(p)[acc.len() as int] == p);
                }
            },
            None => {},
        }
        assert(distinct_consts(acc2));
        assert(acc2.len() >= acc.len());
        assert(forall|i: int| 0 <= i < acc.len() ==> acc2[i] == acc[i]);
        lemma_constants_unique(mem, decode_next(mem, pc, end), end, acc2);
        assert(decode_consts(mem, pc, end, acc) == decode_consts(
            mem, decode_next(mem, pc, end), end, acc2));
    }
}

/// The header a successful parse leaves behind: all nine fields
/// resolved at their fixed offsets over the image's first 16 bytes.
pub open spec fn parsed_header_model(mem: Seq<u8>) -> HeaderModel {
    let hm = mem.subrange(0, 16);
    HeaderModel {
        magic: BlockModel { pos: 0, size: 4, value: Some(hm.subrange(0, 4)) },
        len_prg_rom: BlockModel { pos: 4, size: 1, value: Some(hm.subrange(4, 5)) },
        len_chr_rom: BlockModel { pos: 5, size: 1, value: Some(hm.subrange(5, 6)) },
        f6: BlockModel { pos: 6, size: 1, value: Some(hm.subrange(6, 7)) },
        f7: BlockModel { pos: 7, size: 1, value: Some(hm.subrange(7, 8)) },
        len_prg_ram: BlockModel { pos: 8, size: 1, value: Some(hm.subrange(8, 9)) },
        f9: BlockModel { pos: 9, size: 1, value: Some(hm.subrange(9, 10)) },
        f10: BlockModel { pos: 10, size: 1, value: Some(hm.subrange(10, 11)) },
        reserved: BlockModel { pos: 11, size: 5, value: Some(hm.subrange(11, 16)) },
        mem: hm,
    }
}

/// The text a fresh pipeline run renders for a well-formed image: a
/// function of the image bytes alone.
pub open spec fn pipeline_text(mem: Seq<u8>) -> Seq<char> {
    "; Mapped registers\n\n"@ + rendered_consts(
        decode_consts(mem, image_prg_start(mem), image_prg_end(mem), Seq::empty()),
    ) + "\n; Header\n\n"@ + rendered_header(parsed_header_model(mem)) + "\n"@ + "\n; PRG ROM\n\n"@
        + rendered_lines_text(
        aligned(decode_lines(mem, image_prg_start(mem), image_prg_end(mem))),
    )
}

/// The pipeline is deterministic: running it over byte-identical
/// images renders byte-identical listings.
pub proof fn lemma_pipeline_deterministic(m1: Seq<u8>, m2: Seq<u8>)
    requires
        m1 == m2,
    ensures
        pipeline_text(m1) == pipeline_text(m2),
{
}

/// Every aligned comment begins in the same output column: each line
/// is padded with spaces up to the longest rendered length, and the
/// fixed ` ; ` separator follows right after, whatever the line's own
/// width.
pub proof fn lemma_comments_aligned(ls: Seq<LineModel>)
    ensures
        forall|i: int|
            0 <= i < aligned(ls).len() ==> {
                let n = max_line_len(ls);
                let pad = n - line_len(ls[i]);
                &&& (#[trigger] aligned(ls)[i]).comment is Some
                &&& pad >= 0
                &&& aligned(ls)[i].comment->Some_0.len() >= pad + 3
                &&& (forall|j: int|
                    0 <= j < pad ==> aligned(ls)[i].comment->Some_0[j] == ' ')
                &&& aligned(ls)[i].comment->Some_0[pad] == ' '
                &&& aligned(ls)[i].comment->Some_0[pad + 1] == ';'
                &&& aligned(ls)[i].comment->Some_0[pad + 2] == ' '
                &&& line_len(ls[i]) + pad == n
            },
{
    reveal_strlit(" ; ");
    assert(" ; "@.len() == 3);
    assert(" ; "@[0] == ' ' && " ; "@[1] == ';' && " ; "@[2] == ' ');
    assert forall|i: int| 0 <= i < aligned(ls).len() implies {
        let n = max_line_len(ls);
        let pad = n - line_len(ls[i]);
        &&& (#[trigger] aligned(ls)[i]).comment is Some
        &&& pad >= 0
        &&& aligned(ls)[i].comment->Some_0.len() >= pad + 3
        &&& (forall|j: int| 0 <= j < pad ==> aligned(ls)[i].comment->Some_0[j] == ' ')
        &&& aligned(ls)[i].comment->Some_0[pad] == ' '
        &&& aligned(ls)[i].comment->Some_0[pad + 1] == ';'
        &&& aligned(ls)[i].comment->Some_0[pad + 2] == ' '
        &&& line_len(ls[i]) + pad == n
    } by {
        lemma_max_line_len_ge(ls, i);
        let n = max_line_len(ls);
        let pad = n - line_len(ls[i]);
        let c = aligned(ls)[i].comment->Some_0;
        assert(c == spaces(pad as nat) + " ; "@ + join_hex(ls[i].bytes, seq![' ']));
        assert(spaces(pad as nat).len() == pad);
        assert(forall|j: int| 0 <= j < pad ==> c[j] == spaces(pad as nat)[j]);
        assert(c[pad] == " ; "@[0]);
        assert(c[pad + 1] == " ; "@[1]);
        assert(c[pad + 2] == " ; "@[2]);
    }
}

/// Whether a named constant is already in the collected list.
fn const_seen(consts: &Vec<EquConst>, value: u16, name: &str) -> (r: bool)
    ensures
        r == consts_model(consts@).contains((value, name@)),
{
    let mut i: usize = 0;
    let len = consts.len();
    while i < len
        invariant
            i <= len,
            len == consts@.len(),
            forall|j: int| 0 <= j < i ==> consts_model(consts@)[j] != (value, name@),
        decreases len - i,
    {
        let p = &consts[i];
        if p.0 == value && str_eq(p.1.as_str(), name) {
            proof {
                assert(consts_model(consts@)[i as int] == (value, name@));
            }
            return true;
        }
        i = i + 1;
    }
    proof {
        assert(forall|j: int| 0 <= j < consts_model(consts@).len() ==> consts_model(consts@)[j]
            != (value, name@));
    }
    false
}

} // verus!
