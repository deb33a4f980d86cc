//! One decoded instruction: the raw bytes consumed, the table entry
//! they matched, and the rendered operand, label and comment.

use vstd::prelude::*;

use crate::addressing::{rendered_arg, rendered_arg_sym};
use crate::opcode::{OpCode, OpModel};
use crate::registers::{get_mapped_register, mapped_register};
use crate::util::{join_hex, reverse_bytes, str_eq, u16_from_mem, unwrap_str, unwrap_str_spec,
    vec_bytes_to_string};

verus! {

/// One line of the disassembly listing.
pub struct Line {
    pub bytes: Vec<u8>,
    pub opcode: OpCode,
    pub label: Option<String>,
    pub fmt_arg: String,
    pub comment: Option<String>,
}

/// Ghost model of a `Line`.
pub struct LineModel {
    pub bytes: Seq<u8>,
    pub opcode: OpModel,
    pub label: Option<Seq<char>>,
    pub fmt_arg: Seq<char>,
    pub comment: Option<Seq<char>>,
}

impl View for Line {
    type V = LineModel;

    open spec fn view(&self) -> LineModel {
        LineModel {
            bytes: self.bytes@,
            opcode: self.opcode@,
            label: match self.label {
                Some(ref s) => Some(s@),
                None => None,
            },
            fmt_arg: self.fmt_arg@,
            comment: match self.comment {
                Some(ref s) => Some(s@),
                None => None,
            },
        }
    }
}

/// The rendered length of a line: label, mnemonic, operand and comment
/// added up.
pub open spec fn line_len(l: LineModel) -> int {
    (match l.comment {
        Some(c) => c.len() as int,
        None => 0,
    }) + (match l.label {
        Some(s) => s.len() as int,
        None => 0,
    }) + l.opcode.mnemonic.len() + l.fmt_arg.len()
}

/// The operand bytes of a line in natural reading order, as hexadecimal
/// digits: the cartridge stores 16-bit operands little-endian, so the
/// bytes after the opcode are reversed before rendering.
pub open spec fn raw_arg_hex(bytes: Seq<u8>) -> Seq<char> {
    join_hex(bytes.skip(1).reverse(), Seq::empty())
}

/// The 16-bit address held by a two-byte operand, little-endian.
pub open spec fn arg_addr(bytes: Seq<u8>) -> u16 {
    ((bytes[2] as int) * 256 + (bytes[1] as int)) as u16
}

/// The formatted operand of an instruction line, and the named constant
/// it resolved to, if its two-byte operand is a mapped register.
pub open spec fn line_arg_fmt(bytes: Seq<u8>, op: OpModel) -> (Seq<char>, Option<(u16, Seq<char>)>) {
    let raw = rendered_arg(op.mode, raw_arg_hex(bytes));
    if bytes.len() >= 3 {
        let addr = arg_addr(bytes);
        match mapped_register(addr) {
            Some(name) => (rendered_arg_sym(op.mode, name), Some((addr, name))),
            None => (raw, None),
        }
    } else {
        (raw, None)
    }
}

/// The formatted operand and named constant of any line: a raw data
/// line (mnemonic `hex`) renders its bytes as-is and never names a
/// constant.
pub open spec fn line_render(bytes: Seq<u8>, op: OpModel) -> (Seq<char>, Option<(u16, Seq<char>)>) {
    if op.mnemonic == "hex"@ {
        (join_hex(bytes.skip(1), seq![' ']), None)
    } else {
        line_arg_fmt(bytes, op)
    }
}

/// The full text of a line: an optional label on its own line, the
/// mnemonic, one space, the operand, an optional comment, a newline.
pub open spec fn rendered_line(l: LineModel) -> Seq<char> {
    unwrap_str_spec(l.label, Seq::empty(), ":\n"@) + l.opcode.mnemonic + " "@ + l.fmt_arg
        + unwrap_str_spec(l.comment, Seq::empty(), Seq::empty()) + "\n"@
}

impl Line {
    /// The rendered length of the line.
    pub fn len(&self) -> (r: usize)
        requires
            line_len(self@) <= usize::MAX,
        ensures
            r == line_len(self@),
    {
        let mut ret: usize = 0;

        if let Some(comment) = &self.comment {
            ret = ret + comment.as_str().unicode_len();
        }
        if let Some(label) = &self.label {
            ret = ret + label.as_str().unicode_len();
        }

        ret = ret + self.opcode.mnemonic.unicode_len();
        ret = ret + self.fmt_arg.as_str().unicode_len();

        ret
    }

    /// Render a raw data line: a `hex` mnemonic takes its operand bytes
    /// as space-separated hexadecimal, untouched by addressing modes.
    fn fmt_special(&mut self) -> (r: bool)
        requires
            old(self).bytes@.len() >= 1,
        ensures
            final(self).bytes == old(self).bytes,
            final(self).opcode == old(self).opcode,
            final(self).label == old(self).label,
            final(self).comment == old(self).comment,
            r == (old(self).opcode.mnemonic@ == "hex"@),
            r ==> final(self).fmt_arg@ == join_hex(old(self).bytes@.skip(1), seq![' ']),
            !r ==> final(self).fmt_arg == old(self).fmt_arg,
    {
        if str_eq(self.opcode.mnemonic, "hex") {
            let arg_bytes = vstd::slice::slice_to_vec(&self.bytes.as_slice()[1..self.bytes.len()]);
            proof {
                assert(arg_bytes@ =~= self.bytes@.skip(1));
            }
            self.fmt_arg = vec_bytes_to_string(&arg_bytes);
            true
        } else {
            false
        }
    }

    /// Format the line's operand and collect its named constant, if any.
    pub fn fmt(&mut self) -> (r: Option<(u16, String)>)
        requires
            old(self).bytes@.len() >= 1,
        ensures
            final(self).bytes == old(self).bytes,
            final(self).opcode == old(self).opcode,
            final(self).label == old(self).label,
            final(self).comment == old(self).comment,
            final(self).fmt_arg@ == line_render(old(self).bytes@, old(self).opcode@).0,
            r is Some <==> line_render(old(self).bytes@, old(self).opcode@).1 is Some,
            r matches Some(p) ==> line_render(old(self).bytes@, old(self).opcode@).1 == Some(
                (p.0, p.1@)),
    {
        if self.fmt_special() {
            return None;
        }

        self.format_arg()
    }

    /// Format an ordinary operand: reverse the little-endian bytes,
    /// render them under the addressing mode, and substitute a register
    /// symbol when the operand is a mapped address.
    fn format_arg(&mut self) -> (r: Option<(u16, String)>)
        requires
            old(self).bytes@.len() >= 1,
        ensures
            final(self).bytes == old(self).bytes,
            final(self).opcode == old(self).opcode,
            final(self).label == old(self).label,
            final(self).comment == old(self).comment,
            final(self).fmt_arg@ == line_arg_fmt(old(self).bytes@, old(self).opcode@).0,
            r is Some <==> line_arg_fmt(old(self).bytes@, old(self).opcode@).1 is Some,
            r matches Some(p) ==> line_arg_fmt(old(self).bytes@, old(self).opcode@).1 == Some(
                (p.0, p.1@)),
    {
        let arg_bytes = reverse_bytes(&self.bytes.as_slice()[1..self.bytes.len()]);
        proof {
            assert(self.bytes@.subrange(1, self.bytes@.len() as int) =~= self.bytes@.skip(1));
        }

        let mut arg_str = OpCode::arg_to_string(arg_bytes.as_slice());
        let mut ret: Option<(u16, String)> = None;

        arg_str = self.opcode.mode.fmt_arg(arg_str.as_str());

        match self.arg_to_le_u16() {
            Some(value) => {
                match get_mapped_register(value) {
                    Some(name) => {
                        arg_str = self.opcode.mode.fmt_arg_with_reg(name.as_str());
                        ret = Some((value, name));
                    },
                    None => {},
                }
            },
            None => {},
        }

        self.fmt_arg = arg_str;

        ret
    }

    /// The operand interpreted as a little-endian 16-bit address, if the
    /// line carries at least two operand bytes.
    fn arg_to_le_u16(&self) -> (r: Option<u16>)
        ensures
            self.bytes@.len() >= 3 ==> r == Some(arg_addr(self.bytes@)),
            self.bytes@.len() < 3 ==> r is None,
    {
        if self.bytes.len() < 3 {
            return None;
        }

        Some(u16_from_mem(self.bytes[1], self.bytes[2]))
    }

    /// The full text of the line, newline included.
    pub fn render(&self) -> (r: String)
        ensures
            r@ == rendered_line(self@),
    {
        let label = unwrap_str(&self.label, "", ":\n");
        let comment = unwrap_str(&self.comment, "", "");

        let mut r = label;
        r.append(self.opcode.mnemonic);
        r.append(" ");
        r.append(self.fmt_arg.as_str());
        r.append(comment.as_str());
        r.append("\n");
        proof {
            reveal_strlit("");
            assert(""@ =~= Seq::<char>::empty());
            assert(r@ =~= rendered_line(self@));
        }
        r
    }
}

} // verus!
