//! The 6502 addressing modes and their operand rendering templates.

use vstd::prelude::*;

verus! {

/// The operand-encoding scheme of an instruction. It determines both the
/// operand's byte width and its textual syntax.
#[derive(Debug, Clone, Copy, PartialEq, Eq, Structural)]
pub enum AddressingMode {
    Absolute,
    AbsoluteX,
    AbsoluteY,
    Immediate,
    IndexedIndirect,
    Indirect,
    IndirectIndexed,
    ZeroPage,
    ZeroPageX,
    ZeroPageY,
    Implied,
}

/// The number of operand bytes an addressing mode carries: none when
/// implied, one for the zero-page, immediate and indirect-indexed
/// forms, two for the absolute and indirect forms.
pub open spec fn operand_width(mode: AddressingMode) -> int {
    match mode {
        AddressingMode::Absolute => 2,
        AddressingMode::AbsoluteX => 2,
        AddressingMode::AbsoluteY => 2,
        AddressingMode::Immediate => 1,
        AddressingMode::IndexedIndirect => 1,
        AddressingMode::Indirect => 2,
        AddressingMode::IndirectIndexed => 1,
        AddressingMode::ZeroPage => 1,
        AddressingMode::ZeroPageX => 1,
        AddressingMode::ZeroPageY => 1,
        AddressingMode::Implied => 0,
    }
}

/// The rendering of a raw operand `arg` under `mode`: the hex digits
/// behind a `$` sigil (`#$` for immediates), with the mode's index and
/// parenthesis decoration.
pub open spec fn rendered_arg(mode: AddressingMode, arg: Seq<char>) -> Seq<char> {
    match mode {
        AddressingMode::Absolute => "$"@ + arg,
        AddressingMode::AbsoluteX => "$"@ + arg + ", x"@,
        AddressingMode::AbsoluteY => "$"@ + arg + ", y"@,
        AddressingMode::Immediate => "#$"@ + arg,
        AddressingMode::IndexedIndirect => "($"@ + arg + ", x)"@,
        AddressingMode::Indirect => "$"@ + arg,
        AddressingMode::IndirectIndexed => "($"@ + arg + "), y"@,
        AddressingMode::ZeroPage => "$"@ + arg,
        AddressingMode::ZeroPageX => "$"@ + arg + ", x"@,
        AddressingMode::ZeroPageY => "$"@ + arg + ", y"@,
        AddressingMode::Implied => Seq::empty(),
    }
}

/// The symbolic rendering of an operand under `mode`: the `$` and `#`
/// sigils are dropped, the index and parenthesis decoration stays.
pub open spec fn rendered_arg_sym(mode: AddressingMode, arg: Seq<char>) -> Seq<char> {
    match mode {
        AddressingMode::Absolute => arg,
        AddressingMode::AbsoluteX => arg + ", x"@,
        AddressingMode::AbsoluteY => arg + ", y"@,
        AddressingMode::Immediate => arg,
        AddressingMode::IndexedIndirect => "("@ + arg + ", x)"@,
        AddressingMode::Indirect => arg,
        AddressingMode::IndirectIndexed => "("@ + arg + "), y"@,
        AddressingMode::ZeroPage => arg,
        AddressingMode::ZeroPageX => arg + ", x"@,
        AddressingMode::ZeroPageY => arg + ", y"@,
        AddressingMode::Implied => Seq::empty(),
    }
}

impl AddressingMode {
    /// Render a raw hexadecimal operand under this mode.
    pub fn fmt_arg(&self, arg: &str) -> (r: String)
        ensures
            r@ == rendered_arg(*self, arg@),
    {
        match self {
            AddressingMode::Absolute => String::from_str("$").concat(arg),
            AddressingMode::AbsoluteX => String::from_str("$").concat(arg).concat(", x"),
            AddressingMode::AbsoluteY => String::from_str("$").concat(arg).concat(", y"),
            AddressingMode::Immediate => String::from_str("#$").concat(arg),
            AddressingMode::IndexedIndirect => String::from_str("($").concat(arg).concat(", x)"),
            AddressingMode::Indirect => String::from_str("$").concat(arg),
            AddressingMode::IndirectIndexed => String::from_str("($").concat(arg).concat("), y"),
            AddressingMode::ZeroPage => String::from_str("$").concat(arg),
            AddressingMode::ZeroPageX => String::from_str("$").concat(arg).concat(", x"),
            AddressingMode::ZeroPageY => String::from_str("$").concat(arg).concat(", y"),
            AddressingMode::Implied => String::new(),
        }
    }

    /// Render an operand that resolved to a register symbol: the sigils
    /// are left out, the decoration of the mode is kept.
    pub fn fmt_arg_with_reg(&self, arg: &str) -> (r: String)
        ensures
            r@ == rendered_arg_sym(*self, arg@),
    {
        match self {
            AddressingMode::Absolute => String::from_str(arg),
            AddressingMode::AbsoluteX => String::from_str(arg).concat(", x"),
            AddressingMode::AbsoluteY => String::from_str(arg).concat(", y"),
            AddressingMode::Immediate => String::from_str(arg),
            AddressingMode::IndexedIndirect => String::from_str("(").concat(arg).concat(", x)"),
            AddressingMode::Indirect => String::from_str(arg),
            AddressingMode::IndirectIndexed => String::from_str("(").concat(arg).concat("), y"),
            AddressingMode::ZeroPage => String::from_str(arg),
            AddressingMode::ZeroPageX => String::from_str(arg).concat(", x"),
            AddressingMode::ZeroPageY => String::from_str(arg).concat(", y"),
            AddressingMode::Implied => String::new(),
        }
    }
}

} // verus!
