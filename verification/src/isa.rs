//! The instruction format catalog: 13 fixed-shape instruction record types,
//! each identified by a distinguishing bit prefix of the 16-bit word, with a
//! per-format opcode enumeration and operand fields (register codes and/or an
//! 8-bit signed immediate).

use vstd::prelude::*;

use crate::registers::IntRegister;
use crate::registers::RatioRegister;

verus! {

/// Identifies one of the 13 instruction formats.
///
/// Each format owns a prefix of the most significant bits of a 16-bit word;
/// the set of prefixes is prefix-free, so a word matches at most one format.
/// The opcode field follows the prefix, and the operand fields follow the
/// opcode in declaration order, packed down to the least significant bit.
#[derive(Debug, Clone, Copy, PartialEq, Eq, PartialOrd, Ord, Hash, Structural)]
pub enum InstructionTag {
    NoExplOperands,
    NoExplSource,
    NoExplDest,
    RatioUnaryOp,
    RatioBinNoExplDest,
    IntToRatio,
    RatioToInt,
    IntUnaryOp,
    IntBinNoExplDest,
    RatioBinaryOp,
    NoExplDestImm,
    IntBinaryOp,
    Immediate,
}

impl InstructionTag {
    /// The number of leading bits of a word that form this format's prefix.
    pub open spec fn prefix_width(self) -> nat {
        match self {
            InstructionTag::NoExplOperands => 8,
            InstructionTag::NoExplSource => 7,
            InstructionTag::NoExplDest => 7,
            InstructionTag::RatioUnaryOp => 6,
            InstructionTag::RatioBinNoExplDest => 6,
            InstructionTag::IntToRatio => 5,
            InstructionTag::RatioToInt => 5,
            InstructionTag::IntUnaryOp => 4,
            InstructionTag::IntBinNoExplDest => 4,
            InstructionTag::RatioBinaryOp => 3,
            InstructionTag::NoExplDestImm => 3,
            InstructionTag::IntBinaryOp => 2,
            InstructionTag::Immediate => 2,
        }
    }

    /// The value of this format's prefix, read as an unsigned number of
    /// `prefix_width` bits.
    pub open spec fn prefix_value(self) -> u16 {
        match self {
            InstructionTag::NoExplOperands => 0xFC,
            InstructionTag::NoExplSource => 0x7D,
            InstructionTag::NoExplDest => 0x7C,
            InstructionTag::RatioUnaryOp => 0x3D,
            InstructionTag::RatioBinNoExplDest => 0x3C,
            InstructionTag::IntToRatio => 0x1D,
            InstructionTag::RatioToInt => 0x1C,
            InstructionTag::IntUnaryOp => 0xD,
            InstructionTag::IntBinNoExplDest => 0xC,
            InstructionTag::RatioBinaryOp => 0x5,
            InstructionTag::NoExplDestImm => 0x4,
            InstructionTag::IntBinaryOp => 0x1,
            InstructionTag::Immediate => 0x0,
        }
    }

    /// The number of opcode bits immediately following the prefix.
    pub open spec fn opcode_width(self) -> nat {
        match self {
            InstructionTag::NoExplOperands => 8,
            InstructionTag::NoExplSource => 6,
            InstructionTag::NoExplDest => 6,
            InstructionTag::RatioUnaryOp => 6,
            InstructionTag::RatioBinNoExplDest => 6,
            InstructionTag::IntToRatio => 6,
            InstructionTag::RatioToInt => 6,
            InstructionTag::IntUnaryOp => 6,
            InstructionTag::IntBinNoExplDest => 6,
            InstructionTag::RatioBinaryOp => 7,
            InstructionTag::NoExplDestImm => 5,
            InstructionTag::IntBinaryOp => 5,
            InstructionTag::Immediate => 3,
        }
    }

    /// The total number of operand bits at the end of the word.
    pub open spec fn operand_width(self) -> nat {
        match self {
            InstructionTag::NoExplOperands => 0,
            InstructionTag::NoExplSource => 3,
            InstructionTag::NoExplDest => 3,
            InstructionTag::RatioUnaryOp => 4,
            InstructionTag::RatioBinNoExplDest => 4,
            InstructionTag::IntToRatio => 5,
            InstructionTag::RatioToInt => 5,
            InstructionTag::IntUnaryOp => 6,
            InstructionTag::IntBinNoExplDest => 6,
            InstructionTag::RatioBinaryOp => 6,
            InstructionTag::NoExplDestImm => 8,
            InstructionTag::IntBinaryOp => 9,
            InstructionTag::Immediate => 11,
        }
    }

    /// The number of distinct words that carry this format's prefix: two to
    /// the power of `16 - prefix_width`.
    pub open spec fn word_span(self) -> u16 {
        match self {
            InstructionTag::NoExplOperands => 0x100,
            InstructionTag::NoExplSource => 0x200,
            InstructionTag::NoExplDest => 0x200,
            InstructionTag::RatioUnaryOp => 0x400,
            InstructionTag::RatioBinNoExplDest => 0x400,
            InstructionTag::IntToRatio => 0x800,
            InstructionTag::RatioToInt => 0x800,
            InstructionTag::IntUnaryOp => 0x1000,
            InstructionTag::IntBinNoExplDest => 0x1000,
            InstructionTag::RatioBinaryOp => 0x2000,
            InstructionTag::NoExplDestImm => 0x2000,
            InstructionTag::IntBinaryOp => 0x4000,
            InstructionTag::Immediate => 0x4000,
        }
    }

    /// The smallest word whose leading bits equal this format's prefix:
    /// the prefix value shifted up into the most significant bits.
    pub open spec fn word_base(self) -> u16 {
        match self {
            InstructionTag::NoExplOperands => 0xFC00,
            InstructionTag::NoExplSource => 0xFA00,
            InstructionTag::NoExplDest => 0xF800,
            InstructionTag::RatioUnaryOp => 0xF400,
            InstructionTag::RatioBinNoExplDest => 0xF000,
            InstructionTag::IntToRatio => 0xE800,
            InstructionTag::RatioToInt => 0xE000,
            InstructionTag::IntUnaryOp => 0xD000,
            InstructionTag::IntBinNoExplDest => 0xC000,
            InstructionTag::RatioBinaryOp => 0xA000,
            InstructionTag::NoExplDestImm => 0x8000,
            InstructionTag::IntBinaryOp => 0x4000,
            InstructionTag::Immediate => 0x0000,
        }
    }

    /// Whether the leading `prefix_width` bits of `word` equal this format's
    /// prefix.
    pub open spec fn prefix_matches(self, word: u16) -> bool {
        word / self.word_span() == self.prefix_value()
    }
}

/// Law: in every format, the prefix, the opcode field and the operand fields
/// together fill the 16-bit word exactly.
pub proof fn lemma_format_widths_fill_word(tag: InstructionTag)
    ensures
        tag.prefix_width() + tag.opcode_width() + tag.operand_width() == 16,
{
}

/// A typed instruction: a tagged union over the 13 formats, holding the
/// format's opcode and its already-validated operand values. Invalid
/// combinations are unrepresentable once constructed.
#[derive(Debug, Clone, Copy, PartialEq, Eq, PartialOrd, Ord, Hash, Structural)]
pub enum Instruction {
    NoExplOperands(NoExplOperandsInstr),
    NoExplSource(NoExplSourceInstr),
    NoExplDest(NoExplDestInstr),
    IntUnaryOp(IntUnaryOpInstr),
    IntBinaryOp(IntBinaryOpInstr),
    IntBinNoExplDest(IntBinNoExplDestInstr),
    RatioUnaryOp(RatioUnaryOpInstr),
    RatioBinaryOp(RatioBinaryOpInstr),
    RatioBinNoExplDest(RatioBinNoExplDestInstr),
    IntToRatio(IntToRatioInstr),
    RatioToInt(RatioToIntInstr),
    Immediate(ImmediateInstr),
    NoExplDestImm(NoExplDestImmInstr),
}

impl Instruction {
    /// The format this instruction belongs to.
    pub open spec fn spec_tag(self) -> InstructionTag {
        match self {
            Instruction::NoExplOperands(_) => InstructionTag::NoExplOperands,
            Instruction::NoExplSource(_) => InstructionTag::NoExplSource,
            Instruction::NoExplDest(_) => InstructionTag::NoExplDest,
            Instruction::IntUnaryOp(_) => InstructionTag::IntUnaryOp,
            Instruction::IntBinaryOp(_) => InstructionTag::IntBinaryOp,
            Instruction::IntBinNoExplDest(_) => InstructionTag::IntBinNoExplDest,
            Instruction::RatioUnaryOp(_) => InstructionTag::RatioUnaryOp,
            Instruction::RatioBinaryOp(_) => InstructionTag::RatioBinaryOp,
            Instruction::RatioBinNoExplDest(_) => InstructionTag::RatioBinNoExplDest,
            Instruction::IntToRatio(_) => InstructionTag::IntToRatio,
            Instruction::RatioToInt(_) => InstructionTag::RatioToInt,
            Instruction::Immediate(_) => InstructionTag::Immediate,
            Instruction::NoExplDestImm(_) => InstructionTag::NoExplDestImm,
        }
    }
}

/// An instruction with no explicit operands.
#[derive(Debug, Clone, Copy, PartialEq, Eq, PartialOrd, Ord, Hash, Structural)]
pub struct NoExplOperandsInstr {
    pub opcode: NoExplOperandsOpcode,
}

/// An instruction whose source is implicit; the destination register is
/// explicit.
#[derive(Debug, Clone, Copy, PartialEq, Eq, PartialOrd, Ord, Hash, Structural)]
pub struct NoExplSourceInstr {
    pub opcode: NoExplSourceOpcode,
    pub dest: IntRegister,
}

/// An instruction whose destination is implicit; the source register is
/// explicit.
#[derive(Debug, Clone, Copy, PartialEq, Eq, PartialOrd, Ord, Hash, Structural)]
pub struct NoExplDestInstr {
    pub opcode: NoExplDestOpcode,
    pub source: IntRegister,
}

/// A unary operation on integer registers.
#[derive(Debug, Clone, Copy, PartialEq, Eq, PartialOrd, Ord, Hash, Structural)]
pub struct IntUnaryOpInstr {
    pub opcode: IntUnaryOpOpcode,
    pub dest: IntRegister,
    pub source: IntRegister,
}

/// A binary operation on integer registers with an explicit destination.
#[derive(Debug, Clone, Copy, PartialEq, Eq, PartialOrd, Ord, Hash, Structural)]
pub struct IntBinaryOpInstr {
    pub opcode: IntBinaryOpOpcode,
    pub dest: IntRegister,
    pub lhs: IntRegister,
    pub rhs: IntRegister,
}

/// A binary operation on integer registers whose destination is implicit.
#[derive(Debug, Clone, Copy, PartialEq, Eq, PartialOrd, Ord, Hash, Structural)]
pub struct IntBinNoExplDestInstr {
    pub opcode: IntBinNoExplDestOpcode,
    pub lhs: IntRegister,
    pub rhs: IntRegister,
}

/// A unary operation on ratio registers.
#[derive(Debug, Clone, Copy, PartialEq, Eq, PartialOrd, Ord, Hash, Structural)]
pub struct RatioUnaryOpInstr {
    pub opcode: RatioUnaryOpOpcode,
    pub dest: RatioRegister,
    pub source: RatioRegister,
}

/// A binary operation on ratio registers with an explicit destination.
#[derive(Debug, Clone, Copy, PartialEq, Eq, PartialOrd, Ord, Hash, Structural)]
pub struct RatioBinaryOpInstr {
    pub opcode: RatioBinaryOpOpcode,
    pub dest: RatioRegister,
    pub lhs: RatioRegister,
    pub rhs: RatioRegister,
}

/// A binary operation on ratio registers whose destination is implicit.
#[derive(Debug, Clone, Copy, PartialEq, Eq, PartialOrd, Ord, Hash, Structural)]
pub struct RatioBinNoExplDestInstr {
    pub opcode: RatioBinNoExplDestOpcode,
    pub lhs: RatioRegister,
    pub rhs: RatioRegister,
}

/// A conversion from an integer register to a ratio register.
#[derive(Debug, Clone, Copy, PartialEq, Eq, PartialOrd, Ord, Hash, Structural)]
pub struct IntToRatioInstr {
    pub opcode: IntToRatioOpcode,
    pub dest: RatioRegister,
    pub source: IntRegister,
}

/// A conversion from a ratio register to an integer register.
#[derive(Debug, Clone, Copy, PartialEq, Eq, PartialOrd, Ord, Hash, Structural)]
pub struct RatioToIntInstr {
    pub opcode: RatioToIntOpcode,
    pub dest: IntRegister,
    pub source: RatioRegister,
}

/// An operation on an integer register and an 8-bit signed immediate.
#[derive(Debug, Clone, Copy, PartialEq, Eq, PartialOrd, Ord, Hash, Structural)]
pub struct ImmediateInstr {
    pub opcode: ImmediateOpcode,
    pub dest: IntRegister,
    pub immediate: i8,
}

/// An operation on an 8-bit signed immediate whose destination is implicit.
#[derive(Debug, Clone, Copy, PartialEq, Eq, PartialOrd, Ord, Hash, Structural)]
pub struct NoExplDestImmInstr {
    pub opcode: NoExplDestImmOpcode,
    pub immediate: i8,
}

#[derive(Debug, Clone, Copy, PartialEq, Eq, PartialOrd, Ord, Hash, Structural)]
pub enum NoExplOperandsOpcode {
    Nop,
    Ret,
    Halt,
}

impl NoExplOperandsOpcode {
    /// The numeric value of this opcode within its format's opcode field.
    pub open spec fn spec_code(self) -> u8 {
        match self {
            NoExplOperandsOpcode::Nop => 0,
            NoExplOperandsOpcode::Ret => 1,
            NoExplOperandsOpcode::Halt => 2,
        }
    }

    /// The opcode whose value is `code`, if any: the inverse of
    /// `spec_code` on `[0, 3)`.
    pub open spec fn spec_from_code(code: u8) -> Option<NoExplOperandsOpcode> {
        if code == 0 {
            Some(NoExplOperandsOpcode::Nop)
        } else if code == 1 {
            Some(NoExplOperandsOpcode::Ret)
        } else if code == 2 {
            Some(NoExplOperandsOpcode::Halt)
        } else {
            None
        }
    }

    pub fn code(self) -> (r: u8)
        ensures
            r == self.spec_code(),
            r < 3,
    {
        match self {
            NoExplOperandsOpcode::Nop => 0,
            NoExplOperandsOpcode::Ret => 1,
            NoExplOperandsOpcode::Halt => 2,
        }
    }

    pub fn from_code(code: u8) -> (r: Option<NoExplOperandsOpcode>)
        ensures
            r == Self::spec_from_code(code),
    {
        match code {
            0 => Some(NoExplOperandsOpcode::Nop),
            1 => Some(NoExplOperandsOpcode::Ret),
            2 => Some(NoExplOperandsOpcode::Halt),
            _ => None,
        }
    }
}

#[derive(Debug, Clone, Copy, PartialEq, Eq, PartialOrd, Ord, Hash, Structural)]
pub enum NoExplSourceOpcode {
    Pop,
    Ldsp,
    Ldf,
}

impl NoExplSourceOpcode {
    /// The numeric value of this opcode within its format's opcode field.
    pub open spec fn spec_code(self) -> u8 {
        match self {
            NoExplSourceOpcode::Pop => 0,
            NoExplSourceOpcode::Ldsp => 1,
            NoExplSourceOpcode::Ldf => 2,
        }
    }

    /// The opcode whose value is `code`, if any: the inverse of
    /// `spec_code` on `[0, 3)`.
    pub open spec fn spec_from_code(code: u8) -> Option<NoExplSourceOpcode> {
        if code == 0 {
            Some(NoExplSourceOpcode::Pop)
        } else if code == 1 {
            Some(NoExplSourceOpcode::Ldsp)
        } else if code == 2 {
            Some(NoExplSourceOpcode::Ldf)
        } else {
            None
        }
    }

    pub fn code(self) -> (r: u8)
        ensures
            r == self.spec_code(),
            r < 3,
    {
        match self {
            NoExplSourceOpcode::Pop => 0,
            NoExplSourceOpcode::Ldsp => 1,
            NoExplSourceOpcode::Ldf => 2,
        }
    }

    pub fn from_code(code: u8) -> (r: Option<NoExplSourceOpcode>)
        ensures
            r == Self::spec_from_code(code),
    {
        match code {
            0 => Some(NoExplSourceOpcode::Pop),
            1 => Some(NoExplSourceOpcode::Ldsp),
            2 => Some(NoExplSourceOpcode::Ldf),
            _ => None,
        }
    }
}

#[derive(Debug, Clone, Copy, PartialEq, Eq, PartialOrd, Ord, Hash, Structural)]
pub enum NoExplDestOpcode {
    Push,
    Stsp,
    Addsp,
    Subsp,
    Stf,
    Jabs,
    Cabs,
}

impl NoExplDestOpcode {
    /// The numeric value of this opcode within its format's opcode field.
    pub open spec fn spec_code(self) -> u8 {
        match self {
            NoExplDestOpcode::Push => 0,
            NoExplDestOpcode::Stsp => 1,
            NoExplDestOpcode::Addsp => 2,
            NoExplDestOpcode::Subsp => 3,
            NoExplDestOpcode::Stf => 4,
            NoExplDestOpcode::Jabs => 5,
            NoExplDestOpcode::Cabs => 6,
        }
    }

    /// The opcode whose value is `code`, if any: the inverse of
    /// `spec_code` on `[0, 7)`.
    pub open spec fn spec_from_code(code: u8) -> Option<NoExplDestOpcode> {
        if code == 0 {
            Some(NoExplDestOpcode::Push)
        } else if code == 1 {
            Some(NoExplDestOpcode::Stsp)
        } else if code == 2 {
            Some(NoExplDestOpcode::Addsp)
        } else if code == 3 {
            Some(NoExplDestOpcode::Subsp)
        } else if code == 4 {
            Some(NoExplDestOpcode::Stf)
        } else if code == 5 {
            Some(NoExplDestOpcode::Jabs)
        } else if code == 6 {
            Some(NoExplDestOpcode::Cabs)
        } else {
            None
        }
    }

    pub fn code(self) -> (r: u8)
        ensures
            r == self.spec_code(),
            r < 7,
    {
        match self {
            NoExplDestOpcode::Push => 0,
            NoExplDestOpcode::Stsp => 1,
            NoExplDestOpcode::Addsp => 2,
            NoExplDestOpcode::Subsp => 3,
            NoExplDestOpcode::Stf => 4,
            NoExplDestOpcode::Jabs => 5,
            NoExplDestOpcode::Cabs => 6,
        }
    }

    pub fn from_code(code: u8) -> (r: Option<NoExplDestOpcode>)
        ensures
            r == Self::spec_from_code(code),
    {
        match code {
            0 => Some(NoExplDestOpcode::Push),
            1 => Some(NoExplDestOpcode::Stsp),
            2 => Some(NoExplDestOpcode::Addsp),
            3 => Some(NoExplDestOpcode::Subsp),
            4 => Some(NoExplDestOpcode::Stf),
            5 => Some(NoExplDestOpcode::Jabs),
            6 => Some(NoExplDestOpcode::Cabs),
            _ => None,
        }
    }
}

#[derive(Debug, Clone, Copy, PartialEq, Eq, PartialOrd, Ord, Hash, Structural)]
pub enum IntUnaryOpOpcode {
    Cpy,
    St,
    Not,
    Neg,
}

impl IntUnaryOpOpcode {
    /// The numeric value of this opcode within its format's opcode field.
    pub open spec fn spec_code(self) -> u8 {
        match self {
            IntUnaryOpOpcode::Cpy => 0,
            IntUnaryOpOpcode::St => 1,
            IntUnaryOpOpcode::Not => 2,
            IntUnaryOpOpcode::Neg => 3,
        }
    }

    /// The opcode whose value is `code`, if any: the inverse of
    /// `spec_code` on `[0, 4)`.
    pub open spec fn spec_from_code(code: u8) -> Option<IntUnaryOpOpcode> {
        if code == 0 {
            Some(IntUnaryOpOpcode::Cpy)
        } else if code == 1 {
            Some(IntUnaryOpOpcode::St)
        } else if code == 2 {
            Some(IntUnaryOpOpcode::Not)
        } else if code == 3 {
            Some(IntUnaryOpOpcode::Neg)
        } else {
            None
        }
    }

    pub fn code(self) -> (r: u8)
        ensures
            r == self.spec_code(),
            r < 4,
    {
        match self {
            IntUnaryOpOpcode::Cpy => 0,
            IntUnaryOpOpcode::St => 1,
            IntUnaryOpOpcode::Not => 2,
            IntUnaryOpOpcode::Neg => 3,
        }
    }

    pub fn from_code(code: u8) -> (r: Option<IntUnaryOpOpcode>)
        ensures
            r == Self::spec_from_code(code),
    {
        match code {
            0 => Some(IntUnaryOpOpcode::Cpy),
            1 => Some(IntUnaryOpOpcode::St),
            2 => Some(IntUnaryOpOpcode::Not),
            3 => Some(IntUnaryOpOpcode::Neg),
            _ => None,
        }
    }
}

#[derive(Debug, Clone, Copy, PartialEq, Eq, PartialOrd, Ord, Hash, Structural)]
pub enum IntBinaryOpOpcode {
    Or,
    And,
    Xor,
    Shl,
    Shr,
    Rol,
    Ror,
    Add,
    Sub,
    Mul,
    Mulu,
    Muls,
    Quot,
    Rem,
    Div,
}

impl IntBinaryOpOpcode {
    /// The numeric value of this opcode within its format's opcode field.
    pub open spec fn spec_code(self) -> u8 {
        match self {
            IntBinaryOpOpcode::Or => 0,
            IntBinaryOpOpcode::And => 1,
            IntBinaryOpOpcode::Xor => 2,
            IntBinaryOpOpcode::Shl => 3,
            IntBinaryOpOpcode::Shr => 4,
            IntBinaryOpOpcode::Rol => 5,
            IntBinaryOpOpcode::Ror => 6,
            IntBinaryOpOpcode::Add => 7,
            IntBinaryOpOpcode::Sub => 8,
            IntBinaryOpOpcode::Mul => 9,
            IntBinaryOpOpcode::Mulu => 10,
            IntBinaryOpOpcode::Muls => 11,
            IntBinaryOpOpcode::Quot => 12,
            IntBinaryOpOpcode::Rem => 13,
            IntBinaryOpOpcode::Div => 14,
        }
    }

    /// The opcode whose value is `code`, if any: the inverse of
    /// `spec_code` on `[0, 15)`.
    pub open spec fn spec_from_code(code: u8) -> Option<IntBinaryOpOpcode> {
        if code == 0 {
            Some(IntBinaryOpOpcode::Or)
        } else if code == 1 {
            Some(IntBinaryOpOpcode::And)
        } else if code == 2 {
            Some(IntBinaryOpOpcode::Xor)
        } else if code == 3 {
            Some(IntBinaryOpOpcode::Shl)
        } else if code == 4 {
            Some(IntBinaryOpOpcode::Shr)
        } else if code == 5 {
            Some(IntBinaryOpOpcode::Rol)
        } else if code == 6 {
            Some(IntBinaryOpOpcode::Ror)
        } else if code == 7 {
            Some(IntBinaryOpOpcode::Add)
        } else if code == 8 {
            Some(IntBinaryOpOpcode::Sub)
        } else if code == 9 {
            Some(IntBinaryOpOpcode::Mul)
        } else if code == 10 {
            Some(IntBinaryOpOpcode::Mulu)
        } else if code == 11 {
            Some(IntBinaryOpOpcode::Muls)
        } else if code == 12 {
            Some(IntBinaryOpOpcode::Quot)
        } else if code == 13 {
            Some(IntBinaryOpOpcode::Rem)
        } else if code == 14 {
            Some(IntBinaryOpOpcode::Div)
        } else {
            None
        }
    }

    pub fn code(self) -> (r: u8)
        ensures
            r == self.spec_code(),
            r < 15,
    {
        match self {
            IntBinaryOpOpcode::Or => 0,
            IntBinaryOpOpcode::And => 1,
            IntBinaryOpOpcode::Xor => 2,
            IntBinaryOpOpcode::Shl => 3,
            IntBinaryOpOpcode::Shr => 4,
            IntBinaryOpOpcode::Rol => 5,
            IntBinaryOpOpcode::Ror => 6,
            IntBinaryOpOpcode::Add => 7,
            IntBinaryOpOpcode::Sub => 8,
            IntBinaryOpOpcode::Mul => 9,
            IntBinaryOpOpcode::Mulu => 10,
            IntBinaryOpOpcode::Muls => 11,
            IntBinaryOpOpcode::Quot => 12,
            IntBinaryOpOpcode::Rem => 13,
            IntBinaryOpOpcode::Div => 14,
        }
    }

    pub fn from_code(code: u8) -> (r: Option<IntBinaryOpOpcode>)
        ensures
            r == Self::spec_from_code(code),
    {
        match code {
            0 => Some(IntBinaryOpOpcode::Or),
            1 => Some(IntBinaryOpOpcode::And),
            2 => Some(IntBinaryOpOpcode::Xor),
            3 => Some(IntBinaryOpOpcode::Shl),
            4 => Some(IntBinaryOpOpcode::Shr),
            5 => Some(IntBinaryOpOpcode::Rol),
            6 => Some(IntBinaryOpOpcode::Ror),
            7 => Some(IntBinaryOpOpcode::Add),
            8 => Some(IntBinaryOpOpcode::Sub),
            9 => Some(IntBinaryOpOpcode::Mul),
            10 => Some(IntBinaryOpOpcode::Mulu),
            11 => Some(IntBinaryOpOpcode::Muls),
            12 => Some(IntBinaryOpOpcode::Quot),
            13 => Some(IntBinaryOpOpcode::Rem),
            14 => Some(IntBinaryOpOpcode::Div),
            _ => None,
        }
    }
}

#[derive(Debug, Clone, Copy, PartialEq, Eq, PartialOrd, Ord, Hash, Structural)]
pub enum IntBinNoExplDestOpcode {
    Cmp,
    Ld,
}

impl IntBinNoExplDestOpcode {
    /// The numeric value of this opcode within its format's opcode field.
    pub open spec fn spec_code(self) -> u8 {
        match self {
            IntBinNoExplDestOpcode::Cmp => 0,
            IntBinNoExplDestOpcode::Ld => 1,
        }
    }

    /// The opcode whose value is `code`, if any: the inverse of
    /// `spec_code` on `[0, 2)`.
    pub open spec fn spec_from_code(code: u8) -> Option<IntBinNoExplDestOpcode> {
        if code == 0 {
            Some(IntBinNoExplDestOpcode::Cmp)
        } else if code == 1 {
            Some(IntBinNoExplDestOpcode::Ld)
        } else {
            None
        }
    }

    pub fn code(self) -> (r: u8)
        ensures
            r == self.spec_code(),
            r < 2,
    {
        match self {
            IntBinNoExplDestOpcode::Cmp => 0,
            IntBinNoExplDestOpcode::Ld => 1,
        }
    }

    pub fn from_code(code: u8) -> (r: Option<IntBinNoExplDestOpcode>)
        ensures
            r == Self::spec_from_code(code),
    {
        match code {
            0 => Some(IntBinNoExplDestOpcode::Cmp),
            1 => Some(IntBinNoExplDestOpcode::Ld),
            _ => None,
        }
    }
}

#[derive(Debug, Clone, Copy, PartialEq, Eq, PartialOrd, Ord, Hash, Structural)]
pub enum RatioUnaryOpOpcode {
    Neg,
    Inv,
}

impl RatioUnaryOpOpcode {
    /// The numeric value of this opcode within its format's opcode field.
    pub open spec fn spec_code(self) -> u8 {
        match self {
            RatioUnaryOpOpcode::Neg => 0,
            RatioUnaryOpOpcode::Inv => 1,
        }
    }

    /// The opcode whose value is `code`, if any: the inverse of
    /// `spec_code` on `[0, 2)`.
    pub open spec fn spec_from_code(code: u8) -> Option<RatioUnaryOpOpcode> {
        if code == 0 {
            Some(RatioUnaryOpOpcode::Neg)
        } else if code == 1 {
            Some(RatioUnaryOpOpcode::Inv)
        } else {
            None
        }
    }

    pub fn code(self) -> (r: u8)
        ensures
            r == self.spec_code(),
            r < 2,
    {
        match self {
            RatioUnaryOpOpcode::Neg => 0,
            RatioUnaryOpOpcode::Inv => 1,
        }
    }

    pub fn from_code(code: u8) -> (r: Option<RatioUnaryOpOpcode>)
        ensures
            r == Self::spec_from_code(code),
    {
        match code {
            0 => Some(RatioUnaryOpOpcode::Neg),
            1 => Some(RatioUnaryOpOpcode::Inv),
            _ => None,
        }
    }
}

#[derive(Debug, Clone, Copy, PartialEq, Eq, PartialOrd, Ord, Hash, Structural)]
pub enum RatioBinaryOpOpcode {
    Addru,
    Addrs,
    Subru,
    Subrs,
    Mulru,
    Mulrs,
    Divru,
    Divrs,
}

impl RatioBinaryOpOpcode {
    /// The numeric value of this opcode within its format's opcode field.
    pub open spec fn spec_code(self) -> u8 {
        match self {
            RatioBinaryOpOpcode::Addru => 0,
            RatioBinaryOpOpcode::Addrs => 1,
            RatioBinaryOpOpcode::Subru => 2,
            RatioBinaryOpOpcode::Subrs => 3,
            RatioBinaryOpOpcode::Mulru => 4,
            RatioBinaryOpOpcode::Mulrs => 5,
            RatioBinaryOpOpcode::Divru => 6,
            RatioBinaryOpOpcode::Divrs => 7,
        }
    }

    /// The opcode whose value is `code`, if any: the inverse of
    /// `spec_code` on `[0, 8)`.
    pub open spec fn spec_from_code(code: u8) -> Option<RatioBinaryOpOpcode> {
        if code == 0 {
            Some(RatioBinaryOpOpcode::Addru)
        } else if code == 1 {
            Some(RatioBinaryOpOpcode::Addrs)
        } else if code == 2 {
            Some(RatioBinaryOpOpcode::Subru)
        } else if code == 3 {
            Some(RatioBinaryOpOpcode::Subrs)
        } else if code == 4 {
            Some(RatioBinaryOpOpcode::Mulru)
        } else if code == 5 {
            Some(RatioBinaryOpOpcode::Mulrs)
        } else if code == 6 {
            Some(RatioBinaryOpOpcode::Divru)
        } else if code == 7 {
            Some(RatioBinaryOpOpcode::Divrs)
        } else {
            None
        }
    }

    pub fn code(self) -> (r: u8)
        ensures
            r == self.spec_code(),
            r < 8,
    {
        match self {
            RatioBinaryOpOpcode::Addru => 0,
            RatioBinaryOpOpcode::Addrs => 1,
            RatioBinaryOpOpcode::Subru => 2,
            RatioBinaryOpOpcode::Subrs => 3,
            RatioBinaryOpOpcode::Mulru => 4,
            RatioBinaryOpOpcode::Mulrs => 5,
            RatioBinaryOpOpcode::Divru => 6,
            RatioBinaryOpOpcode::Divrs => 7,
        }
    }

    pub fn from_code(code: u8) -> (r: Option<RatioBinaryOpOpcode>)
        ensures
            r == Self::spec_from_code(code),
    {
        match code {
            0 => Some(RatioBinaryOpOpcode::Addru),
            1 => Some(RatioBinaryOpOpcode::Addrs),
            2 => Some(RatioBinaryOpOpcode::Subru),
            3 => Some(RatioBinaryOpOpcode::Subrs),
            4 => Some(RatioBinaryOpOpcode::Mulru),
            5 => Some(RatioBinaryOpOpcode::Mulrs),
            6 => Some(RatioBinaryOpOpcode::Divru),
            7 => Some(RatioBinaryOpOpcode::Divrs),
            _ => None,
        }
    }
}

#[derive(Debug, Clone, Copy, PartialEq, Eq, PartialOrd, Ord, Hash, Structural)]
pub enum RatioBinNoExplDestOpcode {
    Cmpr,
}

impl RatioBinNoExplDestOpcode {
    /// The numeric value of this opcode within its format's opcode field.
    pub open spec fn spec_code(self) -> u8 {
        match self {
            RatioBinNoExplDestOpcode::Cmpr => 0,
        }
    }

    /// The opcode whose value is `code`, if any: the inverse of
    /// `spec_code` on `[0, 1)`.
    pub open spec fn spec_from_code(code: u8) -> Option<RatioBinNoExplDestOpcode> {
        if code == 0 {
            Some(RatioBinNoExplDestOpcode::Cmpr)
        } else {
            None
        }
    }

    pub fn code(self) -> (r: u8)
        ensures
            r == self.spec_code(),
            r < 1,
    {
        match self {
            RatioBinNoExplDestOpcode::Cmpr => 0,
        }
    }

    pub fn from_code(code: u8) -> (r: Option<RatioBinNoExplDestOpcode>)
        ensures
            r == Self::spec_from_code(code),
    {
        match code {
            0 => Some(RatioBinNoExplDestOpcode::Cmpr),
            _ => None,
        }
    }
}

#[derive(Debug, Clone, Copy, PartialEq, Eq, PartialOrd, Ord, Hash, Structural)]
pub enum IntToRatioOpcode {
    Rat,
    Ldden,
    Ldnum,
}

impl IntToRatioOpcode {
    /// The numeric value of this opcode within its format's opcode field.
    pub open spec fn spec_code(self) -> u8 {
        match self {
            IntToRatioOpcode::Rat => 0,
            IntToRatioOpcode::Ldden => 1,
            IntToRatioOpcode::Ldnum => 2,
        }
    }

    /// The opcode whose value is `code`, if any: the inverse of
    /// `spec_code` on `[0, 3)`.
    pub open spec fn spec_from_code(code: u8) -> Option<IntToRatioOpcode> {
        if code == 0 {
            Some(IntToRatioOpcode::Rat)
        } else if code == 1 {
            Some(IntToRatioOpcode::Ldden)
        } else if code == 2 {
            Some(IntToRatioOpcode::Ldnum)
        } else {
            None
        }
    }

    pub fn code(self) -> (r: u8)
        ensures
            r == self.spec_code(),
            r < 3,
    {
        match self {
            IntToRatioOpcode::Rat => 0,
            IntToRatioOpcode::Ldden => 1,
            IntToRatioOpcode::Ldnum => 2,
        }
    }

    pub fn from_code(code: u8) -> (r: Option<IntToRatioOpcode>)
        ensures
            r == Self::spec_from_code(code),
    {
        match code {
            0 => Some(IntToRatioOpcode::Rat),
            1 => Some(IntToRatioOpcode::Ldden),
            2 => Some(IntToRatioOpcode::Ldnum),
            _ => None,
        }
    }
}

#[derive(Debug, Clone, Copy, PartialEq, Eq, PartialOrd, Ord, Hash, Structural)]
pub enum RatioToIntOpcode {
    Rnd,
    Trnc,
    Flr,
    Ceil,
    Stden,
    Stnum,
}

impl RatioToIntOpcode {
    /// The numeric value of this opcode within its format's opcode field.
    pub open spec fn spec_code(self) -> u8 {
        match self {
            RatioToIntOpcode::Rnd => 0,
            RatioToIntOpcode::Trnc => 1,
            RatioToIntOpcode::Flr => 2,
            RatioToIntOpcode::Ceil => 3,
            RatioToIntOpcode::Stden => 4,
            RatioToIntOpcode::Stnum => 5,
        }
    }

    /// The opcode whose value is `code`, if any: the inverse of
    /// `spec_code` on `[0, 6)`.
    pub open spec fn spec_from_code(code: u8) -> Option<RatioToIntOpcode> {
        if code == 0 {
            Some(RatioToIntOpcode::Rnd)
        } else if code == 1 {
            Some(RatioToIntOpcode::Trnc)
        } else if code == 2 {
            Some(RatioToIntOpcode::Flr)
        } else if code == 3 {
            Some(RatioToIntOpcode::Ceil)
        } else if code == 4 {
            Some(RatioToIntOpcode::Stden)
        } else if code == 5 {
            Some(RatioToIntOpcode::Stnum)
        } else {
            None
        }
    }

    pub fn code(self) -> (r: u8)
        ensures
            r == self.spec_code(),
            r < 6,
    {
        match self {
            RatioToIntOpcode::Rnd => 0,
            RatioToIntOpcode::Trnc => 1,
            RatioToIntOpcode::Flr => 2,
            RatioToIntOpcode::Ceil => 3,
            RatioToIntOpcode::Stden => 4,
            RatioToIntOpcode::Stnum => 5,
        }
    }

    pub fn from_code(code: u8) -> (r: Option<RatioToIntOpcode>)
        ensures
            r == Self::spec_from_code(code),
    {
        match code {
            0 => Some(RatioToIntOpcode::Rnd),
            1 => Some(RatioToIntOpcode::Trnc),
            2 => Some(RatioToIntOpcode::Flr),
            3 => Some(RatioToIntOpcode::Ceil),
            4 => Some(RatioToIntOpcode::Stden),
            5 => Some(RatioToIntOpcode::Stnum),
            _ => None,
        }
    }
}

#[derive(Debug, Clone, Copy, PartialEq, Eq, PartialOrd, Ord, Hash, Structural)]
pub enum ImmediateOpcode {
    Ldil,
    Ldih,
    Oril,
    Orih,
    Shli,
    Shri,
    Addi,
    Muli,
}

impl ImmediateOpcode {
    /// The numeric value of this opcode within its format's opcode field.
    pub open spec fn spec_code(self) -> u8 {
        match self {
            ImmediateOpcode::Ldil => 0,
            ImmediateOpcode::Ldih => 1,
            ImmediateOpcode::Oril => 2,
            ImmediateOpcode::Orih => 3,
            ImmediateOpcode::Shli => 4,
            ImmediateOpcode::Shri => 5,
            ImmediateOpcode::Addi => 6,
            ImmediateOpcode::Muli => 7,
        }
    }

    /// The opcode whose value is `code`, if any: the inverse of
    /// `spec_code` on `[0, 8)`.
    pub open spec fn spec_from_code(code: u8) -> Option<ImmediateOpcode> {
        if code == 0 {
            Some(ImmediateOpcode::Ldil)
        } else if code == 1 {
            Some(ImmediateOpcode::Ldih)
        } else if code == 2 {
            Some(ImmediateOpcode::Oril)
        } else if code == 3 {
            Some(ImmediateOpcode::Orih)
        } else if code == 4 {
            Some(ImmediateOpcode::Shli)
        } else if code == 5 {
            Some(ImmediateOpcode::Shri)
        } else if code == 6 {
            Some(ImmediateOpcode::Addi)
        } else if code == 7 {
            Some(ImmediateOpcode::Muli)
        } else {
            None
        }
    }

    pub fn code(self) -> (r: u8)
        ensures
            r == self.spec_code(),
            r < 8,
    {
        match self {
            ImmediateOpcode::Ldil => 0,
            ImmediateOpcode::Ldih => 1,
            ImmediateOpcode::Oril => 2,
            ImmediateOpcode::Orih => 3,
            ImmediateOpcode::Shli => 4,
            ImmediateOpcode::Shri => 5,
            ImmediateOpcode::Addi => 6,
            ImmediateOpcode::Muli => 7,
        }
    }

    pub fn from_code(code: u8) -> (r: Option<ImmediateOpcode>)
        ensures
            r == Self::spec_from_code(code),
    {
        match code {
            0 => Some(ImmediateOpcode::Ldil),
            1 => Some(ImmediateOpcode::Ldih),
            2 => Some(ImmediateOpcode::Oril),
            3 => Some(ImmediateOpcode::Orih),
            4 => Some(ImmediateOpcode::Shli),
            5 => Some(ImmediateOpcode::Shri),
            6 => Some(ImmediateOpcode::Addi),
            7 => Some(ImmediateOpcode::Muli),
            _ => None,
        }
    }
}

#[derive(Debug, Clone, Copy, PartialEq, Eq, PartialOrd, Ord, Hash, Structural)]
pub enum NoExplDestImmOpcode {
    Jmp,
    Call,
    Jc,
    Jnc,
    Jb,
    Jnb,
    Jo,
    Jno,
    Js,
    Jns,
    Jz,
    Jnz,
    Ja,
    Jge,
    Jl,
    Jbe,
}

impl NoExplDestImmOpcode {
    /// The numeric value of this opcode within its format's opcode field.
    pub open spec fn spec_code(self) -> u8 {
        match self {
            NoExplDestImmOpcode::Jmp => 0,
            NoExplDestImmOpcode::Call => 1,
            NoExplDestImmOpcode::Jc => 2,
            NoExplDestImmOpcode::Jnc => 3,
            NoExplDestImmOpcode::Jb => 4,
            NoExplDestImmOpcode::Jnb => 5,
            NoExplDestImmOpcode::Jo => 6,
            NoExplDestImmOpcode::Jno => 7,
            NoExplDestImmOpcode::Js => 8,
            NoExplDestImmOpcode::Jns => 9,
            NoExplDestImmOpcode::Jz => 10,
            NoExplDestImmOpcode::Jnz => 11,
            NoExplDestImmOpcode::Ja => 12,
            NoExplDestImmOpcode::Jge => 13,
            NoExplDestImmOpcode::Jl => 14,
            NoExplDestImmOpcode::Jbe => 15,
        }
    }

    /// The opcode whose value is `code`, if any: the inverse of
    /// `spec_code` on `[0, 16)`.
    pub open spec fn spec_from_code(code: u8) -> Option<NoExplDestImmOpcode> {
        if code == 0 {
            Some(NoExplDestImmOpcode::Jmp)
        } else if code == 1 {
            Some(NoExplDestImmOpcode::Call)
        } else if code == 2 {
            Some(NoExplDestImmOpcode::Jc)
        } else if code == 3 {
            Some(NoExplDestImmOpcode::Jnc)
        } else if code == 4 {
            Some(NoExplDestImmOpcode::Jb)
        } else if code == 5 {
            Some(NoExplDestImmOpcode::Jnb)
        } else if code == 6 {
            Some(NoExplDestImmOpcode::Jo)
        } else if code == 7 {
            Some(NoExplDestImmOpcode::Jno)
        } else if code == 8 {
            Some(NoExplDestImmOpcode::Js)
        } else if code == 9 {
            Some(NoExplDestImmOpcode::Jns)
        } else if code == 10 {
            Some(NoExplDestImmOpcode::Jz)
        } else if code == 11 {
            Some(NoExplDestImmOpcode::Jnz)
        } else if code == 12 {
            Some(NoExplDestImmOpcode::Ja)
        } else if code == 13 {
            Some(NoExplDestImmOpcode::Jge)
        } else if code == 14 {
            Some(NoExplDestImmOpcode::Jl)
        } else if code == 15 {
            Some(NoExplDestImmOpcode::Jbe)
        } else {
            None
        }
    }

    pub fn code(self) -> (r: u8)
        ensures
            r == self.spec_code(),
            r < 16,
    {
        match self {
            NoExplDestImmOpcode::Jmp => 0,
            NoExplDestImmOpcode::Call => 1,
            NoExplDestImmOpcode::Jc => 2,
            NoExplDestImmOpcode::Jnc => 3,
            NoExplDestImmOpcode::Jb => 4,
            NoExplDestImmOpcode::Jnb => 5,
            NoExplDestImmOpcode::Jo => 6,
            NoExplDestImmOpcode::Jno => 7,
            NoExplDestImmOpcode::Js => 8,
            NoExplDestImmOpcode::Jns => 9,
            NoExplDestImmOpcode::Jz => 10,
            NoExplDestImmOpcode::Jnz => 11,
            NoExplDestImmOpcode::Ja => 12,
            NoExplDestImmOpcode::Jge => 13,
            NoExplDestImmOpcode::Jl => 14,
            NoExplDestImmOpcode::Jbe => 15,
        }
    }

    pub fn from_code(code: u8) -> (r: Option<NoExplDestImmOpcode>)
        ensures
            r == Self::spec_from_code(code),
    {
        match code {
            0 => Some(NoExplDestImmOpcode::Jmp),
            1 => Some(NoExplDestImmOpcode::Call),
            2 => Some(NoExplDestImmOpcode::Jc),
            3 => Some(NoExplDestImmOpcode::Jnc),
            4 => Some(NoExplDestImmOpcode::Jb),
            5 => Some(NoExplDestImmOpcode::Jnb),
            6 => Some(NoExplDestImmOpcode::Jo),
            7 => Some(NoExplDestImmOpcode::Jno),
            8 => Some(NoExplDestImmOpcode::Js),
            9 => Some(NoExplDestImmOpcode::Jns),
            10 => Some(NoExplDestImmOpcode::Jz),
            11 => Some(NoExplDestImmOpcode::Jnz),
            12 => Some(NoExplDestImmOpcode::Ja),
            13 => Some(NoExplDestImmOpcode::Jge),
            14 => Some(NoExplDestImmOpcode::Jl),
            15 => Some(NoExplDestImmOpcode::Jbe),
            _ => None,
        }
    }
}

} // verus!
