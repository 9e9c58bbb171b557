//! The instruction codec: decode classifies a 16-bit word against the format
//! catalog and extracts its fields; encode packs a typed instruction back
//! into a word. The wire convention is fixed: the prefix occupies the most
//! significant bits, the opcode field follows it, and the operand fields
//! follow the opcode in declaration order down to the least significant bit;
//! the immediate field is 8-bit two's complement.

use vstd::prelude::*;

use vstd::arithmetic::div_mod::lemma_fundamental_div_mod_converse_div;
use vstd::arithmetic::div_mod::lemma_fundamental_div_mod_converse_mod;

use crate::isa::ImmediateInstr;
use crate::isa::ImmediateOpcode;
use crate::isa::Instruction;
use crate::isa::InstructionTag;
use crate::isa::IntBinNoExplDestInstr;
use crate::isa::IntBinNoExplDestOpcode;
use crate::isa::IntBinaryOpInstr;
use crate::isa::IntBinaryOpOpcode;
use crate::isa::IntToRatioInstr;
use crate::isa::IntToRatioOpcode;
use crate::isa::IntUnaryOpInstr;
use crate::isa::IntUnaryOpOpcode;
use crate::isa::NoExplDestImmInstr;
use crate::isa::NoExplDestImmOpcode;
use crate::isa::NoExplDestInstr;
use crate::isa::NoExplDestOpcode;
use crate::isa::NoExplOperandsInstr;
use crate::isa::NoExplOperandsOpcode;
use crate::isa::NoExplSourceInstr;
use crate::isa::NoExplSourceOpcode;
use crate::isa::RatioBinNoExplDestInstr;
use crate::isa::RatioBinNoExplDestOpcode;
use crate::isa::RatioBinaryOpInstr;
use crate::isa::RatioBinaryOpOpcode;
use crate::isa::RatioToIntInstr;
use crate::isa::RatioToIntOpcode;
use crate::isa::RatioUnaryOpInstr;
use crate::isa::RatioUnaryOpOpcode;
use crate::registers::IntRegister;
use crate::registers::RatioRegister;

verus! {

/// Why a 16-bit word failed to decode.
#[derive(Debug, Clone, Copy, PartialEq, Eq, Hash, Structural)]
pub enum DecodeError {
    /// The word's leading bits match no format's prefix.
    UnknownFormat,
    /// The opcode field's value is not a legal opcode of the matched format.
    UnknownOpcode,
}

/// The format whose prefix the word carries, if any. The prefixes are
/// prefix-free, so this is the only format whose prefix matches; the three
/// 8-bit prefixes above the catalog's largest are assigned to no format, so
/// words of `0xFD00` and above carry none.
pub open spec fn spec_classify(word: u16) -> Option<InstructionTag> {
    if word < 0x4000 {
        Some(InstructionTag::Immediate)
    } else if word < 0x8000 {
        Some(InstructionTag::IntBinaryOp)
    } else if word < 0xA000 {
        Some(InstructionTag::NoExplDestImm)
    } else if word < 0xC000 {
        Some(InstructionTag::RatioBinaryOp)
    } else if word < 0xD000 {
        Some(InstructionTag::IntBinNoExplDest)
    } else if word < 0xE000 {
        Some(InstructionTag::IntUnaryOp)
    } else if word < 0xE800 {
        Some(InstructionTag::RatioToInt)
    } else if word < 0xF000 {
        Some(InstructionTag::IntToRatio)
    } else if word < 0xF400 {
        Some(InstructionTag::RatioBinNoExplDest)
    } else if word < 0xF800 {
        Some(InstructionTag::RatioUnaryOp)
    } else if word < 0xFA00 {
        Some(InstructionTag::NoExplDest)
    } else if word < 0xFC00 {
        Some(InstructionTag::NoExplSource)
    } else if word < 0xFD00 {
        Some(InstructionTag::NoExplOperands)
    } else {
        None
    }
}

/// The integer register with the given extracted field value.
pub open spec fn spec_int_reg(code: u16) -> IntRegister
    recommends
        code < 8,
{
    IntRegister::spec_from_code(code as u8)->Some_0
}

/// The ratio register with the given extracted field value.
pub open spec fn spec_ratio_reg(code: u16) -> RatioRegister
    recommends
        code < 4,
{
    RatioRegister::spec_from_code(code as u8)->Some_0
}

/// The 8-bit two's-complement value of an extracted immediate field.
pub open spec fn spec_imm_value(bits: u16) -> i8
    recommends
        bits < 256,
{
    if bits < 128 {
        bits as i8
    } else {
        (bits - 256) as i8
    }
}

/// The 8-bit two's-complement encoding of an immediate value.
pub open spec fn spec_imm_bits(imm: i8) -> u16 {
    if imm >= 0 {
        imm as u16
    } else {
        (imm + 256) as u16
    }
}

/// The typed instruction a 16-bit word decodes to, or the error: the word is
/// classified by its prefix, the opcode field is validated against the
/// format's opcode enumeration, and the operand fields are extracted left to
/// right.
pub open spec fn spec_decode(word: u16) -> Result<Instruction, DecodeError> {
    match spec_classify(word) {
        None => Err(DecodeError::UnknownFormat),
        Some(tag) => match tag {
            InstructionTag::Immediate => {
                let rel = word as int;
                match ImmediateOpcode::spec_from_code((rel / 2048) as u8) {
                    None => Err(DecodeError::UnknownOpcode),
                    Some(op) => Ok(
                        Instruction::Immediate(
                            ImmediateInstr {
                                opcode: op,
                                dest: spec_int_reg(((rel / 256) % 8) as u16),
                                immediate: spec_imm_value((rel % 256) as u16),
                            },
                        ),
                    ),
                }
            },
            InstructionTag::IntBinaryOp => {
                let rel = word - 0x4000;
                match IntBinaryOpOpcode::spec_from_code((rel / 512) as u8) {
                    None => Err(DecodeError::UnknownOpcode),
                    Some(op) => Ok(
                        Instruction::IntBinaryOp(
                            IntBinaryOpInstr {
                                opcode: op,
                                dest: spec_int_reg(((rel / 64) % 8) as u16),
                                lhs: spec_int_reg(((rel / 8) % 8) as u16),
                                rhs: spec_int_reg((rel % 8) as u16),
                            },
                        ),
                    ),
                }
            },
            InstructionTag::NoExplDestImm => {
                let rel = word - 0x8000;
                match NoExplDestImmOpcode::spec_from_code((rel / 256) as u8) {
                    None => Err(DecodeError::UnknownOpcode),
                    Some(op) => Ok(
                        Instruction::NoExplDestImm(
                            NoExplDestImmInstr {
                                opcode: op,
                                immediate: spec_imm_value((rel % 256) as u16),
                            },
                        ),
                    ),
                }
            },
            InstructionTag::RatioBinaryOp => {
                let rel = word - 0xA000;
                match RatioBinaryOpOpcode::spec_from_code((rel / 64) as u8) {
                    None => Err(DecodeError::UnknownOpcode),
                    Some(op) => Ok(
                        Instruction::RatioBinaryOp(
                            RatioBinaryOpInstr {
                                opcode: op,
                                dest: spec_ratio_reg(((rel / 16) % 4) as u16),
                                lhs: spec_ratio_reg(((rel / 4) % 4) as u16),
                                rhs: spec_ratio_reg((rel % 4) as u16),
                            },
                        ),
                    ),
                }
            },
            InstructionTag::IntBinNoExplDest => {
                let rel = word - 0xC000;
                match IntBinNoExplDestOpcode::spec_from_code((rel / 64) as u8) {
                    None => Err(DecodeError::UnknownOpcode),
                    Some(op) => Ok(
                        Instruction::IntBinNoExplDest(
                            IntBinNoExplDestInstr {
                                opcode: op,
                                lhs: spec_int_reg(((rel / 8) % 8) as u16),
                                rhs: spec_int_reg((rel % 8) as u16),
                            },
                        ),
                    ),
                }
            },
            InstructionTag::IntUnaryOp => {
                let rel = word - 0xD000;
                match IntUnaryOpOpcode::spec_from_code((rel / 64) as u8) {
                    None => Err(DecodeError::UnknownOpcode),
                    Some(op) => Ok(
                        Instruction::IntUnaryOp(
                            IntUnaryOpInstr {
                                opcode: op,
                                dest: spec_int_reg(((rel / 8) % 8) as u16),
                                source: spec_int_reg((rel % 8) as u16),
                            },
                        ),
                    ),
                }
            },
            InstructionTag::RatioToInt => {
                let rel = word - 0xE000;
                match RatioToIntOpcode::spec_from_code((rel / 32) as u8) {
                    None => Err(DecodeError::UnknownOpcode),
                    Some(op) => Ok(
                        Instruction::RatioToInt(
                            RatioToIntInstr {
                                opcode: op,
                                dest: spec_int_reg(((rel / 4) % 8) as u16),
                                source: spec_ratio_reg((rel % 4) as u16),
                            },
                        ),
                    ),
                }
            },
            InstructionTag::IntToRatio => {
                let rel = word - 0xE800;
                match IntToRatioOpcode::spec_from_code((rel / 32) as u8) {
                    None => Err(DecodeError::UnknownOpcode),
                    Some(op) => Ok(
                        Instruction::IntToRatio(
                            IntToRatioInstr {
                                opcode: op,
                                dest: spec_ratio_reg(((rel / 8) % 4) as u16),
                                source: spec_int_reg((rel % 8) as u16),
                            },
                        ),
                    ),
                }
            },
            InstructionTag::RatioBinNoExplDest => {
                let rel = word - 0xF000;
                match RatioBinNoExplDestOpcode::spec_from_code((rel / 16) as u8) {
                    None => Err(DecodeError::UnknownOpcode),
                    Some(op) => Ok(
                        Instruction::RatioBinNoExplDest(
                            RatioBinNoExplDestInstr {
                                opcode: op,
                                lhs: spec_ratio_reg(((rel / 4) % 4) as u16),
                                rhs: spec_ratio_reg((rel % 4) as u16),
                            },
                        ),
                    ),
                }
            },
            InstructionTag::RatioUnaryOp => {
                let rel = word - 0xF400;
                match RatioUnaryOpOpcode::spec_from_code((rel / 16) as u8) {
                    None => Err(DecodeError::UnknownOpcode),
                    Some(op) => Ok(
                        Instruction::RatioUnaryOp(
                            RatioUnaryOpInstr {
                                opcode: op,
                                dest: spec_ratio_reg(((rel / 4) % 4) as u16),
                                source: spec_ratio_reg((rel % 4) as u16),
                            },
                        ),
                    ),
                }
            },
            InstructionTag::NoExplDest => {
                let rel = word - 0xF800;
                match NoExplDestOpcode::spec_from_code((rel / 8) as u8) {
                    None => Err(DecodeError::UnknownOpcode),
                    Some(op) => Ok(
                        Instruction::NoExplDest(
                            NoExplDestInstr { opcode: op, source: spec_int_reg((rel % 8) as u16) },
                        ),
                    ),
                }
            },
            InstructionTag::NoExplSource => {
                let rel = word - 0xFA00;
                match NoExplSourceOpcode::spec_from_code((rel / 8) as u8) {
                    None => Err(DecodeError::UnknownOpcode),
                    Some(op) => Ok(
                        Instruction::NoExplSource(
                            NoExplSourceInstr { opcode: op, dest: spec_int_reg((rel % 8) as u16) },
                        ),
                    ),
                }
            },
            InstructionTag::NoExplOperands => {
                let rel = word - 0xFC00;
                match NoExplOperandsOpcode::spec_from_code(rel as u8) {
                    None => Err(DecodeError::UnknownOpcode),
                    Some(op) => Ok(
                        Instruction::NoExplOperands(NoExplOperandsInstr { opcode: op }),
                    ),
                }
            },
        },
    }
}

/// The 16-bit word a typed instruction encodes to: the format's prefix in the
/// most significant bits, then the opcode field, then the operand fields in
/// declaration order.
pub open spec fn spec_encode(instr: Instruction) -> u16 {
    match instr {
        Instruction::NoExplOperands(i) => (0xFC00 + i.opcode.spec_code()) as u16,
        Instruction::NoExplSource(i) => (0xFA00 + i.opcode.spec_code() * 8
            + i.dest.spec_code()) as u16,
        Instruction::NoExplDest(i) => (0xF800 + i.opcode.spec_code() * 8
            + i.source.spec_code()) as u16,
        Instruction::IntUnaryOp(i) => (0xD000 + i.opcode.spec_code() * 64 + i.dest.spec_code() * 8
            + i.source.spec_code()) as u16,
        Instruction::IntBinaryOp(i) => (0x4000 + i.opcode.spec_code() * 512 + i.dest.spec_code()
            * 64 + i.lhs.spec_code() * 8 + i.rhs.spec_code()) as u16,
        Instruction::IntBinNoExplDest(i) => (0xC000 + i.opcode.spec_code() * 64 + i.lhs.spec_code()
            * 8 + i.rhs.spec_code()) as u16,
        Instruction::RatioUnaryOp(i) => (0xF400 + i.opcode.spec_code() * 16 + i.dest.spec_code()
            * 4 + i.source.spec_code()) as u16,
        Instruction::RatioBinaryOp(i) => (0xA000 + i.opcode.spec_code() * 64 + i.dest.spec_code()
            * 16 + i.lhs.spec_code() * 4 + i.rhs.spec_code()) as u16,
        Instruction::RatioBinNoExplDest(i) => (0xF000 + i.opcode.spec_code() * 16
            + i.lhs.spec_code() * 4 + i.rhs.spec_code()) as u16,
        Instruction::IntToRatio(i) => (0xE800 + i.opcode.spec_code() * 32 + i.dest.spec_code() * 8
            + i.source.spec_code()) as u16,
        Instruction::RatioToInt(i) => (0xE000 + i.opcode.spec_code() * 32 + i.dest.spec_code() * 4
            + i.source.spec_code()) as u16,
        Instruction::Immediate(i) => (i.opcode.spec_code() * 2048 + i.dest.spec_code() * 256
            + spec_imm_bits(i.immediate)) as u16,
        Instruction::NoExplDestImm(i) => (0x8000 + i.opcode.spec_code() * 256 + spec_imm_bits(
            i.immediate,
        )) as u16,
    }
}

/// Converts an extracted immediate field to its 8-bit two's-complement value.
fn imm_value(bits: u16) -> (r: i8)
    requires
        bits < 256,
    ensures
        r == spec_imm_value(bits),
{
    if bits < 128 {
        bits as i8
    } else {
        ((bits as i32) - 256) as i8
    }
}

/// Converts an immediate value to the 8 bits that encode it.
fn imm_bits(imm: i8) -> (r: u16)
    ensures
        r == spec_imm_bits(imm),
{
    if imm >= 0 {
        imm as u16
    } else {
        ((imm as i32) + 256) as u16
    }
}

/// Decodes a 16-bit word into a typed instruction: classifies the word by its
/// prefix, validates the opcode field against the matched format's opcode
/// enumeration, and extracts the operand fields left to right.
pub fn decode(word: u16) -> (r: Result<Instruction, DecodeError>)
    ensures
        r == spec_decode(word),
{
    if word < 0x4000 {
        let op = match ImmediateOpcode::from_code((word / 2048) as u8) {
            Some(op) => op,
            None => {
                return Err(DecodeError::UnknownOpcode);
            },
        };
        let dest = match IntRegister::from_code(((word / 256) % 8) as u8) {
            Some(r) => r,
            None => {
                return Err(DecodeError::UnknownOpcode);
            },
        };
        Ok(
            Instruction::Immediate(
                ImmediateInstr { opcode: op, dest, immediate: imm_value(word % 256) },
            ),
        )
    } else if word < 0x8000 {
        let rel = word - 0x4000;
        let op = match IntBinaryOpOpcode::from_code((rel / 512) as u8) {
            Some(op) => op,
            None => {
                return Err(DecodeError::UnknownOpcode);
            },
        };
        let dest = match IntRegister::from_code(((rel / 64) % 8) as u8) {
            Some(r) => r,
            None => {
                return Err(DecodeError::UnknownOpcode);
            },
        };
        let lhs = match IntRegister::from_code(((rel / 8) % 8) as u8) {
            Some(r) => r,
            None => {
                return Err(DecodeError::UnknownOpcode);
            },
        };
        let rhs = match IntRegister::from_code((rel % 8) as u8) {
            Some(r) => r,
            None => {
                return Err(DecodeError::UnknownOpcode);
            },
        };
        Ok(Instruction::IntBinaryOp(IntBinaryOpInstr { opcode: op, dest, lhs, rhs }))
    } else if word < 0xA000 {
        let rel = word - 0x8000;
        let op = match NoExplDestImmOpcode::from_code((rel / 256) as u8) {
            Some(op) => op,
            None => {
                return Err(DecodeError::UnknownOpcode);
            },
        };
        Ok(
            Instruction::NoExplDestImm(
                NoExplDestImmInstr { opcode: op, immediate: imm_value(rel % 256) },
            ),
        )
    } else if word < 0xC000 {
        let rel = word - 0xA000;
        let op = match RatioBinaryOpOpcode::from_code((rel / 64) as u8) {
            Some(op) => op,
            None => {
                return Err(DecodeError::UnknownOpcode);
            },
        };
        let dest = match RatioRegister::from_code(((rel / 16) % 4) as u8) {
            Some(r) => r,
            None => {
                return Err(DecodeError::UnknownOpcode);
            },
        };
        let lhs = match RatioRegister::from_code(((rel / 4) % 4) as u8) {
            Some(r) => r,
            None => {
                return Err(DecodeError::UnknownOpcode);
            },
        };
        let rhs = match RatioRegister::from_code((rel % 4) as u8) {
            Some(r) => r,
            None => {
                return Err(DecodeError::UnknownOpcode);
            },
        };
        Ok(Instruction::RatioBinaryOp(RatioBinaryOpInstr { opcode: op, dest, lhs, rhs }))
    } else if word < 0xD000 {
        let rel = word - 0xC000;
        let op = match IntBinNoExplDestOpcode::from_code((rel / 64) as u8) {
            Some(op) => op,
            None => {
                return Err(DecodeError::UnknownOpcode);
            },
        };
        let lhs = match IntRegister::from_code(((rel / 8) % 8) as u8) {
            Some(r) => r,
            None => {
                return Err(DecodeError::UnknownOpcode);
            },
        };
        let rhs = match IntRegister::from_code((rel % 8) as u8) {
            Some(r) => r,
            None => {
                return Err(DecodeError::UnknownOpcode);
            },
        };
        Ok(Instruction::IntBinNoExplDest(IntBinNoExplDestInstr { opcode: op, lhs, rhs }))
    } else if word < 0xE000 {
        let rel = word - 0xD000;
        let op = match IntUnaryOpOpcode::from_code((rel / 64) as u8) {
            Some(op) => op,
            None => {
                return Err(DecodeError::UnknownOpcode);
            },
        };
        let dest = match IntRegister::from_code(((rel / 8) % 8) as u8) {
            Some(r) => r,
            None => {
                return Err(DecodeError::UnknownOpcode);
            },
        };
        let source = match IntRegister::from_code((rel % 8) as u8) {
            Some(r) => r,
            None => {
                return Err(DecodeError::UnknownOpcode);
            },
        };
        Ok(Instruction::IntUnaryOp(IntUnaryOpInstr { opcode: op, dest, source }))
    } else if word < 0xE800 {
        let rel = word - 0xE000;
        let op = match RatioToIntOpcode::from_code((rel / 32) as u8) {
            Some(op) => op,
            None => {
                return Err(DecodeError::UnknownOpcode);
            },
        };
        let dest = match IntRegister::from_code(((rel / 4) % 8) as u8) {
            Some(r) => r,
            None => {
                return Err(DecodeError::UnknownOpcode);
            },
        };
        let source = match RatioRegister::from_code((rel % 4) as u8) {
            Some(r) => r,
            None => {
                return Err(DecodeError::UnknownOpcode);
            },
        };
        Ok(Instruction::RatioToInt(RatioToIntInstr { opcode: op, dest, source }))
    } else if word < 0xF000 {
        let rel = word - 0xE800;
        let op = match IntToRatioOpcode::from_code((rel / 32) as u8) {
            Some(op) => op,
            None => {
                return Err(DecodeError::UnknownOpcode);
            },
        };
        let dest = match RatioRegister::from_code(((rel / 8) % 4) as u8) {
            Some(r) => r,
            None => {
                return Err(DecodeError::UnknownOpcode);
            },
        };
        let source = match IntRegister::from_code((rel % 8) as u8) {
            Some(r) => r,
            None => {
                return Err(DecodeError::UnknownOpcode);
            },
        };
        Ok(Instruction::IntToRatio(IntToRatioInstr { opcode: op, dest, source }))
    } else if word < 0xF400 {
        let rel = word - 0xF000;
        let op = match RatioBinNoExplDestOpcode::from_code((rel / 16) as u8) {
            Some(op) => op,
            None => {
                return Err(DecodeError::UnknownOpcode);
            },
        };
        let lhs = match RatioRegister::from_code(((rel / 4) % 4) as u8) {
            Some(r) => r,
            None => {
                return Err(DecodeError::UnknownOpcode);
            },
        };
        let rhs = match RatioRegister::from_code((rel % 4) as u8) {
            Some(r) => r,
            None => {
                return Err(DecodeError::UnknownOpcode);
            },
        };
        Ok(Instruction::RatioBinNoExplDest(RatioBinNoExplDestInstr { opcode: op, lhs, rhs }))
    } else if word < 0xF800 {
        let rel = word - 0xF400;
        let op = match RatioUnaryOpOpcode::from_code((rel / 16) as u8) {
            Some(op) => op,
            None => {
                return Err(DecodeError::UnknownOpcode);
            },
        };
        let dest = match RatioRegister::from_code(((rel / 4) % 4) as u8) {
            Some(r) => r,
            None => {
                return Err(DecodeError::UnknownOpcode);
            },
        };
        let source = match RatioRegister::from_code((rel % 4) as u8) {
            Some(r) => r,
            None => {
                return Err(DecodeError::UnknownOpcode);
            },
        };
        Ok(Instruction::RatioUnaryOp(RatioUnaryOpInstr { opcode: op, dest, source }))
    } else if word < 0xFA00 {
        let rel = word - 0xF800;
        let op = match NoExplDestOpcode::from_code((rel / 8) as u8) {
            Some(op) => op,
            None => {
                return Err(DecodeError::UnknownOpcode);
            },
        };
        let source = match IntRegister::from_code((rel % 8) as u8) {
            Some(r) => r,
            None => {
                return Err(DecodeError::UnknownOpcode);
            },
        };
        Ok(Instruction::NoExplDest(NoExplDestInstr { opcode: op, source }))
    } else if word < 0xFC00 {
        let rel = word - 0xFA00;
        let op = match NoExplSourceOpcode::from_code((rel / 8) as u8) {
            Some(op) => op,
            None => {
                return Err(DecodeError::UnknownOpcode);
            },
        };
        let dest = match IntRegister::from_code((rel % 8) as u8) {
            Some(r) => r,
            None => {
                return Err(DecodeError::UnknownOpcode);
            },
        };
        Ok(Instruction::NoExplSource(NoExplSourceInstr { opcode: op, dest }))
    } else if word < 0xFD00 {
        let rel = word - 0xFC00;
        let op = match NoExplOperandsOpcode::from_code(rel as u8) {
            Some(op) => op,
            None => {
                return Err(DecodeError::UnknownOpcode);
            },
        };
        Ok(Instruction::NoExplOperands(NoExplOperandsInstr { opcode: op }))
    } else {
        Err(DecodeError::UnknownFormat)
    }
}

/// Encodes a typed instruction into its 16-bit word. Every constructible
/// instruction holds a legal opcode and legal operand values, so encoding is
/// total.
#[verifier::rlimit(60)]
pub fn encode(instr: Instruction) -> (r: u16)
    ensures
        r == spec_encode(instr),
{
    match instr {
        Instruction::NoExplOperands(i) => 0xFC00 + (i.opcode.code() as u16),
        Instruction::NoExplSource(i) => 0xFA00 + (i.opcode.code() as u16) * 8 + (
        i.dest.code() as u16),
        Instruction::NoExplDest(i) => 0xF800 + (i.opcode.code() as u16) * 8 + (
        i.source.code() as u16),
        Instruction::IntUnaryOp(i) => 0xD000 + (i.opcode.code() as u16) * 64 + (
        i.dest.code() as u16) * 8 + (i.source.code() as u16),
        Instruction::IntBinaryOp(i) => 0x4000 + (i.opcode.code() as u16) * 512 + (
        i.dest.code() as u16) * 64 + (i.lhs.code() as u16) * 8 + (i.rhs.code() as u16),
        Instruction::IntBinNoExplDest(i) => 0xC000 + (i.opcode.code() as u16) * 64 + (
        i.lhs.code() as u16) * 8 + (i.rhs.code() as u16),
        Instruction::RatioUnaryOp(i) => 0xF400 + (i.opcode.code() as u16) * 16 + (
        i.dest.code() as u16) * 4 + (i.source.code() as u16),
        Instruction::RatioBinaryOp(i) => 0xA000 + (i.opcode.code() as u16) * 64 + (
        i.dest.code() as u16) * 16 + (i.lhs.code() as u16) * 4 + (i.rhs.code() as u16),
        Instruction::RatioBinNoExplDest(i) => 0xF000 + (i.opcode.code() as u16) * 16 + (
        i.lhs.code() as u16) * 4 + (i.rhs.code() as u16),
        Instruction::IntToRatio(i) => 0xE800 + (i.opcode.code() as u16) * 32 + (
        i.dest.code() as u16) * 8 + (i.source.code() as u16),
        Instruction::RatioToInt(i) => 0xE000 + (i.opcode.code() as u16) * 32 + (
        i.dest.code() as u16) * 4 + (i.source.code() as u16),
        Instruction::Immediate(i) => (i.opcode.code() as u16) * 2048 + (i.dest.code() as u16) * 256
            + imm_bits(i.immediate),
        Instruction::NoExplDestImm(i) => 0x8000 + (i.opcode.code() as u16) * 256 + imm_bits(
            i.immediate,
        ),
    }
}

/// Law: the prefixes are a prefix-free code. A format's prefix matches a word
/// exactly when classification picks that format, so at most one format's
/// prefix matches any word; every word below `0xFD00` matches exactly one
/// format, and the words of `0xFD00` and above (the three reserved 8-bit
/// prefixes) match none.
pub proof fn lemma_prefix_classification(word: u16)
    ensures
        forall|tag: InstructionTag| #[trigger] tag.prefix_matches(word) <==> spec_classify(word)
            == Some(tag),
        spec_classify(word) is Some <==> word < 0xFD00,
        forall|tag: InstructionTag| #[trigger]
            tag.prefix_matches(word) <==> tag.word_base() <= word < tag.word_base()
                + tag.word_span(),
{
    assert forall|tag: InstructionTag|
        ((#[trigger] tag.prefix_matches(word)) <==> spec_classify(word) == Some(tag))
            && (tag.prefix_matches(word) <==> tag.word_base() <= word < tag.word_base()
            + tag.word_span()) by {
        match tag {
            InstructionTag::NoExplOperands => {
                assert(word / 0x100 == 0xFC <==> 0xFC00 <= word < 0xFD00);
            },
            InstructionTag::NoExplSource => {
                assert(word / 0x200 == 0x7D <==> 0xFA00 <= word < 0xFC00);
            },
            InstructionTag::NoExplDest => {
                assert(word / 0x200 == 0x7C <==> 0xF800 <= word < 0xFA00);
            },
            InstructionTag::RatioUnaryOp => {
                assert(word / 0x400 == 0x3D <==> 0xF400 <= word < 0xF800);
            },
            InstructionTag::RatioBinNoExplDest => {
                assert(word / 0x400 == 0x3C <==> 0xF000 <= word < 0xF400);
            },
            InstructionTag::IntToRatio => {
                assert(word / 0x800 == 0x1D <==> 0xE800 <= word < 0xF000);
            },
            InstructionTag::RatioToInt => {
                assert(word / 0x800 == 0x1C <==> 0xE000 <= word < 0xE800);
            },
            InstructionTag::IntUnaryOp => {
                assert(word / 0x1000 == 0xD <==> 0xD000 <= word < 0xE000);
            },
            InstructionTag::IntBinNoExplDest => {
                assert(word / 0x1000 == 0xC <==> 0xC000 <= word < 0xD000);
            },
            InstructionTag::RatioBinaryOp => {
                assert(word / 0x2000 == 0x5 <==> 0xA000 <= word < 0xC000);
            },
            InstructionTag::NoExplDestImm => {
                assert(word / 0x2000 == 0x4 <==> 0x8000 <= word < 0xA000);
            },
            InstructionTag::IntBinaryOp => {
                assert(word / 0x4000 == 0x1 <==> 0x4000 <= word < 0x8000);
            },
            InstructionTag::Immediate => {
                assert(word / 0x4000 == 0x0 <==> word < 0x4000);
            },
        }
    }
}

proof fn lemma_round_trip_no_expl_operands(i: NoExplOperandsInstr)
    ensures
        spec_decode(spec_encode(Instruction::NoExplOperands(i))) == Ok::<Instruction, DecodeError>(
            Instruction::NoExplOperands(i),
        ),
{
    let instr = Instruction::NoExplOperands(i);
    let w = spec_encode(instr);
    assert(w == 0xFC00 + i.opcode.spec_code());
    assert(NoExplOperandsOpcode::spec_from_code(i.opcode.spec_code()) == Some(i.opcode));
}

proof fn lemma_round_trip_no_expl_source(i: NoExplSourceInstr)
    ensures
        spec_decode(spec_encode(Instruction::NoExplSource(i))) == Ok::<Instruction, DecodeError>(
            Instruction::NoExplSource(i),
        ),
{
    let instr = Instruction::NoExplSource(i);
    let w = spec_encode(instr);
    let op = i.opcode.spec_code() as int;
    let d = i.dest.spec_code() as int;
    assert(w == 0xFA00 + op * 8 + d);
    let rel = w - 0xFA00;
    lemma_fundamental_div_mod_converse_div(rel, 8, op, d);
    lemma_fundamental_div_mod_converse_mod(rel, 8, op, d);
    assert(NoExplSourceOpcode::spec_from_code(i.opcode.spec_code()) == Some(i.opcode));
    assert(IntRegister::spec_from_code(i.dest.spec_code()) == Some(i.dest));
}

proof fn lemma_round_trip_no_expl_dest(i: NoExplDestInstr)
    ensures
        spec_decode(spec_encode(Instruction::NoExplDest(i))) == Ok::<Instruction, DecodeError>(
            Instruction::NoExplDest(i),
        ),
{
    let instr = Instruction::NoExplDest(i);
    let w = spec_encode(instr);
    let op = i.opcode.spec_code() as int;
    let s = i.source.spec_code() as int;
    assert(w == 0xF800 + op * 8 + s);
    let rel = w - 0xF800;
    lemma_fundamental_div_mod_converse_div(rel, 8, op, s);
    lemma_fundamental_div_mod_converse_mod(rel, 8, op, s);
    assert(NoExplDestOpcode::spec_from_code(i.opcode.spec_code()) == Some(i.opcode));
    assert(IntRegister::spec_from_code(i.source.spec_code()) == Some(i.source));
}

proof fn lemma_round_trip_int_unary_op(i: IntUnaryOpInstr)
    ensures
        spec_decode(spec_encode(Instruction::IntUnaryOp(i))) == Ok::<Instruction, DecodeError>(
            Instruction::IntUnaryOp(i),
        ),
{
    let instr = Instruction::IntUnaryOp(i);
    let w = spec_encode(instr);
    let op = i.opcode.spec_code() as int;
    let d = i.dest.spec_code() as int;
    let s = i.source.spec_code() as int;
    assert(w == 0xD000 + op * 64 + d * 8 + s);
    let rel = w - 0xD000;
    lemma_fundamental_div_mod_converse_div(rel, 64, op, d * 8 + s);
    lemma_fundamental_div_mod_converse_div(rel, 8, op * 8 + d, s);
    lemma_fundamental_div_mod_converse_mod(op * 8 + d, 8, op, d);
    lemma_fundamental_div_mod_converse_mod(rel, 8, op * 8 + d, s);
    assert(IntUnaryOpOpcode::spec_from_code(i.opcode.spec_code()) == Some(i.opcode));
    assert(IntRegister::spec_from_code(i.dest.spec_code()) == Some(i.dest));
    assert(IntRegister::spec_from_code(i.source.spec_code()) == Some(i.source));
}

proof fn lemma_round_trip_int_binary_op(i: IntBinaryOpInstr)
    ensures
        spec_decode(spec_encode(Instruction::IntBinaryOp(i))) == Ok::<Instruction, DecodeError>(
            Instruction::IntBinaryOp(i),
        ),
{
    let instr = Instruction::IntBinaryOp(i);
    let w = spec_encode(instr);
    let op = i.opcode.spec_code() as int;
    let d = i.dest.spec_code() as int;
    let l = i.lhs.spec_code() as int;
    let r = i.rhs.spec_code() as int;
    assert(w == 0x4000 + op * 512 + d * 64 + l * 8 + r);
    let rel = w - 0x4000;
    lemma_fundamental_div_mod_converse_div(rel, 512, op, d * 64 + l * 8 + r);
    lemma_fundamental_div_mod_converse_div(rel, 64, op * 8 + d, l * 8 + r);
    lemma_fundamental_div_mod_converse_mod(op * 8 + d, 8, op, d);
    lemma_fundamental_div_mod_converse_div(rel, 8, op * 64 + d * 8 + l, r);
    lemma_fundamental_div_mod_converse_mod(op * 64 + d * 8 + l, 8, op * 8 + d, l);
    lemma_fundamental_div_mod_converse_mod(rel, 8, op * 64 + d * 8 + l, r);
    assert(IntBinaryOpOpcode::spec_from_code(i.opcode.spec_code()) == Some(i.opcode));
    assert(IntRegister::spec_from_code(i.dest.spec_code()) == Some(i.dest));
    assert(IntRegister::spec_from_code(i.lhs.spec_code()) == Some(i.lhs));
    assert(IntRegister::spec_from_code(i.rhs.spec_code()) == Some(i.rhs));
}

proof fn lemma_round_trip_int_bin_no_expl_dest(i: IntBinNoExplDestInstr)
    ensures
        spec_decode(spec_encode(Instruction::IntBinNoExplDest(i))) == Ok::<Instruction, DecodeError>(
            Instruction::IntBinNoExplDest(i),
        ),
{
    let instr = Instruction::IntBinNoExplDest(i);
    let w = spec_encode(instr);
    let op = i.opcode.spec_code() as int;
    let l = i.lhs.spec_code() as int;
    let r = i.rhs.spec_code() as int;
    assert(w == 0xC000 + op * 64 + l * 8 + r);
    let rel = w - 0xC000;
    lemma_fundamental_div_mod_converse_div(rel, 64, op, l * 8 + r);
    lemma_fundamental_div_mod_converse_div(rel, 8, op * 8 + l, r);
    lemma_fundamental_div_mod_converse_mod(op * 8 + l, 8, op, l);
    lemma_fundamental_div_mod_converse_mod(rel, 8, op * 8 + l, r);
    assert(IntBinNoExplDestOpcode::spec_from_code(i.opcode.spec_code()) == Some(i.opcode));
    assert(IntRegister::spec_from_code(i.lhs.spec_code()) == Some(i.lhs));
    assert(IntRegister::spec_from_code(i.rhs.spec_code()) == Some(i.rhs));
}

proof fn lemma_round_trip_ratio_unary_op(i: RatioUnaryOpInstr)
    ensures
        spec_decode(spec_encode(Instruction::RatioUnaryOp(i))) == Ok::<Instruction, DecodeError>(
            Instruction::RatioUnaryOp(i),
        ),
{
    let instr = Instruction::RatioUnaryOp(i);
    let w = spec_encode(instr);
    let op = i.opcode.spec_code() as int;
    let d = i.dest.spec_code() as int;
    let s = i.source.spec_code() as int;
    assert(w == 0xF400 + op * 16 + d * 4 + s);
    let rel = w - 0xF400;
    lemma_fundamental_div_mod_converse_div(rel, 16, op, d * 4 + s);
    lemma_fundamental_div_mod_converse_div(rel, 4, op * 4 + d, s);
    lemma_fundamental_div_mod_converse_mod(op * 4 + d, 4, op, d);
    lemma_fundamental_div_mod_converse_mod(rel, 4, op * 4 + d, s);
    assert(RatioUnaryOpOpcode::spec_from_code(i.opcode.spec_code()) == Some(i.opcode));
    assert(RatioRegister::spec_from_code(i.dest.spec_code()) == Some(i.dest));
    assert(RatioRegister::spec_from_code(i.source.spec_code()) == Some(i.source));
}

proof fn lemma_round_trip_ratio_binary_op(i: RatioBinaryOpInstr)
    ensures
        spec_decode(spec_encode(Instruction::RatioBinaryOp(i))) == Ok::<Instruction, DecodeError>(
            Instruction::RatioBinaryOp(i),
        ),
{
    let instr = Instruction::RatioBinaryOp(i);
    let w = spec_encode(instr);
    let op = i.opcode.spec_code() as int;
    let d = i.dest.spec_code() as int;
    let l = i.lhs.spec_code() as int;
    let r = i.rhs.spec_code() as int;
    assert(w == 0xA000 + op * 64 + d * 16 + l * 4 + r);
    let rel = w - 0xA000;
    lemma_fundamental_div_mod_converse_div(rel, 64, op, d * 16 + l * 4 + r);
    lemma_fundamental_div_mod_converse_div(rel, 16, op * 4 + d, l * 4 + r);
    lemma_fundamental_div_mod_converse_mod(op * 4 + d, 4, op, d);
    lemma_fundamental_div_mod_converse_div(rel, 4, op * 16 + d * 4 + l, r);
    lemma_fundamental_div_mod_converse_mod(op * 16 + d * 4 + l, 4, op * 4 + d, l);
    lemma_fundamental_div_mod_converse_mod(rel, 4, op * 16 + d * 4 + l, r);
    assert(RatioBinaryOpOpcode::spec_from_code(i.opcode.spec_code()) == Some(i.opcode));
    assert(RatioRegister::spec_from_code(i.dest.spec_code()) == Some(i.dest));
    assert(RatioRegister::spec_from_code(i.lhs.spec_code()) == Some(i.lhs));
    assert(RatioRegister::spec_from_code(i.rhs.spec_code()) == Some(i.rhs));
}

proof fn lemma_round_trip_ratio_bin_no_expl_dest(i: RatioBinNoExplDestInstr)
    ensures
        spec_decode(spec_encode(Instruction::RatioBinNoExplDest(i))) == Ok::<Instruction, DecodeError>(
            Instruction::RatioBinNoExplDest(i),
        ),
{
    let instr = Instruction::RatioBinNoExplDest(i);
    let w = spec_encode(instr);
    let op = i.opcode.spec_code() as int;
    let l = i.lhs.spec_code() as int;
    let r = i.rhs.spec_code() as int;
    assert(w == 0xF000 + op * 16 + l * 4 + r);
    let rel = w - 0xF000;
    lemma_fundamental_div_mod_converse_div(rel, 16, op, l * 4 + r);
    lemma_fundamental_div_mod_converse_div(rel, 4, op * 4 + l, r);
    lemma_fundamental_div_mod_converse_mod(op * 4 + l, 4, op, l);
    lemma_fundamental_div_mod_converse_mod(rel, 4, op * 4 + l, r);
    assert(RatioBinNoExplDestOpcode::spec_from_code(i.opcode.spec_code()) == Some(
            i.opcode,
    ));
    assert(RatioRegister::spec_from_code(i.lhs.spec_code()) == Some(i.lhs));
    assert(RatioRegister::spec_from_code(i.rhs.spec_code()) == Some(i.rhs));
}

proof fn lemma_round_trip_int_to_ratio(i: IntToRatioInstr)
    ensures
        spec_decode(spec_encode(Instruction::IntToRatio(i))) == Ok::<Instruction, DecodeError>(
            Instruction::IntToRatio(i),
        ),
{
    let instr = Instruction::IntToRatio(i);
    let w = spec_encode(instr);
    let op = i.opcode.spec_code() as int;
    let d = i.dest.spec_code() as int;
    let s = i.source.spec_code() as int;
    assert(w == 0xE800 + op * 32 + d * 8 + s);
    let rel = w - 0xE800;
    lemma_fundamental_div_mod_converse_div(rel, 32, op, d * 8 + s);
    lemma_fundamental_div_mod_converse_div(rel, 8, op * 4 + d, s);
    lemma_fundamental_div_mod_converse_mod(op * 4 + d, 4, op, d);
    lemma_fundamental_div_mod_converse_mod(rel, 8, op * 4 + d, s);
    assert(IntToRatioOpcode::spec_from_code(i.opcode.spec_code()) == Some(i.opcode));
    assert(RatioRegister::spec_from_code(i.dest.spec_code()) == Some(i.dest));
    assert(IntRegister::spec_from_code(i.source.spec_code()) == Some(i.source));
}

proof fn lemma_round_trip_ratio_to_int(i: RatioToIntInstr)
    ensures
        spec_decode(spec_encode(Instruction::RatioToInt(i))) == Ok::<Instruction, DecodeError>(
            Instruction::RatioToInt(i),
        ),
{
    let instr = Instruction::RatioToInt(i);
    let w = spec_encode(instr);
    let op = i.opcode.spec_code() as int;
    let d = i.dest.spec_code() as int;
    let s = i.source.spec_code() as int;
    assert(w == 0xE000 + op * 32 + d * 4 + s);
    let rel = w - 0xE000;
    lemma_fundamental_div_mod_converse_div(rel, 32, op, d * 4 + s);
    lemma_fundamental_div_mod_converse_div(rel, 4, op * 8 + d, s);
    lemma_fundamental_div_mod_converse_mod(op * 8 + d, 8, op, d);
    lemma_fundamental_div_mod_converse_mod(rel, 4, op * 8 + d, s);
    assert(RatioToIntOpcode::spec_from_code(i.opcode.spec_code()) == Some(i.opcode));
    assert(IntRegister::spec_from_code(i.dest.spec_code()) == Some(i.dest));
    assert(RatioRegister::spec_from_code(i.source.spec_code()) == Some(i.source));
}

proof fn lemma_round_trip_immediate(i: ImmediateInstr)
    ensures
        spec_decode(spec_encode(Instruction::Immediate(i))) == Ok::<Instruction, DecodeError>(
            Instruction::Immediate(i),
        ),
{
    let instr = Instruction::Immediate(i);
    let w = spec_encode(instr);
    let op = i.opcode.spec_code() as int;
    let d = i.dest.spec_code() as int;
    let m = spec_imm_bits(i.immediate) as int;
    assert(m < 256);
    assert(w == op * 2048 + d * 256 + m);
    let rel = w as int;
    lemma_fundamental_div_mod_converse_div(rel, 2048, op, d * 256 + m);
    lemma_fundamental_div_mod_converse_div(rel, 256, op * 8 + d, m);
    lemma_fundamental_div_mod_converse_mod(op * 8 + d, 8, op, d);
    lemma_fundamental_div_mod_converse_mod(rel, 256, op * 8 + d, m);
    assert(ImmediateOpcode::spec_from_code(i.opcode.spec_code()) == Some(i.opcode));
    assert(IntRegister::spec_from_code(i.dest.spec_code()) == Some(i.dest));
    assert(spec_imm_value(spec_imm_bits(i.immediate)) == i.immediate);
}

proof fn lemma_round_trip_no_expl_dest_imm(i: NoExplDestImmInstr)
    ensures
        spec_decode(spec_encode(Instruction::NoExplDestImm(i))) == Ok::<Instruction, DecodeError>(
            Instruction::NoExplDestImm(i),
        ),
{
    let instr = Instruction::NoExplDestImm(i);
    let w = spec_encode(instr);
    let op = i.opcode.spec_code() as int;
    let m = spec_imm_bits(i.immediate) as int;
    assert(m < 256);
    assert(w == 0x8000 + op * 256 + m);
    let rel = w - 0x8000;
    lemma_fundamental_div_mod_converse_div(rel, 256, op, m);
    lemma_fundamental_div_mod_converse_mod(rel, 256, op, m);
    assert(NoExplDestImmOpcode::spec_from_code(i.opcode.spec_code()) == Some(i.opcode));
    assert(spec_imm_value(spec_imm_bits(i.immediate)) == i.immediate);
}

/// Law: a decoded instruction belongs to the one format whose prefix the
/// word carries.
pub proof fn lemma_decode_yields_classified_format(word: u16)
    ensures
        spec_decode(word) is Ok ==> spec_classify(word) == Some(
            spec_decode(word)->Ok_0.spec_tag(),
        ),
{
}

/// Law: decoding is the exact left inverse of encoding. Every instruction
/// constructible from a legal opcode and legal operand values decodes from
/// its own encoding, unchanged.
pub proof fn lemma_decode_inverts_encode(instr: Instruction)
    ensures
        spec_decode(spec_encode(instr)) == Ok::<Instruction, DecodeError>(instr),
{
    match instr {
        Instruction::NoExplOperands(i) => lemma_round_trip_no_expl_operands(i),
        Instruction::NoExplSource(i) => lemma_round_trip_no_expl_source(i),
        Instruction::NoExplDest(i) => lemma_round_trip_no_expl_dest(i),
        Instruction::IntUnaryOp(i) => lemma_round_trip_int_unary_op(i),
        Instruction::IntBinaryOp(i) => lemma_round_trip_int_binary_op(i),
        Instruction::IntBinNoExplDest(i) => lemma_round_trip_int_bin_no_expl_dest(i),
        Instruction::RatioUnaryOp(i) => lemma_round_trip_ratio_unary_op(i),
        Instruction::RatioBinaryOp(i) => lemma_round_trip_ratio_binary_op(i),
        Instruction::RatioBinNoExplDest(i) => lemma_round_trip_ratio_bin_no_expl_dest(i),
        Instruction::IntToRatio(i) => lemma_round_trip_int_to_ratio(i),
        Instruction::RatioToInt(i) => lemma_round_trip_ratio_to_int(i),
        Instruction::Immediate(i) => lemma_round_trip_immediate(i),
        Instruction::NoExplDestImm(i) => lemma_round_trip_no_expl_dest_imm(i),
    }
}

} // verus!
