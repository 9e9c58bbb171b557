use retroludos::codec::decode;
use retroludos::codec::encode;
use retroludos::codec::DecodeError;
use retroludos::isa::ImmediateInstr;
use retroludos::isa::ImmediateOpcode;
use retroludos::isa::Instruction;
use retroludos::isa::IntBinaryOpInstr;
use retroludos::isa::IntBinaryOpOpcode;
use retroludos::isa::IntToRatioInstr;
use retroludos::isa::IntToRatioOpcode;
use retroludos::isa::NoExplDestImmInstr;
use retroludos::isa::NoExplDestImmOpcode;
use retroludos::isa::NoExplOperandsInstr;
use retroludos::isa::NoExplOperandsOpcode;
use retroludos::isa::NoExplSourceInstr;
use retroludos::isa::NoExplSourceOpcode;
use retroludos::isa::RatioBinaryOpInstr;
use retroludos::isa::RatioBinaryOpOpcode;
use retroludos::registers::IntRegister;
use retroludos::registers::RatioRegister;

#[test]
fn all_zero_word_decodes_to_the_operand_heaviest_format() {
    // The all-zero word carries the all-zero prefix, the prefix of the
    // format with the most operand bits: the immediate format.
    let decoded = decode(0x0000);
    assert_eq!(
        decoded,
        Ok(Instruction::Immediate(ImmediateInstr {
            opcode: ImmediateOpcode::Ldil,
            dest: IntRegister::I0,
            immediate: 0,
        }))
    );
}

#[test]
fn every_decodable_word_re_encodes_to_itself() {
    let mut decoded_ok: u32 = 0;
    let mut unknown_format: u32 = 0;
    let mut unknown_opcode: u32 = 0;
    for word in 0u32..=0xFFFF {
        let word = word as u16;
        match decode(word) {
            Ok(instr) => {
                assert_eq!(encode(instr), word, "word 0x{word:04X} round trip");
                decoded_ok += 1;
            }
            Err(DecodeError::UnknownFormat) => {
                assert!(word >= 0xFD00, "word 0x{word:04X} has a format prefix");
                unknown_format += 1;
            }
            Err(DecodeError::UnknownOpcode) => unknown_opcode += 1,
        }
    }
    // Legal words per format: opcode count times two to the operand width.
    assert_eq!(decoded_ok, 29475);
    // Three reserved 8-bit prefixes match no format.
    assert_eq!(unknown_format, 768);
    assert_eq!(unknown_opcode, 65536 - 29475 - 768);
}

#[test]
fn constructed_instructions_survive_the_round_trip() {
    let samples = [
        Instruction::NoExplOperands(NoExplOperandsInstr { opcode: NoExplOperandsOpcode::Halt }),
        Instruction::NoExplSource(NoExplSourceInstr {
            opcode: NoExplSourceOpcode::Pop,
            dest: IntRegister::I3,
        }),
        Instruction::IntBinaryOp(IntBinaryOpInstr {
            opcode: IntBinaryOpOpcode::Add,
            dest: IntRegister::I1,
            lhs: IntRegister::I2,
            rhs: IntRegister::I7,
        }),
        Instruction::RatioBinaryOp(RatioBinaryOpInstr {
            opcode: RatioBinaryOpOpcode::Divrs,
            dest: RatioRegister::R0,
            lhs: RatioRegister::R3,
            rhs: RatioRegister::R1,
        }),
        Instruction::IntToRatio(IntToRatioInstr {
            opcode: IntToRatioOpcode::Ldnum,
            dest: RatioRegister::R2,
            source: IntRegister::I5,
        }),
        Instruction::Immediate(ImmediateInstr {
            opcode: ImmediateOpcode::Muli,
            dest: IntRegister::I6,
            immediate: -128,
        }),
        Instruction::NoExplDestImm(NoExplDestImmInstr {
            opcode: NoExplDestImmOpcode::Jbe,
            immediate: -1,
        }),
    ];
    for instr in samples {
        assert_eq!(decode(encode(instr)), Ok(instr));
    }
}

#[test]
fn words_with_reserved_prefixes_fail_as_unknown_format() {
    assert_eq!(decode(0xFD00), Err(DecodeError::UnknownFormat));
    assert_eq!(decode(0xFE80), Err(DecodeError::UnknownFormat));
    assert_eq!(decode(0xFFFF), Err(DecodeError::UnknownFormat));
    assert_eq!(decode(0xFCFF), Err(DecodeError::UnknownOpcode));
}

#[test]
fn illegal_opcode_values_fail_as_unknown_opcode() {
    // The no-operand format has three opcodes; value 3 is unused.
    assert_eq!(decode(0xFC03), Err(DecodeError::UnknownOpcode));
    // The integer binary format has fifteen opcodes; value 15 is unused.
    assert_eq!(decode(0x4000 + 15 * 512), Err(DecodeError::UnknownOpcode));
}

#[test]
fn encoding_packs_prefix_opcode_and_operands_left_to_right() {
    // No-operand nop: prefix bits alone.
    let nop = Instruction::NoExplOperands(NoExplOperandsInstr {
        opcode: NoExplOperandsOpcode::Nop,
    });
    assert_eq!(encode(nop), 0xFC00);
    // Immediate load: zero prefix, opcode 0, register in the middle bits,
    // immediate in the low byte.
    let ldil = Instruction::Immediate(ImmediateInstr {
        opcode: ImmediateOpcode::Ldil,
        dest: IntRegister::I2,
        immediate: 0x34,
    });
    assert_eq!(encode(ldil), 0x0234);
    // A negative immediate is stored as its two's-complement byte.
    let addi = Instruction::Immediate(ImmediateInstr {
        opcode: ImmediateOpcode::Addi,
        dest: IntRegister::I0,
        immediate: -1,
    });
    assert_eq!(encode(addi), (6 << 11) | 0x00FF);
}
