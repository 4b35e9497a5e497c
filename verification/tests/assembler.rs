//! Assembling whole sources: each instruction family, and each error.

use rbpf::asm_parser::{Operand, ParseError, ParseErrorKind};
use rbpf::assembler::{
    assemble, encode, insn as pack, make_instruction_map, operands_tuple, AssembleError,
    EncodeError, InstructionType,
};
use rbpf::ebpf;

fn insn(opc: u8, dst: u8, src: u8, off: i16, imm: i32) -> ebpf::Insn {
    ebpf::Insn {
        opc: opc,
        dst: dst,
        src: src,
        off: off,
        imm: imm,
    }
}

#[test]
fn test_empty() {
    assert_eq!(assemble(""), Ok(vec![]));
}

// Example for InstructionType::NoOperand.
#[test]
fn test_exit() {
    assert_eq!(assemble("exit"), Ok(vec![insn(ebpf::BPF_EXIT, 0, 0, 0, 0)]));
}

// Example for InstructionType::AluBinary.
#[test]
fn test_add64() {
    assert_eq!(assemble("add64 r1, r3"),
               Ok(vec![insn(ebpf::ADD64_REG, 1, 3, 0, 0)]));
    assert_eq!(assemble("add64 r1, 5"),
               Ok(vec![insn(ebpf::ADD64_IMM, 1, 0, 0, 5)]));
}

// Example for InstructionType::AluUnary.
#[test]
fn test_neg64() {
    assert_eq!(assemble("neg64 r1"),
               Ok(vec![insn(ebpf::NEG64, 1, 0, 0, 0)]));
}

// Example for InstructionType::Load.
#[test]
fn test_ldxw() {
    assert_eq!(assemble("ldxw r1, [r2+5]"),
               Ok(vec![insn(ebpf::LD_W_REG, 1, 2, 5, 0)]));
}

// Example for InstructionType::StoreImm.
#[test]
fn test_stw() {
    assert_eq!(assemble("stw [r2+5], 7"),
               Ok(vec![insn(ebpf::ST_W_IMM, 2, 0, 5, 7)]));
}

// Example for InstructionType::StoreReg.
#[test]
fn test_stxw() {
    assert_eq!(assemble("stxw [r2+5], r8"),
               Ok(vec![insn(ebpf::ST_W_REG, 2, 8, 5, 0)]));
}

// Example for InstructionType::JumpUnconditional.
#[test]
fn test_ja() {
    assert_eq!(assemble("ja +8"), Ok(vec![insn(ebpf::JA, 0, 0, 8, 0)]));
    assert_eq!(assemble("ja -3"), Ok(vec![insn(ebpf::JA, 0, 0, -3, 0)]));
}

// Example for InstructionType::JumpConditional.
#[test]
fn test_jeq() {
    assert_eq!(assemble("jeq r1, 4, +8"),
               Ok(vec![insn(ebpf::JEQ_IMM, 1, 0, 8, 4)]));
    assert_eq!(assemble("jeq r1, r3, +8"),
               Ok(vec![insn(ebpf::JEQ_REG, 1, 3, 8, 0)]));
}

// Example for InstructionType::Call.
#[test]
fn test_call() {
    assert_eq!(assemble("call 300"),
               Ok(vec![insn(ebpf::CALL, 0, 0, 0, 300)]));
}

// Example for InstructionType::Endian.
#[test]
fn test_be32() {
    assert_eq!(assemble("be32 r1"), Ok(vec![insn(ebpf::BE, 1, 0, 0, 32)]));
}

// Example for InstructionType::Load.
#[test]
fn test_ldxdw() {
    assert_eq!(assemble("ldxdw r1, [r2+3]"),
               Ok(vec![insn(ebpf::LD_DW_REG, 1, 2, 3, 0)]));
}

// Example for InstructionType::StoreImm.
#[test]
fn test_sth() {
    assert_eq!(assemble("sth [r1+2], 3"),
               Ok(vec![insn(ebpf::ST_H_IMM, 1, 0, 2, 3)]));
}

// Example for InstructionType::StoreReg.
#[test]
fn test_stxh() {
    assert_eq!(assemble("stxh [r1+2], r3"),
               Ok(vec![insn(ebpf::ST_H_REG, 1, 3, 2, 0)]));
}

// Test all supported AluBinary mnemonics.
#[test]
fn test_alu_binary() {
    assert_eq!(assemble("add r1, r2
                         sub r1, r2
                         mul r1, r2
                         div r1, r2
                         or r1, r2
                         and r1, r2
                         lsh r1, r2
                         rsh r1, r2
                         mod r1, r2
                         xor r1, r2
                         mov r1, r2
                         arsh r1, r2"),
               Ok(vec![insn(ebpf::ADD64_REG, 1, 2, 0, 0),
                       insn(ebpf::SUB64_REG, 1, 2, 0, 0),
                       insn(ebpf::MUL64_REG, 1, 2, 0, 0),
                       insn(ebpf::DIV64_REG, 1, 2, 0, 0),
                       insn(ebpf::OR64_REG, 1, 2, 0, 0),
                       insn(ebpf::AND64_REG, 1, 2, 0, 0),
                       insn(ebpf::LSH64_REG, 1, 2, 0, 0),
                       insn(ebpf::RSH64_REG, 1, 2, 0, 0),
                       insn(ebpf::MOD64_REG, 1, 2, 0, 0),
                       insn(ebpf::XOR64_REG, 1, 2, 0, 0),
                       insn(ebpf::MOV64_REG, 1, 2, 0, 0),
                       insn(ebpf::ARSH64_REG, 1, 2, 0, 0)]));

    assert_eq!(assemble("add r1, 2
                         sub r1, 2
                         mul r1, 2
                         div r1, 2
                         or r1, 2
                         and r1, 2
                         lsh r1, 2
                         rsh r1, 2
                         mod r1, 2
                         xor r1, 2
                         mov r1, 2
                         arsh r1, 2"),
               Ok(vec![insn(ebpf::ADD64_IMM, 1, 0, 0, 2),
                       insn(ebpf::SUB64_IMM, 1, 0, 0, 2),
                       insn(ebpf::MUL64_IMM, 1, 0, 0, 2),
                       insn(ebpf::DIV64_IMM, 1, 0, 0, 2),
                       insn(ebpf::OR64_IMM, 1, 0, 0, 2),
                       insn(ebpf::AND64_IMM, 1, 0, 0, 2),
                       insn(ebpf::LSH64_IMM, 1, 0, 0, 2),
                       insn(ebpf::RSH64_IMM, 1, 0, 0, 2),
                       insn(ebpf::MOD64_IMM, 1, 0, 0, 2),
                       insn(ebpf::XOR64_IMM, 1, 0, 0, 2),
                       insn(ebpf::MOV64_IMM, 1, 0, 0, 2),
                       insn(ebpf::ARSH64_IMM, 1, 0, 0, 2)]));

    assert_eq!(assemble("add64 r1, r2
                         sub64 r1, r2
                         mul64 r1, r2
                         div64 r1, r2
                         or64 r1, r2
                         and64 r1, r2
                         lsh64 r1, r2
                         rsh64 r1, r2
                         mod64 r1, r2
                         xor64 r1, r2
                         mov64 r1, r2
                         arsh64 r1, r2"),
               Ok(vec![insn(ebpf::ADD64_REG, 1, 2, 0, 0),
                       insn(ebpf::SUB64_REG, 1, 2, 0, 0),
                       insn(ebpf::MUL64_REG, 1, 2, 0, 0),
                       insn(ebpf::DIV64_REG, 1, 2, 0, 0),
                       insn(ebpf::OR64_REG, 1, 2, 0, 0),
                       insn(ebpf::AND64_REG, 1, 2, 0, 0),
                       insn(ebpf::LSH64_REG, 1, 2, 0, 0),
                       insn(ebpf::RSH64_REG, 1, 2, 0, 0),
                       insn(ebpf::MOD64_REG, 1, 2, 0, 0),
                       insn(ebpf::XOR64_REG, 1, 2, 0, 0),
                       insn(ebpf::MOV64_REG, 1, 2, 0, 0),
                       insn(ebpf::ARSH64_REG, 1, 2, 0, 0)]));

    assert_eq!(assemble("add64 r1, 2
                         sub64 r1, 2
                         mul64 r1, 2
                         div64 r1, 2
                         or64 r1, 2
                         and64 r1, 2
                         lsh64 r1, 2
                         rsh64 r1, 2
                         mod64 r1, 2
                         xor64 r1, 2
                         mov64 r1, 2
                         arsh64 r1, 2"),
               Ok(vec![insn(ebpf::ADD64_IMM, 1, 0, 0, 2),
                       insn(ebpf::SUB64_IMM, 1, 0, 0, 2),
                       insn(ebpf::MUL64_IMM, 1, 0, 0, 2),
                       insn(ebpf::DIV64_IMM, 1, 0, 0, 2),
                       insn(ebpf::OR64_IMM, 1, 0, 0, 2),
                       insn(ebpf::AND64_IMM, 1, 0, 0, 2),
                       insn(ebpf::LSH64_IMM, 1, 0, 0, 2),
                       insn(ebpf::RSH64_IMM, 1, 0, 0, 2),
                       insn(ebpf::MOD64_IMM, 1, 0, 0, 2),
                       insn(ebpf::XOR64_IMM, 1, 0, 0, 2),
                       insn(ebpf::MOV64_IMM, 1, 0, 0, 2),
                       insn(ebpf::ARSH64_IMM, 1, 0, 0, 2)]));

    assert_eq!(assemble("add32 r1, r2
                         sub32 r1, r2
                         mul32 r1, r2
                         div32 r1, r2
                         or32 r1, r2
                         and32 r1, r2
                         lsh32 r1, r2
                         rsh32 r1, r2
                         mod32 r1, r2
                         xor32 r1, r2
                         mov32 r1, r2
                         arsh32 r1, r2"),
               Ok(vec![insn(ebpf::ADD32_REG, 1, 2, 0, 0),
                       insn(ebpf::SUB32_REG, 1, 2, 0, 0),
                       insn(ebpf::MUL32_REG, 1, 2, 0, 0),
                       insn(ebpf::DIV32_REG, 1, 2, 0, 0),
                       insn(ebpf::OR32_REG, 1, 2, 0, 0),
                       insn(ebpf::AND32_REG, 1, 2, 0, 0),
                       insn(ebpf::LSH32_REG, 1, 2, 0, 0),
                       insn(ebpf::RSH32_REG, 1, 2, 0, 0),
                       insn(ebpf::MOD32_REG, 1, 2, 0, 0),
                       insn(ebpf::XOR32_REG, 1, 2, 0, 0),
                       insn(ebpf::MOV32_REG, 1, 2, 0, 0),
                       insn(ebpf::ARSH32_REG, 1, 2, 0, 0)]));

    assert_eq!(assemble("add32 r1, 2
                         sub32 r1, 2
                         mul32 r1, 2
                         div32 r1, 2
                         or32 r1, 2
                         and32 r1, 2
                         lsh32 r1, 2
                         rsh32 r1, 2
                         mod32 r1, 2
                         xor32 r1, 2
                         mov32 r1, 2
                         arsh32 r1, 2"),
               Ok(vec![insn(ebpf::ADD32_IMM, 1, 0, 0, 2),
                       insn(ebpf::SUB32_IMM, 1, 0, 0, 2),
                       insn(ebpf::MUL32_IMM, 1, 0, 0, 2),
                       insn(ebpf::DIV32_IMM, 1, 0, 0, 2),
                       insn(ebpf::OR32_IMM, 1, 0, 0, 2),
                       insn(ebpf::AND32_IMM, 1, 0, 0, 2),
                       insn(ebpf::LSH32_IMM, 1, 0, 0, 2),
                       insn(ebpf::RSH32_IMM, 1, 0, 0, 2),
                       insn(ebpf::MOD32_IMM, 1, 0, 0, 2),
                       insn(ebpf::XOR32_IMM, 1, 0, 0, 2),
                       insn(ebpf::MOV32_IMM, 1, 0, 0, 2),
                       insn(ebpf::ARSH32_IMM, 1, 0, 0, 2)]));
}

// Test all supported Load mnemonics.
#[test]
fn test_load() {
    assert_eq!(assemble("ldxw r1, [r2+3]
                         ldxh r1, [r2+3]
                         ldxb r1, [r2+3]
                         ldxdw r1, [r2+3]"),
               Ok(vec![insn(ebpf::LD_W_REG, 1, 2, 3, 0),
                       insn(ebpf::LD_H_REG, 1, 2, 3, 0),
                       insn(ebpf::LD_B_REG, 1, 2, 3, 0),
                       insn(ebpf::LD_DW_REG, 1, 2, 3, 0)]));
}

// Test all supported StoreImm mnemonics.
#[test]
fn test_store_imm() {
    assert_eq!(assemble("stw [r1+2], 3
                         sth [r1+2], 3
                         stb [r1+2], 3
                         stdw [r1+2], 3"),
               Ok(vec![insn(ebpf::ST_W_IMM, 1, 0, 2, 3),
                       insn(ebpf::ST_H_IMM, 1, 0, 2, 3),
                       insn(ebpf::ST_B_IMM, 1, 0, 2, 3),
                       insn(ebpf::ST_DW_IMM, 1, 0, 2, 3)]));
}

// Test all supported StoreReg mnemonics.
#[test]
fn test_store_reg() {
    assert_eq!(assemble("stxw [r1+2], r3
                         stxh [r1+2], r3
                         stxb [r1+2], r3
                         stxdw [r1+2], r3"),
               Ok(vec![insn(ebpf::ST_W_REG, 1, 3, 2, 0),
                       insn(ebpf::ST_H_REG, 1, 3, 2, 0),
                       insn(ebpf::ST_B_REG, 1, 3, 2, 0),
                       insn(ebpf::ST_DW_REG, 1, 3, 2, 0)]));
}

// Test all supported JumpConditional mnemonics.
#[test]
fn test_jump_conditional() {
    assert_eq!(assemble("jeq r1, r2, +3
                         jgt r1, r2, +3
                         jge r1, r2, +3
                         jset r1, r2, +3
                         jne r1, r2, +3
                         jsgt r1, r2, +3
                         jsge r1, r2, +3"),
               Ok(vec![insn(ebpf::JEQ_REG, 1, 2, 3, 0),
                       insn(ebpf::JGT_REG, 1, 2, 3, 0),
                       insn(ebpf::JGE_REG, 1, 2, 3, 0),
                       insn(ebpf::JSET_REG, 1, 2, 3, 0),
                       insn(ebpf::JNE_REG, 1, 2, 3, 0),
                       insn(ebpf::JSGT_REG, 1, 2, 3, 0),
                       insn(ebpf::JSGE_REG, 1, 2, 3, 0)]));

    assert_eq!(assemble("jeq r1, 2, +3
                         jgt r1, 2, +3
                         jge r1, 2, +3
                         jset r1, 2, +3
                         jne r1, 2, +3
                         jsgt r1, 2, +3
                         jsge r1, 2, +3"),
               Ok(vec![insn(ebpf::JEQ_IMM, 1, 0, 3, 2),
                       insn(ebpf::JGT_IMM, 1, 0, 3, 2),
                       insn(ebpf::JGE_IMM, 1, 0, 3, 2),
                       insn(ebpf::JSET_IMM, 1, 0, 3, 2),
                       insn(ebpf::JNE_IMM, 1, 0, 3, 2),
                       insn(ebpf::JSGT_IMM, 1, 0, 3, 2),
                       insn(ebpf::JSGE_IMM, 1, 0, 3, 2)]));
}
// Example for InstructionType::LoadImm: one instruction, two records.
#[test]
fn test_lddw() {
    assert_eq!(assemble("lddw r1, 0x123456789abcdef0"),
               Ok(vec![insn(ebpf::LD_DW_IMM, 1, 0, 0, 0x9abcdef0u32 as i32),
                       insn(0, 0, 0, 0, 0x12345678)]));
    assert_eq!(assemble("lddw r2, -1"),
               Ok(vec![insn(ebpf::LD_DW_IMM, 2, 0, 0, -1), insn(0, 0, 0, 0, -1)]));
    assert_eq!(assemble("lddw r3, 5"),
               Ok(vec![insn(ebpf::LD_DW_IMM, 3, 0, 0, 5), insn(0, 0, 0, 0, 0)]));
    assert_eq!(assemble("lddw r3, -0x100000000"),
               Ok(vec![insn(ebpf::LD_DW_IMM, 3, 0, 0, 0), insn(0, 0, 0, 0, -1)]));
}

#[test]
fn test_unknown_mnemonic() {
    assert_eq!(assemble("bogus r1"),
               Err(AssembleError::UnknownMnemonic("bogus".to_string())));
    assert_eq!(assemble("exit\nEXIT"),
               Err(AssembleError::UnknownMnemonic("EXIT".to_string())));
}

#[test]
fn test_bad_operands() {
    assert_eq!(assemble("add64 r1"),
               Err(AssembleError::BadOperands("add64".to_string(), vec![Operand::Register(1)])));
    assert_eq!(assemble("exit 1"),
               Err(AssembleError::BadOperands("exit".to_string(), vec![Operand::Integer(1)])));
    assert_eq!(assemble("ldxw [r1+2], r3"),
               Err(AssembleError::BadOperands("ldxw".to_string(),
                                              vec![Operand::Memory(1, 2), Operand::Register(3)])));
    assert_eq!(assemble("jeq r1, r2"),
               Err(AssembleError::BadOperands("jeq".to_string(),
                                              vec![Operand::Register(1), Operand::Register(2)])));
}

#[test]
fn test_too_many_operands() {
    assert_eq!(assemble("add r1, r2, r3, r4"),
               Err(AssembleError::BadOperands("add".to_string(),
                                              vec![Operand::Register(1),
                                                   Operand::Register(2),
                                                   Operand::Register(3),
                                                   Operand::Register(4)])));
}

#[test]
fn test_parse_error() {
    assert_eq!(assemble("add r1, "),
               Err(AssembleError::Parse(ParseError {
                   position: 8,
                   kind: ParseErrorKind::ExpectedDigit,
               })));
    assert_eq!(assemble("stxdw [r10-8], r2"),
               Err(AssembleError::Parse(ParseError {
                   position: 10,
                   kind: ParseErrorKind::ExpectedCloseBracket,
               })));
    assert_eq!(assemble("# comment"),
               Err(AssembleError::Parse(ParseError {
                   position: 0,
                   kind: ParseErrorKind::ExpectedMnemonic,
               })));
}

// The first error ends the work: the good lines before it give nothing.
#[test]
fn test_first_error_wins() {
    assert_eq!(assemble("exit\nbogus\nadd64 r1"),
               Err(AssembleError::UnknownMnemonic("bogus".to_string())));
    assert_eq!(assemble("exit\nadd64 r1\nbogus"),
               Err(AssembleError::BadOperands("add64".to_string(), vec![Operand::Register(1)])));
    assert_eq!(assemble("bogus\nadd r1, ,"),
               Err(AssembleError::Parse(ParseError {
                   position: 14,
                   kind: ParseErrorKind::ExpectedDigit,
               })));
}

// A source that mixes the families gives their records in source order.
#[test]
fn test_mixed_program() {
    assert_eq!(assemble("mov r1, 10
                         lddw r2, 0x100000002
                         ldxb r3, [r1]
                         jne r3, 0, +2
                         stxdw [r10+-8], r2
                         call 7
                         le16 r3
                         neg r3
                         ja -7
                         exit"),
               Ok(vec![insn(ebpf::MOV64_IMM, 1, 0, 0, 10),
                       insn(ebpf::LD_DW_IMM, 2, 0, 0, 2),
                       insn(0, 0, 0, 0, 1),
                       insn(ebpf::LD_B_REG, 3, 1, 0, 0),
                       insn(ebpf::JNE_IMM, 3, 0, 2, 0),
                       insn(ebpf::ST_DW_REG, 10, 2, -8, 0),
                       insn(ebpf::CALL, 0, 0, 0, 7),
                       insn(ebpf::LE, 3, 0, 0, 16),
                       insn(ebpf::NEG64, 3, 0, 0, 0),
                       insn(ebpf::JA, 0, 0, -7, 0),
                       insn(ebpf::BPF_EXIT, 0, 0, 0, 0)]));
}

// A mnemonic that starts with `r` may follow one that takes no operand.
#[test]
fn test_mnemonic_after_exit() {
    assert_eq!(assemble("exit\nrsh r1, r2\nexit rsh32 r1, 3"),
               Ok(vec![insn(ebpf::BPF_EXIT, 0, 0, 0, 0),
                       insn(ebpf::RSH64_REG, 1, 2, 0, 0),
                       insn(ebpf::BPF_EXIT, 0, 0, 0, 0),
                       insn(ebpf::RSH32_IMM, 1, 0, 0, 3)]));
}

#[test]
fn test_neg() {
    assert_eq!(assemble("neg r1\nneg32 r2\nneg64 r3"),
               Ok(vec![insn(ebpf::NEG64, 1, 0, 0, 0),
                       insn(ebpf::NEG32, 2, 0, 0, 0),
                       insn(ebpf::NEG64, 3, 0, 0, 0)]));
}

#[test]
fn test_endian() {
    assert_eq!(assemble("be16 r1\nbe32 r2\nbe64 r3\nle16 r4\nle32 r5\nle64 r6"),
               Ok(vec![insn(ebpf::BE, 1, 0, 0, 16),
                       insn(ebpf::BE, 2, 0, 0, 32),
                       insn(ebpf::BE, 3, 0, 0, 64),
                       insn(ebpf::LE, 4, 0, 0, 16),
                       insn(ebpf::LE, 5, 0, 0, 32),
                       insn(ebpf::LE, 6, 0, 0, 64)]));
}

// Operands wider than their fields lose their high bits.
#[test]
fn test_truncation() {
    assert_eq!(assemble("mov r256, 0x100000005"),
               Ok(vec![insn(ebpf::MOV64_IMM, 0, 0, 0, 5)]));
    assert_eq!(assemble("mov r-1, 0xffffffff"),
               Ok(vec![insn(ebpf::MOV64_IMM, 255, 0, 0, -1)]));
    assert_eq!(assemble("ja 65537"), Ok(vec![insn(ebpf::JA, 0, 0, 1, 0)]));
    assert_eq!(assemble("ja 32768"), Ok(vec![insn(ebpf::JA, 0, 0, -32768, 0)]));
    assert_eq!(assemble("ldxw r1, [r257+65535]"),
               Ok(vec![insn(ebpf::LD_W_REG, 1, 1, -1, 0)]));
    assert_eq!(pack(0x07, 0x1_23, -2, 0x7_0001, 0x8000_0000),
               Ok(insn(0x07, 0x23, 0xfe, 1, i32::MIN)));
}

#[test]
fn test_opcode_values() {
    assert_eq!(ebpf::BPF_EXIT, 0x90);
    assert_eq!(ebpf::JA, 0x05);
    assert_eq!(ebpf::CALL, 0x85);
    assert_eq!(ebpf::LD_DW_IMM, 0x18);
    assert_eq!(ebpf::NEG32, 0x84);
    assert_eq!(ebpf::NEG64, 0x87);
    assert_eq!(ebpf::BE, 0xdc);
    assert_eq!(ebpf::LE, 0xd4);
    assert_eq!(ebpf::ADD64_REG, 0x0f);
    assert_eq!(ebpf::ADD64_IMM, 0x07);
    assert_eq!(ebpf::ARSH32_REG, 0xcc);
    assert_eq!(ebpf::LD_W_REG, 0x61);
    assert_eq!(ebpf::ST_DW_IMM, 0x7a);
    assert_eq!(ebpf::ST_H_REG, 0x6b);
    assert_eq!(ebpf::JEQ_IMM, 0x15);
    assert_eq!(ebpf::JSGE_REG, 0x7d);
}

#[test]
fn test_operands_tuple() {
    let r = Operand::Register(1);
    let i = Operand::Integer(2);
    let m = Operand::Memory(3, 4);
    assert_eq!(operands_tuple(&[]), Ok((Operand::Nil, Operand::Nil, Operand::Nil)));
    assert_eq!(operands_tuple(&[r]), Ok((r, Operand::Nil, Operand::Nil)));
    assert_eq!(operands_tuple(&[r, i]), Ok((r, i, Operand::Nil)));
    assert_eq!(operands_tuple(&[r, i, m]), Ok((r, i, m)));
    assert_eq!(operands_tuple(&[r, i, m, r]), Err(EncodeError::TooManyOperands));
}

#[test]
fn test_encode() {
    assert_eq!(encode(InstructionType::AluBinary, ebpf::BPF_ALU64 | ebpf::BPF_ADD,
                      &[Operand::Register(1), Operand::Register(3)]),
               Ok(insn(ebpf::ADD64_REG, 1, 3, 0, 0)));
    assert_eq!(encode(InstructionType::Endian(32), ebpf::BE, &[Operand::Register(1)]),
               Ok(insn(ebpf::BE, 1, 0, 0, 32)));
    assert_eq!(encode(InstructionType::LoadImm, ebpf::LD_DW_IMM,
                      &[Operand::Register(1), Operand::Integer(0x1_0000_0002)]),
               Ok(insn(ebpf::LD_DW_IMM, 1, 0, 0, 2)));
    assert_eq!(encode(InstructionType::Call, ebpf::CALL, &[Operand::Register(1)]),
               Err(EncodeError::UnexpectedOperands));
    assert_eq!(encode(InstructionType::NoOperand, ebpf::BPF_EXIT, &[Operand::Nil]),
               Ok(insn(ebpf::BPF_EXIT, 0, 0, 0, 0)));
    assert_eq!(encode(InstructionType::NoOperand, ebpf::BPF_EXIT,
                      &[Operand::Nil, Operand::Nil, Operand::Nil, Operand::Nil]),
               Err(EncodeError::TooManyOperands));
}

/// The mnemonics of the table with operands that each accepts.
fn every_mnemonic() -> Vec<(String, &'static str)> {
    let mut all = vec![("exit".to_string(), ""),
                       ("ja".to_string(), "+1"),
                       ("call".to_string(), "1"),
                       ("lddw".to_string(), "r1, 2"),
                       ("neg".to_string(), "r1"),
                       ("neg32".to_string(), "r1"),
                       ("neg64".to_string(), "r1")];
    for stem in ["add", "sub", "mul", "div", "or", "and", "lsh", "rsh", "mod", "xor", "mov",
                 "arsh"] {
        for width in ["", "32", "64"] {
            all.push((format!("{}{}", stem, width), "r1, r2"));
        }
    }
    for size in ["w", "h", "b", "dw"] {
        all.push((format!("ldx{}", size), "r1, [r2+3]"));
        all.push((format!("st{}", size), "[r1+2], 3"));
        all.push((format!("stx{}", size), "[r1+2], r3"));
    }
    for name in ["jeq", "jgt", "jge", "jset", "jne", "jsgt", "jsge"] {
        all.push((name.to_string(), "r1, r2, +3"));
    }
    for width in ["16", "32", "64"] {
        all.push((format!("be{}", width), "r1"));
        all.push((format!("le{}", width), "r1"));
    }
    all
}

// The table has one entry for each rule, and each of its mnemonics can be
// assembled.
#[test]
fn test_every_mnemonic_encodes() {
    let table = make_instruction_map();
    let all = every_mnemonic();
    assert_eq!(all.len(), 68);
    assert_eq!(table.len(), 68);
    for (name, operands) in all {
        assert!(table.contains_key(&name), "{}", name);
        let records = assemble(&format!("{} {}", name, operands)).unwrap();
        assert_eq!(records.len(), if name == "lddw" { 2 } else { 1 }, "{}", name);
        assert_eq!(records[0].opc & 0x07, table.get(&name).unwrap().1 & 0x07, "{}", name);
    }
}

#[test]
fn test_table_entries() {
    let table = make_instruction_map();
    assert_eq!(table.get("exit"), Some(&(InstructionType::NoOperand, 0x90)));
    assert_eq!(table.get("add"), Some(&(InstructionType::AluBinary, 0x07)));
    assert_eq!(table.get("add32"), Some(&(InstructionType::AluBinary, 0x04)));
    assert_eq!(table.get("arsh64"), Some(&(InstructionType::AluBinary, 0xc7)));
    assert_eq!(table.get("stxdw"), Some(&(InstructionType::StoreReg, 0x7b)));
    assert_eq!(table.get("jsge"), Some(&(InstructionType::JumpConditional, 0x75)));
    assert_eq!(table.get("le64"), Some(&(InstructionType::Endian(64), 0xd4)));
    assert_eq!(table.get("lddw"), Some(&(InstructionType::LoadImm, 0x18)));
    assert_eq!(table.get("ldxdw32"), None);
    assert_eq!(table.get(""), None);
}

// One record for each instruction, and one more for each `lddw`.
#[test]
fn test_length() {
    assert_eq!(assemble("exit").unwrap().len(), 1);
    assert_eq!(assemble("lddw r1, 1").unwrap().len(), 2);
    assert_eq!(assemble("mov r1, 1\nlddw r1, 1\nexit\nlddw r2, 2\nlddw r3, 3").unwrap().len(),
               5 + 3);
}

// Equal sources give equal results.
#[test]
fn test_deterministic() {
    let source = "mov r1, 1\nlddw r1, 1\njeq r1, r2, +3\nexit";
    assert_eq!(assemble(source), assemble(&source.to_string()));
    assert_eq!(assemble("bogus"), assemble("bogus"));
}

// A register as the second operand sets the source bit, an integer clears it.
#[test]
fn test_mode_bit() {
    for (name, _) in every_mnemonic() {
        let base = make_instruction_map().get(&name).unwrap().0;
        let (register, integer) = match base {
            InstructionType::AluBinary => ("r1, r2", "r1, 2"),
            InstructionType::JumpConditional => ("r1, r2, +3", "r1, 2, +3"),
            _ => continue,
        };
        let with_register = assemble(&format!("{} {}", name, register)).unwrap();
        let with_integer = assemble(&format!("{} {}", name, integer)).unwrap();
        assert_eq!(with_register[0].opc & ebpf::BPF_X, ebpf::BPF_X, "{}", name);
        assert_eq!(with_integer[0].opc & ebpf::BPF_X, ebpf::BPF_K, "{}", name);
        assert_eq!(with_register[0].opc, with_integer[0].opc | ebpf::BPF_X, "{}", name);
    }
}

#[test]
fn test_messages() {
    assert_eq!(assemble("bogus r1").unwrap_err().message(), "Invalid instruction \"bogus\"");
    assert_eq!(assemble("add64 r1").unwrap_err().message(),
               "Failed to encode add64: Unexpected operands: [Register(1)]");
    assert_eq!(assemble("stw [r1+2], -3, 0x10").unwrap_err().message(),
               "Failed to encode stw: Unexpected operands: [Memory(1, 2), Integer(-3), Integer(16)]");
    assert_eq!(assemble("exit 1").unwrap_err().message(),
               "Failed to encode exit: Unexpected operands: [Integer(1)]");
    assert_eq!(assemble("add 1, 2, 3, 4").unwrap_err().message(),
               "Failed to encode add: Too many operands");
    assert_eq!(assemble("add r1, [r2").unwrap_err().message(),
               "Parse error at 11: expected a closing bracket");
    assert_eq!(AssembleError::BadOperands("x".to_string(), vec![]).message(),
               "Failed to encode x: Unexpected operands: []");
    assert_eq!(AssembleError::BadOperands("x".to_string(), vec![Operand::Nil]).message(),
               "Failed to encode x: Unexpected operands: [Nil]");
}

/// The operand forms that the encoder accepts: the name of a type, and the
/// letters of its operands (`r`egister, `i`nteger, `m`emory, `n`il).
const FORMS: [(&str, &str); 13] = [("AluBinary", "rrn"),
                                   ("AluBinary", "rin"),
                                   ("AluUnary", "rnn"),
                                   ("LoadReg", "rmn"),
                                   ("StoreImm", "min"),
                                   ("StoreReg", "mrn"),
                                   ("NoOperand", "nnn"),
                                   ("JumpUnconditional", "inn"),
                                   ("JumpConditional", "rri"),
                                   ("JumpConditional", "rii"),
                                   ("Call", "inn"),
                                   ("Endian", "rnn"),
                                   ("LoadImm", "rin")];

fn letter(operand: Operand) -> char {
    match operand {
        Operand::Register(_) => 'r',
        Operand::Integer(_) => 'i',
        Operand::Memory(_, _) => 'm',
        Operand::Nil => 'n',
    }
}

// At most one form fits a type and three operands, and the encoder accepts
// them just where one does.
#[test]
fn test_forms_disjoint() {
    let types = [("NoOperand", InstructionType::NoOperand),
                 ("AluBinary", InstructionType::AluBinary),
                 ("AluUnary", InstructionType::AluUnary),
                 ("LoadImm", InstructionType::LoadImm),
                 ("LoadReg", InstructionType::LoadReg),
                 ("StoreImm", InstructionType::StoreImm),
                 ("StoreReg", InstructionType::StoreReg),
                 ("JumpUnconditional", InstructionType::JumpUnconditional),
                 ("JumpConditional", InstructionType::JumpConditional),
                 ("Call", InstructionType::Call),
                 ("Endian", InstructionType::Endian(16))];
    let operands = [Operand::Register(1), Operand::Integer(2), Operand::Memory(3, 4), Operand::Nil];
    for (name, inst_type) in types {
        assert!(FORMS.iter().any(|form| form.0 == name), "{}", name);
        for a in operands {
            for b in operands {
                for c in operands {
                    let shape: String = [letter(a), letter(b), letter(c)].iter().collect();
                    let fitting = FORMS.iter()
                        .filter(|form| form.0 == name && form.1 == shape)
                        .count();
                    assert!(fitting <= 1, "{} {}", name, shape);
                    assert_eq!(encode(inst_type, 0, &[a, b, c]).is_ok(), fitting == 1,
                               "{} {}", name, shape);
                }
            }
        }
    }
}
