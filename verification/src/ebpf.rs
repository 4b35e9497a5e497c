//! The eBPF instruction record and the opcode bytes it is built from.
//!
//! An opcode byte is the bitwise OR of an instruction class (the three low
//! bits) with, for loads and stores, a size and an addressing mode, or, for
//! arithmetic and jumps, a source bit and an operation code.

use vstd::prelude::*;

verus! {

// Instruction classes.
pub const BPF_LD: u8 = 0x00;
pub const BPF_LDX: u8 = 0x01;
pub const BPF_ST: u8 = 0x02;
pub const BPF_STX: u8 = 0x03;
pub const BPF_ALU: u8 = 0x04;
pub const BPF_JMP: u8 = 0x05;
pub const BPF_ALU64: u8 = 0x07;

// Operand sizes of loads and stores.
pub const BPF_W: u8 = 0x00;
pub const BPF_H: u8 = 0x08;
pub const BPF_B: u8 = 0x10;
pub const BPF_DW: u8 = 0x18;

// Addressing modes of loads and stores.
pub const BPF_IMM: u8 = 0x00;
pub const BPF_ABS: u8 = 0x20;
pub const BPF_IND: u8 = 0x40;
pub const BPF_MEM: u8 = 0x60;
pub const BPF_XADD: u8 = 0xc0;

// Source of the second operand of arithmetic and jumps: an immediate or a
// register.
pub const BPF_K: u8 = 0x00;
pub const BPF_X: u8 = 0x08;

// Arithmetic operations.
pub const BPF_ADD: u8 = 0x00;
pub const BPF_SUB: u8 = 0x10;
pub const BPF_MUL: u8 = 0x20;
pub const BPF_DIV: u8 = 0x30;
pub const BPF_OR: u8 = 0x40;
pub const BPF_AND: u8 = 0x50;
pub const BPF_LSH: u8 = 0x60;
pub const BPF_RSH: u8 = 0x70;
pub const BPF_NEG: u8 = 0x80;
pub const BPF_MOD: u8 = 0x90;
pub const BPF_XOR: u8 = 0xa0;
pub const BPF_MOV: u8 = 0xb0;
pub const BPF_ARSH: u8 = 0xc0;
pub const BPF_END: u8 = 0xd0;

// Jump operations.
pub const BPF_JA: u8 = 0x00;
pub const BPF_JEQ: u8 = 0x10;
pub const BPF_JGT: u8 = 0x20;
pub const BPF_JGE: u8 = 0x30;
pub const BPF_JSET: u8 = 0x40;
pub const BPF_JNE: u8 = 0x50;
pub const BPF_JSGT: u8 = 0x60;
pub const BPF_JSGE: u8 = 0x70;
pub const BPF_CALL: u8 = 0x80;
pub const BPF_EXIT: u8 = 0x90;

// Loads.
pub const LD_DW_IMM: u8 = BPF_LD | BPF_IMM | BPF_DW;
pub const LD_B_REG: u8 = BPF_LDX | BPF_MEM | BPF_B;
pub const LD_H_REG: u8 = BPF_LDX | BPF_MEM | BPF_H;
pub const LD_W_REG: u8 = BPF_LDX | BPF_MEM | BPF_W;
pub const LD_DW_REG: u8 = BPF_LDX | BPF_MEM | BPF_DW;

// Stores.
pub const ST_B_IMM: u8 = BPF_ST | BPF_MEM | BPF_B;
pub const ST_H_IMM: u8 = BPF_ST | BPF_MEM | BPF_H;
pub const ST_W_IMM: u8 = BPF_ST | BPF_MEM | BPF_W;
pub const ST_DW_IMM: u8 = BPF_ST | BPF_MEM | BPF_DW;
pub const ST_B_REG: u8 = BPF_STX | BPF_MEM | BPF_B;
pub const ST_H_REG: u8 = BPF_STX | BPF_MEM | BPF_H;
pub const ST_W_REG: u8 = BPF_STX | BPF_MEM | BPF_W;
pub const ST_DW_REG: u8 = BPF_STX | BPF_MEM | BPF_DW;

// 32-bit arithmetic.
pub const ADD32_IMM: u8 = BPF_ALU | BPF_K | BPF_ADD;
pub const ADD32_REG: u8 = BPF_ALU | BPF_X | BPF_ADD;
pub const SUB32_IMM: u8 = BPF_ALU | BPF_K | BPF_SUB;
pub const SUB32_REG: u8 = BPF_ALU | BPF_X | BPF_SUB;
pub const MUL32_IMM: u8 = BPF_ALU | BPF_K | BPF_MUL;
pub const MUL32_REG: u8 = BPF_ALU | BPF_X | BPF_MUL;
pub const DIV32_IMM: u8 = BPF_ALU | BPF_K | BPF_DIV;
pub const DIV32_REG: u8 = BPF_ALU | BPF_X | BPF_DIV;
pub const OR32_IMM: u8 = BPF_ALU | BPF_K | BPF_OR;
pub const OR32_REG: u8 = BPF_ALU | BPF_X | BPF_OR;
pub const AND32_IMM: u8 = BPF_ALU | BPF_K | BPF_AND;
pub const AND32_REG: u8 = BPF_ALU | BPF_X | BPF_AND;
pub const LSH32_IMM: u8 = BPF_ALU | BPF_K | BPF_LSH;
pub const LSH32_REG: u8 = BPF_ALU | BPF_X | BPF_LSH;
pub const RSH32_IMM: u8 = BPF_ALU | BPF_K | BPF_RSH;
pub const RSH32_REG: u8 = BPF_ALU | BPF_X | BPF_RSH;
pub const NEG32: u8 = BPF_ALU | BPF_NEG;
pub const MOD32_IMM: u8 = BPF_ALU | BPF_K | BPF_MOD;
pub const MOD32_REG: u8 = BPF_ALU | BPF_X | BPF_MOD;
pub const XOR32_IMM: u8 = BPF_ALU | BPF_K | BPF_XOR;
pub const XOR32_REG: u8 = BPF_ALU | BPF_X | BPF_XOR;
pub const MOV32_IMM: u8 = BPF_ALU | BPF_K | BPF_MOV;
pub const MOV32_REG: u8 = BPF_ALU | BPF_X | BPF_MOV;
pub const ARSH32_IMM: u8 = BPF_ALU | BPF_K | BPF_ARSH;
pub const ARSH32_REG: u8 = BPF_ALU | BPF_X | BPF_ARSH;

// Byte order conversion.
pub const LE: u8 = BPF_ALU | BPF_K | BPF_END;
pub const BE: u8 = BPF_ALU | BPF_X | BPF_END;

// 64-bit arithmetic.
pub const ADD64_IMM: u8 = BPF_ALU64 | BPF_K | BPF_ADD;
pub const ADD64_REG: u8 = BPF_ALU64 | BPF_X | BPF_ADD;
pub const SUB64_IMM: u8 = BPF_ALU64 | BPF_K | BPF_SUB;
pub const SUB64_REG: u8 = BPF_ALU64 | BPF_X | BPF_SUB;
pub const MUL64_IMM: u8 = BPF_ALU64 | BPF_K | BPF_MUL;
pub const MUL64_REG: u8 = BPF_ALU64 | BPF_X | BPF_MUL;
pub const DIV64_IMM: u8 = BPF_ALU64 | BPF_K | BPF_DIV;
pub const DIV64_REG: u8 = BPF_ALU64 | BPF_X | BPF_DIV;
pub const OR64_IMM: u8 = BPF_ALU64 | BPF_K | BPF_OR;
pub const OR64_REG: u8 = BPF_ALU64 | BPF_X | BPF_OR;
pub const AND64_IMM: u8 = BPF_ALU64 | BPF_K | BPF_AND;
pub const AND64_REG: u8 = BPF_ALU64 | BPF_X | BPF_AND;
pub const LSH64_IMM: u8 = BPF_ALU64 | BPF_K | BPF_LSH;
pub const LSH64_REG: u8 = BPF_ALU64 | BPF_X | BPF_LSH;
pub const RSH64_IMM: u8 = BPF_ALU64 | BPF_K | BPF_RSH;
pub const RSH64_REG: u8 = BPF_ALU64 | BPF_X | BPF_RSH;
pub const NEG64: u8 = BPF_ALU64 | BPF_NEG;
pub const MOD64_IMM: u8 = BPF_ALU64 | BPF_K | BPF_MOD;
pub const MOD64_REG: u8 = BPF_ALU64 | BPF_X | BPF_MOD;
pub const XOR64_IMM: u8 = BPF_ALU64 | BPF_K | BPF_XOR;
pub const XOR64_REG: u8 = BPF_ALU64 | BPF_X | BPF_XOR;
pub const MOV64_IMM: u8 = BPF_ALU64 | BPF_K | BPF_MOV;
pub const MOV64_REG: u8 = BPF_ALU64 | BPF_X | BPF_MOV;
pub const ARSH64_IMM: u8 = BPF_ALU64 | BPF_K | BPF_ARSH;
pub const ARSH64_REG: u8 = BPF_ALU64 | BPF_X | BPF_ARSH;

// Jumps, calls and exit.
pub const JA: u8 = BPF_JMP | BPF_JA;
pub const JEQ_IMM: u8 = BPF_JMP | BPF_K | BPF_JEQ;
pub const JEQ_REG: u8 = BPF_JMP | BPF_X | BPF_JEQ;
pub const JGT_IMM: u8 = BPF_JMP | BPF_K | BPF_JGT;
pub const JGT_REG: u8 = BPF_JMP | BPF_X | BPF_JGT;
pub const JGE_IMM: u8 = BPF_JMP | BPF_K | BPF_JGE;
pub const JGE_REG: u8 = BPF_JMP | BPF_X | BPF_JGE;
pub const JSET_IMM: u8 = BPF_JMP | BPF_K | BPF_JSET;
pub const JSET_REG: u8 = BPF_JMP | BPF_X | BPF_JSET;
pub const JNE_IMM: u8 = BPF_JMP | BPF_K | BPF_JNE;
pub const JNE_REG: u8 = BPF_JMP | BPF_X | BPF_JNE;
pub const JSGT_IMM: u8 = BPF_JMP | BPF_K | BPF_JSGT;
pub const JSGT_REG: u8 = BPF_JMP | BPF_X | BPF_JSGT;
pub const JSGE_IMM: u8 = BPF_JMP | BPF_K | BPF_JSGE;
pub const JSGE_REG: u8 = BPF_JMP | BPF_X | BPF_JSGE;
pub const CALL: u8 = BPF_JMP | BPF_CALL;
pub const EXIT: u8 = BPF_JMP | BPF_EXIT;

/// One eBPF instruction: eight bytes when laid out as
/// `opc | (src << 4 | dst) | off | imm`, the last two little-endian.
#[derive(Clone, Copy, Debug, PartialEq, Eq, Structural)]
pub struct Insn {
    /// Operation code.
    pub opc: u8,
    /// Destination register operand.
    pub dst: u8,
    /// Source register operand.
    pub src: u8,
    /// Offset operand.
    pub off: i16,
    /// Immediate value operand.
    pub imm: i32,
}

} // verus!
