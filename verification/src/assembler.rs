//! The assembler: from eBPF assembly source to instruction records.

use vstd::prelude::*;
use vstd::hash_map::StringHashMap;
use vstd::string::*;
use vstd::slice::slice_to_vec;
use crate::asm_parser::{
    parse, parse_spec, Failure, Instruction, InstructionView, Operand, ParseError,
};
use crate::ebpf;
use crate::ebpf::Insn;
use crate::text::{decimal, decimal_text};

verus! {

/// The operand shape and opcode-combining rule that a mnemonic follows.
#[derive(Clone, Copy, Debug, PartialEq, Eq, Structural)]
pub enum InstructionType {
    /// No operand.
    NoOperand,
    /// Arithmetic on a register with a register or an immediate.
    AluBinary,
    /// Arithmetic on one register.
    AluUnary,
    /// Load of a 64-bit immediate into a register: two records.
    LoadImm,
    /// Load from memory into a register.
    LoadReg,
    /// Store of an immediate to memory.
    StoreImm,
    /// Store of a register to memory.
    StoreReg,
    /// Jump by an offset.
    JumpUnconditional,
    /// Jump by an offset if a register compares to a register or an
    /// immediate.
    JumpConditional,
    /// Call of the function with the given number.
    Call,
    /// Byte order conversion of a register at the given width in bits.
    Endian(i64),
}

/// What the table holds for a mnemonic: its type and its base opcode.
pub type Entry = (InstructionType, u8);

/// The binary arithmetic operations, by stem.
pub open spec fn alu_binary_ops() -> Seq<(Seq<char>, u8)> {
    seq![
        ("add"@, ebpf::BPF_ADD),
        ("sub"@, ebpf::BPF_SUB),
        ("mul"@, ebpf::BPF_MUL),
        ("div"@, ebpf::BPF_DIV),
        ("or"@, ebpf::BPF_OR),
        ("and"@, ebpf::BPF_AND),
        ("lsh"@, ebpf::BPF_LSH),
        ("rsh"@, ebpf::BPF_RSH),
        ("mod"@, ebpf::BPF_MOD),
        ("xor"@, ebpf::BPF_XOR),
        ("mov"@, ebpf::BPF_MOV),
        ("arsh"@, ebpf::BPF_ARSH),
    ]
}

/// The sizes of a memory access, by mnemonic suffix.
pub open spec fn mem_sizes() -> Seq<(Seq<char>, u8)> {
    seq![("w"@, ebpf::BPF_W), ("h"@, ebpf::BPF_H), ("b"@, ebpf::BPF_B), ("dw"@, ebpf::BPF_DW)]
}

/// The conditions of a conditional jump, by mnemonic.
pub open spec fn jump_conditions() -> Seq<(Seq<char>, u8)> {
    seq![
        ("jeq"@, ebpf::BPF_JEQ),
        ("jgt"@, ebpf::BPF_JGT),
        ("jge"@, ebpf::BPF_JGE),
        ("jset"@, ebpf::BPF_JSET),
        ("jne"@, ebpf::BPF_JNE),
        ("jsgt"@, ebpf::BPF_JSGT),
        ("jsge"@, ebpf::BPF_JSGE),
    ]
}

/// The widths of a byte order conversion, by mnemonic suffix.
pub open spec fn endian_sizes() -> Seq<(Seq<char>, i64)> {
    seq![("16"@, 16i64), ("32"@, 32i64), ("64"@, 64i64)]
}

/// The mnemonics that belong to no family.
pub open spec fn fixed_entries() -> Map<Seq<char>, Entry> {
    Map::empty().insert("exit"@, (InstructionType::NoOperand, ebpf::BPF_EXIT)).insert(
        "ja"@,
        (InstructionType::JumpUnconditional, ebpf::JA),
    ).insert("call"@, (InstructionType::Call, ebpf::CALL)).insert(
        "lddw"@,
        (InstructionType::LoadImm, ebpf::LD_DW_IMM),
    ).insert("neg"@, (InstructionType::AluUnary, ebpf::NEG64)).insert(
        "neg32"@,
        (InstructionType::AluUnary, ebpf::NEG32),
    ).insert("neg64"@, (InstructionType::AluUnary, ebpf::NEG64))
}

/// `m` with the three mnemonics of one binary arithmetic operation: the bare
/// stem and the stem with `64` are the 64-bit form, the stem with `32` the
/// 32-bit form.
pub open spec fn with_alu_binary(m: Map<Seq<char>, Entry>, op: (Seq<char>, u8)) -> Map<
    Seq<char>,
    Entry,
> {
    m.insert(op.0, (InstructionType::AluBinary, ebpf::BPF_ALU64 | op.1)).insert(
        op.0 + "32"@,
        (InstructionType::AluBinary, ebpf::BPF_ALU | op.1),
    ).insert(op.0 + "64"@, (InstructionType::AluBinary, ebpf::BPF_ALU64 | op.1))
}

/// `m` with the load, the store of an immediate and the store of a register
/// of one access size.
pub open spec fn with_mem_size(m: Map<Seq<char>, Entry>, size: (Seq<char>, u8)) -> Map<
    Seq<char>,
    Entry,
> {
    m.insert(
        "ldx"@ + size.0,
        (InstructionType::LoadReg, ebpf::BPF_MEM | ebpf::BPF_LDX | size.1),
    ).insert(
        "st"@ + size.0,
        (InstructionType::StoreImm, ebpf::BPF_MEM | ebpf::BPF_ST | size.1),
    ).insert("stx"@ + size.0, (InstructionType::StoreReg, ebpf::BPF_MEM | ebpf::BPF_STX | size.1))
}

/// `m` with one conditional jump.
pub open spec fn with_jump_condition(
    m: Map<Seq<char>, Entry>,
    condition: (Seq<char>, u8),
) -> Map<Seq<char>, Entry> {
    m.insert(condition.0, (InstructionType::JumpConditional, ebpf::BPF_JMP | condition.1))
}

/// `m` with the two byte order conversions of one width.
pub open spec fn with_endian_size(m: Map<Seq<char>, Entry>, size: (Seq<char>, i64)) -> Map<
    Seq<char>,
    Entry,
> {
    m.insert("be"@ + size.0, (InstructionType::Endian(size.1), ebpf::BE)).insert(
        "le"@ + size.0,
        (InstructionType::Endian(size.1), ebpf::LE),
    )
}

/// `m` with the mnemonics of the first `n` binary arithmetic operations.
pub open spec fn with_alu_binaries(m: Map<Seq<char>, Entry>, n: nat) -> Map<Seq<char>, Entry>
    decreases n,
{
    if n == 0 {
        m
    } else {
        with_alu_binary(with_alu_binaries(m, (n - 1) as nat), alu_binary_ops()[n - 1])
    }
}

/// `m` with the mnemonics of the first `n` access sizes.
pub open spec fn with_mem_sizes(m: Map<Seq<char>, Entry>, n: nat) -> Map<Seq<char>, Entry>
    decreases n,
{
    if n == 0 {
        m
    } else {
        with_mem_size(with_mem_sizes(m, (n - 1) as nat), mem_sizes()[n - 1])
    }
}

/// `m` with the first `n` conditional jumps.
pub open spec fn with_jump_conditions(m: Map<Seq<char>, Entry>, n: nat) -> Map<Seq<char>, Entry>
    decreases n,
{
    if n == 0 {
        m
    } else {
        with_jump_condition(with_jump_conditions(m, (n - 1) as nat), jump_conditions()[n - 1])
    }
}

/// `m` with the byte order conversions of the first `n` widths.
pub open spec fn with_endian_sizes(m: Map<Seq<char>, Entry>, n: nat) -> Map<Seq<char>, Entry>
    decreases n,
{
    if n == 0 {
        m
    } else {
        with_endian_size(with_endian_sizes(m, (n - 1) as nat), endian_sizes()[n - 1])
    }
}

/// The mnemonic table: the fixed entries, then family by family one rule for
/// each member.
pub open spec fn instruction_map() -> Map<Seq<char>, Entry> {
    with_endian_sizes(
        with_jump_conditions(
            with_mem_sizes(
                with_alu_binaries(fixed_entries(), alu_binary_ops().len()),
                mem_sizes().len(),
            ),
            jump_conditions().len(),
        ),
        endian_sizes().len(),
    )
}

/// Binds `name` to `(inst_type, opc)` in `map`.
fn entry(map: &mut StringHashMap<Entry>, name: &str, inst_type: InstructionType, opc: u8)
    ensures
        final(map)@ == old(map)@.insert(name@, (inst_type, opc)),
{
    map.insert(String::from_str(name), (inst_type, opc));
}

/// The text `first` followed by `second`.
fn joined(first: &str, second: &str) -> (r: String)
    ensures
        r@ == first@ + second@,
{
    String::from_str(first).concat(second)
}

/// Builds the mnemonic table.
pub fn make_instruction_map() -> (result: StringHashMap<Entry>)
    ensures
        result@ == instruction_map(),
{
    let mut result = StringHashMap::new();

    let alu_binary_ops: [(&str, u8); 12] = [
        ("add", ebpf::BPF_ADD),
        ("sub", ebpf::BPF_SUB),
        ("mul", ebpf::BPF_MUL),
        ("div", ebpf::BPF_DIV),
        ("or", ebpf::BPF_OR),
        ("and", ebpf::BPF_AND),
        ("lsh", ebpf::BPF_LSH),
        ("rsh", ebpf::BPF_RSH),
        ("mod", ebpf::BPF_MOD),
        ("xor", ebpf::BPF_XOR),
        ("mov", ebpf::BPF_MOV),
        ("arsh", ebpf::BPF_ARSH),
    ];

    let mem_sizes: [(&str, u8); 4] = [
        ("w", ebpf::BPF_W),
        ("h", ebpf::BPF_H),
        ("b", ebpf::BPF_B),
        ("dw", ebpf::BPF_DW),
    ];

    let jump_conditions: [(&str, u8); 7] = [
        ("jeq", ebpf::BPF_JEQ),
        ("jgt", ebpf::BPF_JGT),
        ("jge", ebpf::BPF_JGE),
        ("jset", ebpf::BPF_JSET),
        ("jne", ebpf::BPF_JNE),
        ("jsgt", ebpf::BPF_JSGT),
        ("jsge", ebpf::BPF_JSGE),
    ];

    let endian_sizes: [(&str, i64); 3] = [("16", 16), ("32", 32), ("64", 64)];

    // Miscellaneous.
    entry(&mut result, "exit", InstructionType::NoOperand, ebpf::BPF_EXIT);
    entry(&mut result, "ja", InstructionType::JumpUnconditional, ebpf::JA);
    entry(&mut result, "call", InstructionType::Call, ebpf::CALL);
    entry(&mut result, "lddw", InstructionType::LoadImm, ebpf::LD_DW_IMM);

    // AluUnary.
    entry(&mut result, "neg", InstructionType::AluUnary, ebpf::NEG64);
    entry(&mut result, "neg32", InstructionType::AluUnary, ebpf::NEG32);
    entry(&mut result, "neg64", InstructionType::AluUnary, ebpf::NEG64);

    // AluBinary.
    let mut i: usize = 0;
    while i < 12
        invariant
            i <= 12,
            forall|j: int|
                0 <= j < 12 ==> (#[trigger] alu_binary_ops@[j]).0@ == self::alu_binary_ops()[j].0
                    && alu_binary_ops@[j].1 == self::alu_binary_ops()[j].1,
            result@ == with_alu_binaries(fixed_entries(), i as nat),
        decreases 12 - i,
    {
        let (name, opc) = alu_binary_ops[i];
        entry(&mut result, name, InstructionType::AluBinary, ebpf::BPF_ALU64 | opc);
        entry(
            &mut result,
            joined(name, "32").as_str(),
            InstructionType::AluBinary,
            ebpf::BPF_ALU | opc,
        );
        entry(
            &mut result,
            joined(name, "64").as_str(),
            InstructionType::AluBinary,
            ebpf::BPF_ALU64 | opc,
        );
        i += 1;
    }

    // LoadReg, StoreImm, and StoreReg.
    let ghost after_alu = result@;
    let mut i: usize = 0;
    while i < 4
        invariant
            i <= 4,
            forall|j: int|
                0 <= j < 4 ==> (#[trigger] mem_sizes@[j]).0@ == self::mem_sizes()[j].0
                    && mem_sizes@[j].1 == self::mem_sizes()[j].1,
            result@ == with_mem_sizes(after_alu, i as nat),
        decreases 4 - i,
    {
        let (suffix, size) = mem_sizes[i];
        entry(
            &mut result,
            joined("ldx", suffix).as_str(),
            InstructionType::LoadReg,
            ebpf::BPF_MEM | ebpf::BPF_LDX | size,
        );
        entry(
            &mut result,
            joined("st", suffix).as_str(),
            InstructionType::StoreImm,
            ebpf::BPF_MEM | ebpf::BPF_ST | size,
        );
        entry(
            &mut result,
            joined("stx", suffix).as_str(),
            InstructionType::StoreReg,
            ebpf::BPF_MEM | ebpf::BPF_STX | size,
        );
        i += 1;
    }

    // JumpConditional.
    let ghost after_mem = result@;
    let mut i: usize = 0;
    while i < 7
        invariant
            i <= 7,
            forall|j: int|
                0 <= j < 7 ==> (#[trigger] jump_conditions@[j]).0@ == self::jump_conditions()[j].0
                    && jump_conditions@[j].1 == self::jump_conditions()[j].1,
            result@ == with_jump_conditions(after_mem, i as nat),
        decreases 7 - i,
    {
        let (name, condition) = jump_conditions[i];
        entry(&mut result, name, InstructionType::JumpConditional, ebpf::BPF_JMP | condition);
        i += 1;
    }

    // Endian.
    let ghost after_jump = result@;
    let mut i: usize = 0;
    while i < 3
        invariant
            i <= 3,
            forall|j: int|
                0 <= j < 3 ==> (#[trigger] endian_sizes@[j]).0@ == self::endian_sizes()[j].0
                    && endian_sizes@[j].1 == self::endian_sizes()[j].1,
            result@ == with_endian_sizes(after_jump, i as nat),
        decreases 3 - i,
    {
        let (suffix, size) = endian_sizes[i];
        entry(&mut result, joined("be", suffix).as_str(), InstructionType::Endian(size), ebpf::BE);
        entry(&mut result, joined("le", suffix).as_str(), InstructionType::Endian(size), ebpf::LE);
        i += 1;
    }

    result
}


/// Why an instruction could not be encoded.
#[derive(Clone, Copy, Debug, PartialEq, Eq, Structural)]
pub enum EncodeError {
    /// The instruction has more than three operands.
    TooManyOperands,
    /// The operands have no form that the mnemonic accepts.
    UnexpectedOperands,
}

/// The record with the given opcode and each operand cut down to the width
/// of its field: the low 8 bits of `dst` and `src`, the low 16 bits of `off`
/// and the low 32 bits of `imm`, the last two read as signed.
pub open spec fn insn_spec(opc: u8, dst: i64, src: i64, off: i64, imm: i64) -> Insn {
    Insn { opc: opc, dst: dst as u8, src: src as u8, off: off as i16, imm: imm as i32 }
}

/// Packs an opcode and four operands into a record, cutting each operand
/// down to the width of its field.
pub fn insn(opc: u8, dst: i64, src: i64, off: i64, imm: i64) -> (r: Result<Insn, EncodeError>)
    ensures
        r == Ok::<Insn, EncodeError>(insn_spec(opc, dst, src, off, imm)),
{
    Ok(
        Insn {
            opc: opc,
            dst: #[verifier::truncate] (dst as u8),
            src: #[verifier::truncate] (src as u8),
            off: #[verifier::truncate] (off as i16),
            imm: #[verifier::truncate] (imm as i32),
        },
    )
}

/// The operand at place `i` of `operands`, `Nil` past its end.
pub open spec fn operand_at(operands: Seq<Operand>, i: int) -> Operand {
    if 0 <= i < operands.len() {
        operands[i]
    } else {
        Operand::Nil
    }
}

/// The operand list as three places, or the error for a list that has more.
pub open spec fn operands_tuple_spec(operands: Seq<Operand>) -> Result<
    (Operand, Operand, Operand),
    EncodeError,
> {
    if operands.len() > 3 {
        Err(EncodeError::TooManyOperands)
    } else {
        Ok((operand_at(operands, 0), operand_at(operands, 1), operand_at(operands, 2)))
    }
}

/// Fills an operand list of at most three up to three places with `Nil`.
pub fn operands_tuple(operands: &[Operand]) -> (r: Result<(Operand, Operand, Operand), EncodeError>)
    ensures
        r == operands_tuple_spec(operands@),
{
    match operands.len() {
        0 => Ok((Operand::Nil, Operand::Nil, Operand::Nil)),
        1 => Ok((operands[0], Operand::Nil, Operand::Nil)),
        2 => Ok((operands[0], operands[1], Operand::Nil)),
        3 => Ok((operands[0], operands[1], operands[2])),
        _ => Err(EncodeError::TooManyOperands),
    }
}

/// An encoding rule: one operand form of one instruction type.
#[derive(Clone, Copy, Debug, PartialEq, Eq, Structural)]
pub enum Rule {
    /// `AluBinary` with a register and a register.
    AluBinaryRegister,
    /// `AluBinary` with a register and an integer.
    AluBinaryImmediate,
    /// `AluUnary` with a register.
    AluUnary,
    /// `LoadReg` with a register and a memory reference.
    LoadReg,
    /// `StoreImm` with a memory reference and an integer.
    StoreImm,
    /// `StoreReg` with a memory reference and a register.
    StoreReg,
    /// `NoOperand` with nothing.
    NoOperand,
    /// `JumpUnconditional` with an integer.
    JumpUnconditional,
    /// `JumpConditional` with a register, a register and an integer.
    JumpConditionalRegister,
    /// `JumpConditional` with a register, an integer and an integer.
    JumpConditionalImmediate,
    /// `Call` with an integer.
    Call,
    /// `Endian` with a register.
    Endian,
    /// `LoadImm` with a register and an integer.
    LoadImm,
}

/// Whether `rule` is for instructions of type `inst_type` with the operands
/// `(a, b, c)`.
pub open spec fn rule_applies(
    rule: Rule,
    inst_type: InstructionType,
    a: Operand,
    b: Operand,
    c: Operand,
) -> bool {
    match rule {
        Rule::AluBinaryRegister => inst_type is AluBinary && a is Register && b is Register
            && c is Nil,
        Rule::AluBinaryImmediate => inst_type is AluBinary && a is Register && b is Integer
            && c is Nil,
        Rule::AluUnary => inst_type is AluUnary && a is Register && b is Nil && c is Nil,
        Rule::LoadReg => inst_type is LoadReg && a is Register && b is Memory && c is Nil,
        Rule::StoreImm => inst_type is StoreImm && a is Memory && b is Integer && c is Nil,
        Rule::StoreReg => inst_type is StoreReg && a is Memory && b is Register && c is Nil,
        Rule::NoOperand => inst_type is NoOperand && a is Nil && b is Nil && c is Nil,
        Rule::JumpUnconditional => inst_type is JumpUnconditional && a is Integer && b is Nil
            && c is Nil,
        Rule::JumpConditionalRegister => inst_type is JumpConditional && a is Register
            && b is Register && c is Integer,
        Rule::JumpConditionalImmediate => inst_type is JumpConditional && a is Register
            && b is Integer && c is Integer,
        Rule::Call => inst_type is Call && a is Integer && b is Nil && c is Nil,
        Rule::Endian => inst_type is Endian && a is Register && b is Nil && c is Nil,
        Rule::LoadImm => inst_type is LoadImm && a is Register && b is Integer && c is Nil,
    }
}

/// The record that `rule` emits for the base opcode `opc` and the operands
/// `(a, b, c)`, where the rule applies. For `LoadImm` this is the first of
/// its two records.
pub open spec fn rule_emits(
    rule: Rule,
    inst_type: InstructionType,
    opc: u8,
    a: Operand,
    b: Operand,
    c: Operand,
) -> Insn {
    match rule {
        Rule::AluBinaryRegister => insn_spec(
            opc | ebpf::BPF_X,
            a->Register_0,
            b->Register_0,
            0,
            0,
        ),
        Rule::AluBinaryImmediate => insn_spec(opc | ebpf::BPF_K, a->Register_0, 0, 0, b->Integer_0),
        Rule::AluUnary => insn_spec(opc, a->Register_0, 0, 0, 0),
        Rule::LoadReg => insn_spec(opc, a->Register_0, b->Memory_0, b->Memory_1, 0),
        Rule::StoreImm => insn_spec(opc, a->Memory_0, 0, a->Memory_1, b->Integer_0),
        Rule::StoreReg => insn_spec(opc, a->Memory_0, b->Register_0, a->Memory_1, 0),
        Rule::NoOperand => insn_spec(opc, 0, 0, 0, 0),
        Rule::JumpUnconditional => insn_spec(opc, 0, 0, a->Integer_0, 0),
        Rule::JumpConditionalRegister => insn_spec(
            opc | ebpf::BPF_X,
            a->Register_0,
            b->Register_0,
            c->Integer_0,
            0,
        ),
        Rule::JumpConditionalImmediate => insn_spec(
            opc | ebpf::BPF_K,
            a->Register_0,
            0,
            c->Integer_0,
            b->Integer_0,
        ),
        Rule::Call => insn_spec(opc, 0, 0, 0, a->Integer_0),
        Rule::Endian => insn_spec(opc, a->Register_0, 0, 0, inst_type->Endian_0),
        Rule::LoadImm => insn_spec(opc, a->Register_0, 0, 0, b->Integer_0),
    }
}

/// The rule for instructions of type `inst_type` with the operands
/// `(a, b, c)`, if there is one.
pub open spec fn matching_rule(inst_type: InstructionType, a: Operand, b: Operand, c: Operand) -> Option<
    Rule,
> {
    match (inst_type, a, b, c) {
        (InstructionType::AluBinary, Operand::Register(_), Operand::Register(_), Operand::Nil) => Some(
            Rule::AluBinaryRegister,
        ),
        (InstructionType::AluBinary, Operand::Register(_), Operand::Integer(_), Operand::Nil) => Some(
            Rule::AluBinaryImmediate,
        ),
        (InstructionType::AluUnary, Operand::Register(_), Operand::Nil, Operand::Nil) => Some(
            Rule::AluUnary,
        ),
        (InstructionType::LoadReg, Operand::Register(_), Operand::Memory(_, _), Operand::Nil) => Some(
            Rule::LoadReg,
        ),
        (InstructionType::StoreImm, Operand::Memory(_, _), Operand::Integer(_), Operand::Nil) => Some(
            Rule::StoreImm,
        ),
        (InstructionType::StoreReg, Operand::Memory(_, _), Operand::Register(_), Operand::Nil) => Some(
            Rule::StoreReg,
        ),
        (InstructionType::NoOperand, Operand::Nil, Operand::Nil, Operand::Nil) => Some(
            Rule::NoOperand,
        ),
        (InstructionType::JumpUnconditional, Operand::Integer(_), Operand::Nil, Operand::Nil) => Some(
            Rule::JumpUnconditional,
        ),
        (
            InstructionType::JumpConditional,
            Operand::Register(_),
            Operand::Register(_),
            Operand::Integer(_),
        ) => Some(Rule::JumpConditionalRegister),
        (
            InstructionType::JumpConditional,
            Operand::Register(_),
            Operand::Integer(_),
            Operand::Integer(_),
        ) => Some(Rule::JumpConditionalImmediate),
        (InstructionType::Call, Operand::Integer(_), Operand::Nil, Operand::Nil) => Some(Rule::Call),
        (InstructionType::Endian(_), Operand::Register(_), Operand::Nil, Operand::Nil) => Some(
            Rule::Endian,
        ),
        (InstructionType::LoadImm, Operand::Register(_), Operand::Integer(_), Operand::Nil) => Some(
            Rule::LoadImm,
        ),
        _ => None,
    }
}

/// The record for an instruction of type `inst_type` with base opcode `opc`
/// and the given operands: what the one rule that applies emits, or the
/// error where the list is too long or no rule applies.
pub open spec fn encode_spec(inst_type: InstructionType, opc: u8, operands: Seq<Operand>) -> Result<
    Insn,
    EncodeError,
> {
    match operands_tuple_spec(operands) {
        Err(e) => Err(e),
        Ok((a, b, c)) => match matching_rule(inst_type, a, b, c) {
            Some(rule) => Ok(rule_emits(rule, inst_type, opc, a, b, c)),
            None => Err(EncodeError::UnexpectedOperands),
        },
    }
}

/// Encodes one instruction: for `LoadImm`, the first of its two records.
pub fn encode(inst_type: InstructionType, opc: u8, operands: &[Operand]) -> (r: Result<
    Insn,
    EncodeError,
>)
    ensures
        r == encode_spec(inst_type, opc, operands@),
{
    let (a, b, c) = match operands_tuple(operands) {
        Ok(t) => t,
        Err(e) => {
            return Err(e);
        },
    };
    match (inst_type, a, b, c) {
        (InstructionType::AluBinary, Operand::Register(dst), Operand::Register(src), Operand::Nil) => insn(
            opc | ebpf::BPF_X,
            dst,
            src,
            0,
            0,
        ),
        (InstructionType::AluBinary, Operand::Register(dst), Operand::Integer(imm), Operand::Nil) => insn(
            opc | ebpf::BPF_K,
            dst,
            0,
            0,
            imm,
        ),
        (InstructionType::AluUnary, Operand::Register(dst), Operand::Nil, Operand::Nil) => insn(
            opc,
            dst,
            0,
            0,
            0,
        ),
        (InstructionType::LoadReg, Operand::Register(dst), Operand::Memory(src, off), Operand::Nil) => insn(
            opc,
            dst,
            src,
            off,
            0,
        ),
        (InstructionType::StoreImm, Operand::Memory(dst, off), Operand::Integer(imm), Operand::Nil) => insn(
            opc,
            dst,
            0,
            off,
            imm,
        ),
        (InstructionType::StoreReg, Operand::Memory(dst, off), Operand::Register(src), Operand::Nil) => insn(
            opc,
            dst,
            src,
            off,
            0,
        ),
        (InstructionType::NoOperand, Operand::Nil, Operand::Nil, Operand::Nil) => insn(
            opc,
            0,
            0,
            0,
            0,
        ),
        (InstructionType::JumpUnconditional, Operand::Integer(off), Operand::Nil, Operand::Nil) => insn(
            opc,
            0,
            0,
            off,
            0,
        ),
        (
            InstructionType::JumpConditional,
            Operand::Register(dst),
            Operand::Register(src),
            Operand::Integer(off),
        ) => insn(opc | ebpf::BPF_X, dst, src, off, 0),
        (
            InstructionType::JumpConditional,
            Operand::Register(dst),
            Operand::Integer(imm),
            Operand::Integer(off),
        ) => insn(opc | ebpf::BPF_K, dst, 0, off, imm),
        (InstructionType::Call, Operand::Integer(imm), Operand::Nil, Operand::Nil) => insn(
            opc,
            0,
            0,
            0,
            imm,
        ),
        (InstructionType::Endian(size), Operand::Register(dst), Operand::Nil, Operand::Nil) => insn(
            opc,
            dst,
            0,
            0,
            size,
        ),
        (InstructionType::LoadImm, Operand::Register(dst), Operand::Integer(imm), Operand::Nil) => insn(
            opc,
            dst,
            0,
            0,
            imm,
        ),
        _ => Err(EncodeError::UnexpectedOperands),
    }
}

/// Every encoding rule has its own instruction type and operand form: where
/// two rules apply to the same type and operands, they are one rule.
pub proof fn lemma_rules_disjoint(
    first: Rule,
    second: Rule,
    inst_type: InstructionType,
    a: Operand,
    b: Operand,
    c: Operand,
)
    requires
        rule_applies(first, inst_type, a, b, c),
        rule_applies(second, inst_type, a, b, c),
    ensures
        first == second,
{
}

/// The rule that the encoder picks is the one that applies.
pub proof fn lemma_matching_rule_applies(
    rule: Rule,
    inst_type: InstructionType,
    a: Operand,
    b: Operand,
    c: Operand,
)
    ensures
        rule_applies(rule, inst_type, a, b, c) <==> matching_rule(inst_type, a, b, c) == Some(rule),
{
}

/// Why a source could not be assembled.
#[derive(Debug, PartialEq)]
pub enum AssembleError {
    /// The source is malformed.
    Parse(ParseError),
    /// The table has no mnemonic of this name.
    UnknownMnemonic(String),
    /// The mnemonic is known, but it does not take these operands.
    BadOperands(String, Vec<Operand>),
}

/// An [`AssembleError`] over mathematical sequences.
pub enum AssembleFailure {
    Parse(Failure),
    UnknownMnemonic(Seq<char>),
    BadOperands(Seq<char>, Seq<Operand>),
}

impl View for AssembleError {
    type V = AssembleFailure;

    open spec fn view(&self) -> AssembleFailure {
        match self {
            AssembleError::Parse(e) => AssembleFailure::Parse(e@),
            AssembleError::UnknownMnemonic(name) => AssembleFailure::UnknownMnemonic(name@),
            AssembleError::BadOperands(name, operands) => AssembleFailure::BadOperands(
                name@,
                operands@,
            ),
        }
    }
}

/// An operand as it is written in a message.
pub open spec fn operand_text(operand: Operand) -> Seq<char> {
    match operand {
        Operand::Register(index) => "Register("@ + decimal_text(index as int) + ")"@,
        Operand::Integer(value) => "Integer("@ + decimal_text(value as int) + ")"@,
        Operand::Memory(base, displacement) => "Memory("@ + decimal_text(base as int) + ", "@
            + decimal_text(displacement as int) + ")"@,
        Operand::Nil => "Nil"@,
    }
}

/// The operands as they are written in a message, with `, ` between them.
pub open spec fn operand_list_text(operands: Seq<Operand>) -> Seq<char>
    decreases operands.len(),
{
    if operands.len() == 0 {
        Seq::empty()
    } else if operands.len() == 1 {
        operand_text(operands[0])
    } else {
        operand_list_text(operands.drop_last()) + ", "@ + operand_text(operands.last())
    }
}

impl AssembleFailure {
    /// The failure in words, with the mnemonic that it is about.
    pub open spec fn message(self) -> Seq<char> {
        match self {
            AssembleFailure::Parse(failure) => failure.message(),
            AssembleFailure::UnknownMnemonic(name) => "Invalid instruction \""@ + name + "\""@,
            AssembleFailure::BadOperands(name, operands) => "Failed to encode "@ + name + ": "@ + (
            if operands.len() > 3 {
                "Too many operands"@
            } else {
                "Unexpected operands: ["@ + operand_list_text(operands) + "]"@
            }),
        }
    }
}

/// Writes an operand as it stands in a message.
fn operand_message(operand: Operand) -> (r: String)
    ensures
        r@ == operand_text(operand),
{
    match operand {
        Operand::Register(index) => {
            let mut text = String::from_str("Register(");
            text.append(decimal(index).as_str());
            text.append(")");
            text
        },
        Operand::Integer(value) => {
            let mut text = String::from_str("Integer(");
            text.append(decimal(value).as_str());
            text.append(")");
            text
        },
        Operand::Memory(base, displacement) => {
            let mut text = String::from_str("Memory(");
            text.append(decimal(base).as_str());
            text.append(", ");
            text.append(decimal(displacement).as_str());
            text.append(")");
            text
        },
        Operand::Nil => String::from_str("Nil"),
    }
}

/// Writes the operands as they stand in a message.
fn operand_list_message(operands: &[Operand]) -> (r: String)
    ensures
        r@ == operand_list_text(operands@),
{
    let mut text = String::new();
    let mut i: usize = 0;
    while i < operands.len()
        invariant
            i <= operands.len(),
            text@ == operand_list_text(operands@.take(i as int)),
        decreases operands.len() - i,
    {
        if i > 0 {
            text.append(", ");
        }
        text.append(operand_message(operands[i]).as_str());
        proof {
            let taken = operands@.take(i as int + 1);
            assert(taken.drop_last() == operands@.take(i as int));
            assert(taken.last() == operands@[i as int]);
            if i == 0 {
                assert(text@ == operand_text(operands@[0]));
            }
        }
        i += 1;
    }
    proof {
        assert(operands@.take(operands.len() as int) == operands@);
    }
    text
}

impl AssembleError {
    /// Says the error in words, with the mnemonic that it is about.
    pub fn message(&self) -> (r: String)
        ensures
            r@ == self@.message(),
    {
        match self {
            AssembleError::Parse(e) => e.message(),
            AssembleError::UnknownMnemonic(name) => {
                let mut text = String::from_str("Invalid instruction \"");
                text.append(name.as_str());
                text.append("\"");
                text
            },
            AssembleError::BadOperands(name, operands) => {
                let mut text = String::from_str("Failed to encode ");
                text.append(name.as_str());
                text.append(": ");
                if operands.len() > 3 {
                    text.append("Too many operands");
                } else {
                    text.append("Unexpected operands: [");
                    text.append(operand_list_message(operands.as_slice()).as_str());
                    text.append("]");
                }
                text
            },
        }
    }
}

/// The second record of a 64-bit immediate load: the high 32 bits of the
/// immediate, under opcode 0.
pub open spec fn load_imm_high(imm: i64) -> Insn {
    insn_spec(0, 0, 0, 0, imm >> 32)
}

/// The records of one instruction: one, or two for `LoadImm`.
pub open spec fn instruction_records(instruction: InstructionView) -> Result<
    Seq<Insn>,
    AssembleFailure,
> {
    if !instruction_map().contains_key(instruction.name) {
        Err(AssembleFailure::UnknownMnemonic(instruction.name))
    } else {
        let (inst_type, opc) = instruction_map()[instruction.name];
        match encode_spec(inst_type, opc, instruction.operands) {
            Err(_) => Err(AssembleFailure::BadOperands(instruction.name, instruction.operands)),
            Ok(first) => if inst_type is LoadImm {
                Ok(seq![first, load_imm_high(instruction.operands[1]->Integer_0)])
            } else {
                Ok(seq![first])
            },
        }
    }
}

/// `r` with the records of `front` before its own.
pub open spec fn prepend_records(front: Seq<Insn>, r: Result<Seq<Insn>, AssembleFailure>) -> Result<
    Seq<Insn>,
    AssembleFailure,
> {
    match r {
        Ok(records) => Ok(front + records),
        Err(failure) => Err(failure),
    }
}

/// The records of the instructions, in their order, or the failure of the
/// first instruction that has one.
pub open spec fn records_spec(instructions: Seq<InstructionView>) -> Result<
    Seq<Insn>,
    AssembleFailure,
>
    decreases instructions.len(),
{
    if instructions.len() == 0 {
        Ok(Seq::empty())
    } else {
        match instruction_records(instructions[0]) {
            Err(failure) => Err(failure),
            Ok(first) => prepend_records(first, records_spec(instructions.drop_first())),
        }
    }
}

/// What assembling the source `s` gives: the failure to parse it, or the
/// records of its instructions.
pub open spec fn assemble_spec(s: Seq<char>) -> Result<Seq<Insn>, AssembleFailure> {
    match parse_spec(s) {
        Err(failure) => Err(AssembleFailure::Parse(failure)),
        Ok(instructions) => records_spec(instructions),
    }
}

/// The outcome of [`assemble`] over mathematical sequences.
pub open spec fn assemble_view(r: Result<Vec<Insn>, AssembleError>) -> Result<
    Seq<Insn>,
    AssembleFailure,
> {
    match r {
        Ok(records) => Ok(records@),
        Err(e) => Err(e@),
    }
}

/// Assembles a source into its instruction records. The first error ends
/// the work, and nothing is returned beside it.
pub fn assemble(src: &str) -> (r: Result<Vec<Insn>, AssembleError>)
    ensures
        assemble_view(r) == assemble_spec(src@),
{
    let instructions = match parse(src) {
        Ok(instructions) => instructions,
        Err(e) => {
            return Err(AssembleError::Parse(e));
        },
    };
    let instruction_map = make_instruction_map();
    let mut result: Vec<Insn> = Vec::new();
    let ghost all = instructions.deep_view();
    let mut i: usize = 0;
    proof {
        assert(all.skip(0) == all);
        if let Ok(records) = records_spec(all) {
            assert(result@ + records == records);
        }
    }
    while i < instructions.len()
        invariant
            i <= instructions.len(),
            all == instructions.deep_view(),
            assemble_spec(src@) == records_spec(all),
            instruction_map@ == self::instruction_map(),
            records_spec(all) == prepend_records(result@, records_spec(all.skip(i as int))),
        decreases instructions.len() - i,
    {
        let instruction = &instructions[i];
        let ghost before = result@;
        let ghost rest = records_spec(all.skip(i as int + 1));
        proof {
            assert(all.skip(i as int)[0] == instruction@);
            assert(all.skip(i as int).drop_first() == all.skip(i as int + 1));
        }
        match instruction_map.get(instruction.name.as_str()) {
            Some(found) => {
                let (inst_type, opc) = *found;
                match encode(inst_type, opc, instruction.operands.as_slice()) {
                    Ok(insn) => result.push(insn),
                    Err(_) => {
                        return Err(
                            AssembleError::BadOperands(
                                instruction.name.clone(),
                                slice_to_vec(instruction.operands.as_slice()),
                            ),
                        );
                    },
                }
                if let InstructionType::LoadImm = inst_type {
                    if let Operand::Integer(imm) = instruction.operands[1] {
                        result.push(insn(0, 0, 0, 0, imm >> 32).unwrap());
                    }
                }
            },
            None => {
                return Err(AssembleError::UnknownMnemonic(instruction.name.clone()));
            },
        }
        proof {
            let records = instruction_records(instruction@)->Ok_0;
            assert(result@ == before + records);
            if let Ok(tail) = rest {
                assert(before + (records + tail) == result@ + tail);
            }
        }
        i += 1;
    }
    proof {
        assert(result@ + Seq::<Insn>::empty() == result@);
    }
    Ok(result)
}

/// Operands that an instruction of type `inst_type` accepts.
pub open spec fn accepted_operands(inst_type: InstructionType) -> Seq<Operand> {
    match inst_type {
        InstructionType::NoOperand => seq![],
        InstructionType::AluBinary => seq![Operand::Register(0), Operand::Register(0)],
        InstructionType::AluUnary => seq![Operand::Register(0)],
        InstructionType::LoadImm => seq![Operand::Register(0), Operand::Integer(0)],
        InstructionType::LoadReg => seq![Operand::Register(0), Operand::Memory(0, 0)],
        InstructionType::StoreImm => seq![Operand::Memory(0, 0), Operand::Integer(0)],
        InstructionType::StoreReg => seq![Operand::Memory(0, 0), Operand::Register(0)],
        InstructionType::JumpUnconditional => seq![Operand::Integer(0)],
        InstructionType::JumpConditional => seq![
            Operand::Register(0),
            Operand::Register(0),
            Operand::Integer(0),
        ],
        InstructionType::Call => seq![Operand::Integer(0)],
        InstructionType::Endian(_) => seq![Operand::Register(0)],
    }
}

/// Every instruction type has a rule: some operands encode under it,
/// whatever the base opcode.
pub proof fn lemma_every_type_encodes(inst_type: InstructionType, opc: u8)
    ensures
        encode_spec(inst_type, opc, accepted_operands(inst_type)) is Ok,
{
}

/// Every mnemonic of the table can be assembled: with some operands it has
/// records.
pub proof fn lemma_every_mnemonic_encodes(name: Seq<char>)
    requires
        instruction_map().contains_key(name),
    ensures
        exists|operands: Seq<Operand>|
            instruction_records(InstructionView { name: name, operands: operands }) is Ok,
{
    let (inst_type, opc) = instruction_map()[name];
    lemma_every_type_encodes(inst_type, opc);
    assert(instruction_records(
        InstructionView { name: name, operands: accepted_operands(inst_type) },
    ) is Ok);
}

/// The empty source assembles to no records.
pub proof fn lemma_assemble_empty()
    ensures
        assemble_spec(Seq::empty()) == Ok::<Seq<Insn>, AssembleFailure>(Seq::empty()),
{
}

/// Whether the base opcode of an entry leaves the source bit clear where
/// its type has a register and an immediate form.
pub open spec fn source_bit_free(entry: Entry) -> bool {
    entry.0 is AluBinary || entry.0 is JumpConditional ==> entry.1 & ebpf::BPF_X == 0
}

/// An operation code in the high four bits leaves the source bit of the
/// arithmetic and jump classes clear.
proof fn lemma_class_source_bit(op: u8)
    by (bit_vector)
    requires
        op & 0x0f == 0,
    ensures
        (0x07u8 | op) & 0x08 == 0,
        (0x04u8 | op) & 0x08 == 0,
        (0x05u8 | op) & 0x08 == 0,
{
}

/// The table's base opcodes for binary arithmetic and conditional jumps
/// have the source bit clear.
pub proof fn lemma_table_source_bit(name: Seq<char>)
    requires
        instruction_map().contains_key(name),
    ensures
        source_bit_free(instruction_map()[name]),
{
    reveal_with_fuel(with_alu_binaries, 13);
    reveal_with_fuel(with_mem_sizes, 5);
    reveal_with_fuel(with_jump_conditions, 8);
    reveal_with_fuel(with_endian_sizes, 4);
    assert forall|j: int| 0 <= j < 12 implies (ebpf::BPF_ALU64 | #[trigger] alu_binary_ops()[j].1)
        & ebpf::BPF_X == 0 && (ebpf::BPF_ALU | alu_binary_ops()[j].1) & ebpf::BPF_X == 0 by {
        let op = alu_binary_ops()[j].1;
        assert(op & 0x0f == 0) by (bit_vector)
            requires
                op == 0x00 || op == 0x10 || op == 0x20 || op == 0x30 || op == 0x40 || op == 0x50
                    || op == 0x60 || op == 0x70 || op == 0x90 || op == 0xa0 || op == 0xb0 || op
                    == 0xc0,
        ;
        lemma_class_source_bit(op);
    }
    assert forall|j: int| 0 <= j < 7 implies (ebpf::BPF_JMP | #[trigger] jump_conditions()[j].1)
        & ebpf::BPF_X == 0 by {
        let op = jump_conditions()[j].1;
        assert(op & 0x0f == 0) by (bit_vector)
            requires
                op == 0x10 || op == 0x20 || op == 0x30 || op == 0x40 || op == 0x50 || op == 0x60
                    || op == 0x70,
        ;
        lemma_class_source_bit(op);
    }
}

/// Where a binary arithmetic instruction or a conditional jump of the table
/// encodes, its opcode has the source bit set if the second operand is a
/// register, and clear if it is an integer.
pub proof fn lemma_mode_bit(instruction: InstructionView)
    requires
        instruction_map().contains_key(instruction.name),
        instruction_map()[instruction.name].0 is AluBinary || instruction_map()[instruction.name].0
            is JumpConditional,
        instruction_records(instruction) is Ok,
    ensures
        instruction_records(instruction)->Ok_0.len() == 1,
        instruction.operands.len() >= 2,
        instruction.operands[1] is Register || instruction.operands[1] is Integer,
        instruction.operands[1] is Register ==> instruction_records(instruction)->Ok_0[0].opc
            & ebpf::BPF_X == ebpf::BPF_X,
        instruction.operands[1] is Integer ==> instruction_records(instruction)->Ok_0[0].opc
            & ebpf::BPF_X == ebpf::BPF_K,
{
    lemma_table_source_bit(instruction.name);
    let opc = instruction_map()[instruction.name].1;
    assert((opc | 0x08) & 0x08 == 0x08) by (bit_vector);
    assert(opc & 0x08 == 0 ==> (opc | 0x00) & 0x08 == 0x00) by (bit_vector);
}

/// The character of `name` at place `i`, a blank behind its end.
spec fn padded(name: Seq<char>, i: int) -> char {
    if 0 <= i < name.len() {
        name[i]
    } else {
        ' '
    }
}

/// The length of a name with its first six characters, blanks behind its
/// end. Names that differ here are different names.
spec fn name_mark(name: Seq<char>) -> (nat, char, char, char, char, char, char) {
    (
        name.len(),
        padded(name, 0),
        padded(name, 1),
        padded(name, 2),
        padded(name, 3),
        padded(name, 4),
        padded(name, 5),
    )
}

/// The mark of each mnemonic that a rule of the table makes.
proof fn lemma_name_marks()
    ensures
        name_mark("exit"@) == (4nat, 'e', 'x', 'i', 't', ' ', ' '),
        name_mark("ja"@) == (2nat, 'j', 'a', ' ', ' ', ' ', ' '),
        name_mark("call"@) == (4nat, 'c', 'a', 'l', 'l', ' ', ' '),
        name_mark("lddw"@) == (4nat, 'l', 'd', 'd', 'w', ' ', ' '),
        name_mark("neg"@) == (3nat, 'n', 'e', 'g', ' ', ' ', ' '),
        name_mark("neg32"@) == (5nat, 'n', 'e', 'g', '3', '2', ' '),
        name_mark("neg64"@) == (5nat, 'n', 'e', 'g', '6', '4', ' '),
        name_mark("add"@) == (3nat, 'a', 'd', 'd', ' ', ' ', ' '),
        name_mark("add"@ + "32"@) == (5nat, 'a', 'd', 'd', '3', '2', ' '),
        name_mark("add"@ + "64"@) == (5nat, 'a', 'd', 'd', '6', '4', ' '),
        name_mark("sub"@) == (3nat, 's', 'u', 'b', ' ', ' ', ' '),
        name_mark("sub"@ + "32"@) == (5nat, 's', 'u', 'b', '3', '2', ' '),
        name_mark("sub"@ + "64"@) == (5nat, 's', 'u', 'b', '6', '4', ' '),
        name_mark("mul"@) == (3nat, 'm', 'u', 'l', ' ', ' ', ' '),
        name_mark("mul"@ + "32"@) == (5nat, 'm', 'u', 'l', '3', '2', ' '),
        name_mark("mul"@ + "64"@) == (5nat, 'm', 'u', 'l', '6', '4', ' '),
        name_mark("div"@) == (3nat, 'd', 'i', 'v', ' ', ' ', ' '),
        name_mark("div"@ + "32"@) == (5nat, 'd', 'i', 'v', '3', '2', ' '),
        name_mark("div"@ + "64"@) == (5nat, 'd', 'i', 'v', '6', '4', ' '),
        name_mark("or"@) == (2nat, 'o', 'r', ' ', ' ', ' ', ' '),
        name_mark("or"@ + "32"@) == (4nat, 'o', 'r', '3', '2', ' ', ' '),
        name_mark("or"@ + "64"@) == (4nat, 'o', 'r', '6', '4', ' ', ' '),
        name_mark("and"@) == (3nat, 'a', 'n', 'd', ' ', ' ', ' '),
        name_mark("and"@ + "32"@) == (5nat, 'a', 'n', 'd', '3', '2', ' '),
        name_mark("and"@ + "64"@) == (5nat, 'a', 'n', 'd', '6', '4', ' '),
        name_mark("lsh"@) == (3nat, 'l', 's', 'h', ' ', ' ', ' '),
        name_mark("lsh"@ + "32"@) == (5nat, 'l', 's', 'h', '3', '2', ' '),
        name_mark("lsh"@ + "64"@) == (5nat, 'l', 's', 'h', '6', '4', ' '),
        name_mark("rsh"@) == (3nat, 'r', 's', 'h', ' ', ' ', ' '),
        name_mark("rsh"@ + "32"@) == (5nat, 'r', 's', 'h', '3', '2', ' '),
        name_mark("rsh"@ + "64"@) == (5nat, 'r', 's', 'h', '6', '4', ' '),
        name_mark("mod"@) == (3nat, 'm', 'o', 'd', ' ', ' ', ' '),
        name_mark("mod"@ + "32"@) == (5nat, 'm', 'o', 'd', '3', '2', ' '),
        name_mark("mod"@ + "64"@) == (5nat, 'm', 'o', 'd', '6', '4', ' '),
        name_mark("xor"@) == (3nat, 'x', 'o', 'r', ' ', ' ', ' '),
        name_mark("xor"@ + "32"@) == (5nat, 'x', 'o', 'r', '3', '2', ' '),
        name_mark("xor"@ + "64"@) == (5nat, 'x', 'o', 'r', '6', '4', ' '),
        name_mark("mov"@) == (3nat, 'm', 'o', 'v', ' ', ' ', ' '),
        name_mark("mov"@ + "32"@) == (5nat, 'm', 'o', 'v', '3', '2', ' '),
        name_mark("mov"@ + "64"@) == (5nat, 'm', 'o', 'v', '6', '4', ' '),
        name_mark("arsh"@) == (4nat, 'a', 'r', 's', 'h', ' ', ' '),
        name_mark("arsh"@ + "32"@) == (6nat, 'a', 'r', 's', 'h', '3', '2'),
        name_mark("arsh"@ + "64"@) == (6nat, 'a', 'r', 's', 'h', '6', '4'),
        name_mark("ldx"@ + "w"@) == (4nat, 'l', 'd', 'x', 'w', ' ', ' '),
        name_mark("st"@ + "w"@) == (3nat, 's', 't', 'w', ' ', ' ', ' '),
        name_mark("stx"@ + "w"@) == (4nat, 's', 't', 'x', 'w', ' ', ' '),
        name_mark("ldx"@ + "h"@) == (4nat, 'l', 'd', 'x', 'h', ' ', ' '),
        name_mark("st"@ + "h"@) == (3nat, 's', 't', 'h', ' ', ' ', ' '),
        name_mark("stx"@ + "h"@) == (4nat, 's', 't', 'x', 'h', ' ', ' '),
        name_mark("ldx"@ + "b"@) == (4nat, 'l', 'd', 'x', 'b', ' ', ' '),
        name_mark("st"@ + "b"@) == (3nat, 's', 't', 'b', ' ', ' ', ' '),
        name_mark("stx"@ + "b"@) == (4nat, 's', 't', 'x', 'b', ' ', ' '),
        name_mark("ldx"@ + "dw"@) == (5nat, 'l', 'd', 'x', 'd', 'w', ' '),
        name_mark("st"@ + "dw"@) == (4nat, 's', 't', 'd', 'w', ' ', ' '),
        name_mark("stx"@ + "dw"@) == (5nat, 's', 't', 'x', 'd', 'w', ' '),
        name_mark("jeq"@) == (3nat, 'j', 'e', 'q', ' ', ' ', ' '),
        name_mark("jgt"@) == (3nat, 'j', 'g', 't', ' ', ' ', ' '),
        name_mark("jge"@) == (3nat, 'j', 'g', 'e', ' ', ' ', ' '),
        name_mark("jset"@) == (4nat, 'j', 's', 'e', 't', ' ', ' '),
        name_mark("jne"@) == (3nat, 'j', 'n', 'e', ' ', ' ', ' '),
        name_mark("jsgt"@) == (4nat, 'j', 's', 'g', 't', ' ', ' '),
        name_mark("jsge"@) == (4nat, 'j', 's', 'g', 'e', ' ', ' '),
        name_mark("be"@ + "16"@) == (4nat, 'b', 'e', '1', '6', ' ', ' '),
        name_mark("le"@ + "16"@) == (4nat, 'l', 'e', '1', '6', ' ', ' '),
        name_mark("be"@ + "32"@) == (4nat, 'b', 'e', '3', '2', ' ', ' '),
        name_mark("le"@ + "32"@) == (4nat, 'l', 'e', '3', '2', ' ', ' '),
        name_mark("be"@ + "64"@) == (4nat, 'b', 'e', '6', '4', ' ', ' '),
        name_mark("le"@ + "64"@) == (4nat, 'l', 'e', '6', '4', ' ', ' '),
{
    reveal_strlit("exit");
    reveal_strlit("ja");
    reveal_strlit("call");
    reveal_strlit("lddw");
    reveal_strlit("neg");
    reveal_strlit("neg32");
    reveal_strlit("neg64");
    reveal_strlit("add");
    reveal_strlit("sub");
    reveal_strlit("mul");
    reveal_strlit("div");
    reveal_strlit("or");
    reveal_strlit("and");
    reveal_strlit("lsh");
    reveal_strlit("rsh");
    reveal_strlit("mod");
    reveal_strlit("xor");
    reveal_strlit("mov");
    reveal_strlit("arsh");
    reveal_strlit("32");
    reveal_strlit("64");
    reveal_strlit("16");
    reveal_strlit("w");
    reveal_strlit("h");
    reveal_strlit("b");
    reveal_strlit("dw");
    reveal_strlit("ldx");
    reveal_strlit("st");
    reveal_strlit("stx");
    reveal_strlit("jeq");
    reveal_strlit("jgt");
    reveal_strlit("jge");
    reveal_strlit("jset");
    reveal_strlit("jne");
    reveal_strlit("jsgt");
    reveal_strlit("jsge");
    reveal_strlit("be");
    reveal_strlit("le");
}

/// Whether `m` holds the three entries of the binary arithmetic operation
/// `op`.
pub open spec fn holds_alu_binary(m: Map<Seq<char>, Entry>, op: (Seq<char>, u8)) -> bool {
    &&& m.contains_pair(op.0, (InstructionType::AluBinary, ebpf::BPF_ALU64 | op.1))
    &&& m.contains_pair(op.0 + "32"@, (InstructionType::AluBinary, ebpf::BPF_ALU | op.1))
    &&& m.contains_pair(op.0 + "64"@, (InstructionType::AluBinary, ebpf::BPF_ALU64 | op.1))
}

/// Whether `m` holds the three entries of the access size `size`.
pub open spec fn holds_mem_size(m: Map<Seq<char>, Entry>, size: (Seq<char>, u8)) -> bool {
    &&& m.contains_pair(
        "ldx"@ + size.0,
        (InstructionType::LoadReg, ebpf::BPF_MEM | ebpf::BPF_LDX | size.1),
    )
    &&& m.contains_pair(
        "st"@ + size.0,
        (InstructionType::StoreImm, ebpf::BPF_MEM | ebpf::BPF_ST | size.1),
    )
    &&& m.contains_pair(
        "stx"@ + size.0,
        (InstructionType::StoreReg, ebpf::BPF_MEM | ebpf::BPF_STX | size.1),
    )
}

/// Whether `m` holds the entry of the conditional jump `condition`.
pub open spec fn holds_jump_condition(m: Map<Seq<char>, Entry>, condition: (Seq<char>, u8)) -> bool {
    m.contains_pair(condition.0, (InstructionType::JumpConditional, ebpf::BPF_JMP | condition.1))
}

/// Whether `m` holds the two entries of the byte order conversions of
/// width `size`.
pub open spec fn holds_endian_size(m: Map<Seq<char>, Entry>, size: (Seq<char>, i64)) -> bool {
    &&& m.contains_pair("be"@ + size.0, (InstructionType::Endian(size.1), ebpf::BE))
    &&& m.contains_pair("le"@ + size.0, (InstructionType::Endian(size.1), ebpf::LE))
}

/// No two rules of the table share a mnemonic: the table holds the entry
/// of every rule, each under its own name.
pub proof fn lemma_instruction_map_holds_every_rule()
    ensures
        instruction_map().contains_pair("exit"@, (InstructionType::NoOperand, ebpf::BPF_EXIT)),
        instruction_map().contains_pair("ja"@, (InstructionType::JumpUnconditional, ebpf::JA)),
        instruction_map().contains_pair("call"@, (InstructionType::Call, ebpf::CALL)),
        instruction_map().contains_pair("lddw"@, (InstructionType::LoadImm, ebpf::LD_DW_IMM)),
        instruction_map().contains_pair("neg"@, (InstructionType::AluUnary, ebpf::NEG64)),
        instruction_map().contains_pair("neg32"@, (InstructionType::AluUnary, ebpf::NEG32)),
        instruction_map().contains_pair("neg64"@, (InstructionType::AluUnary, ebpf::NEG64)),
        forall|j: int|
            0 <= j < alu_binary_ops().len() ==> holds_alu_binary(
                instruction_map(),
                #[trigger] alu_binary_ops()[j],
            ),
        forall|j: int|
            0 <= j < mem_sizes().len() ==> holds_mem_size(
                instruction_map(),
                #[trigger] mem_sizes()[j],
            ),
        forall|j: int|
            0 <= j < jump_conditions().len() ==> holds_jump_condition(
                instruction_map(),
                #[trigger] jump_conditions()[j],
            ),
        forall|j: int|
            0 <= j < endian_sizes().len() ==> holds_endian_size(
                instruction_map(),
                #[trigger] endian_sizes()[j],
            ),
{
    reveal_with_fuel(with_alu_binaries, 13);
    reveal_with_fuel(with_mem_sizes, 5);
    reveal_with_fuel(with_jump_conditions, 8);
    reveal_with_fuel(with_endian_sizes, 4);
    lemma_name_marks();
}

/// The table holds no `LoadImm` under another name than `lddw`.
proof fn lemma_load_imm_name(name: Seq<char>)
    requires
        instruction_map().contains_key(name),
        instruction_map()[name].0 is LoadImm,
    ensures
        name == "lddw"@,
{
    reveal_with_fuel(with_alu_binaries, 13);
    reveal_with_fuel(with_mem_sizes, 5);
    reveal_with_fuel(with_jump_conditions, 8);
    reveal_with_fuel(with_endian_sizes, 4);
}

/// `lddw` is the one mnemonic that the table holds as a `LoadImm`.
pub proof fn lemma_load_imm_is_lddw(name: Seq<char>)
    requires
        instruction_map().contains_key(name),
    ensures
        instruction_map()[name].0 is LoadImm <==> name == "lddw"@,
{
    if instruction_map()[name].0 is LoadImm {
        lemma_load_imm_name(name);
    }
    lemma_instruction_map_holds_every_rule();
}

/// The number of `lddw` among `instructions`.
pub open spec fn lddw_count(instructions: Seq<InstructionView>) -> nat
    decreases instructions.len(),
{
    if instructions.len() == 0 {
        0
    } else {
        let counted: nat = if instructions[0].name == "lddw"@ {
            1
        } else {
            0
        };
        counted + lddw_count(instructions.drop_first())
    }
}

/// Instructions that encode give one record each, and one more for each
/// `lddw` among them.
pub proof fn lemma_records_len(instructions: Seq<InstructionView>)
    requires
        records_spec(instructions) is Ok,
    ensures
        records_spec(instructions)->Ok_0.len() == instructions.len() + lddw_count(instructions),
    decreases instructions.len(),
{
    if instructions.len() > 0 {
        lemma_load_imm_is_lddw(instructions[0].name);
        lemma_records_len(instructions.drop_first());
    }
}

/// A source that assembles gives one record for each of its instructions,
/// and one more for each `lddw` among them.
pub proof fn lemma_assemble_len(s: Seq<char>)
    requires
        assemble_spec(s) is Ok,
    ensures
        assemble_spec(s)->Ok_0.len() == parse_spec(s)->Ok_0.len() + lddw_count(
            parse_spec(s)->Ok_0,
        ),
{
    lemma_records_len(parse_spec(s)->Ok_0);
}

/// The records of two lists of instructions, one behind the other, are the
/// records of the first and then those of the second; the first failure of
/// the first list, or else of the second, is the failure of both.
pub proof fn lemma_records_concat(first: Seq<InstructionView>, second: Seq<InstructionView>)
    ensures
        records_spec(first + second) == match records_spec(first) {
            Err(failure) => Err(failure),
            Ok(records) => prepend_records(records, records_spec(second)),
        },
    decreases first.len(),
{
    if first.len() == 0 {
        assert(first + second == second);
        if let Ok(records) = records_spec(second) {
            assert(Seq::<Insn>::empty() + records == records);
        }
    } else {
        let both = first + second;
        assert(both[0] == first[0]);
        assert(both.drop_first() == first.drop_first() + second);
        lemma_records_concat(first.drop_first(), second);
        if let Ok(head) = instruction_records(first[0]) {
            if let Ok(tail) = records_spec(first.drop_first()) {
                if let Ok(rest) = records_spec(second) {
                    assert(head + (tail + rest) == (head + tail) + rest);
                }
            }
        }
    }
}

} // verus!
