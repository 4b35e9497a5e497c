//! An assembler for eBPF: source text in, instruction records out.

pub mod asm_parser;
pub mod assembler;
pub mod ebpf;
pub mod parser;
pub mod text;
