//! A small virtual-machine toolkit: word encodings, a heap, call frames, a
//! CPU that executes a typed instruction set, the textual instruction syntax
//! and its lexical grammar, the resolution of parsed modules into code, the
//! binary and textual program containers, and the benchmark workloads.

pub mod word;
pub mod frame;
pub mod opcode;
pub mod heap;
pub mod dialect;
pub mod instruction;
pub mod syntax;
pub mod arith;
pub mod state;
pub mod cpu;
pub mod lexical;
pub mod surface;
pub mod surface_syntax;
pub mod parse_helpers;
pub mod mnemonics;
pub mod resolve;
pub mod fixture;
pub mod benchmark;
pub mod section;
pub mod container;
pub mod sst;
pub mod workloads;
