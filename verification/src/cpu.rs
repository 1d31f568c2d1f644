//! The processor: the arithmetic of the instruction set, the fields of an
//! instruction word, what each instruction does to the architectural state,
//! and the machine that executes them.

pub mod alu;
pub mod basic_cpu;
pub mod decode;
pub mod isa;
