//! An interpreter for the RV64I base integer instruction set with the Zicsr
//! extension, over a flat little-endian memory.

pub mod cpu;
pub mod memory;
