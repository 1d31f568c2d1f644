//! The memory subsystem.

pub mod dram;
