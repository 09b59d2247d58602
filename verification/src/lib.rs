//! Instruction-execution core of a handheld-console emulator: a memory bus
//! made of permissioned regions, a CPU register file with packed condition
//! flags, a fetch-decode-execute engine, and cartridge header metadata.

pub mod memory;
pub mod cpu;
pub mod cartridge;
