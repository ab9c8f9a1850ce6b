//! An emulator core for the SM83, the processor of the Game Boy family: the
//! register file and its flags, a flat byte-addressable bus, and the
//! fetch-decode-execute engine with the base and 0xCB-prefixed opcode tables.

pub mod flags;
pub mod registers;
pub mod alu;
pub mod memory;
pub mod cpu;
pub mod operand;
pub mod execute;
pub mod laws;
pub mod motherboard;
pub mod semantics;
