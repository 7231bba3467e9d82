//! A minimal stored-program processor: a 16-bit instruction encoding, a
//! four-cell register file, a flat byte-addressable memory, and a
//! fetch/decode/execute cycle that advances the processor one instruction
//! at a time.

pub mod cpu;
pub mod isa;
pub mod memory;
