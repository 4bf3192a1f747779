//! A CHIP-8 interpreter core: decoding of 16-bit opcodes, the semantics of the
//! arithmetic and control-flow instructions, and the fetch-decode-execute loop.

pub mod instruction;
pub mod cpu;
pub mod laws;
