//! An interpreter core for a classic 8-bit virtual machine with sixteen byte
//! registers, a 4 KiB memory, a monochrome 64x32 display and a 16-key pad.

pub mod opcode;
pub mod instruction;
pub mod random;
pub mod machine;
pub mod laws;
