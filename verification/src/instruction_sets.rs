//! The two instruction-set encodings of the emulated processor: the 32-bit
//! set and the compact 16-bit set. Each decoder is a pure, total function
//! from a raw instruction word to a structured instruction, with an explicit
//! miss for unrecognized bit patterns.

pub mod arm32;
pub mod thumb32;

pub use arm32::Arm32;
pub use arm32::Branch;
pub use arm32::Condition;
pub use thumb32::Thumb32;
