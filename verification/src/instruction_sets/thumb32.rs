//! The compact 16-bit instruction set's decoder. Only the 32-bit set's branch
//! family is modeled by this core, so this decoder recognizes no pattern: it
//! is a total function that reports an explicit miss for every half-word, and
//! any opcode family added later must keep that shape.

use vstd::prelude::*;

verus! {

/// An instruction of the compact 16-bit set. No family of this set is
/// modeled, so the decoder never yields a value of this type.
#[derive(Copy, Clone, Debug, PartialEq, Eq, Structural)]
pub struct Thumb32;

/// What decoding a half-word of the compact set yields: a miss, for every
/// pattern, since no family of this set is modeled.
pub open spec fn spec_decode_thumb(half: u16) -> Option<Thumb32> {
    None
}

impl Thumb32 {
    /// Decodes a half-word of the compact set; reports a miss for any pattern
    /// it does not recognize, which is every pattern.
    pub fn find_instruction(instruction: u16) -> (r: Option<Thumb32>)
        ensures
            r == spec_decode_thumb(instruction),
    {
        None
    }
}

} // verus!
