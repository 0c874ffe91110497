//! The 32-bit instruction set's decoder: a pure mapping from a raw 32-bit
//! word to a structured instruction, with an explicit miss for unrecognized
//! bit patterns. Only the branch family is modeled; its fields are the
//! condition (top four bits), the link flag, and a byte-granularity signed
//! offset stored as a 24-bit word-granularity field.

use vstd::prelude::*;

verus! {

/// The bits that identify a word of the branch family.
pub const BRANCH_IDENTIFIER: u32 = 0x0A00_0000;

/// The bit that distinguishes branch-with-link from plain branch.
pub const BRANCH_LINK_BIT: u32 = 0x0100_0000;

/// The mask of the 24-bit word-granularity offset field.
pub const BRANCH_OFFSET_MASK: u32 = 0x00FF_FFFF;

/// The bits a branch word determines: everything except bit 26, which the
/// identifier mask leaves unconstrained.
pub const BRANCH_RELEVANT_MASK: u32 = 0xFBFF_FFFF;

/// An instruction of the 32-bit set.
#[derive(Copy, Clone, Debug, PartialEq, Eq, Structural)]
pub enum Arm32 {
    Branch(Branch),
}

/// A branch-family instruction.
#[derive(Copy, Clone, Debug, PartialEq, Eq, Structural)]
pub struct Branch {
    pub condition: Condition,
    /// When the condition is the reserved all-set value, this instruction is
    /// the link-and-exchange form and the flag selects the other half-word.
    /// Otherwise false is a plain branch and true is branch-with-link.
    pub opcode: bool,
    /// The offset to the new instruction, in bytes.
    pub offset: i32,
}

/// The sixteen status-flag predicates an instruction can be guarded by.
#[derive(Copy, Clone, Debug, PartialEq, Eq, Structural)]
pub enum Condition {
    /// Z set: equal (zero).
    Equal,
    /// Z clear: not equal (nonzero).
    NEqual,
    /// C set: unsigned higher or same.
    CarrySet,
    /// C clear: unsigned lower.
    CarryClear,
    /// N set: signed negative.
    Minus,
    /// N clear: signed positive or zero.
    Positive,
    /// V set: signed overflow.
    VSet,
    /// V clear: no signed overflow.
    VClear,
    /// C set and Z clear: unsigned higher.
    UHigh,
    /// C clear or Z set: unsigned lower or same.
    ULow,
    /// N equal to V: signed greater or equal.
    GreaterEqual,
    /// N not equal to V: signed less than.
    Less,
    /// Z clear and N equal to V: signed greater than.
    Greater,
    /// Z set or N not equal to V: signed less or equal.
    LessEqual,
    /// No flags consulted: always taken.
    Always,
    /// The reserved all-set value: never taken as a guard; the decoder and
    /// executor treat it as the link-and-exchange branch form instead.
    AllSet,
}

/// The condition encoded by a 4-bit field value; field values above fifteen
/// cannot occur.
pub open spec fn condition_from_bits(bits: u32) -> Condition {
    if bits == 0 {
        Condition::Equal
    } else if bits == 1 {
        Condition::NEqual
    } else if bits == 2 {
        Condition::CarrySet
    } else if bits == 3 {
        Condition::CarryClear
    } else if bits == 4 {
        Condition::Minus
    } else if bits == 5 {
        Condition::Positive
    } else if bits == 6 {
        Condition::VSet
    } else if bits == 7 {
        Condition::VClear
    } else if bits == 8 {
        Condition::UHigh
    } else if bits == 9 {
        Condition::ULow
    } else if bits == 10 {
        Condition::GreaterEqual
    } else if bits == 11 {
        Condition::Less
    } else if bits == 12 {
        Condition::Greater
    } else if bits == 13 {
        Condition::LessEqual
    } else if bits == 14 {
        Condition::Always
    } else {
        Condition::AllSet
    }
}

/// The 4-bit field value that encodes a condition.
pub open spec fn condition_bits(c: Condition) -> u32 {
    match c {
        Condition::Equal => 0,
        Condition::NEqual => 1,
        Condition::CarrySet => 2,
        Condition::CarryClear => 3,
        Condition::Minus => 4,
        Condition::Positive => 5,
        Condition::VSet => 6,
        Condition::VClear => 7,
        Condition::UHigh => 8,
        Condition::ULow => 9,
        Condition::GreaterEqual => 10,
        Condition::Less => 11,
        Condition::Greater => 12,
        Condition::LessEqual => 13,
        Condition::Always => 14,
        Condition::AllSet => 15,
    }
}

/// Whether a word carries the branch identifier bits.
pub open spec fn branch_matches(w: u32) -> bool {
    w & BRANCH_IDENTIFIER == BRANCH_IDENTIFIER
}

/// The condition selected by a word's top four bits.
pub open spec fn spec_condition_of(w: u32) -> Condition {
    condition_from_bits(w >> 28)
}

/// Whether a word's link bit is set.
pub open spec fn spec_link_bit(w: u32) -> bool {
    w & BRANCH_LINK_BIT == BRANCH_LINK_BIT
}

/// The byte offset a branch word encodes: its low 24 bits, sign-extended at
/// bit 23 and converted from word granularity to bytes by multiplying by 4.
pub open spec fn spec_branch_offset(w: u32) -> i32 {
    let field = (w & BRANCH_OFFSET_MASK) as int;
    if field >= 0x0080_0000 {
        ((field - 0x0100_0000) * 4) as i32
    } else {
        (field * 4) as i32
    }
}

/// The byte offsets a branch can encode: multiples of 4 within the signed
/// 26-bit range.
pub open spec fn valid_branch_offset(offset: i32) -> bool {
    offset % 4 == 0 && -0x0200_0000 <= offset <= 0x01FF_FFFC
}

/// What decoding a 32-bit word as a branch yields.
pub open spec fn spec_decode_branch(w: u32) -> Option<Branch> {
    if branch_matches(w) {
        Some(
            Branch {
                condition: spec_condition_of(w),
                opcode: spec_link_bit(w),
                offset: spec_branch_offset(w),
            },
        )
    } else {
        None
    }
}

/// What decoding a 32-bit word yields: the branch family is the only one
/// modeled, so any other pattern is a miss.
pub open spec fn spec_decode_arm(w: u32) -> Option<Arm32> {
    match spec_decode_branch(w) {
        Some(b) => Some(Arm32::Branch(b)),
        None => None,
    }
}

/// The 24-bit field value that encodes a byte offset.
pub open spec fn spec_offset_field(offset: i32) -> int {
    (offset / 4) % 0x0100_0000
}

/// The word that encodes a branch with the given condition, link flag and
/// byte offset.
pub open spec fn spec_encode_branch(c: Condition, link: bool, offset: i32) -> u32 {
    (condition_bits(c) * 0x1000_0000 + BRANCH_IDENTIFIER + (if link {
        BRANCH_LINK_BIT as int
    } else {
        0
    }) + spec_offset_field(offset)) as u32
}

impl Condition {
    /// The condition selected by the word's top four bits.
    fn from_instruction(instruction: u32) -> (c: Condition)
        ensures
            c == spec_condition_of(instruction),
    {
        let bits = instruction >> 28;
        if bits == 0 {
            Condition::Equal
        } else if bits == 1 {
            Condition::NEqual
        } else if bits == 2 {
            Condition::CarrySet
        } else if bits == 3 {
            Condition::CarryClear
        } else if bits == 4 {
            Condition::Minus
        } else if bits == 5 {
            Condition::Positive
        } else if bits == 6 {
            Condition::VSet
        } else if bits == 7 {
            Condition::VClear
        } else if bits == 8 {
            Condition::UHigh
        } else if bits == 9 {
            Condition::ULow
        } else if bits == 10 {
            Condition::GreaterEqual
        } else if bits == 11 {
            Condition::Less
        } else if bits == 12 {
            Condition::Greater
        } else if bits == 13 {
            Condition::LessEqual
        } else if bits == 14 {
            Condition::Always
        } else {
            Condition::AllSet
        }
    }

    /// The 4-bit field value that encodes this condition.
    pub fn field_bits(&self) -> (v: u32)
        ensures
            v == condition_bits(*self),
    {
        match *self {
            Condition::Equal => 0,
            Condition::NEqual => 1,
            Condition::CarrySet => 2,
            Condition::CarryClear => 3,
            Condition::Minus => 4,
            Condition::Positive => 5,
            Condition::VSet => 6,
            Condition::VClear => 7,
            Condition::UHigh => 8,
            Condition::ULow => 9,
            Condition::GreaterEqual => 10,
            Condition::Less => 11,
            Condition::Greater => 12,
            Condition::LessEqual => 13,
            Condition::Always => 14,
            Condition::AllSet => 15,
        }
    }
}

impl Branch {
    /// Decodes a word of the branch family, or reports a miss when the word
    /// does not carry the branch identifier bits.
    fn from_instruction(instruction: u32) -> (r: Option<Branch>)
        ensures
            r == spec_decode_branch(instruction),
    {
        if instruction & BRANCH_IDENTIFIER == BRANCH_IDENTIFIER {
            let condition = Condition::from_instruction(instruction);
            let opcode = instruction & BRANCH_LINK_BIT == BRANCH_LINK_BIT;
            let field = instruction & BRANCH_OFFSET_MASK;
            proof {
                assert(field <= 0x00FF_FFFF) by (bit_vector)
                    requires
                        field == instruction & 0x00FF_FFFFu32,
                ;
            }
            let offset: i32 = if field >= 0x0080_0000 {
                (field as i32 - 0x0100_0000) * 4
            } else {
                (field as i32) * 4
            };
            Some(Branch { condition, opcode, offset })
        } else {
            None
        }
    }

    /// The 32-bit word this branch encodes to. Bit 26, which the identifier
    /// mask leaves unconstrained, comes out clear.
    pub fn to_instruction(&self) -> (w: u32)
        requires
            valid_branch_offset(self.offset),
        ensures
            w == spec_encode_branch(self.condition, self.opcode, self.offset),
    {
        let cond_bits = self.condition.field_bits();
        let link_bit: u32 = if self.opcode {
            BRANCH_LINK_BIT
        } else {
            0
        };
        let low24: u32 = if self.offset >= 0 {
            (self.offset as u32) / 4
        } else {
            let mag = (-self.offset) as u32;
            0x0100_0000u32 - mag / 4
        };
        proof {
            assert(cond_bits <= 15);
            assert(low24 as int == spec_offset_field(self.offset));
            assert((cond_bits << 28) | BRANCH_IDENTIFIER | link_bit | low24 == cond_bits
                * 0x1000_0000 + 0x0A00_0000 + link_bit + low24) by (bit_vector)
                requires
                    cond_bits <= 15,
                    link_bit == 0 || link_bit == 0x0100_0000u32,
                    low24 <= 0x00FF_FFFFu32,
            ;
        }
        (cond_bits << 28) | BRANCH_IDENTIFIER | link_bit | low24
    }
}

impl Arm32 {
    /// Decodes a 32-bit word, or reports a miss when no modeled family
    /// matches. The caller decides whether a miss is fatal.
    pub fn find_instruction(instruction: u32) -> (r: Option<Arm32>)
        ensures
            r == spec_decode_arm(instruction),
    {
        if let Some(branch) = Branch::from_instruction(instruction) {
            Some(Arm32::Branch(branch))
        } else {
            None
        }
    }
}

/// The offset any branch word decodes to is a multiple of 4 within the signed
/// 26-bit range.
pub proof fn lemma_decoded_offset_valid(w: u32)
    ensures
        (match spec_decode_branch(w) {
            Some(b) => valid_branch_offset(b.offset),
            None => true,
        }),
{
    let field = (w & BRANCH_OFFSET_MASK) as int;
    assert(w & 0x00FF_FFFFu32 <= 0x00FF_FFFF) by (bit_vector);
}

/// Decoding a branch word and re-encoding its condition, link and offset
/// fields reconstructs every bit the branch identifier pattern determines:
/// all of the original word except bit 26.
pub proof fn lemma_branch_encode_of_decode(w: u32)
    requires
        branch_matches(w),
    ensures
        (match spec_decode_branch(w) {
            Some(b) => spec_encode_branch(b.condition, b.opcode, b.offset) == w
                & BRANCH_RELEVANT_MASK,
            None => false,
        }),
{
    let b = spec_decode_branch(w).unwrap();
    let cond_bits = w >> 28;
    let field = (w & BRANCH_OFFSET_MASK) as int;
    let link_field: u32 = if b.opcode {
        BRANCH_LINK_BIT
    } else {
        0
    };
    assert(w >> 28 <= 15) by (bit_vector);
    assert(w & 0x00FF_FFFFu32 <= 0x00FF_FFFF) by (bit_vector);
    assert(condition_bits(b.condition) == cond_bits);
    assert(spec_offset_field(b.offset) == field);
    assert(link_field == w & 0x0100_0000u32) by (bit_vector)
        requires
            link_field == (if w & 0x0100_0000u32 == 0x0100_0000u32 {
                0x0100_0000u32
            } else {
                0u32
            }),
    ;
    assert((w >> 28) * 0x1000_0000 + 0x0A00_0000 + (w & 0x0100_0000u32) + (w & 0x00FF_FFFFu32) == w
        & 0xFBFF_FFFFu32) by (bit_vector)
        requires
            w & 0x0A00_0000u32 == 0x0A00_0000u32,
    ;
}

/// Decoding recovers the exact fields from a word assembled directly from
/// them - the condition in the top nibble, the identifier bits, the link
/// flag at its bit, and the byte offset divided down to a word-granularity
/// 24-bit field - for every condition, link flag, and byte offset that is a
/// multiple of 4 within the signed 26-bit range.
pub proof fn lemma_branch_decode_of_assembled_word(c: Condition, link: bool, offset: i32)
    requires
        valid_branch_offset(offset),
    ensures
        ({
            let w = (condition_bits(c) << 28) | BRANCH_IDENTIFIER | (if link {
                BRANCH_LINK_BIT
            } else {
                0u32
            }) | (((offset / 4) as u32) & BRANCH_OFFSET_MASK);
            spec_decode_branch(w) == Some(Branch { condition: c, opcode: link, offset })
        }),
{
    let x: u32 = (offset / 4) as u32;
    let low: u32 = x & BRANCH_OFFSET_MASK;
    if offset >= 0 {
        assert(x <= 0x007F_FFFF);
        assert(x & 0x00FF_FFFFu32 == x) by (bit_vector)
            requires
                x <= 0x007F_FFFFu32,
        ;
        assert(low as int == spec_offset_field(offset));
    } else {
        let qi: i32 = (offset / 4) as i32;
        let fv: u32 = ((offset / 4) + 0x0100_0000) as u32;
        assert(-0x0080_0000 <= qi < 0);
        assert(x == qi as u32);
        assert((qi as u32) & 0x00FF_FFFFu32 == fv) by (bit_vector)
            requires
                -0x0080_0000 <= qi < 0,
                fv == qi + 0x0100_0000,
        ;
        assert(low as int == spec_offset_field(offset));
    }
    let cv = condition_bits(c);
    let lf: u32 = if link {
        BRANCH_LINK_BIT
    } else {
        0
    };
    assert(cv <= 15);
    assert((cv << 28) | BRANCH_IDENTIFIER | lf | low == cv * 0x1000_0000 + 0x0A00_0000 + lf + low)
        by (bit_vector)
        requires
            cv <= 15,
            lf == 0 || lf == 0x0100_0000u32,
            low <= 0x00FF_FFFFu32,
    ;
    assert((cv << 28) | BRANCH_IDENTIFIER | lf | low == spec_encode_branch(c, link, offset));
    lemma_branch_decode_of_encode(c, link, offset);
}

/// Encoding a condition, link flag and byte offset that is a multiple of 4
/// within the signed 26-bit range, then decoding, yields exactly the original
/// fields; in particular the sign-extended offset round-trips.
pub proof fn lemma_branch_decode_of_encode(c: Condition, link: bool, offset: i32)
    requires
        valid_branch_offset(offset),
    ensures
        spec_decode_branch(spec_encode_branch(c, link, offset)) == Some(
            Branch { condition: c, opcode: link, offset },
        ),
{
    let cv = condition_bits(c);
    let lf: u32 = if link {
        BRANCH_LINK_BIT
    } else {
        0
    };
    let fld = spec_offset_field(offset);
    assert(cv <= 15);
    assert(0 <= fld < 0x0100_0000);
    let fld_bits = fld as u32;
    let w = spec_encode_branch(c, link, offset);
    assert(w == cv * 0x1000_0000 + 0x0A00_0000 + lf + fld_bits);
    assert(w & 0x0A00_0000u32 == 0x0A00_0000u32 && w >> 28 == cv && (w & 0x0100_0000u32
        == 0x0100_0000u32 <==> lf == 0x0100_0000u32) && w & 0x00FF_FFFFu32 == fld_bits) by (bit_vector)
        requires
            w == cv * 0x1000_0000 + 0x0A00_0000 + lf + fld_bits,
            cv <= 15,
            lf == 0 || lf == 0x0100_0000u32,
            fld_bits <= 0x00FF_FFFFu32,
    ;
    assert(condition_from_bits(cv) == c);
    assert(spec_branch_offset(w) == offset);
}

} // verus!
