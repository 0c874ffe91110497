//! The register bank: the general-purpose registers shared by every mode,
//! the per-mode banked copies of r13/r14 (and r8-r12 for fast interrupt),
//! the current status register with its condition flags and execution-state
//! bit, and one saved status register per privileged mode.

use vstd::prelude::*;

use crate::instruction_sets::Condition;

verus! {

/// The status-register bit that selects the compact instruction set.
pub const THUMB_STATE_BIT: u32 = 0x0000_0020;

/// The status-register bit holding the negative flag.
pub const NEGATIVE_BIT: u32 = 0x8000_0000;

/// The status-register bit holding the zero flag.
pub const ZERO_BIT: u32 = 0x4000_0000;

/// The status-register bit holding the carry flag.
pub const CARRY_BIT: u32 = 0x2000_0000;

/// The status-register bit holding the overflow flag.
pub const OVERFLOW_BIT: u32 = 0x1000_0000;

/// All general-purpose and mode-banked registers, the current status
/// register, and the saved status registers of the privileged modes.
#[derive(Copy, Clone, Debug, PartialEq, Eq, Structural)]
pub struct RegisterSet {
    pub r0: u32,
    pub r1: u32,
    pub r2: u32,
    pub r3: u32,
    pub r4: u32,
    pub r5: u32,
    pub r6: u32,
    pub r7: u32,
    pub r8: u32,
    pub r9: u32,
    pub r10: u32,
    pub r11: u32,
    pub r12: u32,
    /// Register 13 also serves as the stack pointer.
    pub r13: u32,
    /// Register 14 is the link register.
    pub r14: u32,
    /// Register 15 is the program counter.
    pub r15: u32,
    // Fast-interrupt banked registers.
    pub r8_fiq: u32,
    pub r9_fiq: u32,
    pub r10_fiq: u32,
    pub r11_fiq: u32,
    pub r12_fiq: u32,
    pub r13_fiq: u32,
    pub r14_fiq: u32,
    // Supervisor banked registers.
    pub r13_scv: u32,
    pub r14_scv: u32,
    // Abort banked registers.
    pub r13_abt: u32,
    pub r14_abt: u32,
    // Interrupt banked registers.
    pub r13_irq: u32,
    pub r14_irq: u32,
    // Undefined banked registers.
    pub r13_und: u32,
    pub r14_und: u32,
    /// The current program status register.
    pub cpsr: u32,
    // Saved program status registers, one per privileged mode.
    pub spsr_fiq: u32,
    pub spsr_svc: u32,
    pub spsr_abt: u32,
    pub spsr_irq: u32,
    pub spsr_und: u32,
}

/// The documented truth table of the sixteen conditions over the four
/// status flags.
pub open spec fn condition_passes(c: Condition, n: bool, z: bool, carry: bool, v: bool) -> bool {
    match c {
        Condition::Equal => z,
        Condition::NEqual => !z,
        Condition::CarrySet => carry,
        Condition::CarryClear => !carry,
        Condition::Minus => n,
        Condition::Positive => !n,
        Condition::VSet => v,
        Condition::VClear => !v,
        Condition::UHigh => carry && !z,
        Condition::ULow => !carry || z,
        Condition::GreaterEqual => n == v,
        Condition::Less => n != v,
        Condition::Greater => !z && (n == v),
        Condition::LessEqual => z || (n != v),
        Condition::Always => true,
        Condition::AllSet => false,
    }
}

impl RegisterSet {
    /// The negative flag of the current status register.
    pub open spec fn flag_n(self) -> bool {
        self.cpsr & NEGATIVE_BIT == NEGATIVE_BIT
    }

    /// The zero flag of the current status register.
    pub open spec fn flag_z(self) -> bool {
        self.cpsr & ZERO_BIT == ZERO_BIT
    }

    /// The carry flag of the current status register.
    pub open spec fn flag_c(self) -> bool {
        self.cpsr & CARRY_BIT == CARRY_BIT
    }

    /// The overflow flag of the current status register.
    pub open spec fn flag_v(self) -> bool {
        self.cpsr & OVERFLOW_BIT == OVERFLOW_BIT
    }

    /// The execution-state bit: set when the compact instruction set is
    /// active.
    pub open spec fn thumb_state(self) -> bool {
        self.cpsr & THUMB_STATE_BIT == THUMB_STATE_BIT
    }

    /// Whether this register file's flags satisfy a condition.
    pub open spec fn passes(self, c: Condition) -> bool {
        condition_passes(c, self.flag_n(), self.flag_z(), self.flag_c(), self.flag_v())
    }

    /// The register file with every register cleared.
    pub open spec fn cleared() -> RegisterSet {
        RegisterSet {
            r0: 0,
            r1: 0,
            r2: 0,
            r3: 0,
            r4: 0,
            r5: 0,
            r6: 0,
            r7: 0,
            r8: 0,
            r9: 0,
            r10: 0,
            r11: 0,
            r12: 0,
            r13: 0,
            r14: 0,
            r15: 0,
            r8_fiq: 0,
            r9_fiq: 0,
            r10_fiq: 0,
            r11_fiq: 0,
            r12_fiq: 0,
            r13_fiq: 0,
            r14_fiq: 0,
            r13_scv: 0,
            r14_scv: 0,
            r13_abt: 0,
            r14_abt: 0,
            r13_irq: 0,
            r14_irq: 0,
            r13_und: 0,
            r14_und: 0,
            cpsr: 0,
            spsr_fiq: 0,
            spsr_svc: 0,
            spsr_abt: 0,
            spsr_irq: 0,
            spsr_und: 0,
        }
    }
}

/// The two register files agree on every field except the current status
/// register.
pub open spec fn eq_except_cpsr(a: RegisterSet, b: RegisterSet) -> bool {
    &&& a.r0 == b.r0
    &&& a.r1 == b.r1
    &&& a.r2 == b.r2
    &&& a.r3 == b.r3
    &&& a.r4 == b.r4
    &&& a.r5 == b.r5
    &&& a.r6 == b.r6
    &&& a.r7 == b.r7
    &&& a.r8 == b.r8
    &&& a.r9 == b.r9
    &&& a.r10 == b.r10
    &&& a.r11 == b.r11
    &&& a.r12 == b.r12
    &&& a.r13 == b.r13
    &&& a.r14 == b.r14
    &&& a.r15 == b.r15
    &&& a.r8_fiq == b.r8_fiq
    &&& a.r9_fiq == b.r9_fiq
    &&& a.r10_fiq == b.r10_fiq
    &&& a.r11_fiq == b.r11_fiq
    &&& a.r12_fiq == b.r12_fiq
    &&& a.r13_fiq == b.r13_fiq
    &&& a.r14_fiq == b.r14_fiq
    &&& a.r13_scv == b.r13_scv
    &&& a.r14_scv == b.r14_scv
    &&& a.r13_abt == b.r13_abt
    &&& a.r14_abt == b.r14_abt
    &&& a.r13_irq == b.r13_irq
    &&& a.r14_irq == b.r14_irq
    &&& a.r13_und == b.r13_und
    &&& a.r14_und == b.r14_und
    &&& a.spsr_fiq == b.spsr_fiq
    &&& a.spsr_svc == b.spsr_svc
    &&& a.spsr_abt == b.spsr_abt
    &&& a.spsr_irq == b.spsr_irq
    &&& a.spsr_und == b.spsr_und
}

impl Default for RegisterSet {
    /// The reset register file: every register cleared, so the processor
    /// starts at address zero, in the 32-bit set, with all flags clear.
    fn default() -> (r: RegisterSet)
        ensures
            r == RegisterSet::cleared(),
    {
        RegisterSet {
            r0: 0,
            r1: 0,
            r2: 0,
            r3: 0,
            r4: 0,
            r5: 0,
            r6: 0,
            r7: 0,
            r8: 0,
            r9: 0,
            r10: 0,
            r11: 0,
            r12: 0,
            r13: 0,
            r14: 0,
            r15: 0,
            r8_fiq: 0,
            r9_fiq: 0,
            r10_fiq: 0,
            r11_fiq: 0,
            r12_fiq: 0,
            r13_fiq: 0,
            r14_fiq: 0,
            r13_scv: 0,
            r14_scv: 0,
            r13_abt: 0,
            r14_abt: 0,
            r13_irq: 0,
            r14_irq: 0,
            r13_und: 0,
            r14_und: 0,
            cpsr: 0,
            spsr_fiq: 0,
            spsr_svc: 0,
            spsr_abt: 0,
            spsr_irq: 0,
            spsr_und: 0,
        }
    }
}

impl RegisterSet {
    /// Evaluates a condition against the current status register's flags,
    /// following the documented truth table exactly.
    pub fn does_condition_pass(&self, condition: Condition) -> (b: bool)
        ensures
            b == self.passes(condition),
    {
        proof {
            let x = self.cpsr;
            assert(((x & 0x4000_0000u32 == 0) <==> !(x & 0x4000_0000u32 == 0x4000_0000u32))
                && ((x & 0x2000_0000u32 == 0) <==> !(x & 0x2000_0000u32 == 0x2000_0000u32)) && ((x
                & 0x8000_0000u32 == 0) <==> !(x & 0x8000_0000u32 == 0x8000_0000u32)) && ((x
                & 0x1000_0000u32 == 0) <==> !(x & 0x1000_0000u32 == 0x1000_0000u32)) && (((x
                & 0x8000_0000u32) >> 3 == x & 0x1000_0000u32) <==> ((x & 0x8000_0000u32
                == 0x8000_0000u32) == (x & 0x1000_0000u32 == 0x1000_0000u32)))) by (bit_vector);
        }
        match condition {
            Condition::Equal => self.cpsr & ZERO_BIT == ZERO_BIT,
            Condition::NEqual => self.cpsr & ZERO_BIT == 0,
            Condition::CarrySet => self.cpsr & CARRY_BIT == CARRY_BIT,
            Condition::CarryClear => self.cpsr & CARRY_BIT == 0,
            Condition::Minus => self.cpsr & NEGATIVE_BIT == NEGATIVE_BIT,
            Condition::Positive => self.cpsr & NEGATIVE_BIT == 0,
            Condition::VSet => self.cpsr & OVERFLOW_BIT == OVERFLOW_BIT,
            Condition::VClear => self.cpsr & OVERFLOW_BIT == 0,
            Condition::UHigh => self.cpsr & CARRY_BIT == CARRY_BIT && self.cpsr & ZERO_BIT == 0,
            Condition::ULow => self.cpsr & CARRY_BIT == 0 || self.cpsr & ZERO_BIT == ZERO_BIT,
            Condition::GreaterEqual => ((self.cpsr & NEGATIVE_BIT) >> 3) == (self.cpsr
                & OVERFLOW_BIT),
            Condition::Less => ((self.cpsr & NEGATIVE_BIT) >> 3) != (self.cpsr & OVERFLOW_BIT),
            Condition::Greater => self.cpsr & ZERO_BIT == 0 && ((self.cpsr & NEGATIVE_BIT) >> 3)
                == (self.cpsr & OVERFLOW_BIT),
            Condition::LessEqual => self.cpsr & ZERO_BIT == ZERO_BIT || ((self.cpsr & NEGATIVE_BIT)
                >> 3) != (self.cpsr & OVERFLOW_BIT),
            Condition::Always => true,
            Condition::AllSet => false,
        }
    }

    /// Reads the execution-state bit.
    pub fn get_thumb_state(&self) -> (b: bool)
        ensures
            b == self.thumb_state(),
    {
        self.cpsr & THUMB_STATE_BIT == THUMB_STATE_BIT
    }

    /// Writes the execution-state bit, leaving every other register and every
    /// other status bit - the condition flags included - unchanged.
    pub fn set_thumb_state(&mut self, state: bool)
        ensures
            final(self).thumb_state() == state,
            final(self).cpsr == (if state {
                old(self).cpsr | THUMB_STATE_BIT
            } else {
                old(self).cpsr & !THUMB_STATE_BIT
            }),
            final(self).flag_n() == old(self).flag_n(),
            final(self).flag_z() == old(self).flag_z(),
            final(self).flag_c() == old(self).flag_c(),
            final(self).flag_v() == old(self).flag_v(),
            eq_except_cpsr(*final(self), *old(self)),
    {
        proof {
            let x = self.cpsr;
            assert(((x | 0x20u32) & 0x20u32 == 0x20u32) && ((x & !0x20u32) & 0x20u32 == 0) && ((x
                | 0x20u32) & 0x8000_0000u32 == x & 0x8000_0000u32) && ((x & !0x20u32)
                & 0x8000_0000u32 == x & 0x8000_0000u32) && ((x | 0x20u32) & 0x4000_0000u32 == x
                & 0x4000_0000u32) && ((x & !0x20u32) & 0x4000_0000u32 == x & 0x4000_0000u32) && ((x
                | 0x20u32) & 0x2000_0000u32 == x & 0x2000_0000u32) && ((x & !0x20u32)
                & 0x2000_0000u32 == x & 0x2000_0000u32) && ((x | 0x20u32) & 0x1000_0000u32 == x
                & 0x1000_0000u32) && ((x & !0x20u32) & 0x1000_0000u32 == x & 0x1000_0000u32))
                by (bit_vector);
        }
        if state {
            self.cpsr = self.cpsr | THUMB_STATE_BIT;
        } else {
            self.cpsr = self.cpsr & !THUMB_STATE_BIT;
        }
    }

    /// Writes the four condition flags, leaving every other register and
    /// every other status bit - the execution-state bit included - unchanged.
    pub fn set_condition_flags(&mut self, n: bool, z: bool, carry: bool, v: bool)
        ensures
            final(self).flag_n() == n,
            final(self).flag_z() == z,
            final(self).flag_c() == carry,
            final(self).flag_v() == v,
            final(self).thumb_state() == old(self).thumb_state(),
            eq_except_cpsr(*final(self), *old(self)),
    {
        let mut cpsr = self.cpsr & !(NEGATIVE_BIT | ZERO_BIT | CARRY_BIT | OVERFLOW_BIT);
        if n {
            cpsr = cpsr | NEGATIVE_BIT;
        }
        if z {
            cpsr = cpsr | ZERO_BIT;
        }
        if carry {
            cpsr = cpsr | CARRY_BIT;
        }
        if v {
            cpsr = cpsr | OVERFLOW_BIT;
        }
        proof {
            let x = self.cpsr;
            let y = cpsr;
            assert((y & 0x8000_0000u32 == 0x8000_0000u32 <==> n) && (y & 0x4000_0000u32
                == 0x4000_0000u32 <==> z) && (y & 0x2000_0000u32 == 0x2000_0000u32 <==> carry) && (y
                & 0x1000_0000u32 == 0x1000_0000u32 <==> v) && (y & 0x20u32 == x & 0x20u32))
                by (bit_vector)
                requires
                    y == ({
                        let base = x & !(0x8000_0000u32 | 0x4000_0000u32 | 0x2000_0000u32
                            | 0x1000_0000u32);
                        let w1 = if n {
                            base | 0x8000_0000u32
                        } else {
                            base
                        };
                        let w2 = if z {
                            w1 | 0x4000_0000u32
                        } else {
                            w1
                        };
                        let w3 = if carry {
                            w2 | 0x2000_0000u32
                        } else {
                            w2
                        };
                        if v {
                            w3 | 0x1000_0000u32
                        } else {
                            w3
                        }
                    }),
            ;
        }
        self.cpsr = cpsr;
    }
}

/// The paired conditions are logical complements of each other for every
/// combination of the four flags: equal/not-equal, carry-set/carry-clear,
/// negative/positive, overflow-set/overflow-clear, unsigned-higher/
/// unsigned-lower-or-same, signed-greater-or-equal/signed-less,
/// signed-greater/signed-less-or-equal, and always/never.
pub proof fn lemma_condition_complements(n: bool, z: bool, carry: bool, v: bool)
    ensures
        condition_passes(Condition::Equal, n, z, carry, v) == !condition_passes(
            Condition::NEqual,
            n,
            z,
            carry,
            v,
        ),
        condition_passes(Condition::CarrySet, n, z, carry, v) == !condition_passes(
            Condition::CarryClear,
            n,
            z,
            carry,
            v,
        ),
        condition_passes(Condition::Minus, n, z, carry, v) == !condition_passes(
            Condition::Positive,
            n,
            z,
            carry,
            v,
        ),
        condition_passes(Condition::VSet, n, z, carry, v) == !condition_passes(
            Condition::VClear,
            n,
            z,
            carry,
            v,
        ),
        condition_passes(Condition::UHigh, n, z, carry, v) == !condition_passes(
            Condition::ULow,
            n,
            z,
            carry,
            v,
        ),
        condition_passes(Condition::GreaterEqual, n, z, carry, v) == !condition_passes(
            Condition::Less,
            n,
            z,
            carry,
            v,
        ),
        condition_passes(Condition::Greater, n, z, carry, v) == !condition_passes(
            Condition::LessEqual,
            n,
            z,
            carry,
            v,
        ),
        condition_passes(Condition::Always, n, z, carry, v) == !condition_passes(
            Condition::AllSet,
            n,
            z,
            carry,
            v,
        ),
{
}

} // verus!
