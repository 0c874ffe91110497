//! The CPU: its register bank, the instruction fetcher with its one-word
//! cache, and the one-stage-lookahead fetch/decode/execute pipeline. The
//! instruction executed in a tick is always the one decoded in the preceding
//! step, and the program counter runs ahead of the instruction being
//! executed.

use vstd::prelude::*;

pub mod register;

use crate::EmulatorCoreError;
use crate::EmulatorCoreResult;
use crate::cpu::register::RegisterSet;
use crate::cpu::register::THUMB_STATE_BIT;
use crate::gba_memory::AccessWidth;
use crate::gba_memory::GBAMemory;
use crate::gba_memory::is_gba_map;
use crate::gba_memory::lemma_gba_addr_costed;
use crate::gba_memory::spec_cycles;
use crate::instruction_sets::Arm32;
use crate::instruction_sets::Branch;
use crate::instruction_sets::Condition;
use crate::instruction_sets::Thumb32;
use crate::instruction_sets::arm32::lemma_decoded_offset_valid;
use crate::instruction_sets::arm32::spec_decode_arm;
use crate::instruction_sets::arm32::valid_branch_offset;
use crate::instruction_sets::thumb32::spec_decode_thumb;
use crate::memory::BusModel;
use crate::memory::Memory;
use crate::memory::MemoryError;
use crate::memory::MemoryResult;
use crate::memory::bus_wf;
use crate::memory::has_region;
use crate::memory::region_contains;
use crate::memory::region_contains_span;
use crate::memory::region_index;
use crate::memory::spec_read;

verus! {

/// Why the decoded-instruction slot can be empty.
#[derive(Copy, Clone, Debug, PartialEq, Eq, Structural)]
pub enum EmptyReason {
    /// The slot has not held an instruction since the processor was built.
    Init,
    /// The previous instruction was moved out for execution.
    Taken,
    /// The fetched word matched no pattern of the 32-bit set.
    UnknownArm(u32),
    /// The fetched half-word matched no pattern of the compact set.
    UnknownThumb(u16),
}

/// The decoded-instruction slot: an instruction of either set, or an
/// explicit empty state. Take-and-replace semantics keep an instruction from
/// being executed twice.
#[derive(Copy, Clone, Debug, PartialEq, Eq, Structural)]
pub enum CpuInstruction {
    Arm(Arm32),
    Thumb(Thumb32),
    Empty(EmptyReason),
}

impl CpuInstruction {
    /// Moves the slot's value out, leaving the taken placeholder behind in
    /// the same step, so a stale instruction is never re-executable.
    pub fn take(&mut self) -> (r: CpuInstruction)
        ensures
            r == *old(self),
            *final(self) == CpuInstruction::Empty(EmptyReason::Taken),
    {
        let r = *self;
        *self = CpuInstruction::Empty(EmptyReason::Taken);
        r
    }
}

/// Caches the most recently fetched aligned word, so that the compact set -
/// which needs only a half-word per step - can be served from the same
/// 4-byte fetch without re-reading the bus.
pub struct InstructionFetcher {
    /// The aligned address the cached word was fetched from.
    pub address_of_bytes: usize,
    /// The four cached bytes.
    pub bytes: Vec<u8>,
}

/// The fetch cache holds exactly one word, at an address whose word fits the
/// machine's address range.
pub open spec fn fetcher_wf(f: InstructionFetcher) -> bool {
    f.bytes@.len() == 4 && f.address_of_bytes + 3 <= usize::MAX
}

impl Default for InstructionFetcher {
    /// An empty cache: based at address zero, holding four zero bytes.
    fn default() -> (f: InstructionFetcher)
        ensures
            f.address_of_bytes == 0,
            f.bytes@ == seq![0u8, 0u8, 0u8, 0u8],
            fetcher_wf(f),
    {
        let mut bytes: Vec<u8> = Vec::new();
        bytes.push(0u8);
        bytes.push(0u8);
        bytes.push(0u8);
        bytes.push(0u8);
        proof {
            assert(bytes@ =~= seq![0u8, 0u8, 0u8, 0u8]);
        }
        InstructionFetcher { address_of_bytes: 0, bytes }
    }
}

/// The pipeline state the contracts speak of: the register file, the fetch
/// cache, and the decoded-instruction slot.
pub ghost struct CpuState {
    pub regs: RegisterSet,
    pub base: int,
    pub cache: Seq<u8>,
    pub decoded: CpuInstruction,
}

/// The pipeline state right after construction: cleared registers, an empty
/// cache at address zero, and the initialization placeholder in the slot.
pub open spec fn initial_cpu_state() -> CpuState {
    CpuState {
        regs: RegisterSet::cleared(),
        base: 0,
        cache: seq![0u8, 0u8, 0u8, 0u8],
        decoded: CpuInstruction::Empty(EmptyReason::Init),
    }
}

/// The little-endian half-word held by two bytes.
pub open spec fn half_of_le(b0: u8, b1: u8) -> u16 {
    (b0 + b1 * 0x100) as u16
}

/// The little-endian 32-bit word held by four bytes.
pub open spec fn word_of_le(b: Seq<u8>) -> u32 {
    (b[0] + b[1] * 0x100 + b[2] * 0x1_0000 + b[3] * 0x100_0000) as u32
}

/// The instruction the decode stage yields from the cached word: in compact
/// mode the low or high half-word, selected by whether the program counter
/// equals the cached word's base address; otherwise the full word. A miss
/// keeps the raw bits for the diagnostic.
pub open spec fn spec_decoded(base: int, cache: Seq<u8>, pc: int, thumb: bool) -> CpuInstruction {
    if thumb {
        let half = if pc == base {
            half_of_le(cache[0], cache[1])
        } else {
            half_of_le(cache[2], cache[3])
        };
        match spec_decode_thumb(half) {
            Some(t) => CpuInstruction::Thumb(t),
            None => CpuInstruction::Empty(EmptyReason::UnknownThumb(half)),
        }
    } else {
        let w = word_of_le(cache);
        match spec_decode_arm(w) {
            Some(a) => CpuInstruction::Arm(a),
            None => CpuInstruction::Empty(EmptyReason::UnknownArm(w)),
        }
    }
}

/// Whether a fetch at `address` in the given execution state is served from
/// the cached word without touching the bus.
pub open spec fn fetch_hits_cache(base: int, address: int, thumb: bool) -> bool {
    thumb && base <= address < base + 4
}

/// What one fetch at `address` does to the cache: a compact-mode request
/// inside the cached word is served from the cache; otherwise the address is
/// aligned down to a word boundary and four bytes are read from the bus,
/// replacing the cache on success and leaving it untouched on failure.
pub open spec fn cache_after_fetch(
    base: int,
    cache: Seq<u8>,
    m: BusModel,
    address: int,
    thumb: bool,
) -> Result<(int, Seq<u8>), MemoryError> {
    if fetch_hits_cache(base, address, thumb) {
        Ok((base, cache))
    } else {
        let aligned = address - address % 4;
        match spec_read(m.regions, m.context, aligned, 4) {
            Ok(w) => Ok((aligned, w)),
            Err(e) => Err(e),
        }
    }
}

/// The state with the program counter advanced by four, wrapping.
pub open spec fn advance_pc(s: CpuState) -> CpuState {
    CpuState { regs: RegisterSet { r15: s.regs.r15.wrapping_add(4), ..s.regs }, ..s }
}

/// One fetch step at the program counter: on success the counter advances by
/// four (wrapping) and the cache holds the word containing it; on a bus
/// failure nothing changes and the failure is reported.
pub open spec fn fetch_step(s: CpuState, m: BusModel) -> (CpuState, Result<(), MemoryError>) {
    match cache_after_fetch(s.base, s.cache, m, s.regs.r15 as int, s.regs.thumb_state()) {
        Ok(bw) => (CpuState { base: bw.0, cache: bw.1, ..advance_pc(s) }, Ok(())),
        Err(e) => (s, Err(e)),
    }
}

/// The cycles one fetch step reports: the 32-bit-width bus cost of the
/// counter's address, charged on every fetch step whether or not the bus was
/// touched, to model the pipeline's bus-bandwidth accounting.
pub open spec fn fetch_cost(s: CpuState) -> int {
    spec_cycles(s.regs.r15 as int, AccessWidth::Bit32)
}

/// The effect of one branch instruction on a state whose slot has already
/// been emptied. Under the reserved all-set condition it is the
/// link-and-exchange form: switch to the compact set, link, displace, and
/// select the other half-word when the flag asks for it. Under a passing
/// condition: link when the flag is set, then displace. Either taken path
/// performs one extra fetch step and reports one intrinsic cycle plus that
/// fetch's cost; a failed condition reports the intrinsic cycle alone.
pub open spec fn branch_step(s: CpuState, m: BusModel, b: Branch) -> (
    CpuState,
    Result<int, MemoryError>,
) {
    if b.condition == Condition::AllSet {
        let displaced = s.regs.r15.wrapping_add_signed(b.offset);
        let target = if b.opcode {
            displaced.wrapping_add(2)
        } else {
            displaced
        };
        let s1 = CpuState {
            regs: RegisterSet {
                cpsr: s.regs.cpsr | THUMB_STATE_BIT,
                r14: s.regs.r15,
                r15: target,
                ..s.regs
            },
            ..s
        };
        let sr = fetch_step(s1, m);
        match sr.1 {
            Ok(u) => (sr.0, Ok(1 + fetch_cost(s1))),
            Err(e) => (sr.0, Err(e)),
        }
    } else if s.regs.passes(b.condition) {
        let linked = if b.opcode {
            RegisterSet { r14: s.regs.r15, ..s.regs }
        } else {
            s.regs
        };
        let s1 = CpuState {
            regs: RegisterSet { r15: s.regs.r15.wrapping_add_signed(b.offset), ..linked },
            ..s
        };
        let sr = fetch_step(s1, m);
        match sr.1 {
            Ok(u) => (sr.0, Ok(1 + fetch_cost(s1))),
            Err(e) => (sr.0, Err(e)),
        }
    } else {
        (s, Ok(1))
    }
}

/// A branch whose condition fails consumes exactly one cycle and has no
/// other effect: no register or status bit moves, no extra fetch occurs,
/// and the counter stays where the fetch step before the execute stage left
/// it. (No branch path writes memory.)
pub proof fn lemma_failed_branch_is_one_idle_cycle(s: CpuState, m: BusModel, b: Branch)
    requires
        b.condition != Condition::AllSet,
        !s.regs.passes(b.condition),
    ensures
        branch_step(s, m, b) == (s, Ok::<int, MemoryError>(1)),
{
}

/// A taken branch with the link flag set leaves in the link register the
/// counter's value from immediately before it executed; when its own fetch
/// step succeeds, the counter ends at that value plus the displacement plus
/// four from the fetch, so a displacement of minus four nets to zero and
/// returns the counter exactly to where it was - the sign handling is
/// exact. The reported cost is one intrinsic cycle plus that fetch's, and
/// the status register is untouched.
pub proof fn lemma_taken_link_branch(s: CpuState, m: BusModel, b: Branch)
    requires
        b.condition != Condition::AllSet,
        s.regs.passes(b.condition),
        b.opcode,
        branch_step(s, m, b).1 is Ok,
    ensures
        ({
            let sr = branch_step(s, m, b);
            let target = s.regs.r15.wrapping_add_signed(b.offset);
            &&& sr.0.regs.r14 == s.regs.r15
            &&& sr.0.regs.r15 == target.wrapping_add(4)
            &&& sr.1 == Ok::<int, MemoryError>(1 + spec_cycles(target as int, AccessWidth::Bit32))
            &&& sr.0.regs.cpsr == s.regs.cpsr
            &&& (b.offset == -4 ==> sr.0.regs.r15 == s.regs.r15)
        }),
{
    let target = s.regs.r15.wrapping_add_signed(b.offset);
    if b.offset == -4 {
        assert(target.wrapping_add(4) == s.regs.r15);
    }
}

/// The execute stage: takes the decoded instruction, leaving the taken
/// placeholder, and applies its effects. An empty slot - as right after
/// construction - executes as a no-op, and so does a compact-set
/// instruction, none of whose families are modeled.
pub open spec fn execute_step(s: CpuState, m: BusModel) -> (CpuState, Result<int, MemoryError>) {
    let s0 = CpuState { decoded: CpuInstruction::Empty(EmptyReason::Taken), ..s };
    match s.decoded {
        CpuInstruction::Arm(Arm32::Branch(b)) => branch_step(s0, m, b),
        CpuInstruction::Thumb(t) => (s0, Ok(0)),
        CpuInstruction::Empty(reason) => (s0, Ok(0)),
    }
}

/// The decode stage: fills the slot from the cached word at the current
/// counter.
pub open spec fn decode_step(s: CpuState) -> CpuState {
    CpuState {
        decoded: spec_decoded(s.base, s.cache, s.regs.r15 as int, s.regs.thumb_state()),
        ..s
    }
}

/// Whether the decode stage misses on this state: the counter points at data
/// neither decoder recognizes.
pub open spec fn decode_misses(s: CpuState) -> bool {
    spec_decoded(s.base, s.cache, s.regs.r15 as int, s.regs.thumb_state()) is Empty
}

/// The diagnostic a decode miss carries: the counter's value, the raw bits,
/// and which decoder missed.
pub open spec fn decode_miss_error(s: CpuState) -> EmulatorCoreError {
    match spec_decoded(s.base, s.cache, s.regs.r15 as int, s.regs.thumb_state()) {
        CpuInstruction::Empty(EmptyReason::UnknownArm(w)) => EmulatorCoreError::DecodeMiss {
            address: s.regs.r15,
            bits: w,
            thumb: false,
        },
        CpuInstruction::Empty(EmptyReason::UnknownThumb(h)) => EmulatorCoreError::DecodeMiss {
            address: s.regs.r15,
            bits: h as u32,
            thumb: true,
        },
        _ => arbitrary(),
    }
}

/// One full pipeline tick: execute the previously decoded instruction,
/// decode the instruction the just-advanced counter points at, and fetch the
/// word after that. A bus failure or a decode miss ends the tick where it
/// stands, with the effects so far in place.
pub open spec fn tick_step(s: CpuState, m: BusModel) -> (CpuState, Result<int, EmulatorCoreError>) {
    let er = execute_step(s, m);
    match er.1 {
        Err(e) => (er.0, Err(EmulatorCoreError::MemoryError(e))),
        Ok(c1) => {
            let s2 = decode_step(er.0);
            if decode_misses(er.0) {
                (s2, Err(decode_miss_error(er.0)))
            } else {
                let fr = fetch_step(s2, m);
                match fr.1 {
                    Ok(u) => (fr.0, Ok(c1 + fetch_cost(s2))),
                    Err(e) => (fr.0, Err(EmulatorCoreError::MemoryError(e))),
                }
            }
        },
    }
}

/// A slot value the pipeline can hold: any decoded branch carries an offset
/// the encoding can produce.
pub open spec fn instruction_ok(d: CpuInstruction) -> bool {
    match d {
        CpuInstruction::Arm(Arm32::Branch(b)) => valid_branch_offset(b.offset),
        _ => true,
    }
}

/// Every address of the word based at `base` lies in a range the cycle
/// table charges at least one cycle for.
pub open spec fn cache_costed(base: int) -> bool {
    forall|a: int| base <= a < base + 4 ==> spec_cycles(a, AccessWidth::Bit32) >= 1
}

/// The instruction the decode stage yields is one the pipeline can hold.
proof fn lemma_spec_decoded_ok(base: int, cache: Seq<u8>, pc: int, thumb: bool)
    ensures
        instruction_ok(spec_decoded(base, cache, pc, thumb)),
{
    if !thumb {
        lemma_decoded_offset_valid(word_of_le(cache));
    }
}

/// On the console's map, a fetch that succeeds charges at least one cycle,
/// and leaves the cache at a word every byte of which is charged for.
proof fn lemma_fetch_ok_facts(
    m: BusModel,
    base_old: int,
    cache_old: Seq<u8>,
    address: int,
    thumb: bool,
)
    requires
        is_gba_map(m),
        cache_costed(base_old),
        0 <= address,
        cache_after_fetch(base_old, cache_old, m, address, thumb) is Ok,
    ensures
        spec_cycles(address, AccessWidth::Bit32) >= 1,
        cache_costed(cache_after_fetch(base_old, cache_old, m, address, thumb).unwrap().0),
{
    if fetch_hits_cache(base_old, address, thumb) {
        assert(spec_cycles(address, AccessWidth::Bit32) >= 1);
    } else {
        let aligned = address - address % 4;
        assert(0 <= address % 4 < 4);
        assert(aligned <= address < aligned + 4);
        let i = region_index(m.regions, aligned);
        assert(region_contains(m.regions[i], aligned));
        assert(region_contains_span(m.regions[i], aligned, 4));
        assert forall|a: int| aligned <= a < aligned + 4 implies spec_cycles(
            a,
            AccessWidth::Bit32,
        ) >= 1 by {
            assert(region_contains(m.regions[i], a));
            assert(has_region(m.regions, a));
            lemma_gba_addr_costed(m, a, AccessWidth::Bit32);
        }
    }
}

impl InstructionFetcher {
    /// One fetch step for `address`: in compact mode a request inside the
    /// cached word is served from the cache; otherwise the address is
    /// aligned down to a word boundary and four bytes are read from the bus,
    /// updating the cache on success and leaving it untouched on failure.
    pub fn read_next_instruction(&mut self, memory: &Memory, address: usize, is_thumb: bool) -> (r:
        MemoryResult<()>)
        requires
            bus_wf(memory@.regions),
            fetcher_wf(*old(self)),
        ensures
            fetcher_wf(*final(self)),
            (match cache_after_fetch(
                old(self).address_of_bytes as int,
                old(self).bytes@,
                memory@,
                address as int,
                is_thumb,
            ) {
                Ok(bw) => r == Ok::<(), MemoryError>(()) && final(self).address_of_bytes == bw.0
                    && final(self).bytes@ == bw.1,
                Err(e) => r == Err::<(), MemoryError>(e) && final(self).address_of_bytes == old(
                    self,
                ).address_of_bytes && final(self).bytes@ == old(self).bytes@,
            }),
    {
        if is_thumb && address >= self.address_of_bytes && address - self.address_of_bytes < 4 {
            // The requested half-word lies inside the cached word.
            return Ok(());
        }
        // Align the address to the word at or behind it.
        let aligned = address - address % 4;
        match memory.read(aligned, &mut self.bytes) {
            Ok(u) => {
                self.address_of_bytes = aligned;
                proof {
                    let i = region_index(memory@.regions, aligned as int);
                    assert(region_contains_span(memory@.regions[i], aligned as int, 4));
                }
                Ok(())
            },
            Err(e) => Err(e),
        }
    }

    /// The decode stage applied to the cached word: a pure bit-to-structure
    /// mapping, with the counter and execution state selecting which
    /// half-word the compact decoder sees.
    pub fn decode(&self, address: usize, is_thumb: bool) -> (r: CpuInstruction)
        requires
            fetcher_wf(*self),
        ensures
            r == spec_decoded(self.address_of_bytes as int, self.bytes@, address as int, is_thumb),
    {
        if is_thumb {
            let half: u16 = if address == self.address_of_bytes {
                (self.bytes[0] as u16) + (self.bytes[1] as u16) * 0x100
            } else {
                (self.bytes[2] as u16) + (self.bytes[3] as u16) * 0x100
            };
            match Thumb32::find_instruction(half) {
                Some(thumb_instruction) => CpuInstruction::Thumb(thumb_instruction),
                None => CpuInstruction::Empty(EmptyReason::UnknownThumb(half)),
            }
        } else {
            let arm_bytes: u32 = (self.bytes[0] as u32) + (self.bytes[1] as u32) * 0x100 + (
            self.bytes[2] as u32) * 0x1_0000 + (self.bytes[3] as u32) * 0x100_0000;
            match Arm32::find_instruction(arm_bytes) {
                Some(arm_instruction) => CpuInstruction::Arm(arm_instruction),
                None => CpuInstruction::Empty(EmptyReason::UnknownArm(arm_bytes)),
            }
        }
    }
}

/// The processor: register file, fetch cache, and the decoded-instruction
/// slot between the pipeline's decode and execute stages.
pub struct Cpu {
    pub registers: RegisterSet,
    pub fetcher: InstructionFetcher,
    pub decoded: CpuInstruction,
}

impl Cpu {
    /// The pipeline state of this processor.
    pub open spec fn state(self) -> CpuState {
        CpuState {
            regs: self.registers,
            base: self.fetcher.address_of_bytes as int,
            cache: self.fetcher.bytes@,
            decoded: self.decoded,
        }
    }

    /// The pipeline's running invariant: the cache holds one word, every
    /// byte of it at an address the cycle table charges for, and any decoded
    /// branch carries an offset the encoding can produce.
    pub open spec fn wf(self) -> bool {
        &&& fetcher_wf(self.fetcher)
        &&& instruction_ok(self.decoded)
        &&& cache_costed(self.fetcher.address_of_bytes as int)
    }

    /// A processor in its reset state: cleared registers, an empty cache at
    /// address zero, and no decoded instruction - the initialization
    /// placeholder that the seeding step replaces before steady ticking.
    pub fn new() -> (c: Cpu)
        ensures
            c.state() == initial_cpu_state(),
            c.wf(),
    {
        let c = Cpu {
            registers: RegisterSet::default(),
            fetcher: InstructionFetcher::default(),
            decoded: CpuInstruction::Empty(EmptyReason::Init),
        };
        proof {
            assert forall|a: int| 0 <= a < 4 implies spec_cycles(a, AccessWidth::Bit32) >= 1 by {}
        }
        c
    }

    /// Whether the pipeline still holds the initialization placeholder, so
    /// the seeding fetch-and-decode has not run yet.
    pub fn is_init_state(&self) -> (b: bool)
        ensures
            b == (self.decoded == CpuInstruction::Empty(EmptyReason::Init)),
    {
        matches!(self.decoded, CpuInstruction::Empty(EmptyReason::Init))
    }

    /// The fetch stage: one fetch step at the program counter, which then
    /// advances by four (wrapping). Reports the 32-bit-width bus cost of the
    /// counter's address - at least one cycle on the console's map - charged
    /// whether or not the bus was touched. On a bus failure the processor is
    /// unchanged and the failure is reported.
    pub fn read_next_instruction(&mut self, memory: &mut GBAMemory) -> (r: EmulatorCoreResult<
        usize,
    >)
        requires
            old(self).wf(),
            is_gba_map(old(memory)@),
        ensures
            final(self).wf(),
            final(memory)@ == old(memory)@,
            ({
                let sr = fetch_step(old(self).state(), old(memory)@);
                match sr.1 {
                    Ok(u) => r matches Ok(c) && c as int == fetch_cost(old(self).state()) && 1
                        <= c <= 8 && final(self).state() == sr.0,
                    Err(e) => r == Err::<usize, EmulatorCoreError>(
                        EmulatorCoreError::MemoryError(e),
                    ) && final(self).state() == old(self).state(),
                }
            }),
    {
        let pc = self.registers.r15 as usize;
        let is_thumb = self.registers.get_thumb_state();
        match self.fetcher.read_next_instruction(&memory.0, pc, is_thumb) {
            Ok(u) => {},
            Err(e) => {
                return Err(EmulatorCoreError::MemoryError(e));
            },
        }
        let cycles = memory.get_cycles_for_address(pc, AccessWidth::Bit32);
        proof {
            lemma_fetch_ok_facts(
                old(memory)@,
                old(self).fetcher.address_of_bytes as int,
                old(self).fetcher.bytes@,
                pc as int,
                is_thumb,
            );
        }
        self.registers.r15 = self.registers.r15.wrapping_add(4);
        Ok(cycles)
    }

    /// The decode stage: decodes the cached word at the current counter into
    /// the instruction slot. A miss - the counter pointing at data neither
    /// decoder recognizes - is fatal for the tick and is reported with the
    /// counter, the raw bits and the decoder that missed; the initialization
    /// and taken placeholders never reach this path's error, since the
    /// decoders never produce them.
    pub fn decode_instruction(&mut self) -> (r: EmulatorCoreResult<()>)
        requires
            old(self).wf(),
        ensures
            final(self).wf(),
            final(self).state() == decode_step(old(self).state()),
            (if decode_misses(old(self).state()) {
                r == Err::<(), EmulatorCoreError>(decode_miss_error(old(self).state()))
            } else {
                r == Ok::<(), EmulatorCoreError>(())
            }),
    {
        let pc = self.registers.r15;
        let is_thumb = self.registers.get_thumb_state();
        let d = self.fetcher.decode(pc as usize, is_thumb);
        proof {
            lemma_spec_decoded_ok(
                self.fetcher.address_of_bytes as int,
                self.fetcher.bytes@,
                pc as int,
                is_thumb,
            );
        }
        let r: EmulatorCoreResult<()> = match d {
            CpuInstruction::Empty(EmptyReason::UnknownArm(w)) => Err(
                EmulatorCoreError::DecodeMiss { address: pc, bits: w, thumb: false },
            ),
            CpuInstruction::Empty(EmptyReason::UnknownThumb(h)) => Err(
                EmulatorCoreError::DecodeMiss { address: pc, bits: h as u32, thumb: true },
            ),
            _ => Ok(()),
        };
        self.decoded = d;
        r
    }

    /// Applies one 32-bit-set instruction, as `branch_step` describes: the
    /// link-and-exchange form under the reserved condition, the taken branch
    /// under a passing condition - each with one extra fetch step - or one
    /// cycle and no other effect under a failing condition.
    fn run_arm_instruction(&mut self, memory: &mut GBAMemory, arm: Arm32) -> (r: EmulatorCoreResult<
        usize,
    >)
        requires
            old(self).wf(),
            is_gba_map(old(memory)@),
            instruction_ok(CpuInstruction::Arm(arm)),
        ensures
            final(self).wf(),
            final(memory)@ == old(memory)@,
            ({
                let b = match arm { Arm32::Branch(b) => b };
                let sr = branch_step(old(self).state(), old(memory)@, b);
                match sr.1 {
                    Ok(c) => r matches Ok(rc) && rc as int == c && 1 <= rc <= 9 && final(self).state() == sr.0,
                    Err(e) => r == Err::<usize, EmulatorCoreError>(
                        EmulatorCoreError::MemoryError(e),
                    ) && final(self).state() == sr.0,
                }
            }),
    {
        match arm {
            Arm32::Branch(branch) => {
                if branch.condition == Condition::AllSet {
                    // The link-and-exchange form.
                    self.registers.set_thumb_state(true);
                    self.registers.r14 = self.registers.r15;
                    self.registers.r15 = self.registers.r15.wrapping_add_signed(branch.offset);
                    if branch.opcode {
                        // The displacement selected the other half-word.
                        self.registers.r15 = self.registers.r15.wrapping_add(2);
                    }
                    match self.read_next_instruction(memory) {
                        Ok(c) => Ok(1 + c),
                        Err(e) => Err(e),
                    }
                } else if self.registers.does_condition_pass(branch.condition) {
                    if branch.opcode {
                        self.registers.r14 = self.registers.r15;
                    }
                    self.registers.r15 = self.registers.r15.wrapping_add_signed(branch.offset);
                    match self.read_next_instruction(memory) {
                        Ok(c) => Ok(1 + c),
                        Err(e) => Err(e),
                    }
                } else {
                    Ok(1)
                }
            },
        }
    }

    /// Applies one compact-set instruction. No family of that set is
    /// modeled, so none is ever decoded and there is nothing to apply.
    fn run_thumb_instruction(&mut self, memory: &mut GBAMemory, thumb: Thumb32) -> (r:
        EmulatorCoreResult<usize>)
        requires
            old(self).wf(),
        ensures
            final(self).wf(),
            final(self).state() == old(self).state(),
            final(memory)@ == old(memory)@,
            r == Ok::<usize, EmulatorCoreError>(0),
    {
        Ok(0)
    }

    /// One full pipeline tick, as `tick_step` describes: execute the
    /// previously decoded instruction (an empty slot, as right after
    /// construction, executes as a no-op), decode the instruction the
    /// counter now points at, then fetch the next word; reports the cycles
    /// the stages consumed together - at least one on the console's map. A
    /// bus failure or a decode miss ends the tick where it stands, with the
    /// effects so far in place.
    pub fn run_next_instruction(&mut self, memory: &mut GBAMemory) -> (r: EmulatorCoreResult<usize>)
        requires
            old(self).wf(),
            is_gba_map(old(memory)@),
        ensures
            final(self).wf(),
            final(memory)@ == old(memory)@,
            ({
                let tr = tick_step(old(self).state(), old(memory)@);
                match tr.1 {
                    Ok(c) => r matches Ok(rc) && rc as int == c && 1 <= rc <= 17 && final(self).state() == tr.0,
                    Err(e) => r == Err::<usize, EmulatorCoreError>(e) && final(self).state()
                        == tr.0,
                }
            }),
    {
        let mut cycles: usize = 0;

        // Run the previously decoded instruction first, if there is one.
        match self.decoded.take() {
            CpuInstruction::Arm(arm) => {
                match self.run_arm_instruction(memory, arm) {
                    Ok(c) => {
                        cycles = cycles + c;
                    },
                    Err(e) => {
                        return Err(e);
                    },
                }
            },
            CpuInstruction::Thumb(thumb) => {
                match self.run_thumb_instruction(memory, thumb) {
                    Ok(c) => {
                        cycles = cycles + c;
                    },
                    Err(e) => {
                        return Err(e);
                    },
                }
            },
            CpuInstruction::Empty(reason) => {},
        }
        match self.decode_instruction() {
            Ok(u) => {},
            Err(e) => {
                return Err(e);
            },
        }
        match self.read_next_instruction(memory) {
            Ok(c) => {
                cycles = cycles + c;
            },
            Err(e) => {
                return Err(e);
            },
        }
        Ok(cycles)
    }
}

} // verus!
