//! An emulator core for a 32-bit RISC handheld console: a dual instruction-set
//! decoder, a banked register file with condition evaluation, a segmented and
//! permission-checked memory bus with per-access cycle costs, and the
//! fetch/decode/execute pipeline that drives them.

use vstd::prelude::*;

pub mod cpu;
pub mod gba_memory;
pub mod instruction_sets;
pub mod memory;
pub mod settings;

use crate::cpu::Cpu;
use crate::cpu::CpuInstruction;
use crate::cpu::CpuState;
use crate::cpu::EmptyReason;
use crate::cpu::decode_miss_error;
use crate::cpu::decode_misses;
use crate::cpu::decode_step;
use crate::cpu::fetch_cost;
use crate::cpu::fetch_step;
use crate::cpu::initial_cpu_state;
use crate::cpu::tick_step;
use crate::gba_memory::BIOS_FILE_SIZE;
use crate::gba_memory::GAMEPAK_MAX_FILE_SIZE;
use crate::gba_memory::GBAMemory;
use crate::gba_memory::gba_map_model;
use crate::gba_memory::is_gba_map;
use crate::memory::AccessContext;
use crate::memory::BusModel;
use crate::memory::MemoryError;
use crate::settings::rom_has_gba_extension;
use crate::settings::validate_rom_path;

pub use crate::settings::GBASettings;
pub use crate::settings::GBASettingsBuilder;

verus! {

pub type EmulatorCoreResult<T> = Result<T, EmulatorCoreError>;

/// How building or running an emulator core can fail.
#[derive(Debug, PartialEq, Eq)]
pub enum EmulatorCoreError {
    /// A bus access failed during a pipeline step.
    MemoryError(MemoryError),
    /// The ROM image does not carry the console's file extension or exceeds
    /// the largest cartridge.
    IncompatibleRom,
    /// The BIOS image is not exactly the console's fixed size; carries the
    /// offending path.
    InvalidBiosFile(String),
    /// The program counter points at data neither decoder recognizes: the
    /// one unconditionally fatal condition in steady-state operation.
    DecodeMiss { address: u32, bits: u32, thumb: bool },
}

impl From<MemoryError> for EmulatorCoreError {
    /// Wraps a bus failure as a core error.
    fn from(error: MemoryError) -> (r: EmulatorCoreError)
        ensures
            r == EmulatorCoreError::MemoryError(error),
    {
        EmulatorCoreError::MemoryError(error)
    }
}

impl vstd::std_specs::convert::FromSpecImpl<MemoryError> for EmulatorCoreError {
    open spec fn obeys_from_spec() -> bool {
        true
    }

    open spec fn from_spec(error: MemoryError) -> EmulatorCoreError {
        EmulatorCoreError::MemoryError(error)
    }
}

/// What the host drives an emulator core through: a start notification, a
/// tick that converts elapsed time into requested wait time, and
/// pause/resume notifications. Pacing is entirely the host's responsibility.
pub trait EmulatorCore {
    /// The state in which the host may drive this core; construction
    /// establishes it and every operation preserves it.
    spec fn ready(&self) -> bool;

    /// The host is about to start calling `on_update`.
    fn on_start(&mut self) -> (r: EmulatorCoreResult<()>)
        requires
            old(self).ready(),
        ensures
            final(self).ready(),
    ;

    /// One host tick: takes the elapsed time since the previous tick and
    /// returns how long the host should wait before the next one.
    fn on_update(&mut self, left_over_nanos: u64) -> (r: EmulatorCoreResult<u64>)
        requires
            old(self).ready(),
        ensures
            final(self).ready(),
    ;

    /// The host is about to stop calling `on_update` for a while; the core
    /// needs no internal effect, as pausing is the host's scheduling
    /// decision.
    fn on_pause(&mut self) -> (r: EmulatorCoreResult<()>)
        requires
            old(self).ready(),
        ensures
            final(self).ready(),
    ;

    /// The host resumes calling `on_update`.
    fn on_resume(&mut self)
        requires
            old(self).ready(),
        ensures
            final(self).ready(),
    ;
}

/// The console's CPU clock speed in hertz.
pub const CLOCK_SPEED: usize = 16_780_000;

/// The bus-cycle budget one update call runs the pipeline for.
pub const UPDATE_CYCLE_BUDGET: usize = 100;

/// The requested wait, in nanoseconds, after consuming the given cycles at
/// the console's fixed clock rate.
pub open spec fn spec_wait_nanos(cycles: int) -> int {
    cycles * 1_000_000_000 / (CLOCK_SPEED as int)
}

/// The seeding step the very first tick performs: one fetch with no pending
/// decoded instruction, then the decode that fills the pipeline; a bus
/// failure or a decode miss surfaces as the step's error.
pub open spec fn seed_step(s: CpuState, m: BusModel) -> (CpuState, Result<int, EmulatorCoreError>) {
    let fr = fetch_step(s, m);
    match fr.1 {
        Err(e) => (fr.0, Err(EmulatorCoreError::MemoryError(e))),
        Ok(u) => {
            let s2 = decode_step(fr.0);
            if decode_misses(fr.0) {
                (s2, Err(decode_miss_error(fr.0)))
            } else {
                (s2, Ok(fetch_cost(s)))
            }
        },
    }
}

/// Ticks the pipeline until `cycles` reaches the update budget, carrying the
/// cycles consumed so far; the fuel only bounds the recursion and never runs
/// out on the console's map, where every tick costs at least one cycle.
pub open spec fn spec_update(s: CpuState, m: BusModel, cycles: int, fuel: nat) -> (
    CpuState,
    Result<int, EmulatorCoreError>,
)
    decreases fuel,
{
    if cycles >= UPDATE_CYCLE_BUDGET {
        (s, Ok(cycles))
    } else if fuel == 0 {
        (s, Ok(cycles))
    } else {
        let tr = tick_step(s, m);
        match tr.1 {
            Ok(c) => spec_update(tr.0, m, cycles + c, (fuel - 1) as nat),
            Err(e) => (tr.0, Err(e)),
        }
    }
}

/// What one update call does: the seeding fetch-and-decode when the pipeline
/// still holds the initialization placeholder, then ticks until the cycle
/// budget is met; the result is the cycles consumed, or the first failure.
pub open spec fn spec_on_update(s: CpuState, m: BusModel) -> (
    CpuState,
    Result<int, EmulatorCoreError>,
) {
    if s.decoded == CpuInstruction::Empty(EmptyReason::Init) {
        let sr = seed_step(s, m);
        match sr.1 {
            Err(e) => (sr.0, Err(e)),
            Ok(c) => spec_update(sr.0, m, c, UPDATE_CYCLE_BUDGET as nat),
        }
    } else {
        spec_update(s, m, 0, UPDATE_CYCLE_BUDGET as nat)
    }
}

/// A complete core: its settings, the console's memory map, and the CPU.
pub struct GBACore {
    pub settings: GBASettings,
    pub memory: GBAMemory,
    pub cpu: Cpu,
}

impl GBACore {
    /// The core's running invariant: the bus carries the console's map and
    /// the pipeline's own invariant holds.
    pub open spec fn wf(self) -> bool {
        is_gba_map(self.memory@) && self.cpu.wf()
    }

    /// Builds a core from its settings and the BIOS and cartridge images the
    /// host has read from the settings' paths. The ROM path must carry the
    /// console's extension and the image must fit the largest cartridge
    /// (incompatible-ROM otherwise), and the BIOS must be exactly the fixed
    /// size (invalid-BIOS, with the offending path, otherwise); no partial
    /// core is ever built.
    pub fn create(settings: GBASettings, bios_bytes: Vec<u8>, rom_bytes: Vec<u8>) -> (r:
        EmulatorCoreResult<GBACore>)
        ensures
            (if !rom_has_gba_extension(settings.rom_path@) {
                r == Err::<GBACore, EmulatorCoreError>(EmulatorCoreError::IncompatibleRom)
            } else if bios_bytes@.len() != BIOS_FILE_SIZE {
                r matches Err(e) && e matches EmulatorCoreError::InvalidBiosFile(p) && p@
                    == settings.bios_path@
            } else if rom_bytes@.len() > GAMEPAK_MAX_FILE_SIZE {
                r == Err::<GBACore, EmulatorCoreError>(EmulatorCoreError::IncompatibleRom)
            } else {
                r matches Ok(core) && core.settings.rom_path@ == settings.rom_path@
                    && core.settings.bios_path@ == settings.bios_path@
                    && core.settings.save_dir@ == settings.save_dir@ && core.memory@.regions
                    == gba_map_model(bios_bytes@, rom_bytes@) && core.memory@.context
                    == AccessContext::Privileged && core.cpu.state() == initial_cpu_state()
                    && core.wf()
            }),
    {
        match validate_rom_path(&settings) {
            Ok(p) => {},
            Err(e) => {
                return Err(e);
            },
        }
        if bios_bytes.len() != BIOS_FILE_SIZE {
            return Err(EmulatorCoreError::InvalidBiosFile(settings.bios_path.clone()));
        }
        if rom_bytes.len() > GAMEPAK_MAX_FILE_SIZE {
            return Err(EmulatorCoreError::IncompatibleRom);
        }
        let memory = GBAMemory::new(bios_bytes, rom_bytes);
        let cpu = Cpu::new();
        Ok(GBACore { settings, memory, cpu })
    }

    /// One update call, as `spec_on_update` describes: seed the pipeline on
    /// the very first call, tick until the cycle budget is met, and convert
    /// the consumed cycles to the wait the host should observe, at the
    /// console's fixed clock rate. The elapsed time the host hands in does
    /// not influence this budget. A bus failure or a decode miss is
    /// propagated with the effects so far in place, and the host decides
    /// whether to halt, report, or go on.
    pub fn update(&mut self, _left_over_nanos: u64) -> (r: EmulatorCoreResult<u64>)
        requires
            old(self).wf(),
        ensures
            final(self).wf(),
            final(self).memory@ == old(self).memory@,
            final(self).settings.rom_path@ == old(self).settings.rom_path@,
            final(self).settings.bios_path@ == old(self).settings.bios_path@,
            final(self).settings.save_dir@ == old(self).settings.save_dir@,
            ({
                let ur = spec_on_update(old(self).cpu.state(), old(self).memory@);
                final(self).cpu.state() == ur.0 && (match ur.1 {
                    Ok(c) => r matches Ok(n) && n as int == spec_wait_nanos(c),
                    Err(e) => r == Err::<u64, EmulatorCoreError>(e),
                })
            }),
    {
        let mut cycles: usize = 0;
        if self.cpu.is_init_state() {
            match self.cpu.read_next_instruction(&mut self.memory) {
                Ok(c) => {
                    cycles = cycles + c;
                },
                Err(e) => {
                    return Err(e);
                },
            }
            match self.cpu.decode_instruction() {
                Ok(u) => {},
                Err(e) => {
                    return Err(e);
                },
            }
        }
        let ghost mut fuel: int = UPDATE_CYCLE_BUDGET as int;
        while cycles < UPDATE_CYCLE_BUDGET
            invariant
                is_gba_map(self.memory@),
                self.cpu.wf(),
                self.memory@ == old(self).memory@,
                self.settings.rom_path@ == old(self).settings.rom_path@,
                self.settings.bios_path@ == old(self).settings.bios_path@,
                self.settings.save_dir@ == old(self).settings.save_dir@,
                cycles <= UPDATE_CYCLE_BUDGET + 17,
                0 <= fuel <= UPDATE_CYCLE_BUDGET,
                fuel >= UPDATE_CYCLE_BUDGET - cycles,
                spec_on_update(old(self).cpu.state(), old(self).memory@) == spec_update(
                    self.cpu.state(),
                    self.memory@,
                    cycles as int,
                    fuel as nat,
                ),
            decreases fuel,
        {
            match self.cpu.run_next_instruction(&mut self.memory) {
                Ok(c) => {
                    proof {
                        fuel = fuel - 1;
                    }
                    cycles = cycles + c;
                },
                Err(e) => {
                    return Err(e);
                },
            }
        }
        Ok(cycles_to_wait_nanos(cycles))
    }
}

/// The wait, in nanoseconds, after consuming the given cycles at the
/// console's fixed clock rate.
fn cycles_to_wait_nanos(cycles: usize) -> (n: u64)
    requires
        cycles <= 1000,
    ensures
        n as int == spec_wait_nanos(cycles as int),
{
    ((cycles as u64) * 1_000_000_000) / (CLOCK_SPEED as u64)
}

impl EmulatorCore for GBACore {
    open spec fn ready(&self) -> bool {
        self.wf()
    }

    fn on_start(&mut self) -> (r: EmulatorCoreResult<()>) {
        Ok(())
    }

    /// The host-facing tick carries `update`'s full contract: it drives the
    /// pipeline as `spec_on_update` describes and converts the consumed
    /// cycles to the requested wait.
    fn on_update(&mut self, left_over_nanos: u64) -> (r: EmulatorCoreResult<u64>)
        ensures
            final(self).wf(),
            final(self).memory@ == old(self).memory@,
            final(self).settings.rom_path@ == old(self).settings.rom_path@,
            final(self).settings.bios_path@ == old(self).settings.bios_path@,
            final(self).settings.save_dir@ == old(self).settings.save_dir@,
            ({
                let ur = spec_on_update(old(self).cpu.state(), old(self).memory@);
                final(self).cpu.state() == ur.0 && (match ur.1 {
                    Ok(c) => r matches Ok(n) && n as int == spec_wait_nanos(c),
                    Err(e) => r == Err::<u64, EmulatorCoreError>(e),
                })
            }),
    {
        self.update(left_over_nanos)
    }

    fn on_pause(&mut self) -> (r: EmulatorCoreResult<()>) {
        Ok(())
    }

    fn on_resume(&mut self) {
    }
}

} // verus!
