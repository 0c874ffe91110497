//! Tests of the register bank's condition evaluation and of the
//! fetch/decode/execute pipeline, including full branch scenarios on a
//! console bus.

use gba_core::EmulatorCore;
use gba_core::EmulatorCoreError;
use gba_core::GBACore;
use gba_core::cpu::Cpu;
use gba_core::cpu::CpuInstruction;
use gba_core::cpu::EmptyReason;
use gba_core::cpu::InstructionFetcher;
use gba_core::cpu::register::RegisterSet;
use gba_core::gba_memory::GBAMemory;
use gba_core::instruction_sets::Arm32;
use gba_core::instruction_sets::Branch;
use gba_core::instruction_sets::Condition;
use gba_core::memory::Memory;
use gba_core::memory::MemoryError;
use gba_core::memory::MemoryRegion;
use gba_core::memory::Permission;
use gba_core::memory::RegionPermissions;
use gba_core::settings::GBASettings;

const ALL_CONDITIONS: [Condition; 16] = [
    Condition::Equal,
    Condition::NEqual,
    Condition::CarrySet,
    Condition::CarryClear,
    Condition::Minus,
    Condition::Positive,
    Condition::VSet,
    Condition::VClear,
    Condition::UHigh,
    Condition::ULow,
    Condition::GreaterEqual,
    Condition::Less,
    Condition::Greater,
    Condition::LessEqual,
    Condition::Always,
    Condition::AllSet,
];

/// The documented truth table, written out independently of the library.
fn truth_table(condition: Condition, n: bool, z: bool, c: bool, v: bool) -> bool {
    match condition {
        Condition::Equal => z,
        Condition::NEqual => !z,
        Condition::CarrySet => c,
        Condition::CarryClear => !c,
        Condition::Minus => n,
        Condition::Positive => !n,
        Condition::VSet => v,
        Condition::VClear => !v,
        Condition::UHigh => c && !z,
        Condition::ULow => !c || z,
        Condition::GreaterEqual => n == v,
        Condition::Less => n != v,
        Condition::Greater => !z && n == v,
        Condition::LessEqual => z || n != v,
        Condition::Always => true,
        Condition::AllSet => false,
    }
}

#[test]
fn condition_evaluation_matches_the_truth_table() {
    // All sixteen conditions against all sixteen flag combinations.
    for bits in 0..16u32 {
        let n = bits & 8 != 0;
        let z = bits & 4 != 0;
        let c = bits & 2 != 0;
        let v = bits & 1 != 0;
        let mut regs = RegisterSet::default();
        regs.set_condition_flags(n, z, c, v);
        for condition in ALL_CONDITIONS {
            assert_eq!(
                regs.does_condition_pass(condition),
                truth_table(condition, n, z, c, v),
                "{condition:?} with n={n} z={z} c={c} v={v}"
            );
        }
    }
}

#[test]
fn paired_conditions_are_complements() {
    let pairs = [
        (Condition::Equal, Condition::NEqual),
        (Condition::CarrySet, Condition::CarryClear),
        (Condition::Minus, Condition::Positive),
        (Condition::VSet, Condition::VClear),
        (Condition::UHigh, Condition::ULow),
        (Condition::GreaterEqual, Condition::Less),
        (Condition::Greater, Condition::LessEqual),
        (Condition::Always, Condition::AllSet),
    ];
    for bits in 0..16u32 {
        let mut regs = RegisterSet::default();
        regs.set_condition_flags(bits & 8 != 0, bits & 4 != 0, bits & 2 != 0, bits & 1 != 0);
        for (a, b) in pairs {
            assert_eq!(
                regs.does_condition_pass(a),
                !regs.does_condition_pass(b),
                "{a:?} against {b:?} at flags {bits:04b}"
            );
        }
    }
}

#[test]
fn thumb_state_bit_round_trips() {
    let mut regs = RegisterSet::default();
    assert!(!regs.get_thumb_state());
    regs.set_condition_flags(true, false, true, false);
    regs.set_thumb_state(true);
    assert!(regs.get_thumb_state());
    // The flags survive the execution-state change.
    assert!(regs.does_condition_pass(Condition::Minus));
    assert!(regs.does_condition_pass(Condition::CarrySet));
    assert!(!regs.does_condition_pass(Condition::Equal));
    regs.set_thumb_state(false);
    assert!(!regs.get_thumb_state());
    assert!(regs.does_condition_pass(Condition::Minus));
}

#[test]
fn taking_the_decoded_instruction_leaves_the_placeholder() {
    let mut slot = CpuInstruction::Arm(Arm32::Branch(Branch {
        condition: Condition::Always,
        opcode: false,
        offset: 8,
    }));
    let taken = slot.take();
    assert!(matches!(taken, CpuInstruction::Arm(Arm32::Branch(_))));
    assert!(matches!(slot, CpuInstruction::Empty(EmptyReason::Taken)));
    // Taking again only yields the placeholder.
    assert!(matches!(slot.take(), CpuInstruction::Empty(EmptyReason::Taken)));
}

/// A console bus whose BIOS starts with the given words and is otherwise
/// zero-filled; the cartridge slot holds a small empty image.
fn bios_bus(words: &[u32]) -> GBAMemory {
    let mut bios = vec![0u8; 16 * 1024];
    for (i, word) in words.iter().enumerate() {
        bios[4 * i..4 * i + 4].copy_from_slice(&word.to_le_bytes());
    }
    GBAMemory::new(bios, vec![])
}

#[test]
fn fetcher_decodes_the_cached_word() {
    let mut memory = bios_bus(&[0xEA00_0002, 0xEBFF_FFFF]);
    let mut fetcher = InstructionFetcher::default();
    assert!(fetcher.read_next_instruction(&memory.0, 0, false).is_ok());
    match fetcher.decode(0, false) {
        CpuInstruction::Arm(Arm32::Branch(b)) => {
            assert_eq!(b.condition, Condition::Always);
            assert_eq!(b.offset, 8);
        },
        other => panic!("expected a branch, found {other:?}"),
    }
    // A fetch of an unaligned address reads the word at or behind it.
    assert!(fetcher.read_next_instruction(&memory.0, 6, false).is_ok());
    assert_eq!(fetcher.address_of_bytes, 4);
    match fetcher.decode(4, false) {
        CpuInstruction::Arm(Arm32::Branch(b)) => assert_eq!(b.offset, -4),
        other => panic!("expected a branch, found {other:?}"),
    }
    // A fetch outside every region fails and leaves the cache as it was.
    assert!(fetcher.read_next_instruction(&memory.0, 0x0100_0000, false).is_err());
    assert_eq!(fetcher.address_of_bytes, 4);
}

#[test]
fn compact_mode_fetch_is_served_from_the_cached_word() {
    let mut bus = Memory::new(vec![MemoryRegion::new(
        0,
        vec![0x02, 0x00, 0x00, 0xEA, 0xFF, 0xFF, 0xFF, 0xEB],
        RegionPermissions::uniform(Permission::ReadWrite),
    )]);
    let mut fetcher = InstructionFetcher::default();
    // Fill the cache through a 32-bit-set fetch, which always reads the bus.
    assert!(fetcher.read_next_instruction(&bus, 0, false).is_ok());
    // Overwrite the word behind the cache, then request the half-word at
    // offset two: it lies inside the cached word, so the stale cache - not
    // the bus - serves it.
    assert!(bus.write(0, &vec![0u8, 0, 0, 0]).is_ok());
    assert!(fetcher.read_next_instruction(&bus, 2, true).is_ok());
    assert_eq!(fetcher.address_of_bytes, 0);
    assert!(matches!(
        fetcher.decode(2, true),
        CpuInstruction::Empty(EmptyReason::UnknownThumb(0xEA00))
    ));
    // A request outside the cached word goes back to the bus.
    assert!(fetcher.read_next_instruction(&bus, 4, true).is_ok());
    assert_eq!(fetcher.address_of_bytes, 4);
    assert!(matches!(
        fetcher.decode(4, true),
        CpuInstruction::Empty(EmptyReason::UnknownThumb(0xFFFF))
    ));
}

#[test]
fn decode_miss_reports_address_and_bits() {
    let mut memory = bios_bus(&[0x1234_5678]);
    let mut cpu = Cpu::new();
    assert!(cpu.read_next_instruction(&mut memory).is_ok());
    // 0x12345678 carries no branch identifier, so seeding the decode fails.
    match cpu.decode_instruction() {
        Err(EmulatorCoreError::DecodeMiss { address, bits, thumb }) => {
            assert_eq!(address, 4);
            assert_eq!(bits, 0x1234_5678);
            assert!(!thumb);
        },
        other => panic!("expected a decode miss, found {other:?}"),
    }
}

#[test]
fn fetch_outside_the_map_surfaces_the_bus_error() {
    let mut memory = bios_bus(&[]);
    let mut cpu = Cpu::new();
    // Point the counter into the gap between BIOS and work RAM: the fetch
    // fails, the failure is wrapped, and the counter does not advance.
    cpu.registers.r15 = 0x0100_0000;
    match cpu.read_next_instruction(&mut memory) {
        Err(EmulatorCoreError::MemoryError(e)) => assert_eq!(e, MemoryError::NoMatchingRegion),
        other => panic!("expected a wrapped bus error, found {other:?}"),
    }
    assert_eq!(cpu.registers.r15, 0x0100_0000);
}

#[test]
fn branch_always_advances_by_two_fetches_plus_offset() {
    // The word at zero encodes "branch always, no link, offset +8".
    let mut memory = bios_bus(&[0xEA00_0002]);
    let mut cpu = Cpu::new();
    // The initialization fetch and the seeding decode.
    assert_eq!(cpu.read_next_instruction(&mut memory).unwrap(), 1);
    assert_eq!(cpu.registers.r15, 4);
    assert!(cpu.decode_instruction().is_ok());
    // One tick: the branch executes from counter 4, lands on 12, and its own
    // fetch advances to 16; the zero word there decodes as a miss, which
    // ends the tick with the counter in place.
    match cpu.run_next_instruction(&mut memory) {
        Err(EmulatorCoreError::DecodeMiss { address, bits, thumb }) => {
            assert_eq!(address, 16);
            assert_eq!(bits, 0);
            assert!(!thumb);
        },
        other => panic!("expected a decode miss, found {other:?}"),
    }
    assert_eq!(cpu.registers.r15, 16);
    // No link was requested, so the link register is untouched.
    assert_eq!(cpu.registers.r14, 0);
}

#[test]
fn branch_with_link_back_by_four_nets_to_zero() {
    // The word at zero encodes "branch always, with link, offset -4".
    let mut memory = bios_bus(&[0xEBFF_FFFF]);
    let mut cpu = Cpu::new();
    assert_eq!(cpu.read_next_instruction(&mut memory).unwrap(), 1);
    assert!(cpu.decode_instruction().is_ok());
    // The branch executes from counter 4: the link register takes that
    // value, and +4 from the branch's own fetch with -4 of displacement
    // lands the counter back at 4 - net zero from the branch's own address.
    // The tick then decodes the same word again and its trailing fetch
    // advances the counter to 8.
    let cycles = cpu.run_next_instruction(&mut memory).unwrap();
    assert_eq!(cycles, 3);
    assert_eq!(cpu.registers.r14, 4);
    assert_eq!(cpu.registers.r15, 8);
}

#[test]
fn failed_condition_costs_one_cycle_and_no_jump() {
    // The word at zero encodes "branch if equal, offset +8"; the zero flag
    // is clear, so the condition fails.
    let mut memory = bios_bus(&[0x0A00_0002]);
    let mut cpu = Cpu::new();
    assert_eq!(cpu.read_next_instruction(&mut memory).unwrap(), 1);
    assert!(cpu.decode_instruction().is_ok());
    // The instruction itself costs exactly one cycle and moves nothing; the
    // tick's own trailing fetch adds one more cycle and the usual advance
    // by four.
    let cycles = cpu.run_next_instruction(&mut memory).unwrap();
    assert_eq!(cycles, 2);
    assert_eq!(cpu.registers.r15, 8);
    assert_eq!(cpu.registers.r14, 0);
    assert!(!cpu.registers.get_thumb_state());
}

#[test]
fn reserved_condition_exchanges_to_the_compact_set() {
    // The word at zero encodes the link-and-exchange form with offset 0.
    let mut memory = bios_bus(&[0xFA00_0000]);
    let mut cpu = Cpu::new();
    assert_eq!(cpu.read_next_instruction(&mut memory).unwrap(), 1);
    assert!(cpu.decode_instruction().is_ok());
    // The exchange switches to the compact set and links; its fetch advances
    // the counter, and the zero half-word there decodes as a compact-set
    // miss.
    match cpu.run_next_instruction(&mut memory) {
        Err(EmulatorCoreError::DecodeMiss { address, bits, thumb }) => {
            assert_eq!(address, 8);
            assert_eq!(bits, 0);
            assert!(thumb);
        },
        other => panic!("expected a compact-set decode miss, found {other:?}"),
    }
    assert!(cpu.registers.get_thumb_state());
    assert_eq!(cpu.registers.r14, 4);
    assert_eq!(cpu.registers.r15, 8);
}

#[test]
fn exchange_halfword_flag_adds_two() {
    let mut memory = bios_bus(&[0xFB00_0000]);
    let mut cpu = Cpu::new();
    assert_eq!(cpu.read_next_instruction(&mut memory).unwrap(), 1);
    assert!(cpu.decode_instruction().is_ok());
    assert!(cpu.run_next_instruction(&mut memory).is_err());
    // The half-word flag lands the counter two bytes further.
    assert!(cpu.registers.get_thumb_state());
    assert_eq!(cpu.registers.r14, 4);
    assert_eq!(cpu.registers.r15, 10);
}

fn settings(rom: &str, bios: &str, save: &str) -> GBASettings {
    GBASettings {
        rom_path: String::from(rom),
        bios_path: String::from(bios),
        save_dir: String::from(save),
    }
}

#[test]
fn core_update_runs_to_the_cycle_budget() {
    // Every BIOS word is "branch always, offset +8", so ticks keep landing
    // on further branches and the update call runs until its cycle budget.
    let word = 0xEA00_0002u32;
    let mut bios = Vec::with_capacity(16 * 1024);
    for _ in 0..(16 * 1024 / 4) {
        bios.extend_from_slice(&word.to_le_bytes());
    }
    let mut core = GBACore::create(settings("game.gba", "bios.bin", ""), bios, vec![]).unwrap();
    // The seeding fetch costs one cycle; every tick costs three (one for the
    // branch, one for its own fetch, one for the trailing fetch), so the
    // budget of one hundred is met after thirty-three ticks at exactly one
    // hundred cycles, which the fixed clock rate turns into 5959 whole
    // nanoseconds of requested wait.
    assert!(core.on_start().is_ok());
    let wait = core.on_update(0).unwrap();
    assert_eq!(wait, 5959);
    // Each tick advances the counter by sixteen: two fetches and the
    // displacement.
    assert_eq!(core.cpu.registers.r15, 4 + 33 * 16);
    assert!(core.on_pause().is_ok());
    core.on_resume();
}

#[test]
fn core_update_surfaces_a_decode_miss() {
    // A single branch at zero and zeros after it: the first tick's decode
    // misses and the update call reports it rather than absorbing it.
    let mut core =
        GBACore::create(settings("game.gba", "bios.bin", ""), vec![0u8; 16 * 1024], vec![])
            .unwrap();
    match core.on_update(0) {
        Err(EmulatorCoreError::DecodeMiss { address, bits, thumb }) => {
            assert_eq!(address, 4);
            assert_eq!(bits, 0);
            assert!(!thumb);
        },
        other => panic!("expected a decode miss, found {other:?}"),
    }
}

#[test]
fn core_creation_validates_rom_and_bios() {
    // A wrong extension is an incompatible ROM.
    let r = GBACore::create(settings("game.gb", "bios.bin", ""), vec![0u8; 16 * 1024], vec![]);
    assert!(matches!(r, Err(EmulatorCoreError::IncompatibleRom)));
    // A wrong-sized BIOS is rejected with the offending path.
    let r = GBACore::create(settings("game.gba", "small.bin", ""), vec![0u8; 100], vec![]);
    match r {
        Err(EmulatorCoreError::InvalidBiosFile(path)) => assert_eq!(path, "small.bin"),
        other => panic!("expected an invalid BIOS error, found {:?}", other.map(|_| ())),
    }
    // An oversized cartridge image is incompatible.
    let r = GBACore::create(
        settings("game.gba", "bios.bin", ""),
        vec![0u8; 16 * 1024],
        vec![0u8; 32 * 1024 * 1024 + 1],
    );
    assert!(matches!(r, Err(EmulatorCoreError::IncompatibleRom)));
}
