//! Tests of the segmented memory bus: round trips, cross-region rejection,
//! permission enforcement, and the console map's cycle costs.

use gba_core::gba_memory::AccessWidth;
use gba_core::gba_memory::GBAMemory;
use gba_core::memory::AccessContext;
use gba_core::memory::Memory;
use gba_core::memory::MemoryError;
use gba_core::memory::MemoryRegion;
use gba_core::memory::Permission;
use gba_core::memory::RegionPermissions;

fn rw() -> RegionPermissions {
    RegionPermissions::uniform(Permission::ReadWrite)
}

fn two_region_bus() -> Memory {
    Memory::new(vec![
        MemoryRegion::new(0x100, vec![0u8; 16], rw()),
        MemoryRegion::new(0x110, vec![0u8; 16], rw()),
    ])
}

#[test]
fn write_then_read_round_trips_in_every_region() {
    let mut bus = two_region_bus();
    // A write fully inside one region reads back identically, in each
    // declared region.
    for base in [0x100usize, 0x110] {
        let data = vec![0xDE, 0xAD, 0xBE, 0xEF];
        assert!(bus.write(base + 5, &data).is_ok());
        let mut back = vec![0u8; 4];
        assert!(bus.read(base + 5, &mut back).is_ok());
        assert_eq!(back, data);
    }
}

#[test]
fn read_outside_any_region_is_rejected() {
    let bus = two_region_bus();
    let mut buffer = vec![0u8; 1];
    assert_eq!(bus.read(0x0FF, &mut buffer), Err(MemoryError::NoMatchingRegion));
    assert_eq!(bus.read(0x120, &mut buffer), Err(MemoryError::NoMatchingRegion));
}

#[test]
fn cross_region_span_is_rejected_not_wrapped() {
    let mut bus = two_region_bus();
    // The span starts in the last byte of the first region and pushes into
    // the second: it must fail, never silently succeed.
    let mut buffer = vec![0u8; 2];
    assert_eq!(bus.read(0x10F, &mut buffer), Err(MemoryError::CrossRegionAccess));
    assert_eq!(bus.write(0x10F, &vec![1u8, 2u8]), Err(MemoryError::CrossRegionAccess));
    // The second region's bytes are untouched by the failed write.
    let mut back = vec![0u8; 1];
    assert!(bus.read(0x110, &mut back).is_ok());
    assert_eq!(back, vec![0u8]);
}

#[test]
fn read_only_region_rejects_writes_and_accepts_reads() {
    let mut bus = Memory::new(vec![MemoryRegion::new(
        0,
        vec![7u8; 8],
        RegionPermissions::uniform(Permission::ReadOnly),
    )]);
    assert_eq!(bus.write(0, &vec![1u8]), Err(MemoryError::PermissionDenied));
    let mut back = vec![0u8; 2];
    assert!(bus.read(3, &mut back).is_ok());
    assert_eq!(back, vec![7u8, 7u8]);
}

#[test]
fn no_access_region_rejects_both() {
    let mut bus = Memory::new(vec![MemoryRegion::new(
        0,
        vec![7u8; 8],
        RegionPermissions::uniform(Permission::NoAccess),
    )]);
    assert_eq!(bus.write(0, &vec![1u8]), Err(MemoryError::PermissionDenied));
    let mut back = vec![0u8; 1];
    assert_eq!(bus.read(0, &mut back), Err(MemoryError::PermissionDenied));
}

#[test]
fn access_context_selects_the_permission_row() {
    // Writable under the privileged context, read-only under the user one.
    let mut bus = Memory::new(vec![MemoryRegion::new(
        0,
        vec![0u8; 8],
        RegionPermissions { user: Permission::ReadOnly, privileged: Permission::ReadWrite },
    )]);
    // The bus starts under the privileged context.
    assert!(bus.write(0, &vec![9u8]).is_ok());
    bus.set_access_context(AccessContext::User);
    assert_eq!(bus.write(1, &vec![9u8]), Err(MemoryError::PermissionDenied));
    let mut back = vec![0u8; 1];
    assert!(bus.read(0, &mut back).is_ok());
    assert_eq!(back, vec![9u8]);
    bus.set_access_context(AccessContext::Privileged);
    assert!(bus.write(1, &vec![9u8]).is_ok());
}

#[test]
fn region_end_address_is_the_last_byte() {
    let region = MemoryRegion::new(0x200, vec![0u8; 0x40], rw());
    assert_eq!(region.end_address(), 0x23F);
}

#[test]
fn empty_read_inside_a_region_succeeds() {
    let bus = two_region_bus();
    let mut buffer: Vec<u8> = vec![];
    assert!(bus.read(0x100, &mut buffer).is_ok());
    assert!(buffer.is_empty());
}

fn console_bus() -> GBAMemory {
    GBAMemory::new(vec![0u8; 16 * 1024], vec![0u8; 64])
}

#[test]
fn cycle_costs_follow_the_region_table() {
    let bus = console_bus();
    let cases: &[(usize, usize, usize, usize)] = &[
        // (address, 8-bit, 16-bit, 32-bit)
        (0x0000_0000, 1, 1, 1),          // BIOS
        (0x0200_0000, 3, 3, 6),          // on-board work RAM
        (0x0300_0000, 1, 1, 1),          // on-chip work RAM
        (0x0400_0000, 1, 1, 1),          // I/O registers
        (0x0500_0000, 1, 1, 2),          // palette RAM
        (0x0600_0000, 1, 1, 2),          // video RAM
        (0x0700_0000, 1, 1, 1),          // object-attribute memory
        (0x0800_0000, 5, 5, 8),          // gamepak window 0
        (0x0A00_0000, 5, 5, 8),          // gamepak window 1
        (0x0C00_0000, 5, 5, 8),          // gamepak window 2
        (0x0E00_0000, 5, 5, 5),          // gamepak static RAM
        (0x0000_4000, 0, 0, 0),          // one past the BIOS: unmapped
        (0x0E00_8000, 0, 0, 0),          // one past the static RAM: unmapped
        (0x0100_0000, 0, 0, 0),          // a gap costs nothing
        (0xF000_0000, 0, 0, 0),          // far outside the map
    ];
    for &(address, c8, c16, c32) in cases {
        assert_eq!(bus.get_cycles_for_address(address, AccessWidth::Bit8), c8, "{address:#X}");
        assert_eq!(bus.get_cycles_for_address(address, AccessWidth::Bit16), c16, "{address:#X}");
        assert_eq!(bus.get_cycles_for_address(address, AccessWidth::Bit32), c32, "{address:#X}");
    }
}

#[test]
fn console_map_mirrors_the_cartridge_and_protects_rom() {
    let mut rom = vec![0u8; 64];
    rom[0] = 0x5A;
    let mut bus = GBAMemory::new(vec![0u8; 16 * 1024], rom);
    // The cartridge image appears in each mirror window.
    for base in [0x0800_0000usize, 0x0A00_0000, 0x0C00_0000] {
        let mut back = vec![0u8; 1];
        assert!(bus.0.read(base, &mut back).is_ok());
        assert_eq!(back, vec![0x5A], "window at {base:#X}");
    }
    // The BIOS and the gamepak windows are read-only; work RAM is not.
    assert_eq!(bus.0.write(0, &vec![1u8]), Err(MemoryError::PermissionDenied));
    assert_eq!(bus.0.write(0x0800_0000, &vec![1u8]), Err(MemoryError::PermissionDenied));
    assert!(bus.0.write(0x0200_0000, &vec![1u8]).is_ok());
    assert!(bus.0.write(0x0300_0000, &vec![1u8]).is_ok());
    // Static RAM is writable and reads back.
    assert!(bus.0.write(0x0E00_0000, &vec![0x77u8]).is_ok());
    let mut back = vec![0u8; 1];
    assert!(bus.0.read(0x0E00_0000, &mut back).is_ok());
    assert_eq!(back, vec![0x77u8]);
}
