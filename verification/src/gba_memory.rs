//! The console's memory map: the fixed partition of the address space into
//! BIOS, the two work-RAM tiers, I/O registers, palette RAM, video RAM,
//! object-attribute memory, the three gamepak mirror windows and gamepak
//! static RAM, together with the per-region, per-width bus cycle costs.

use vstd::prelude::*;

use crate::memory::AccessContext;
use crate::memory::BusModel;
use crate::memory::Memory;
use crate::memory::MemoryRegion;
use crate::memory::Permission;
use crate::memory::RegionModel;
use crate::memory::RegionPermissions;
use crate::memory::bus_wf;
use crate::memory::has_region;
use crate::memory::region_contains;
use crate::memory::region_index;

verus! {

/// The BIOS image is always 16KB.
pub const BIOS_FILE_SIZE: usize = 16 * 1024;

/// The work RAM on the board is 256KB.
pub const WRAM_ON_BOARD_SIZE: usize = 256 * 1024;

/// The work RAM on the chip is 32KB.
pub const WRAM_ON_CHIP_SIZE: usize = 32 * 1024;

/// 1KB for the I/O registers.
pub const IO_REGISTERS_SIZE: usize = 1024;

/// 1KB for the palette RAM.
pub const PALETTE_RAM_SIZE: usize = 1024;

/// 96KB for the video RAM.
pub const VRAM_SIZE: usize = 96 * 1024;

/// 1KB for the object-attribute memory.
pub const OAM_SIZE: usize = 1024;

/// A gamepak image can be at most 32MB.
pub const GAMEPAK_MAX_FILE_SIZE: usize = 32 * 1024 * 1024;

/// 32KB for the gamepak static RAM.
pub const GAMEPAK_SRAM_SIZE: usize = 32 * 1024;

pub const ADDRESS_START_BIOS: usize = 0x0000_0000;

pub const ADDRESS_END_BIOS: usize = ADDRESS_START_BIOS + BIOS_FILE_SIZE;

pub const ADDRESS_START_WRAM_BOARD: usize = 0x0200_0000;

pub const ADDRESS_END_WRAM_BOARD: usize = ADDRESS_START_WRAM_BOARD + WRAM_ON_BOARD_SIZE;

pub const ADDRESS_START_WRAM_CHIP: usize = 0x0300_0000;

pub const ADDRESS_END_WRAM_CHIP: usize = ADDRESS_START_WRAM_CHIP + WRAM_ON_CHIP_SIZE;

pub const ADDRESS_START_IO_REGISTERS: usize = 0x0400_0000;

pub const ADDRESS_END_IO_REGISTERS: usize = ADDRESS_START_IO_REGISTERS + IO_REGISTERS_SIZE;

pub const ADDRESS_START_PALETTE: usize = 0x0500_0000;

pub const ADDRESS_END_PALETTE: usize = ADDRESS_START_PALETTE + PALETTE_RAM_SIZE;

pub const ADDRESS_START_VRAM: usize = 0x0600_0000;

pub const ADDRESS_END_VRAM: usize = ADDRESS_START_VRAM + VRAM_SIZE;

pub const ADDRESS_START_OAM: usize = 0x0700_0000;

pub const ADDRESS_END_OAM: usize = ADDRESS_START_OAM + OAM_SIZE;

pub const ADDRESS_START_GAMEPAK_WAIT0: usize = 0x0800_0000;

pub const ADDRESS_END_GAMEPAK_WAIT0: usize = ADDRESS_START_GAMEPAK_WAIT0 + GAMEPAK_MAX_FILE_SIZE;

pub const ADDRESS_START_GAMEPAK_WAIT1: usize = 0x0A00_0000;

pub const ADDRESS_END_GAMEPAK_WAIT1: usize = ADDRESS_START_GAMEPAK_WAIT1 + GAMEPAK_MAX_FILE_SIZE;

pub const ADDRESS_START_GAMEPAK_WAIT2: usize = 0x0C00_0000;

pub const ADDRESS_END_GAMEPAK_WAIT2: usize = ADDRESS_START_GAMEPAK_WAIT2 + GAMEPAK_MAX_FILE_SIZE;

pub const ADDRESS_START_GAMEPAK_SRAM: usize = 0x0E00_0000;

pub const ADDRESS_END_GAMEPAK_SRAM: usize = ADDRESS_START_GAMEPAK_SRAM + GAMEPAK_SRAM_SIZE;

/// The width of one bus access.
#[derive(Copy, Clone, Debug, PartialEq, Eq, Structural)]
pub enum AccessWidth {
    Bit8,
    Bit16,
    Bit32,
}

/// The bus wait-state cost, in cycles, of one access at the given address
/// and width, per the console's static per-region table. Each region spans
/// the half-open range from its base to its end; addresses outside every
/// region cost nothing, as the pipeline never issues them without first
/// succeeding a read or write.
pub open spec fn spec_cycles(address: int, width: AccessWidth) -> int {
    if ADDRESS_START_BIOS <= address < ADDRESS_END_BIOS {
        1
    } else if ADDRESS_START_WRAM_BOARD <= address < ADDRESS_END_WRAM_BOARD {
        match width {
            AccessWidth::Bit8 => 3,
            AccessWidth::Bit16 => 3,
            AccessWidth::Bit32 => 6,
        }
    } else if ADDRESS_START_WRAM_CHIP <= address < ADDRESS_END_WRAM_CHIP {
        1
    } else if ADDRESS_START_IO_REGISTERS <= address < ADDRESS_END_IO_REGISTERS {
        1
    } else if ADDRESS_START_PALETTE <= address < ADDRESS_END_PALETTE {
        match width {
            AccessWidth::Bit8 => 1,
            AccessWidth::Bit16 => 1,
            AccessWidth::Bit32 => 2,
        }
    } else if ADDRESS_START_VRAM <= address < ADDRESS_END_VRAM {
        match width {
            AccessWidth::Bit8 => 1,
            AccessWidth::Bit16 => 1,
            AccessWidth::Bit32 => 2,
        }
    } else if ADDRESS_START_OAM <= address < ADDRESS_END_OAM {
        1
    } else if ADDRESS_START_GAMEPAK_WAIT0 <= address < ADDRESS_END_GAMEPAK_WAIT0 {
        match width {
            AccessWidth::Bit8 => 5,
            AccessWidth::Bit16 => 5,
            AccessWidth::Bit32 => 8,
        }
    } else if ADDRESS_START_GAMEPAK_WAIT1 <= address < ADDRESS_END_GAMEPAK_WAIT1 {
        match width {
            AccessWidth::Bit8 => 5,
            AccessWidth::Bit16 => 5,
            AccessWidth::Bit32 => 8,
        }
    } else if ADDRESS_START_GAMEPAK_WAIT2 <= address < ADDRESS_END_GAMEPAK_WAIT2 {
        match width {
            AccessWidth::Bit8 => 5,
            AccessWidth::Bit16 => 5,
            AccessWidth::Bit32 => 8,
        }
    } else if ADDRESS_START_GAMEPAK_SRAM <= address < ADDRESS_END_GAMEPAK_SRAM {
        5
    } else {
        0
    }
}

/// A read-only permission row, identical under both contexts.
pub open spec fn spec_read_only() -> RegionPermissions {
    RegionPermissions { user: Permission::ReadOnly, privileged: Permission::ReadOnly }
}

/// A read-write permission row, identical under both contexts.
pub open spec fn spec_read_write() -> RegionPermissions {
    RegionPermissions { user: Permission::ReadWrite, privileged: Permission::ReadWrite }
}

/// A sequence of `n` zero bytes.
pub open spec fn zero_bytes(n: int) -> Seq<u8> {
    Seq::new(n as nat, |i: int| 0u8)
}

/// The console's region sequence for the given BIOS and gamepak images: the
/// BIOS and the three gamepak mirror windows are read-only, everything else
/// is read-write, and all RAM starts zeroed.
pub open spec fn gba_map_model(bios: Seq<u8>, rom: Seq<u8>) -> Seq<RegionModel> {
    seq![
        RegionModel { start: ADDRESS_START_BIOS as int, data: bios, perms: spec_read_only() },
        RegionModel {
            start: ADDRESS_START_WRAM_BOARD as int,
            data: zero_bytes(WRAM_ON_BOARD_SIZE as int),
            perms: spec_read_write(),
        },
        RegionModel {
            start: ADDRESS_START_WRAM_CHIP as int,
            data: zero_bytes(WRAM_ON_CHIP_SIZE as int),
            perms: spec_read_write(),
        },
        RegionModel {
            start: ADDRESS_START_IO_REGISTERS as int,
            data: zero_bytes(IO_REGISTERS_SIZE as int),
            perms: spec_read_write(),
        },
        RegionModel {
            start: ADDRESS_START_PALETTE as int,
            data: zero_bytes(PALETTE_RAM_SIZE as int),
            perms: spec_read_write(),
        },
        RegionModel {
            start: ADDRESS_START_VRAM as int,
            data: zero_bytes(VRAM_SIZE as int),
            perms: spec_read_write(),
        },
        RegionModel {
            start: ADDRESS_START_OAM as int,
            data: zero_bytes(OAM_SIZE as int),
            perms: spec_read_write(),
        },
        RegionModel { start: ADDRESS_START_GAMEPAK_WAIT0 as int, data: rom, perms: spec_read_only() },
        RegionModel { start: ADDRESS_START_GAMEPAK_WAIT1 as int, data: rom, perms: spec_read_only() },
        RegionModel { start: ADDRESS_START_GAMEPAK_WAIT2 as int, data: rom, perms: spec_read_only() },
        RegionModel {
            start: ADDRESS_START_GAMEPAK_SRAM as int,
            data: zero_bytes(GAMEPAK_SRAM_SIZE as int),
            perms: spec_read_write(),
        },
    ]
}

/// A bus that carries the console's map: the regions of `gba_map_model` for
/// some BIOS image of the fixed size and some gamepak image within the size
/// cap, with the current contents of each.
pub open spec fn is_gba_map(m: BusModel) -> bool {
    &&& bus_wf(m.regions)
    &&& m.regions.len() == 11
    &&& m.regions[0].start == ADDRESS_START_BIOS && m.regions[0].data.len() == BIOS_FILE_SIZE
        && m.regions[0].perms == spec_read_only()
    &&& m.regions[1].start == ADDRESS_START_WRAM_BOARD && m.regions[1].data.len()
        == WRAM_ON_BOARD_SIZE && m.regions[1].perms == spec_read_write()
    &&& m.regions[2].start == ADDRESS_START_WRAM_CHIP && m.regions[2].data.len()
        == WRAM_ON_CHIP_SIZE && m.regions[2].perms == spec_read_write()
    &&& m.regions[3].start == ADDRESS_START_IO_REGISTERS && m.regions[3].data.len()
        == IO_REGISTERS_SIZE && m.regions[3].perms == spec_read_write()
    &&& m.regions[4].start == ADDRESS_START_PALETTE && m.regions[4].data.len() == PALETTE_RAM_SIZE
        && m.regions[4].perms == spec_read_write()
    &&& m.regions[5].start == ADDRESS_START_VRAM && m.regions[5].data.len() == VRAM_SIZE
        && m.regions[5].perms == spec_read_write()
    &&& m.regions[6].start == ADDRESS_START_OAM && m.regions[6].data.len() == OAM_SIZE
        && m.regions[6].perms == spec_read_write()
    &&& m.regions[7].start == ADDRESS_START_GAMEPAK_WAIT0 && m.regions[7].data.len()
        <= GAMEPAK_MAX_FILE_SIZE && m.regions[7].perms == spec_read_only()
    &&& m.regions[8].start == ADDRESS_START_GAMEPAK_WAIT1 && m.regions[8].data.len()
        <= GAMEPAK_MAX_FILE_SIZE && m.regions[8].perms == spec_read_only()
    &&& m.regions[9].start == ADDRESS_START_GAMEPAK_WAIT2 && m.regions[9].data.len()
        <= GAMEPAK_MAX_FILE_SIZE && m.regions[9].perms == spec_read_only()
    &&& m.regions[10].start == ADDRESS_START_GAMEPAK_SRAM && m.regions[10].data.len()
        == GAMEPAK_SRAM_SIZE && m.regions[10].perms == spec_read_write()
}

/// A vector of `n` zero bytes.
fn zero_vec(n: usize) -> (v: Vec<u8>)
    ensures
        v@ == zero_bytes(n as int),
{
    let mut v: Vec<u8> = Vec::new();
    while v.len() < n
        invariant
            v@.len() <= n,
            forall|i: int| 0 <= i < v@.len() ==> v@[i] == 0u8,
        decreases n - v@.len(),
    {
        v.push(0u8);
    }
    assert(v@ =~= zero_bytes(n as int));
    v
}

/// The console's memory bus: the fixed map over a BIOS image and a gamepak
/// image, plus the per-address cycle-cost table.
pub struct GBAMemory(pub Memory);

impl View for GBAMemory {
    type V = BusModel;

    open spec fn view(&self) -> BusModel {
        self.0@
    }
}

impl GBAMemory {
    /// Builds the console's map over the given BIOS and gamepak images: the
    /// caller has already checked that the BIOS has exactly the fixed size
    /// and the gamepak fits the largest cartridge. The gamepak image appears
    /// in each of the three mirror windows; all RAM starts zeroed; the bus
    /// starts under the privileged context.
    pub fn new(bios_bytes: Vec<u8>, rom_bytes: Vec<u8>) -> (m: GBAMemory)
        requires
            bios_bytes@.len() == BIOS_FILE_SIZE,
            rom_bytes@.len() <= GAMEPAK_MAX_FILE_SIZE,
        ensures
            m@.regions == gba_map_model(bios_bytes@, rom_bytes@),
            m@.context == AccessContext::Privileged,
            is_gba_map(m@),
    {
        let ghost bios_view = bios_bytes@;
        let ghost rom_view = rom_bytes@;
        let rom_copy_1 = rom_bytes.clone();
        let rom_copy_2 = rom_bytes.clone();
        proof {
            assert(rom_copy_1@ =~= rom_view);
            assert(rom_copy_2@ =~= rom_view);
        }
        let read_only = RegionPermissions::uniform(Permission::ReadOnly);
        let read_write = RegionPermissions::uniform(Permission::ReadWrite);
        let mut regions: Vec<MemoryRegion> = Vec::new();
        regions.push(MemoryRegion::new(ADDRESS_START_BIOS, bios_bytes, read_only));
        regions.push(
            MemoryRegion::new(ADDRESS_START_WRAM_BOARD, zero_vec(WRAM_ON_BOARD_SIZE), read_write),
        );
        regions.push(
            MemoryRegion::new(ADDRESS_START_WRAM_CHIP, zero_vec(WRAM_ON_CHIP_SIZE), read_write),
        );
        regions.push(
            MemoryRegion::new(ADDRESS_START_IO_REGISTERS, zero_vec(IO_REGISTERS_SIZE), read_write),
        );
        regions.push(
            MemoryRegion::new(ADDRESS_START_PALETTE, zero_vec(PALETTE_RAM_SIZE), read_write),
        );
        regions.push(MemoryRegion::new(ADDRESS_START_VRAM, zero_vec(VRAM_SIZE), read_write));
        regions.push(MemoryRegion::new(ADDRESS_START_OAM, zero_vec(OAM_SIZE), read_write));
        regions.push(MemoryRegion::new(ADDRESS_START_GAMEPAK_WAIT0, rom_bytes, read_only));
        regions.push(MemoryRegion::new(ADDRESS_START_GAMEPAK_WAIT1, rom_copy_1, read_only));
        regions.push(MemoryRegion::new(ADDRESS_START_GAMEPAK_WAIT2, rom_copy_2, read_only));
        regions.push(
            MemoryRegion::new(ADDRESS_START_GAMEPAK_SRAM, zero_vec(GAMEPAK_SRAM_SIZE), read_write),
        );
        let memory = Memory::new(regions);
        proof {
            assert(memory@.regions =~= gba_map_model(bios_view, rom_view));
            lemma_gba_map_wf(bios_view, rom_view);
        }
        GBAMemory(memory)
    }

    /// The bus wait-state cost of accessing `address` at the given width,
    /// per the console's static table; a pure function with no failure mode.
    pub fn get_cycles_for_address(&self, address: usize, access_width: AccessWidth) -> (c: usize)
        ensures
            c as int == spec_cycles(address as int, access_width),
    {
        if address < ADDRESS_END_BIOS {
            1
        } else if ADDRESS_START_WRAM_BOARD <= address && address < ADDRESS_END_WRAM_BOARD {
            match access_width {
                AccessWidth::Bit8 => 3,
                AccessWidth::Bit16 => 3,
                AccessWidth::Bit32 => 6,
            }
        } else if ADDRESS_START_WRAM_CHIP <= address && address < ADDRESS_END_WRAM_CHIP {
            1
        } else if ADDRESS_START_IO_REGISTERS <= address && address < ADDRESS_END_IO_REGISTERS {
            1
        } else if ADDRESS_START_PALETTE <= address && address < ADDRESS_END_PALETTE {
            match access_width {
                AccessWidth::Bit8 => 1,
                AccessWidth::Bit16 => 1,
                AccessWidth::Bit32 => 2,
            }
        } else if ADDRESS_START_VRAM <= address && address < ADDRESS_END_VRAM {
            match access_width {
                AccessWidth::Bit8 => 1,
                AccessWidth::Bit16 => 1,
                AccessWidth::Bit32 => 2,
            }
        } else if ADDRESS_START_OAM <= address && address < ADDRESS_END_OAM {
            1
        } else if ADDRESS_START_GAMEPAK_WAIT0 <= address && address < ADDRESS_END_GAMEPAK_WAIT0 {
            match access_width {
                AccessWidth::Bit8 => 5,
                AccessWidth::Bit16 => 5,
                AccessWidth::Bit32 => 8,
            }
        } else if ADDRESS_START_GAMEPAK_WAIT1 <= address && address < ADDRESS_END_GAMEPAK_WAIT1 {
            match access_width {
                AccessWidth::Bit8 => 5,
                AccessWidth::Bit16 => 5,
                AccessWidth::Bit32 => 8,
            }
        } else if ADDRESS_START_GAMEPAK_WAIT2 <= address && address < ADDRESS_END_GAMEPAK_WAIT2 {
            match access_width {
                AccessWidth::Bit8 => 5,
                AccessWidth::Bit16 => 5,
                AccessWidth::Bit32 => 8,
            }
        } else if ADDRESS_START_GAMEPAK_SRAM <= address && address < ADDRESS_END_GAMEPAK_SRAM {
            5
        } else {
            0
        }
    }
}

/// The console's map is well formed: its eleven regions are in bounds and
/// pairwise disjoint.
pub proof fn lemma_gba_map_wf(bios: Seq<u8>, rom: Seq<u8>)
    requires
        bios.len() == BIOS_FILE_SIZE,
        rom.len() <= GAMEPAK_MAX_FILE_SIZE,
    ensures
        is_gba_map(BusModel { regions: gba_map_model(bios, rom), context: AccessContext::Privileged }),
        is_gba_map(BusModel { regions: gba_map_model(bios, rom), context: AccessContext::User }),
{
}

/// Every address inside a region of the console's map costs at least one bus
/// cycle at any width.
pub proof fn lemma_gba_addr_costed(m: BusModel, address: int, width: AccessWidth)
    requires
        is_gba_map(m),
        has_region(m.regions, address),
    ensures
        spec_cycles(address, width) >= 1,
{
    let i = region_index(m.regions, address);
    assert(0 <= i < 11 && region_contains(m.regions[i], address));
    if i == 0 {
        assert(spec_cycles(address, width) >= 1);
    } else if i == 1 {
        assert(spec_cycles(address, width) >= 1);
    } else if i == 2 {
        assert(spec_cycles(address, width) >= 1);
    } else if i == 3 {
        assert(spec_cycles(address, width) >= 1);
    } else if i == 4 {
        assert(spec_cycles(address, width) >= 1);
    } else if i == 5 {
        assert(spec_cycles(address, width) >= 1);
    } else if i == 6 {
        assert(spec_cycles(address, width) >= 1);
    } else if i == 7 {
        assert(spec_cycles(address, width) >= 1);
    } else if i == 8 {
        assert(spec_cycles(address, width) >= 1);
    } else if i == 9 {
        assert(spec_cycles(address, width) >= 1);
    } else {
        assert(spec_cycles(address, width) >= 1);
    }
}

} // verus!
