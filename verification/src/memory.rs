//! The segmented memory bus: a fixed partition of the address space into
//! regions, each with its own byte storage and per-context access permissions.
//!
//! A single read or write must fall entirely inside one region; an access that
//! starts in one region and runs into the next is rejected, never truncated.

use vstd::pervasive::VecAdditionalExecFns;
use vstd::prelude::*;

verus! {

/// The token against which the bus resolves per-region read/write permission.
#[derive(Copy, Clone, Debug, PartialEq, Eq, Structural)]
pub enum AccessContext {
    User,
    Privileged,
}

/// What one access context may do with one region.
#[derive(Copy, Clone, Debug, PartialEq, Eq, Structural)]
pub enum Permission {
    NoAccess,
    ReadOnly,
    ReadWrite,
}

/// One permission per access context.
#[derive(Copy, Clone, Debug, PartialEq, Eq, Structural)]
pub struct RegionPermissions {
    pub user: Permission,
    pub privileged: Permission,
}

/// The permission a region grants under a given context.
pub open spec fn perm_for(perms: RegionPermissions, context: AccessContext) -> Permission {
    match context {
        AccessContext::User => perms.user,
        AccessContext::Privileged => perms.privileged,
    }
}

/// A permission that admits reads.
pub open spec fn allows_read(p: Permission) -> bool {
    p == Permission::ReadOnly || p == Permission::ReadWrite
}

/// A permission that admits writes.
pub open spec fn allows_write(p: Permission) -> bool {
    p == Permission::ReadWrite
}

impl RegionPermissions {
    /// The same rights under every access context.
    pub fn uniform(p: Permission) -> (r: RegionPermissions)
        ensures
            r.user == p,
            r.privileged == p,
    {
        RegionPermissions { user: p, privileged: p }
    }

    /// The permission this set grants under `context`.
    pub fn for_context(&self, context: AccessContext) -> (p: Permission)
        ensures
            p == perm_for(*self, context),
    {
        match context {
            AccessContext::User => self.user,
            AccessContext::Privileged => self.privileged,
        }
    }
}

pub type MemoryResult<T> = Result<T, MemoryError>;

/// How a bus access can fail.
#[derive(Copy, Clone, Debug, PartialEq, Eq, Structural)]
pub enum MemoryError {
    /// No region contains the access's start address.
    NoMatchingRegion,
    /// The access starts inside a region but does not fit inside it.
    CrossRegionAccess,
    /// The active access context lacks the needed permission on the region.
    PermissionDenied,
}

/// The mathematical model of one region: its base address, its bytes, and its
/// permission row.
pub ghost struct RegionModel {
    pub start: int,
    pub data: Seq<u8>,
    pub perms: RegionPermissions,
}

/// The mathematical model of the whole bus.
pub ghost struct BusModel {
    pub regions: Seq<RegionModel>,
    pub context: AccessContext,
}

/// A region's span stays inside the machine's address range.
pub open spec fn region_wf(r: RegionModel) -> bool {
    0 <= r.start && r.start + r.data.len() - 1 <= usize::MAX
}

/// Two regions cover disjoint address ranges.
pub open spec fn regions_disjoint(a: RegionModel, b: RegionModel) -> bool {
    a.start + a.data.len() <= b.start || b.start + b.data.len() <= a.start
}

/// Every region is well formed and no two regions overlap.
pub open spec fn bus_wf(rs: Seq<RegionModel>) -> bool {
    &&& forall|i: int| 0 <= i < rs.len() ==> region_wf(#[trigger] rs[i])
    &&& forall|i: int, j: int|
        0 <= i < j < rs.len() ==> regions_disjoint(#[trigger] rs[i], #[trigger] rs[j])
}

/// `addr` lies inside region `r`.
pub open spec fn region_contains(r: RegionModel, addr: int) -> bool {
    r.start <= addr < r.start + r.data.len()
}

/// The whole span `[addr, addr + len)` lies inside region `r`.
pub open spec fn region_contains_span(r: RegionModel, addr: int, len: int) -> bool {
    r.start <= addr && addr + len <= r.start + r.data.len()
}

/// Some region contains `addr`.
pub open spec fn has_region(rs: Seq<RegionModel>, addr: int) -> bool {
    exists|i: int| 0 <= i < rs.len() && region_contains(#[trigger] rs[i], addr)
}

/// The index of the region containing `addr` (unique when the bus is well
/// formed and some region contains `addr`).
pub open spec fn region_index(rs: Seq<RegionModel>, addr: int) -> int {
    choose|i: int| 0 <= i < rs.len() && region_contains(#[trigger] rs[i], addr)
}

/// `data` with the bytes at `[at, at + new.len())` replaced by `new`.
pub open spec fn splice(data: Seq<u8>, at: int, new: Seq<u8>) -> Seq<u8> {
    data.subrange(0, at) + new + data.subrange(at + new.len(), data.len() as int)
}

/// What a read of `len` bytes at `addr` returns: the bytes on success, or the
/// first failure among no-region, cross-region, and permission denial.
pub open spec fn spec_read(
    rs: Seq<RegionModel>,
    context: AccessContext,
    addr: int,
    len: int,
) -> Result<Seq<u8>, MemoryError> {
    if !has_region(rs, addr) {
        Err(MemoryError::NoMatchingRegion)
    } else {
        let r = rs[region_index(rs, addr)];
        if !region_contains_span(r, addr, len) {
            Err(MemoryError::CrossRegionAccess)
        } else if !allows_read(perm_for(r.perms, context)) {
            Err(MemoryError::PermissionDenied)
        } else {
            Ok(r.data.subrange(addr - r.start, addr - r.start + len))
        }
    }
}

/// What a write of `data` at `addr` does: the updated regions on success, or
/// the first failure among no-region, cross-region, and permission denial.
pub open spec fn spec_write(
    rs: Seq<RegionModel>,
    context: AccessContext,
    addr: int,
    data: Seq<u8>,
) -> Result<Seq<RegionModel>, MemoryError> {
    if !has_region(rs, addr) {
        Err(MemoryError::NoMatchingRegion)
    } else {
        let i = region_index(rs, addr);
        let r = rs[i];
        if !region_contains_span(r, addr, data.len() as int) {
            Err(MemoryError::CrossRegionAccess)
        } else if !allows_write(perm_for(r.perms, context)) {
            Err(MemoryError::PermissionDenied)
        } else {
            Ok(rs.update(i, RegionModel { data: splice(r.data, addr - r.start, data), ..r }))
        }
    }
}

/// On a well-formed bus the region containing an address is unique, so the
/// chosen index agrees with any witness.
pub proof fn lemma_region_index_is(rs: Seq<RegionModel>, addr: int, i: int)
    requires
        bus_wf(rs),
        0 <= i < rs.len(),
        region_contains(rs[i], addr),
    ensures
        has_region(rs, addr),
        region_index(rs, addr) == i,
{
    assert(has_region(rs, addr));
    let j = region_index(rs, addr);
    if i < j {
        assert(regions_disjoint(rs[i], rs[j]));
    } else if j < i {
        assert(regions_disjoint(rs[j], rs[i]));
    }
}

/// A region that stores bytes starting at a fixed base address, guarded by a
/// permission row.
pub struct MemoryRegion {
    start_address: usize,
    bytes: Vec<u8>,
    permissions: RegionPermissions,
}

impl View for MemoryRegion {
    type V = RegionModel;

    closed spec fn view(&self) -> RegionModel {
        RegionModel {
            start: self.start_address as int,
            data: self.bytes@,
            perms: self.permissions,
        }
    }
}

impl MemoryRegion {
    /// A region over `bytes`, based at `start_address`. The span must fit in
    /// the machine's address range.
    pub fn new(start_address: usize, bytes: Vec<u8>, permissions: RegionPermissions) -> (r:
        MemoryRegion)
        requires
            start_address + bytes@.len() - 1 <= usize::MAX,
        ensures
            r@.start == start_address,
            r@.data == bytes@,
            r@.perms == permissions,
            region_wf(r@),
    {
        MemoryRegion { start_address, bytes, permissions }
    }

    /// The address of the region's last byte.
    pub fn end_address(&self) -> (e: usize)
        requires
            self@.data.len() >= 1,
            region_wf(self@),
        ensures
            e == self@.start + self@.data.len() - 1,
    {
        self.start_address + (self.bytes.len() - 1)
    }

    /// Copies `buffer.len()` bytes starting at `address` into `buffer`.
    /// May be called only when `address` lies inside this region.
    fn read(&self, context: AccessContext, address: usize, buffer: &mut Vec<u8>) -> (r:
        MemoryResult<()>)
        requires
            region_contains(self@, address as int),
        ensures
            final(buffer)@.len() == old(buffer)@.len(),
            (if !region_contains_span(self@, address as int, old(buffer)@.len() as int) {
                r == Err::<(), MemoryError>(MemoryError::CrossRegionAccess) && final(buffer)@
                    == old(buffer)@
            } else if !allows_read(perm_for(self@.perms, context)) {
                r == Err::<(), MemoryError>(MemoryError::PermissionDenied) && final(buffer)@
                    == old(buffer)@
            } else {
                r == Ok::<(), MemoryError>(()) && final(buffer)@ == self@.data.subrange(
                    address - self@.start,
                    address - self@.start + old(buffer)@.len(),
                )
            }),
    {
        let start_index = address - self.start_address;
        if buffer.len() > self.bytes.len() - start_index {
            return Err(MemoryError::CrossRegionAccess);
        }
        match self.permissions.for_context(context) {
            Permission::NoAccess => {
                return Err(MemoryError::PermissionDenied);
            },
            Permission::ReadOnly => {},
            Permission::ReadWrite => {},
        }
        let len = buffer.len();
        let mut k: usize = 0;
        while k < len
            invariant
                len == buffer@.len(),
                k <= len,
                start_index == address - self@.start,
                start_index + len <= self@.data.len(),
                start_index + len <= usize::MAX,
                self@.data == self.bytes@,
                forall|j: int| 0 <= j < k ==> buffer@[j] == self@.data[start_index + j],
            decreases len - k,
        {
            let b = self.bytes[start_index + k];
            buffer.set(k, b);
            k = k + 1;
        }
        assert(buffer@ =~= self@.data.subrange(
            address - self@.start,
            address - self@.start + len,
        ));
        Ok(())
    }

    /// Writes `buffer` into the region's storage starting at `address`.
    /// May be called only when `address` lies inside this region.
    fn write(&mut self, context: AccessContext, address: usize, buffer: &Vec<u8>) -> (r:
        MemoryResult<()>)
        requires
            region_contains(old(self)@, address as int),
        ensures
            (if !region_contains_span(old(self)@, address as int, buffer@.len() as int) {
                &&& r == Err::<(), MemoryError>(MemoryError::CrossRegionAccess)
                &&& final(self)@ == old(self)@
            } else if !allows_write(perm_for(old(self)@.perms, context)) {
                &&& r == Err::<(), MemoryError>(MemoryError::PermissionDenied)
                &&& final(self)@ == old(self)@
            } else {
                &&& r == Ok::<(), MemoryError>(())
                &&& final(self)@.start == old(self)@.start
                &&& final(self)@.perms == old(self)@.perms
                &&& final(self)@.data == splice(
                    old(self)@.data,
                    address - old(self)@.start,
                    buffer@,
                )
            }),
    {
        let start_index = address - self.start_address;
        if buffer.len() > self.bytes.len() - start_index {
            return Err(MemoryError::CrossRegionAccess);
        }
        match self.permissions.for_context(context) {
            Permission::NoAccess => {
                return Err(MemoryError::PermissionDenied);
            },
            Permission::ReadOnly => {
                return Err(MemoryError::PermissionDenied);
            },
            Permission::ReadWrite => {},
        }
        let len = buffer.len();
        let mut k: usize = 0;
        while k < len
            invariant
                len == buffer@.len(),
                k <= len,
                start_index == address - old(self)@.start,
                start_index + len <= old(self)@.data.len(),
                start_index + len <= usize::MAX,
                self@.start == old(self)@.start,
                self@.perms == old(self)@.perms,
                self@.data.len() == old(self)@.data.len(),
                forall|j: int|
                    0 <= j < self@.data.len() ==> self@.data[j] == (if start_index <= j
                        < start_index + k {
                        buffer@[j - start_index]
                    } else {
                        old(self)@.data[j]
                    }),
            decreases len - k,
        {
            let b = buffer[k];
            self.bytes.set(start_index + k, b);
            k = k + 1;
        }
        assert(self@.data =~= splice(old(self)@.data, address - old(self)@.start, buffer@));
        Ok(())
    }
}

/// The memory bus: an ordered sequence of non-overlapping regions and the
/// access context currently in force.
pub struct Memory {
    regions: Vec<MemoryRegion>,
    current_access_context: AccessContext,
}

impl View for Memory {
    type V = BusModel;

    closed spec fn view(&self) -> BusModel {
        BusModel {
            regions: self.regions@.map_values(|r: MemoryRegion| r@),
            context: self.current_access_context,
        }
    }
}

impl Memory {
    /// A bus over the given regions, initially under the privileged access
    /// context. The regions must not overlap for reads and writes to be
    /// meaningful; that obligation is carried by `bus_wf` on each access.
    pub fn new(regions: Vec<MemoryRegion>) -> (m: Memory)
        ensures
            m@.regions == regions@.map_values(|r: MemoryRegion| r@),
            m@.context == AccessContext::Privileged,
    {
        Memory { regions, current_access_context: AccessContext::Privileged }
    }

    /// Switches which permission row later reads and writes consult.
    pub fn set_access_context(&mut self, context: AccessContext)
        ensures
            final(self)@.regions == old(self)@.regions,
            final(self)@.context == context,
    {
        self.current_access_context = context;
    }

    /// The first region containing `address`, or `NoMatchingRegion`.
    fn find_region(&self, address: usize) -> (r: MemoryResult<&MemoryRegion>)
        requires
            bus_wf(self@.regions),
        ensures
            (match r {
                Ok(region) => has_region(self@.regions, address as int) && region@
                    == self@.regions[region_index(self@.regions, address as int)],
                Err(e) => e == MemoryError::NoMatchingRegion && !has_region(
                    self@.regions,
                    address as int,
                ),
            }),
    {
        let n = self.regions.len();
        let mut i: usize = 0;
        while i < n
            invariant
                n == self.regions@.len(),
                i <= n,
                bus_wf(self@.regions),
                self@.regions == self.regions@.map_values(|r: MemoryRegion| r@),
                forall|j: int| 0 <= j < i ==> !region_contains(self@.regions[j], address as int),
            decreases n - i,
        {
            let region = &self.regions[i];
            if region.start_address <= address && address - region.start_address
                < region.bytes.len() {
                proof {
                    lemma_region_index_is(self@.regions, address as int, i as int);
                }
                return Ok(region);
            }
            i = i + 1;
        }
        Err(MemoryError::NoMatchingRegion)
    }

    /// Like `find_region`, but yields the region mutably.
    fn find_region_mut(&mut self, address: usize) -> (r: MemoryResult<&mut MemoryRegion>)
        requires
            bus_wf(old(self)@.regions),
        ensures
            (match r {
                Ok(region) => {
                    let idx = region_index(old(self)@.regions, address as int);
                    &&& has_region(old(self)@.regions, address as int)
                    &&& 0 <= idx < old(self)@.regions.len()
                    &&& (*region)@ == old(self)@.regions[idx]
                    &&& final(self)@.regions.len() == old(self)@.regions.len()
                    &&& final(self)@.regions[idx] == (*final(region))@
                    &&& forall|j: int|
                        0 <= j < old(self)@.regions.len() && j != idx ==> final(self)@.regions[j]
                            == old(self)@.regions[j]
                    &&& final(self)@.context == old(self)@.context
                },
                Err(e) => e == MemoryError::NoMatchingRegion && !has_region(
                    old(self)@.regions,
                    address as int,
                ) && final(self)@ == old(self)@,
            }),
    {
        let n = self.regions.len();
        let mut i: usize = 0;
        while i < n
            invariant
                *self == *old(self),
                n == self.regions@.len(),
                i <= n,
                bus_wf(self@.regions),
                self@.regions == self.regions@.map_values(|r: MemoryRegion| r@),
                forall|j: int| 0 <= j < i ==> !region_contains(self@.regions[j], address as int),
            decreases n - i,
        {
            let hit = {
                let region = &self.regions[i];
                region.start_address <= address && address - region.start_address
                    < region.bytes.len()
            };
            if hit {
                proof {
                    lemma_region_index_is(self@.regions, address as int, i as int);
                }
                let region = &mut self.regions[i];
                return Ok(region);
            }
            i = i + 1;
        }
        Err(MemoryError::NoMatchingRegion)
    }

    /// Reads `buffer.len()` bytes starting at `address` into `buffer`:
    /// locates the single region containing the whole span, checks the active
    /// context's read permission, and copies the bytes verbatim.
    pub fn read(&self, address: usize, buffer: &mut Vec<u8>) -> (r: MemoryResult<()>)
        requires
            bus_wf(self@.regions),
        ensures
            final(buffer)@.len() == old(buffer)@.len(),
            (match spec_read(self@.regions, self@.context, address as int, old(buffer)@.len() as int) {
                Ok(bytes) => r == Ok::<(), MemoryError>(()) && final(buffer)@ == bytes,
                Err(e) => r == Err::<(), MemoryError>(e) && final(buffer)@ == old(buffer)@,
            }),
    {
        let region = match self.find_region(address) {
            Ok(region) => region,
            Err(e) => {
                return Err(e);
            },
        };
        region.read(self.current_access_context, address, buffer)
    }

    /// Writes `buffer` at `address`: the same region and permission
    /// resolution as `read`, mutating the target region's storage in place.
    pub fn write(&mut self, address: usize, buffer: &Vec<u8>) -> (r: MemoryResult<()>)
        requires
            bus_wf(old(self)@.regions),
        ensures
            final(self)@.context == old(self)@.context,
            (match spec_write(old(self)@.regions, old(self)@.context, address as int, buffer@) {
                Ok(rs2) => r == Ok::<(), MemoryError>(()) && final(self)@.regions == rs2,
                Err(e) => r == Err::<(), MemoryError>(e) && final(self)@ == old(self)@,
            }),
    {
        let context = self.current_access_context;
        let region = match self.find_region_mut(address) {
            Ok(region) => region,
            Err(e) => {
                return Err(e);
            },
        };
        let result = region.write(context, address, buffer);
        proof {
            let rs = old(self)@.regions;
            let idx = region_index(rs, address as int);
            if result is Ok {
                assert(self@.regions =~= spec_write(
                    rs,
                    old(self)@.context,
                    address as int,
                    buffer@,
                ).unwrap());
            } else {
                assert(self@.regions =~= rs);
            }
        }
        result
    }
}

/// A successful write leaves a well-formed bus.
pub proof fn lemma_spec_write_preserves_wf(
    rs: Seq<RegionModel>,
    context: AccessContext,
    addr: int,
    data: Seq<u8>,
)
    requires
        bus_wf(rs),
        spec_write(rs, context, addr, data) is Ok,
    ensures
        bus_wf(spec_write(rs, context, addr, data).unwrap()),
        spec_write(rs, context, addr, data).unwrap().len() == rs.len(),
{
    let i = region_index(rs, addr);
    let r = rs[i];
    let rs2 = spec_write(rs, context, addr, data).unwrap();
    assert(splice(r.data, addr - r.start, data).len() == r.data.len());
    assert forall|k: int| 0 <= k < rs2.len() implies region_wf(#[trigger] rs2[k]) by {
        assert(region_wf(rs[k]));
    }
    assert forall|k: int, l: int| 0 <= k < l < rs2.len() implies regions_disjoint(
        #[trigger] rs2[k],
        #[trigger] rs2[l],
    ) by {
        assert(regions_disjoint(rs[k], rs[l]));
    }
}

/// Writing a byte sequence fully inside one region and reading it back at the
/// same address and length yields the identical bytes.
pub proof fn lemma_write_read_round_trip(
    rs: Seq<RegionModel>,
    context: AccessContext,
    addr: int,
    data: Seq<u8>,
)
    requires
        bus_wf(rs),
        spec_write(rs, context, addr, data) is Ok,
    ensures
        spec_read(spec_write(rs, context, addr, data).unwrap(), context, addr, data.len() as int)
            == Ok::<Seq<u8>, MemoryError>(data),
{
    let i = region_index(rs, addr);
    let r = rs[i];
    let rs2 = spec_write(rs, context, addr, data).unwrap();
    lemma_spec_write_preserves_wf(rs, context, addr, data);
    assert(splice(r.data, addr - r.start, data).len() == r.data.len());
    lemma_region_index_is(rs2, addr, i);
    let r2 = rs2[i];
    assert(region_contains_span(r2, addr, data.len() as int));
    assert(allows_read(perm_for(r2.perms, context)));
    let at = addr - r.start;
    assert(r2.data.subrange(at, at + data.len()) =~= data);
}

/// An access that starts inside a region but runs past its end fails with the
/// cross-region error, both as a read and as a write; it never wraps and
/// never partially succeeds.
pub proof fn lemma_cross_region_rejected(
    rs: Seq<RegionModel>,
    context: AccessContext,
    addr: int,
    data: Seq<u8>,
    i: int,
)
    requires
        bus_wf(rs),
        0 <= i < rs.len(),
        region_contains(rs[i], addr),
        addr + data.len() > rs[i].start + rs[i].data.len(),
    ensures
        spec_read(rs, context, addr, data.len() as int) == Err::<Seq<u8>, MemoryError>(
            MemoryError::CrossRegionAccess,
        ),
        spec_write(rs, context, addr, data) == Err::<Seq<RegionModel>, MemoryError>(
            MemoryError::CrossRegionAccess,
        ),
{
    lemma_region_index_is(rs, addr, i);
}

/// Under a context whose permission on the target region is read-only, a
/// contained write is rejected with a permission error while the same read
/// succeeds.
pub proof fn lemma_read_only_region(
    rs: Seq<RegionModel>,
    context: AccessContext,
    addr: int,
    data: Seq<u8>,
    i: int,
)
    requires
        bus_wf(rs),
        0 <= i < rs.len(),
        region_contains(rs[i], addr),
        region_contains_span(rs[i], addr, data.len() as int),
        perm_for(rs[i].perms, context) == Permission::ReadOnly,
    ensures
        spec_write(rs, context, addr, data) == Err::<Seq<RegionModel>, MemoryError>(
            MemoryError::PermissionDenied,
        ),
        spec_read(rs, context, addr, data.len() as int) is Ok,
{
    lemma_region_index_is(rs, addr, i);
}

/// Under a context with no access to the target region, contained reads and
/// writes are both rejected with a permission error.
pub proof fn lemma_no_access_region(
    rs: Seq<RegionModel>,
    context: AccessContext,
    addr: int,
    data: Seq<u8>,
    i: int,
)
    requires
        bus_wf(rs),
        0 <= i < rs.len(),
        region_contains(rs[i], addr),
        region_contains_span(rs[i], addr, data.len() as int),
        perm_for(rs[i].perms, context) == Permission::NoAccess,
    ensures
        spec_read(rs, context, addr, data.len() as int) == Err::<Seq<u8>, MemoryError>(
            MemoryError::PermissionDenied,
        ),
        spec_write(rs, context, addr, data) == Err::<Seq<RegionModel>, MemoryError>(
            MemoryError::PermissionDenied,
        ),
{
    lemma_region_index_is(rs, addr, i);
}

} // verus!
