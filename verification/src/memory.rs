//! Memory bus: backing storage blocks (`Ram`) with independent read/write
//! permission bits, and an ordered region map (`MemmoryMapper`) that resolves
//! a 16-bit address to the first registered region containing it.
//!
//! Failure semantics are hardware-faithful: a read of an unmapped or
//! non-readable address returns 0, and a write to an unmapped or non-writable
//! address is silently dropped.

use vstd::prelude::*;

verus! {

/// The kinds of memory area a region can back; read-only storage is selected
/// by the `Rom` kind.
#[derive(Clone, Copy, Debug, PartialEq, Eq, Structural)]
pub enum MemoryTypes {
    Rom,
    VRam,
    SRam,
    WRam,
    OAm,
    HRam,
}

/// Mathematical model of one storage block: its bytes and permission bits.
#[verifier::ext_equal]
pub ghost struct RamV {
    pub data: Seq<u8>,
    pub readable: bool,
    pub writable: bool,
}

/// One backing storage block with read/write permission bits.
pub struct Ram {
    data: Vec<u8>,
    readable: bool,
    writable: bool,
}

impl View for Ram {
    type V = RamV;

    closed spec fn view(&self) -> RamV {
        RamV { data: self.data@, readable: self.readable, writable: self.writable }
    }
}

impl Ram {
    /// A zero-filled block of `size` bytes, readable and writable.
    pub fn new(size: u16) -> (ram: Ram)
        ensures
            ram@.data.len() == size as nat,
            forall|i: int| 0 <= i < size as int ==> ram@.data[i] == 0u8,
            ram@.readable,
            ram@.writable,
    {
        let mut data: Vec<u8> = Vec::new();
        let mut i: u16 = 0;
        while i < size
            invariant
                i <= size,
                data@.len() == i as nat,
                forall|j: int| 0 <= j < i as int ==> data@[j] == 0u8,
            decreases size - i,
        {
            data.push(0u8);
            i = i + 1;
        }
        Ram { data, readable: true, writable: true }
    }

    /// A zero-filled block whose permissions follow the memory kind:
    /// `Rom` is read-only, every other kind is readable and writable.
    pub fn new_typed(size: u16, ram_type: MemoryTypes) -> (ram: Ram)
        ensures
            ram@.data.len() == size as nat,
            forall|i: int| 0 <= i < size as int ==> ram@.data[i] == 0u8,
            ram@.readable,
            ram@.writable == !(ram_type is Rom),
    {
        let mut ram = Ram::new(size);
        match ram_type {
            MemoryTypes::Rom => {
                ram.writable = false;
            },
            _ => {},
        }
        ram
    }

    pub fn set_readable(&mut self, readable: bool)
        ensures
            final(self)@ == (RamV { readable, ..old(self)@ }),
    {
        self.readable = readable;
    }

    pub fn set_writable(&mut self, writable: bool)
        ensures
            final(self)@ == (RamV { writable, ..old(self)@ }),
    {
        self.writable = writable;
    }

    pub fn read(&self, addr: u16) -> (value: u8)
        requires
            (addr as int) < self@.data.len(),
        ensures
            value == self@.data[addr as int],
    {
        self.data[addr as usize]
    }

    /// Little-endian 16-bit read: low byte at `addr`, high byte at `addr + 1`.
    pub fn readu16(&self, addr: u16) -> (value: u16)
        requires
            (addr as int) + 1 < self@.data.len(),
        ensures
            value == word_of(self@.data[addr as int], self@.data[addr as int + 1]),
    {
        let lo = self.data[addr as usize];
        let hi = self.data[addr as usize + 1];
        lo as u16 + (hi as u16) * 256
    }

    /// Little-endian 16-bit write: low byte at `addr`, high byte at `addr + 1`.
    pub fn writeu16(&mut self, addr: u16, value: u16)
        requires
            (addr as int) + 1 < old(self)@.data.len(),
        ensures
            final(self)@ == (RamV {
                data: old(self)@.data
                    .update(addr as int, lo_byte(value))
                    .update(addr as int + 1, hi_byte(value)),
                ..old(self)@
            }),
    {
        self.data[addr as usize] = (value % 256) as u8;
        self.data[addr as usize + 1] = (value / 256) as u8;
    }

    pub fn is_readable(&self) -> (b: bool)
        ensures
            b == self@.readable,
    {
        self.readable
    }

    pub fn is_writable(&self) -> (b: bool)
        ensures
            b == self@.writable,
    {
        self.writable
    }

    pub fn write(&mut self, addr: u16, value: u8)
        requires
            (addr as int) < old(self)@.data.len(),
        ensures
            final(self)@ == (RamV {
                data: old(self)@.data.update(addr as int, value),
                ..old(self)@
            }),
    {
        self.data[addr as usize] = value;
    }
}

/// Mathematical model of one registered bus region: its inclusive address
/// range and the model of its storage block.
#[verifier::ext_equal]
pub ghost struct RegionV {
    pub start: u16,
    pub end: u16,
    pub ram: RamV,
}

/// A region's storage covers its address range exactly: one byte per address
/// of the inclusive range `[start, end]`.
pub open spec fn region_wf(r: RegionV) -> bool {
    &&& r.start <= r.end
    &&& r.ram.data.len() == r.end - r.start + 1
}

pub open spec fn regions_wf(regions: Seq<RegionV>) -> bool {
    forall|i: int| 0 <= i < regions.len() ==> region_wf(#[trigger] regions[i])
}

pub open spec fn region_contains(r: RegionV, addr: u16) -> bool {
    r.start <= addr && addr <= r.end
}

/// Index of the first region at or after position `i` whose range contains
/// `addr`; registration order decides which region wins on overlap.
pub open spec fn first_match_from(regions: Seq<RegionV>, addr: u16, i: int) -> Option<int>
    decreases regions.len() - i when 0 <= i <= regions.len()
{
    if i >= regions.len() {
        None
    } else if region_contains(regions[i], addr) {
        Some(i)
    } else {
        first_match_from(regions, addr, i + 1)
    }
}

pub open spec fn first_match(regions: Seq<RegionV>, addr: u16) -> Option<int> {
    first_match_from(regions, addr, 0)
}

/// What a bus read returns: the byte of the first matching readable region at
/// the local offset, and 0 for an unmapped address or a non-readable region.
pub open spec fn bus_read_spec(regions: Seq<RegionV>, addr: u16) -> u8 {
    match first_match(regions, addr) {
        None => 0u8,
        Some(i) => {
            let r = regions[i];
            if r.ram.readable && 0 <= addr - r.start < r.ram.data.len() {
                r.ram.data[addr - r.start]
            } else {
                0u8
            }
        },
    }
}

/// What a bus write leaves behind: the first matching writable region with
/// the byte at the local offset replaced, and everything else unchanged; a
/// write to an unmapped address or a non-writable region is dropped.
pub open spec fn bus_write_spec(regions: Seq<RegionV>, addr: u16, value: u8) -> Seq<RegionV> {
    match first_match(regions, addr) {
        None => regions,
        Some(i) => {
            let r = regions[i];
            if r.ram.writable && 0 <= addr - r.start < r.ram.data.len() {
                regions.update(i, RegionV {
                    ram: RamV { data: r.ram.data.update(addr - r.start, value), ..r.ram },
                    ..r
                })
            } else {
                regions
            }
        },
    }
}

/// Little-endian 16-bit composition: low byte first.
pub open spec fn word_of(lo: u8, hi: u8) -> u16 {
    (lo + hi * 256) as u16
}

pub open spec fn lo_byte(v: u16) -> u8 {
    (v % 256) as u8
}

pub open spec fn hi_byte(v: u16) -> u8 {
    (v / 256) as u8
}

struct MappedRegion {
    start: u16,
    end: u16,
    ram: Ram,
}

/// The memory bus: an ordered sequence of regions. The first region whose
/// range contains an address owns the access; overlap is resolved by
/// registration order and never validated.
pub struct MemmoryMapper {
    regions: Vec<MappedRegion>,
}

impl View for MemmoryMapper {
    type V = Seq<RegionV>;

    closed spec fn view(&self) -> Seq<RegionV> {
        Seq::new(self.regions@.len(), |i: int| RegionV {
            start: self.regions@[i].start,
            end: self.regions@[i].end,
            ram: self.regions@[i].ram@,
        })
    }
}

impl MemmoryMapper {
    pub open spec fn wf(&self) -> bool {
        regions_wf(self@)
    }

    pub fn new() -> (mapper: MemmoryMapper)
        ensures
            mapper@ == Seq::<RegionV>::empty(),
            mapper.wf(),
    {
        let mapper = MemmoryMapper { regions: Vec::new() };
        proof {
            assert(mapper@ =~= Seq::<RegionV>::empty());
        }
        mapper
    }

    /// Appends a region backed by `ram` for the inclusive range
    /// `[start, end]`; no validation against already registered regions.
    pub fn add_region(&mut self, start: u16, end: u16, ram: Ram)
        requires
            old(self).wf(),
            start <= end,
            ram@.data.len() == end - start + 1,
        ensures
            final(self).wf(),
            final(self)@ == old(self)@.push(RegionV { start, end, ram: ram@ }),
    {
        let ghost ram_v = ram@;
        self.regions.push(MappedRegion { start, end, ram });
        proof {
            assert(self@ =~= old(self)@.push(RegionV { start, end, ram: ram_v }));
        }
    }

    /// Position of the first region containing `addr`, in registration order.
    fn find_region_idx(&self, addr: u16) -> (r: Option<usize>)
        ensures
            match r {
                None => first_match(self@, addr) is None,
                Some(i) => {
                    &&& first_match(self@, addr) == Some(i as int)
                    &&& (i as int) < self@.len()
                    &&& region_contains(self@[i as int], addr)
                },
            },
    {
        let n = self.regions.len();
        let mut i: usize = 0;
        while i < n
            invariant
                i <= n,
                n == self.regions.len(),
                first_match(self@, addr) == first_match_from(self@, addr, i as int),
            decreases n - i,
        {
            if addr >= self.regions[i].start && addr <= self.regions[i].end {
                return Some(i);
            }
            i = i + 1;
        }
        None
    }

    /// A borrow of the storage of the first region containing `addr`, or
    /// `None` when no registered region contains it.
    pub fn find_region(&self, addr: u16) -> (r: Option<&Ram>)
        ensures
            match r {
                None => first_match(self@, addr) is None,
                Some(ram) => {
                    &&& first_match(self@, addr) is Some
                    &&& ram@ == self@[first_match(self@, addr)->Some_0].ram
                },
            },
    {
        match self.find_region_idx(addr) {
            None => None,
            Some(i) => Some(&self.regions[i].ram),
        }
    }

    pub fn read(&self, addr: u16) -> (value: u8)
        requires
            self.wf(),
        ensures
            value == bus_read_spec(self@, addr),
    {
        match self.find_region_idx(addr) {
            None => 0,
            Some(i) => {
                let region = &self.regions[i];
                if region.ram.is_readable() {
                    region.ram.read(addr - region.start)
                } else {
                    0
                }
            },
        }
    }

    pub fn write(&mut self, addr: u16, value: u8)
        requires
            old(self).wf(),
        ensures
            final(self).wf(),
            final(self)@ == bus_write_spec(old(self)@, addr, value),
    {
        let idx = self.find_region_idx(addr);
        match idx {
            None => {},
            Some(i) => {
                let region = &mut self.regions[i];
                let start = region.start;
                if region.ram.is_writable() {
                    region.ram.write(addr - start, value);
                }
            },
        }
        proof {
            assert(self@ =~~= bus_write_spec(old(self)@, addr, value));
        }
    }

    /// Toggles the readable permission of the first region containing
    /// `addr`, leaving its storage untouched; a no-op for an unmapped
    /// address.
    pub fn set_region_readable(&mut self, addr: u16, readable: bool)
        requires
            old(self).wf(),
        ensures
            final(self).wf(),
            final(self)@ == bus_set_readable_spec(old(self)@, addr, readable),
    {
        let idx = self.find_region_idx(addr);
        match idx {
            None => {},
            Some(i) => {
                let region = &mut self.regions[i];
                region.ram.set_readable(readable);
            },
        }
        proof {
            assert(self@ =~~= bus_set_readable_spec(old(self)@, addr, readable));
        }
    }

    /// Toggles the writable permission of the first region containing
    /// `addr`, leaving its storage untouched; a no-op for an unmapped
    /// address.
    pub fn set_region_writable(&mut self, addr: u16, writable: bool)
        requires
            old(self).wf(),
        ensures
            final(self).wf(),
            final(self)@ == bus_set_writable_spec(old(self)@, addr, writable),
    {
        let idx = self.find_region_idx(addr);
        match idx {
            None => {},
            Some(i) => {
                let region = &mut self.regions[i];
                region.ram.set_writable(writable);
            },
        }
        proof {
            assert(self@ =~~= bus_set_writable_spec(old(self)@, addr, writable));
        }
    }

    /// Little-endian 16-bit read; each byte goes through the same
    /// single-region resolution and permission check as the 8-bit path.
    pub fn readu16(&self, addr: u16) -> (value: u16)
        requires
            self.wf(),
            addr < 0xFFFF,
        ensures
            value == word_of(
                bus_read_spec(self@, addr),
                bus_read_spec(self@, (addr + 1) as u16),
            ),
    {
        let lo = self.read(addr);
        let hi = self.read(addr + 1);
        lo as u16 + (hi as u16) * 256
    }

    /// Little-endian 16-bit write; each byte goes through the same
    /// single-region resolution and permission check as the 8-bit path.
    pub fn writeu16(&mut self, addr: u16, value: u16)
        requires
            old(self).wf(),
            addr < 0xFFFF,
        ensures
            final(self).wf(),
            final(self)@ == bus_write_spec(
                bus_write_spec(old(self)@, addr, lo_byte(value)),
                (addr + 1) as u16,
                hi_byte(value),
            ),
    {
        self.write(addr, (value % 256) as u8);
        self.write(addr + 1, (value / 256) as u8);
    }
}

/// Bus after toggling the readable permission of the first region
/// containing `addr`; the bus is unchanged for an unmapped address.
pub open spec fn bus_set_readable_spec(
    regions: Seq<RegionV>,
    addr: u16,
    readable: bool,
) -> Seq<RegionV> {
    match first_match(regions, addr) {
        None => regions,
        Some(i) => {
            let r = regions[i];
            regions.update(i, RegionV { ram: RamV { readable, ..r.ram }, ..r })
        },
    }
}

/// Bus after toggling the writable permission of the first region
/// containing `addr`; the bus is unchanged for an unmapped address.
pub open spec fn bus_set_writable_spec(
    regions: Seq<RegionV>,
    addr: u16,
    writable: bool,
) -> Seq<RegionV> {
    match first_match(regions, addr) {
        None => regions,
        Some(i) => {
            let r = regions[i];
            regions.update(i, RegionV { ram: RamV { writable, ..r.ram }, ..r })
        },
    }
}

/// Positions, ranges, permissions and sizes agree pointwise: everything of
/// two region sequences but the stored bytes.
pub open spec fn same_layout(m1: Seq<RegionV>, m2: Seq<RegionV>) -> bool {
    &&& m1.len() == m2.len()
    &&& forall|i: int| 0 <= i < m1.len() ==> {
        &&& (#[trigger] m2[i]).start == m1[i].start
        &&& m2[i].end == m1[i].end
        &&& m2[i].ram.readable == m1[i].ram.readable
        &&& m2[i].ram.writable == m1[i].ram.writable
        &&& m2[i].ram.data.len() == m1[i].ram.data.len()
    }
}

/// Address resolution depends only on the layout, not on the stored bytes.
pub proof fn lemma_same_layout_same_match(m1: Seq<RegionV>, m2: Seq<RegionV>, addr: u16, i: int)
    requires
        same_layout(m1, m2),
        0 <= i <= m1.len(),
    ensures
        first_match_from(m1, addr, i) == first_match_from(m2, addr, i),
    decreases m1.len() - i,
{
    if i < m1.len() {
        lemma_same_layout_same_match(m1, m2, addr, i + 1);
    }
}

/// A matching index returned by `first_match_from` is in bounds and its
/// region contains the address; no earlier position matches.
pub proof fn lemma_first_match_props(regions: Seq<RegionV>, addr: u16, i0: int)
    requires
        0 <= i0 <= regions.len(),
        first_match_from(regions, addr, i0) is Some,
    ensures
        ({
            let i = first_match_from(regions, addr, i0)->Some_0;
            &&& i0 <= i < regions.len()
            &&& region_contains(regions[i], addr)
            &&& forall|j: int| i0 <= j < i ==> !region_contains(#[trigger] regions[j], addr)
        }),
    decreases regions.len() - i0,
{
    if i0 < regions.len() && !region_contains(regions[i0], addr) {
        lemma_first_match_props(regions, addr, i0 + 1);
    }
}

/// A bus write never moves, resizes or re-permissions a region: it changes at
/// most one stored byte.
pub proof fn lemma_write_preserves_layout(regions: Seq<RegionV>, addr: u16, value: u8)
    ensures
        same_layout(regions, bus_write_spec(regions, addr, value)),
        regions_wf(regions) ==> regions_wf(bus_write_spec(regions, addr, value)),
{
    let m2 = bus_write_spec(regions, addr, value);
    if first_match(regions, addr) is Some {
        lemma_first_match_props(regions, addr, 0);
        assert(same_layout(regions, m2));
        if regions_wf(regions) {
            assert forall|i: int| 0 <= i < m2.len() implies region_wf(#[trigger] m2[i]) by {
                assert(region_wf(regions[i]));
            }
        }
    } else {
        assert(same_layout(regions, m2));
    }
}

/// Region permission enforcement, read half: a read resolved to a
/// non-readable region returns 0 regardless of the stored bytes.
pub proof fn lemma_read_nonreadable_zero(regions: Seq<RegionV>, addr: u16, i: int)
    requires
        first_match(regions, addr) == Some(i),
        0 <= i < regions.len(),
        !regions[i].ram.readable,
    ensures
        bus_read_spec(regions, addr) == 0u8,
{
}

/// Region permission enforcement, write half: a write resolved to a
/// non-writable region leaves every stored byte of the bus unchanged.
pub proof fn lemma_write_nonwritable_unchanged(regions: Seq<RegionV>, addr: u16, value: u8, i: int)
    requires
        first_match(regions, addr) == Some(i),
        0 <= i < regions.len(),
        !regions[i].ram.writable,
    ensures
        bus_write_spec(regions, addr, value) == regions,
{
}

/// Region permission enforcement, 16-bit write: when both bytes of a 16-bit
/// write resolve to non-writable regions, the bus is unchanged.
pub proof fn lemma_write16_nonwritable_unchanged(
    regions: Seq<RegionV>,
    addr: u16,
    value: u16,
    i: int,
    j: int,
)
    requires
        addr < 0xFFFF,
        first_match(regions, addr) == Some(i),
        first_match(regions, (addr + 1) as u16) == Some(j),
        0 <= i < regions.len(),
        0 <= j < regions.len(),
        !regions[i].ram.writable,
        !regions[j].ram.writable,
    ensures
        bus_write_spec(
            bus_write_spec(regions, addr, lo_byte(value)),
            (addr + 1) as u16,
            hi_byte(value),
        ) == regions,
{
}

/// Unmapped-address default: an address covered by no region reads as 0, a
/// write to it is dropped, and a read after such a write still returns 0.
pub proof fn lemma_unmapped_default(regions: Seq<RegionV>, addr: u16, value: u8)
    requires
        first_match(regions, addr) is None,
    ensures
        bus_read_spec(regions, addr) == 0u8,
        bus_write_spec(regions, addr, value) == regions,
        bus_read_spec(bus_write_spec(regions, addr, value), addr) == 0u8,
{
}

/// Reading back a written byte: when the address resolves to a region that is
/// both writable and readable, a read after the write returns the new byte.
pub proof fn lemma_read_after_write(regions: Seq<RegionV>, addr: u16, value: u8, i: int)
    requires
        regions_wf(regions),
        first_match(regions, addr) == Some(i),
        0 <= i < regions.len(),
        region_contains(regions[i], addr),
        regions[i].ram.writable,
        regions[i].ram.readable,
    ensures
        bus_read_spec(bus_write_spec(regions, addr, value), addr) == value,
{
    let m2 = bus_write_spec(regions, addr, value);
    lemma_write_preserves_layout(regions, addr, value);
    lemma_same_layout_same_match(regions, m2, addr, 0);
}

/// Writes do not bleed: a write at one address leaves a read at any other
/// address unchanged.
pub proof fn lemma_read_frame(regions: Seq<RegionV>, a1: u16, a2: u16, value: u8)
    requires
        regions_wf(regions),
        a1 != a2,
    ensures
        bus_read_spec(bus_write_spec(regions, a2, value), a1) == bus_read_spec(regions, a1),
{
    let m2 = bus_write_spec(regions, a2, value);
    lemma_write_preserves_layout(regions, a2, value);
    lemma_same_layout_same_match(regions, m2, a1, 0);
    if first_match(regions, a2) is Some {
        lemma_first_match_props(regions, a2, 0);
        if first_match(regions, a1) is Some {
            lemma_first_match_props(regions, a1, 0);
        }
    }
}

} // verus!
