//! Region marshalling: the single, bounds-checked way in which the host
//! looks at guest linear memory.
//!
//! A guest names a byte range by the address of an eight-byte descriptor:
//! the range's offset and its length, each a little-endian `u32`. The null
//! address names nothing.

use vstd::prelude::*;
use vstd::bytes::{spec_u32_from_le_bytes, spec_u32_to_le_bytes, u32_from_le_bytes, u32_to_le_bytes};
use vstd::slice::{slice_subrange, slice_to_vec};
use crate::trap::Trap;

verus! {

/// The size of a region descriptor in guest memory.
pub const DESCRIPTOR_SIZE: u32 = 8;

/// A byte range of guest memory. It owns nothing: it is only meaningful
/// next to the memory it was read from.
#[derive(Clone, Copy, Debug, PartialEq, Eq, Structural)]
pub struct Region {
    pub offset: u32,
    pub length: u32,
}

/// The address that a pointer on the guest's stack means: the same 32
/// bits, read without a sign.
pub open spec fn address_of(ptr: i32) -> u32 {
    if ptr >= 0 {
        ptr as u32
    } else {
        (ptr + 0x1_0000_0000) as u32
    }
}

/// The pointer that stands for an address on the guest's stack.
pub open spec fn pointer_of(address: u32) -> i32 {
    if address <= i32::MAX {
        address as i32
    } else {
        (address - 0x1_0000_0000) as i32
    }
}

/// The address that a pointer on the guest's stack means.
#[verifier::when_used_as_spec(address_of)]
pub fn to_address(ptr: i32) -> (address: u32)
    ensures
        address == address_of(ptr),
        address == 0 <==> ptr == 0,
        pointer_of(address) == ptr,
{
    if ptr >= 0 {
        ptr as u32
    } else {
        (ptr as i64 + 0x1_0000_0000i64) as u32
    }
}

/// The pointer that stands for an address on the guest's stack.
#[verifier::when_used_as_spec(pointer_of)]
pub fn to_pointer(address: u32) -> (ptr: i32)
    ensures
        ptr == pointer_of(address),
        ptr == 0 <==> address == 0,
        address_of(ptr) == address,
{
    if address <= 0x7fff_ffffu32 {
        address as i32
    } else {
        (address as i64 - 0x1_0000_0000i64) as i32
    }
}

/// The descriptor stored at `ptr`, provided `ptr` is not null and the
/// descriptor itself lies inside memory.
pub open spec fn descriptor_at(mem: Seq<u8>, ptr: u32) -> Option<Region> {
    if ptr == 0 || ptr + 8 > mem.len() {
        None
    } else {
        Some(
            Region {
                offset: spec_u32_from_le_bytes(mem.subrange(ptr as int, ptr + 4)),
                length: spec_u32_from_le_bytes(mem.subrange(ptr + 4, ptr + 8)),
            },
        )
    }
}

/// The region that `ptr` names: its descriptor, provided the range that the
/// descriptor gives lies inside memory.
pub open spec fn region_at(mem: Seq<u8>, ptr: u32) -> Option<Region> {
    match descriptor_at(mem, ptr) {
        Some(region) => if region.offset + region.length <= mem.len() {
            Some(region)
        } else {
            None
        },
        None => None,
    }
}

/// Memory with `data` laid over it from address `at` on.
pub open spec fn overlay(mem: Seq<u8>, at: int, data: Seq<u8>) -> Seq<u8> {
    Seq::new(
        mem.len(),
        |i: int|
            if at <= i < at + data.len() {
                data[i - at]
            } else {
                mem[i]
            },
    )
}

/// What reading the region at `ptr` yields.
pub open spec fn read_region_spec(mem: Seq<u8>, ptr: u32) -> Result<Seq<u8>, Trap> {
    match region_at(mem, ptr) {
        Some(region) => Ok(mem.subrange(region.offset as int, region.offset + region.length)),
        None => Err(Trap::MemoryAccess),
    }
}

/// Memory after `data` was written into the region at `ptr`: the bytes are
/// laid down at the region's offset, and the descriptor's length then says
/// how many there are.
pub open spec fn write_region_spec(mem: Seq<u8>, ptr: u32, data: Seq<u8>) -> Result<
    Seq<u8>,
    Trap,
> {
    match region_at(mem, ptr) {
        Some(region) => if data.len() > region.length {
            Err(Trap::RegionTooSmall)
        } else {
            Ok(
                overlay(
                    overlay(mem, region.offset as int, data),
                    ptr + 4,
                    spec_u32_to_le_bytes(data.len() as u32),
                ),
            )
        },
        None => Err(Trap::MemoryAccess),
    }
}

/// The bytes of a descriptor.
pub open spec fn descriptor_bytes(region: Region) -> Seq<u8> {
    spec_u32_to_le_bytes(region.offset) + spec_u32_to_le_bytes(region.length)
}

/// Memory and frontier after a fresh region holding `data` was carved at
/// the frontier: the descriptor first, the bytes right behind it.
pub open spec fn carve_spec(mem: Seq<u8>, frontier: u32, data: Seq<u8>) -> Result<
    (Seq<u8>, u32),
    Trap,
> {
    if frontier + 8 + data.len() > mem.len() || mem.len() > u32::MAX {
        Err(Trap::MemoryAccess)
    } else {
        let region = Region { offset: (frontier + 8) as u32, length: data.len() as u32 };
        Ok(
            (
                overlay(
                    overlay(mem, frontier as int, descriptor_bytes(region)),
                    frontier + 8,
                    data,
                ),
                (frontier + 8 + data.len()) as u32,
            ),
        )
    }
}

/// The regions that a list of addresses names, one after the other. The
/// list is itself a byte string: four little-endian bytes per address.
pub open spec fn read_list_spec(mem: Seq<u8>, list: Seq<u8>) -> Result<Seq<Seq<u8>>, Trap>
    decreases list.len(),
{
    if list.len() == 0 {
        Ok(Seq::empty())
    } else if list.len() < 4 {
        Err(Trap::MemoryAccess)
    } else {
        match read_list_spec(mem, list.subrange(0, list.len() - 4)) {
            Err(trap) => Err(trap),
            Ok(regions) => match read_region_spec(
                mem,
                spec_u32_from_le_bytes(list.subrange(list.len() - 4, list.len() as int)),
            ) {
                Err(trap) => Err(trap),
                Ok(bytes) => Ok(regions.push(bytes)),
            },
        }
    }
}

/// What reading the list of regions at `ptr` yields.
pub open spec fn read_region_list_spec(mem: Seq<u8>, ptr: u32) -> Result<Seq<Seq<u8>>, Trap> {
    match read_region_spec(mem, ptr) {
        Err(trap) => Err(trap),
        Ok(list) => read_list_spec(mem, list),
    }
}

/// The view of a list of byte strings.
pub open spec fn views(items: Seq<Vec<u8>>) -> Seq<Seq<u8>> {
    items.map_values(|item: Vec<u8>| item@)
}

/// A descriptor written at `ptr` is read back from there.
pub proof fn lemma_descriptor_roundtrip(mem: Seq<u8>, ptr: u32, region: Region)
    requires
        ptr != 0,
        ptr + 8 <= mem.len(),
    ensures
        descriptor_at(overlay(mem, ptr as int, descriptor_bytes(region)), ptr) == Some(region),
{
    vstd::bytes::lemma_auto_spec_u32_to_from_le_bytes();
    let after = overlay(mem, ptr as int, descriptor_bytes(region));
    assert(after.subrange(ptr as int, ptr + 4) =~= spec_u32_to_le_bytes(region.offset));
    assert(after.subrange(ptr + 4, ptr + 8) =~= spec_u32_to_le_bytes(region.length));
}

/// Bytes laid outside a descriptor leave the descriptor as it was.
pub proof fn lemma_descriptor_untouched(mem: Seq<u8>, ptr: u32, at: int, data: Seq<u8>)
    requires
        ptr != 0,
        ptr + 8 <= mem.len(),
        at + data.len() <= ptr || ptr + 8 <= at,
    ensures
        descriptor_at(overlay(mem, at, data), ptr) == descriptor_at(mem, ptr),
{
    let after = overlay(mem, at, data);
    assert(after.subrange(ptr as int, ptr + 4) =~= mem.subrange(ptr as int, ptr + 4));
    assert(after.subrange(ptr + 4, ptr + 8) =~= mem.subrange(ptr + 4, ptr + 8));
}

/// A region carved at the frontier reads back as the data it was carved
/// for.
pub proof fn lemma_carved_region_reads_back(mem: Seq<u8>, frontier: u32, data: Seq<u8>)
    requires
        frontier != 0,
        carve_spec(mem, frontier, data) is Ok,
    ensures
        read_region_spec(carve_spec(mem, frontier, data)->Ok_0.0, frontier) == Ok::<
            Seq<u8>,
            Trap,
        >(data),
{
    let region = Region { offset: (frontier + 8) as u32, length: data.len() as u32 };
    let first = overlay(mem, frontier as int, descriptor_bytes(region));
    let after = overlay(first, frontier + 8, data);
    lemma_descriptor_roundtrip(mem, frontier, region);
    lemma_descriptor_untouched(first, frontier, frontier + 8, data);
    assert(after.subrange(region.offset as int, region.offset + region.length) =~= data);
}

/// The linear memory of one guest instance, with the frontier from which
/// the host carves the regions it hands back.
#[derive(Debug)]
pub struct GuestMemory {
    pub bytes: Vec<u8>,
    pub frontier: u32,
}

/// Lays `data` over `bytes` from index `at` on.
fn store(bytes: &mut Vec<u8>, at: usize, data: &[u8])
    requires
        at + data@.len() <= old(bytes)@.len(),
    ensures
        final(bytes)@ == overlay(old(bytes)@, at as int, data@),
{
    let size = bytes.len();
    let mut i: usize = 0;
    while i < data.len()
        invariant
            i <= data@.len(),
            size == bytes@.len(),
            at + data@.len() <= bytes@.len(),
            bytes@.len() == old(bytes)@.len(),
            bytes@ == overlay(old(bytes)@, at as int, data@.take(i as int)),
        decreases data@.len() - i,
    {
        bytes.set(at + i, data[i]);
        proof {
            assert(bytes@ =~= overlay(old(bytes)@, at as int, data@.take(i + 1)));
        }
        i = i + 1;
    }
    proof {
        assert(data@.take(i as int) =~= data@);
    }
}

impl GuestMemory {
    /// Memory is no larger than a 32-bit address space, and the frontier
    /// never sits at the null address.
    pub open spec fn wf(&self) -> bool {
        &&& self.bytes@.len() <= u32::MAX
        &&& self.frontier != 0
    }

    /// A zeroed memory of `size` bytes whose first descriptor-sized block is
    /// kept free, so that no region ever gets the null address.
    pub fn new(size: u32) -> (memory: GuestMemory)
        ensures
            memory.wf(),
            memory.bytes@ == Seq::new(size as nat, |i: int| 0u8),
            memory.frontier == DESCRIPTOR_SIZE,
    {
        let mut bytes: Vec<u8> = Vec::new();
        let mut i: u32 = 0;
        while i < size
            invariant
                i <= size,
                bytes@ == Seq::new(i as nat, |i: int| 0u8),
            decreases size - i,
        {
            bytes.push(0u8);
            proof {
                assert(bytes@ =~= Seq::new((i + 1) as nat, |i: int| 0u8));
            }
            i = i + 1;
        }
        GuestMemory { bytes, frontier: DESCRIPTOR_SIZE }
    }

    /// The size of the memory in bytes.
    pub fn size(&self) -> (size: usize)
        ensures
            size == self.bytes@.len(),
    {
        self.bytes.len()
    }

    /// Looks up the region that `ptr` names, after checking the pointer and
    /// the range against the memory's size.
    pub fn region(&self, ptr: u32) -> (found: Result<Region, Trap>)
        requires
            self.wf(),
        ensures
            found == (match region_at(self.bytes@, ptr) {
                Some(region) => Ok::<Region, Trap>(region),
                None => Err::<Region, Trap>(Trap::MemoryAccess),
            }),
    {
        let size = self.bytes.len();
        if ptr == 0 || size < 8 || ptr as usize > size - 8 {
            return Err(Trap::MemoryAccess);
        }
        let at = ptr as usize;
        let offset = u32_from_le_bytes(slice_subrange(self.bytes.as_slice(), at, at + 4));
        let length = u32_from_le_bytes(slice_subrange(self.bytes.as_slice(), at + 4, at + 8));
        if offset as usize > size || length as usize > size - offset as usize {
            return Err(Trap::MemoryAccess);
        }
        Ok(Region { offset, length })
    }

    /// Copies the region at `ptr` out of guest memory.
    pub fn read_region(&self, ptr: u32) -> (read: Result<Vec<u8>, Trap>)
        requires
            self.wf(),
        ensures
            match read_region_spec(self.bytes@, ptr) {
                Ok(bytes) => read is Ok && read->Ok_0@ == bytes,
                Err(trap) => read == Err::<Vec<u8>, Trap>(trap),
            },
    {
        let region = self.region(ptr)?;
        let from = region.offset as usize;
        let to = from + region.length as usize;
        Ok(slice_to_vec(slice_subrange(self.bytes.as_slice(), from, to)))
    }

    /// Copies `data` into the region at `ptr` and records its length in the
    /// descriptor. Memory is untouched when the write is refused.
    pub fn write_region(&mut self, ptr: u32, data: &[u8]) -> (written: Result<(), Trap>)
        requires
            old(self).wf(),
        ensures
            final(self).wf(),
            final(self).frontier == old(self).frontier,
            match write_region_spec(old(self).bytes@, ptr, data@) {
                Ok(bytes) => written is Ok && final(self).bytes@ == bytes,
                Err(trap) => written == Err::<(), Trap>(trap) && final(self).bytes@ == old(self).bytes@,
            },
    {
        let region = self.region(ptr)?;
        if data.len() > region.length as usize {
            return Err(Trap::RegionTooSmall);
        }
        store(&mut self.bytes, region.offset as usize, data);
        let length = u32_to_le_bytes(data.len() as u32);
        store(&mut self.bytes, ptr as usize + 4, length.as_slice());
        Ok(())
    }

    /// Carves a fresh region holding `data` at the frontier and returns its
    /// address. Memory is untouched when there is no room.
    pub fn carve(&mut self, data: &[u8]) -> (carved: Result<u32, Trap>)
        requires
            old(self).wf(),
        ensures
            final(self).wf(),
            match carve_spec(old(self).bytes@, old(self).frontier, data@) {
                Ok((bytes, frontier)) => {
                    &&& carved == Ok::<u32, Trap>(old(self).frontier)
                    &&& final(self).bytes@ == bytes
                    &&& final(self).frontier == frontier
                    &&& read_region_spec(bytes, old(self).frontier) == Ok::<Seq<u8>, Trap>(data@)
                },
                Err(trap) => {
                    &&& carved == Err::<u32, Trap>(trap)
                    &&& final(self).bytes@ == old(self).bytes@
                    &&& final(self).frontier == old(self).frontier
                },
            },
    {
        let size = self.bytes.len();
        let at = self.frontier as usize;
        if size < 8 || at > size - 8 || data.len() > size - 8 - at {
            return Err(Trap::MemoryAccess);
        }
        proof {
            lemma_carved_region_reads_back(self.bytes@, self.frontier, data@);
        }
        let offset: u32 = self.frontier + 8;
        let mut descriptor = u32_to_le_bytes(offset);
        let length = u32_to_le_bytes(data.len() as u32);
        descriptor.extend_from_slice(length.as_slice());
        proof {
            assert(descriptor@ =~= descriptor_bytes(
                Region { offset, length: data@.len() as u32 },
            ));
        }
        store(&mut self.bytes, at, descriptor.as_slice());
        store(&mut self.bytes, at + 8, data);
        self.frontier = offset + data.len() as u32;
        Ok(self.frontier - data.len() as u32 - 8)
    }

    /// Copies out every region of the list of addresses at `ptr`.
    pub fn read_region_list(&self, ptr: u32) -> (read: Result<Vec<Vec<u8>>, Trap>)
        requires
            self.wf(),
        ensures
            match read_region_list_spec(self.bytes@, ptr) {
                Ok(items) => read is Ok && views(read->Ok_0@) == items,
                Err(trap) => read == Err::<Vec<Vec<u8>>, Trap>(trap),
            },
    {
        let list = self.read_region(ptr)?;
        let mut items: Vec<Vec<u8>> = Vec::new();
        let mut i: usize = 0;
        proof {
            assert(list@.subrange(0, 0) =~= Seq::<u8>::empty());
            assert(views(items@) =~= Seq::<Seq<u8>>::empty());
        }
        while list.len() - i >= 4
            invariant
                self.wf(),
                read_region_spec(self.bytes@, ptr) == Ok::<Seq<u8>, Trap>(list@),
                i <= list@.len(),
                i % 4 == 0,
                read_list_spec(self.bytes@, list@.subrange(0, i as int)) == Ok::<
                    Seq<Seq<u8>>,
                    Trap,
                >(views(items@)),
            decreases list@.len() - i,
        {
            let address = u32_from_le_bytes(slice_subrange(list.as_slice(), i, i + 4));
            let ghost prefix = list@.subrange(0, i + 4);
            proof {
                assert(prefix.subrange(0, prefix.len() - 4) =~= list@.subrange(0, i as int));
                assert(prefix.subrange(prefix.len() - 4, prefix.len() as int) =~= list@.subrange(
                    i as int,
                    i + 4,
                ));
            }
            match self.read_region(address) {
                Ok(bytes) => {
                    proof {
                        assert(views(items@.push(bytes)) =~= views(items@).push(bytes@));
                    }
                    items.push(bytes);
                },
                Err(trap) => {
                    proof {
                        assert(read_list_spec(self.bytes@, prefix) is Err);
                        lemma_list_failure_stays(self.bytes@, list@, i + 4);
                    }
                    return Err(trap);
                },
            }
            i = i + 4;
        }
        if i < list.len() {
            proof {
                lemma_list_ragged(self.bytes@, list@);
            }
            return Err(Trap::MemoryAccess);
        }
        proof {
            assert(list@.subrange(0, i as int) =~= list@);
        }
        Ok(items)
    }
}

/// Every failure of a list read is a memory access failure.
pub proof fn lemma_list_fails_closed(mem: Seq<u8>, list: Seq<u8>)
    ensures
        read_list_spec(mem, list) is Err ==> read_list_spec(mem, list) == Err::<
            Seq<Seq<u8>>,
            Trap,
        >(Trap::MemoryAccess),
    decreases list.len(),
{
    if list.len() >= 4 {
        lemma_list_fails_closed(mem, list.subrange(0, list.len() - 4));
    }
}

/// A list whose length is no multiple of four names no regions.
proof fn lemma_list_ragged(mem: Seq<u8>, list: Seq<u8>)
    requires
        list.len() % 4 != 0,
    ensures
        read_list_spec(mem, list) == Err::<Seq<Seq<u8>>, Trap>(Trap::MemoryAccess),
    decreases list.len(),
{
    if list.len() >= 4 {
        lemma_list_ragged(mem, list.subrange(0, list.len() - 4));
        lemma_list_fails_closed(mem, list);
    }
}

/// Once a front part of a list fails, the whole list fails.
proof fn lemma_list_failure_stays(mem: Seq<u8>, list: Seq<u8>, upto: int)
    requires
        0 <= upto <= list.len(),
        upto % 4 == 0,
        read_list_spec(mem, list.subrange(0, upto)) is Err,
    ensures
        read_list_spec(mem, list) == Err::<Seq<Seq<u8>>, Trap>(Trap::MemoryAccess),
    decreases list.len() - upto,
{
    lemma_list_fails_closed(mem, list.subrange(0, upto));
    if upto == list.len() {
        assert(list.subrange(0, upto) =~= list);
    } else if list.len() % 4 != 0 {
        lemma_list_ragged(mem, list);
    } else {
        let shorter = list.subrange(0, list.len() - 4);
        assert(shorter.subrange(0, upto) =~= list.subrange(0, upto));
        lemma_list_failure_stays(mem, shorter, upto);
    }
}

} // verus!
