//! Guest-physical memory as a layout: which regions there are, and where in
//! them a guest address lies.

use crate::arch::{end_addr, regions_ordered, MemoryRegion};
use crate::text::{decimal, push_digits};
use vstd::prelude::*;
use vstd::string::*;

verus! {

/// Why guest memory could not be set up or reached.
#[derive(Clone, Debug, PartialEq, Eq)]
pub enum GuestMemoryError {
    /// No region holds the guest address.
    InvalidGuestAddress(u64),
    /// The region that holds the guest address ends before so many bytes
    /// from there on.
    InvalidGuestAddressRange(u64, u64),
    /// The host could not map the memory; with the cause.
    MemoryMappingFailed(String),
    /// The machine configuration names no memory size.
    MemoryNotInitialized,
    /// A region reaches into the next one, or beyond the last address.
    MemoryRegionOverlap,
    /// There is no region at all.
    NoMemoryRegions,
}

impl GuestMemoryError {
    /// The text of `message`.
    pub open spec fn message_spec(self) -> Seq<char> {
        match self {
            GuestMemoryError::InvalidGuestAddress(addr) => "InvalidGuestAddress("@ + decimal(
                addr as nat,
            ) + ")"@,
            GuestMemoryError::InvalidGuestAddressRange(addr, len) => "InvalidGuestAddressRange("@
                + decimal(addr as nat) + ", "@ + decimal(len as nat) + ")"@,
            GuestMemoryError::MemoryMappingFailed(cause) => "MemoryMappingFailed("@ + cause@
                + ")"@,
            GuestMemoryError::MemoryNotInitialized => "MemoryNotInitialized"@,
            GuestMemoryError::MemoryRegionOverlap => "MemoryRegionOverlap"@,
            GuestMemoryError::NoMemoryRegions => "NoMemoryRegions"@,
        }
    }

    /// The name of the failure and, in brackets, what it holds.
    pub fn message(&self) -> (r: String)
        ensures
            r@ == self.message_spec(),
    {
        match self {
            GuestMemoryError::InvalidGuestAddress(addr) => {
                let mut text = String::from_str("InvalidGuestAddress(");
                push_digits(&mut text, *addr, 10);
                text.append(")");
                text
            },
            GuestMemoryError::InvalidGuestAddressRange(addr, len) => {
                let mut text = String::from_str("InvalidGuestAddressRange(");
                push_digits(&mut text, *addr, 10);
                text.append(", ");
                push_digits(&mut text, *len, 10);
                text.append(")");
                text
            },
            GuestMemoryError::MemoryMappingFailed(cause) => {
                let mut text = String::from_str("MemoryMappingFailed(");
                text.append(cause.as_str());
                text.append(")");
                text
            },
            GuestMemoryError::MemoryNotInitialized => String::from_str("MemoryNotInitialized"),
            GuestMemoryError::MemoryRegionOverlap => String::from_str("MemoryRegionOverlap"),
            GuestMemoryError::NoMemoryRegions => String::from_str("NoMemoryRegions"),
        }
    }
}

/// Whether each of `regions` ends at or below the start of the next and none
/// reaches beyond the last address.
pub open spec fn regions_apart(regions: Seq<MemoryRegion>) -> bool {
    &&& forall|i: int|
        0 <= i < regions.len() ==> (#[trigger] regions[i]).guest_base + regions[i].size
            <= u64::MAX
    &&& forall|i: int|
        0 <= i < regions.len() - 1 ==> (#[trigger] regions[i]).guest_base + regions[i].size
            <= regions[i + 1].guest_base
}

/// Why `regions` cannot be the layout of guest memory, if they cannot.
pub open spec fn layout_error(regions: Seq<MemoryRegion>) -> Option<GuestMemoryError> {
    if regions.len() == 0 {
        Some(GuestMemoryError::NoMemoryRegions)
    } else if !regions_apart(regions) {
        Some(GuestMemoryError::MemoryRegionOverlap)
    } else {
        None
    }
}

/// Whether the region `region` holds the guest address `addr`.
pub open spec fn holds_address(region: MemoryRegion, addr: u64) -> bool {
    region.guest_base <= addr < region.guest_base + region.size
}

/// Whether some region of `regions` holds the guest address `addr`.
pub open spec fn address_in_range(regions: Seq<MemoryRegion>, addr: u64) -> bool {
    exists|i: int| 0 <= i < regions.len() && holds_address(#[trigger] regions[i], addr)
}

/// Regions that lie apart lie in rising order.
pub proof fn lemma_apart_is_ordered(regions: Seq<MemoryRegion>)
    requires
        regions_apart(regions),
    ensures
        regions_ordered(regions),
{
    assert forall|i: int, j: int| 0 <= i < j < regions.len() implies (#[trigger] regions[i]).guest_base
        + regions[i].size <= (#[trigger] regions[j]).guest_base by {
        lemma_rising(regions, i, j);
    }
}

proof fn lemma_rising(regions: Seq<MemoryRegion>, i: int, j: int)
    requires
        regions_apart(regions),
        0 <= i < j < regions.len(),
    ensures
        regions[i].guest_base + regions[i].size <= regions[j].guest_base,
    decreases j - i,
{
    if j == i + 1 {
        assert(regions[i].guest_base + regions[i].size <= regions[i + 1].guest_base);
    } else {
        lemma_rising(regions, i, j - 1);
        assert(regions[j - 1].guest_base + regions[j - 1].size <= regions[j - 1 + 1].guest_base);
    }
}

/// Among regions that lie apart, one at most holds a given address.
pub proof fn lemma_one_region_holds(regions: Seq<MemoryRegion>, addr: u64, i: int, j: int)
    requires
        regions_apart(regions),
        0 <= i < regions.len(),
        0 <= j < regions.len(),
        holds_address(regions[i], addr),
        holds_address(regions[j], addr),
    ensures
        i == j,
{
    if i < j {
        lemma_rising(regions, i, j);
    } else if j < i {
        lemma_rising(regions, j, i);
    }
}

/// The layout of guest memory: one region at least, and regions that lie
/// apart, in rising order.
#[derive(Debug, PartialEq, Eq)]
pub struct GuestMemory {
    regions: Vec<MemoryRegion>,
}

impl View for GuestMemory {
    type V = Seq<MemoryRegion>;

    /// The regions, lowest first.
    closed spec fn view(&self) -> Seq<MemoryRegion> {
        self.regions@
    }
}

impl Clone for GuestMemory {
    fn clone(&self) -> (r: Self)
        ensures
            r@ == self@,
    {
        let mut regions: Vec<MemoryRegion> = Vec::new();
        let mut i: usize = 0;
        while i < self.regions.len()
            invariant
                i <= self.regions.len(),
                regions@ == self.regions@.take(i as int),
            decreases self.regions.len() - i,
        {
            regions.push(self.regions[i]);
            assert(regions@ =~= self.regions@.take(i as int + 1));
            i = i + 1;
        }
        assert(self.regions@.take(i as int) =~= self.regions@);
        GuestMemory { regions }
    }
}

impl GuestMemory {
    /// There is a region, and the regions lie apart.
    pub open spec fn wf(&self) -> bool {
        layout_error(self@) is None
    }

    /// The layout with the regions `ranges`, which must be given lowest
    /// first.
    pub fn new(ranges: &Vec<MemoryRegion>) -> (r: Result<GuestMemory, GuestMemoryError>)
        ensures
            match r {
                Ok(memory) => layout_error(ranges@) is None && memory@ == ranges@ && memory.wf(),
                Err(e) => layout_error(ranges@) == Some(e),
            },
    {
        if ranges.len() == 0 {
            return Err(GuestMemoryError::NoMemoryRegions);
        }
        let mut regions: Vec<MemoryRegion> = Vec::new();
        let mut i: usize = 0;
        while i < ranges.len()
            invariant
                i <= ranges.len(),
                regions@ == ranges@.take(i as int),
                regions_apart(ranges@.take(i as int)),
            decreases ranges.len() - i,
        {
            let region = ranges[i];
            let ghost before = ranges@.take(i as int);
            let ghost after = ranges@.take(i as int + 1);
            let end = match region.guest_base.checked_add(region.size) {
                None => {
                    assert(!regions_apart(ranges@)) by {
                        if regions_apart(ranges@) {
                            assert(ranges@[i as int].guest_base + ranges@[i as int].size
                                <= u64::MAX);
                        }
                    }
                    return Err(GuestMemoryError::MemoryRegionOverlap);
                },
                Some(end) => end,
            };
            if i > 0 {
                let last = ranges[i - 1];
                assert(before[i - 1].guest_base + before[i - 1].size <= u64::MAX);
                if last.guest_base + last.size > region.guest_base {
                    assert(!regions_apart(ranges@)) by {
                        if regions_apart(ranges@) {
                            assert(ranges@[i - 1].guest_base + ranges@[i - 1].size <= ranges@[i
                                - 1 + 1].guest_base);
                        }
                    }
                    return Err(GuestMemoryError::MemoryRegionOverlap);
                }
            }
            regions.push(region);
            proof {
                assert(regions@ =~= after);
                assert forall|k: int| 0 <= k < after.len() implies (#[trigger] after[k]).guest_base
                    + after[k].size <= u64::MAX by {
                    if k < i {
                        assert(after[k] == before[k]);
                    }
                }
                assert forall|k: int| 0 <= k < after.len() - 1 implies (
                #[trigger] after[k]).guest_base + after[k].size <= after[k + 1].guest_base by {
                    if k < i - 1 {
                        assert(after[k] == before[k]);
                        assert(after[k + 1] == before[k + 1]);
                    }
                }
            }
            i = i + 1;
        }
        assert(ranges@.take(i as int) =~= ranges@);
        Ok(GuestMemory { regions })
    }

    /// The regions, lowest first.
    pub fn regions(&self) -> (r: &Vec<MemoryRegion>)
        ensures
            r@ == self@,
    {
        &self.regions
    }

    /// The number of regions.
    pub fn num_regions(&self) -> (r: usize)
        ensures
            r == self@.len(),
    {
        self.regions.len()
    }

    /// The first address above all regions.
    pub fn end_addr(&self) -> (r: u64)
        requires
            self.wf(),
        ensures
            r == end_addr(self@),
    {
        let last = self.regions[self.regions.len() - 1];
        last.guest_base + last.size
    }

    /// The place of the region that holds the guest address `addr`, if one
    /// does.
    pub fn find_region(&self, addr: u64) -> (r: Option<usize>)
        requires
            self.wf(),
        ensures
            r is Some <==> address_in_range(self@, addr),
            r matches Some(i) ==> i < self@.len() && holds_address(self@[i as int], addr),
    {
        let mut i: usize = 0;
        while i < self.regions.len()
            invariant
                self.wf(),
                i <= self.regions.len(),
                forall|k: int| 0 <= k < i ==> !holds_address(#[trigger] self.regions@[k], addr),
            decreases self.regions.len() - i,
        {
            let region = self.regions[i];
            if region.guest_base <= addr && addr - region.guest_base < region.size {
                return Some(i);
            }
            i = i + 1;
        }
        None
    }

    /// Whether some region holds the guest address `addr`.
    pub fn address_in_range(&self, addr: u64) -> (r: bool)
        requires
            self.wf(),
        ensures
            r == address_in_range(self@, addr),
    {
        self.find_region(addr).is_some()
    }

    /// Where `len` bytes from the guest address `addr` on lie: the place of
    /// the region that holds them and how far into the region they begin. The
    /// bytes must lie in one region, all of them.
    pub fn locate(&self, addr: u64, len: u64) -> (r: Result<(usize, u64), GuestMemoryError>)
        requires
            self.wf(),
        ensures
            match r {
                Ok((i, offset)) => {
                    &&& i < self@.len()
                    &&& holds_address(self@[i as int], addr)
                    &&& offset == addr - self@[i as int].guest_base
                    &&& offset + len <= self@[i as int].size
                },
                Err(e) => if !address_in_range(self@, addr) {
                    e == GuestMemoryError::InvalidGuestAddress(addr)
                } else {
                    e == GuestMemoryError::InvalidGuestAddressRange(addr, len) && exists|i: int|
                        0 <= i < self@.len() && holds_address(#[trigger] self@[i], addr) && addr
                            - self@[i].guest_base + len > self@[i].size
                },
            },
    {
        match self.find_region(addr) {
            None => Err(GuestMemoryError::InvalidGuestAddress(addr)),
            Some(i) => {
                let region = self.regions[i];
                let offset = addr - region.guest_base;
                if len > region.size - offset {
                    Err(GuestMemoryError::InvalidGuestAddressRange(addr, len))
                } else {
                    Ok((i, offset))
                }
            },
        }
    }
}

} // verus!
