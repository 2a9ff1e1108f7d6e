use vmm::arch::{arch_memory_regions, Arch, MemoryRegion};
use vmm::memory_model::{GuestMemory, GuestMemoryError};

fn region(guest_base: u64, size: u64) -> MemoryRegion {
    MemoryRegion { guest_base, size }
}

#[test]
fn a_layout_needs_a_region() {
    assert_eq!(GuestMemory::new(&vec![]), Err(GuestMemoryError::NoMemoryRegions));
}

#[test]
fn regions_of_a_layout_lie_apart() {
    assert_eq!(
        GuestMemory::new(&vec![region(0, 0x1000), region(0xfff, 0x1000)]),
        Err(GuestMemoryError::MemoryRegionOverlap)
    );
    assert_eq!(
        GuestMemory::new(&vec![region(0x2000, 0x1000), region(0, 0x1000)]),
        Err(GuestMemoryError::MemoryRegionOverlap)
    );
    assert_eq!(
        GuestMemory::new(&vec![region(0, 0x1000), region(u64::MAX, 1)]).map(|m| m.num_regions()),
        Err(GuestMemoryError::MemoryRegionOverlap)
    );
    assert_eq!(
        GuestMemory::new(&vec![region(u64::MAX - 1, 2), region(u64::MAX, 0)]),
        Err(GuestMemoryError::MemoryRegionOverlap)
    );
    let touching = vec![region(0, 0x1000), region(0x1000, 0x1000), region(u64::MAX - 1, 1)];
    let memory = GuestMemory::new(&touching).unwrap();
    assert_eq!(memory.regions(), &touching);
    assert_eq!(memory.num_regions(), 3);
    assert_eq!(memory.end_addr(), u64::MAX);
    assert_eq!(memory.clone(), memory);
}

#[test]
fn the_regions_of_an_architecture_make_a_layout() {
    let memory = GuestMemory::new(&arch_memory_regions(Arch::X86_64, 5 << 30)).unwrap();
    assert_eq!(memory.num_regions(), 2);
    assert_eq!(memory.end_addr(), 0x1_0000_0000 + (5 << 30) - 0xd000_0000);
    let memory = GuestMemory::new(&arch_memory_regions(Arch::Aarch64, 1 << 30)).unwrap();
    assert_eq!(memory.end_addr(), 0x8000_0000 + (1 << 30));
}

#[test]
fn an_address_is_found_in_its_region() {
    let memory = GuestMemory::new(&vec![region(0x1000, 0x1000), region(0x4000, 0x10)]).unwrap();
    assert_eq!(memory.find_region(0), None);
    assert_eq!(memory.find_region(0xfff), None);
    assert_eq!(memory.find_region(0x1000), Some(0));
    assert_eq!(memory.find_region(0x1fff), Some(0));
    assert_eq!(memory.find_region(0x2000), None);
    assert_eq!(memory.find_region(0x4000), Some(1));
    assert_eq!(memory.find_region(0x400f), Some(1));
    assert_eq!(memory.find_region(0x4010), None);
    assert_eq!(memory.find_region(u64::MAX), None);
    assert!(memory.address_in_range(0x1800));
    assert!(!memory.address_in_range(0x3000));
}

#[test]
fn bytes_are_located_within_one_region() {
    let memory = GuestMemory::new(&vec![region(0x1000, 0x1000), region(0x2000, 0x10)]).unwrap();
    assert_eq!(memory.locate(0x1000, 0x1000), Ok((0, 0)));
    assert_eq!(memory.locate(0x1ff0, 0x10), Ok((0, 0xff0)));
    assert_eq!(memory.locate(0x1ff0, 0), Ok((0, 0xff0)));
    // The regions touch, but bytes may not run from one into the other.
    assert_eq!(
        memory.locate(0x1ff0, 0x11),
        Err(GuestMemoryError::InvalidGuestAddressRange(0x1ff0, 0x11))
    );
    assert_eq!(memory.locate(0x200f, 1), Ok((1, 0xf)));
    assert_eq!(
        memory.locate(0x200f, u64::MAX),
        Err(GuestMemoryError::InvalidGuestAddressRange(0x200f, u64::MAX))
    );
    assert_eq!(memory.locate(0x2010, 0), Err(GuestMemoryError::InvalidGuestAddress(0x2010)));
    assert_eq!(memory.locate(0, 1), Err(GuestMemoryError::InvalidGuestAddress(0)));
}
