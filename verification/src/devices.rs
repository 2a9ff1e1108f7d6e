//! What the rest of the crate needs to know of the virtio devices: their type
//! numbers, how many events each kind listens for, and how a block device
//! tells its size.

use vstd::prelude::*;

verus! {

/// The virtio type of a network device.
pub const TYPE_NET: u32 = 1;

/// The virtio type of a block device.
pub const TYPE_BLOCK: u32 = 2;

/// The virtio type of a vsock device.
pub const TYPE_VSOCK: u32 = 19;

/// The number of events that a block device listens for.
pub const BLOCK_EVENTS_COUNT: usize = 2;

/// The number of events that a network device listens for.
pub const NET_EVENTS_COUNT: usize = 5;

/// The number of events that a vsock device listens for.
pub const VSOCK_EVENTS_COUNT: usize = 4;

/// The size of a disk sector is two to this power.
pub const SECTOR_SHIFT: u8 = 9;

/// The size of a disk sector in bytes.
pub const SECTOR_SIZE: u64 = 512;

/// The interrupt status bit that tells the guest of a changed configuration.
pub const VIRTIO_MMIO_INT_CONFIG: u32 = 0x02;

/// The number of bytes in a block device's configuration space.
pub const CONFIG_SPACE_SIZE: usize = 8;

/// The number of whole sectors in `disk_size` bytes.
pub open spec fn num_sectors(disk_size: u64) -> u64 {
    disk_size / SECTOR_SIZE
}

/// The `len` low bytes of `value`, least significant first.
pub open spec fn le_bytes(value: u64, len: nat) -> Seq<u8> {
    Seq::new(len, |i: int| (value >> ((8 * i) as u64)) as u8)
}

/// The configuration space of a block device of `disk_size` bytes: the number
/// of whole sectors, in eight bytes, least significant first. What lies beyond
/// the last whole sector is not shown to the guest.
pub open spec fn config_space(disk_size: u64) -> Seq<u8> {
    le_bytes(num_sectors(disk_size), CONFIG_SPACE_SIZE as nat)
}

/// The number that `bytes` hold, least significant byte first.
pub open spec fn le_value(bytes: Seq<u8>) -> nat
    decreases bytes.len(),
{
    if bytes.len() == 0 {
        0
    } else {
        bytes[0] as nat + 256 * le_value(bytes.drop_first())
    }
}

/// Builds the configuration space of a block device of `disk_size` bytes.
pub fn build_config_space(disk_size: u64) -> (r: Vec<u8>)
    ensures
        r@ == config_space(disk_size),
{
    let sectors = disk_size >> SECTOR_SHIFT;
    assert(disk_size >> 9u8 == disk_size / 512) by (bit_vector);
    let mut config: Vec<u8> = Vec::new();
    let mut i: u64 = 0;
    while i < 8
        invariant
            i <= 8,
            config@ == le_bytes(sectors, i as nat),
        decreases 8 - i,
    {
        config.push((sectors >> (8 * i)) as u8);
        assert(config@ =~= le_bytes(sectors, (i + 1) as nat));
        i = i + 1;
    }
    config
}

} // verus!
