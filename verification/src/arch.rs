//! What differs between the machine architectures: where things lie in
//! guest-physical memory, which interrupt lines devices may take, and how a
//! memory size is laid out in regions.

use vstd::prelude::*;

verus! {

/// A machine architecture that a microVM can have.
#[derive(Clone, Copy, Debug, PartialEq, Eq, Structural)]
pub enum Arch {
    X86_64,
    Aarch64,
}

/// x86_64: the first address of the gap below 4 GiB that is kept for devices.
pub const X86_64_MMIO_GAP_START: u64 = 0xd000_0000;

/// x86_64: the first address above the device gap.
pub const X86_64_MMIO_GAP_END: u64 = 0x1_0000_0000;

/// x86_64: where the first MMIO device window lies.
pub const X86_64_MMIO_MEM_START: u64 = 0xd000_0000;

/// x86_64: the first interrupt line that a device may take.
pub const X86_64_IRQ_BASE: u32 = 5;

/// x86_64: the last interrupt line that a device may take.
pub const X86_64_IRQ_MAX: u32 = 15;

/// x86_64: where the kernel command line is written.
pub const X86_64_CMDLINE_START: u64 = 0x2_0000;

/// x86_64: the longest kernel command line.
pub const X86_64_CMDLINE_MAX_SIZE: usize = 4096;

/// x86_64: where the boot parameters (the zero page) are written.
pub const X86_64_ZERO_PAGE_START: u64 = 0x7000;

/// x86_64: where the kernel image is loaded.
pub const X86_64_HIMEM_START: u64 = 0x10_0000;

/// aarch64: where guest memory starts.
pub const AARCH64_DRAM_MEM_START: u64 = 0x8000_0000;

/// aarch64: the most guest memory that there can be.
pub const AARCH64_DRAM_MEM_MAX_SIZE: u64 = 0xff_8000_0000;

/// aarch64: where the first MMIO device window lies.
pub const AARCH64_MMIO_MEM_START: u64 = 0x4000_0000;

/// aarch64: the first interrupt line that a device may take.
pub const AARCH64_IRQ_BASE: u32 = 32;

/// aarch64: the last interrupt line that a device may take.
pub const AARCH64_IRQ_MAX: u32 = 159;

/// aarch64: the longest kernel command line.
pub const AARCH64_CMDLINE_MAX_SIZE: usize = 2048;

/// The number of bytes in one MiB.
pub const MIB: u64 = 0x10_0000;

/// A stretch of guest-physical memory.
#[derive(Clone, Copy, Debug, PartialEq, Eq, Structural)]
pub struct MemoryRegion {
    /// The guest-physical address of the first byte.
    pub guest_base: u64,
    /// The number of bytes.
    pub size: u64,
}

impl Arch {
    /// Where the first MMIO device window lies.
    pub open spec fn spec_mmio_mem_start(self) -> u64 {
        match self {
            Arch::X86_64 => X86_64_MMIO_MEM_START,
            Arch::Aarch64 => AARCH64_MMIO_MEM_START,
        }
    }

    /// Where the first MMIO device window lies.
    #[verifier::when_used_as_spec(spec_mmio_mem_start)]
    pub fn mmio_mem_start(self) -> (r: u64)
        ensures
            r == self.spec_mmio_mem_start(),
    {
        match self {
            Arch::X86_64 => X86_64_MMIO_MEM_START,
            Arch::Aarch64 => AARCH64_MMIO_MEM_START,
        }
    }

    /// The first interrupt line that a device may take.
    pub open spec fn spec_irq_base(self) -> u32 {
        match self {
            Arch::X86_64 => X86_64_IRQ_BASE,
            Arch::Aarch64 => AARCH64_IRQ_BASE,
        }
    }

    /// The first interrupt line that a device may take.
    #[verifier::when_used_as_spec(spec_irq_base)]
    pub fn irq_base(self) -> (r: u32)
        ensures
            r == self.spec_irq_base(),
    {
        match self {
            Arch::X86_64 => X86_64_IRQ_BASE,
            Arch::Aarch64 => AARCH64_IRQ_BASE,
        }
    }

    /// The last interrupt line that a device may take.
    pub open spec fn spec_irq_max(self) -> u32 {
        match self {
            Arch::X86_64 => X86_64_IRQ_MAX,
            Arch::Aarch64 => AARCH64_IRQ_MAX,
        }
    }

    /// The last interrupt line that a device may take.
    #[verifier::when_used_as_spec(spec_irq_max)]
    pub fn irq_max(self) -> (r: u32)
        ensures
            r == self.spec_irq_max(),
    {
        match self {
            Arch::X86_64 => X86_64_IRQ_MAX,
            Arch::Aarch64 => AARCH64_IRQ_MAX,
        }
    }

    /// The longest kernel command line.
    pub open spec fn spec_cmdline_max_size(self) -> usize {
        match self {
            Arch::X86_64 => X86_64_CMDLINE_MAX_SIZE,
            Arch::Aarch64 => AARCH64_CMDLINE_MAX_SIZE,
        }
    }

    /// The longest kernel command line.
    #[verifier::when_used_as_spec(spec_cmdline_max_size)]
    pub fn cmdline_max_size(self) -> (r: usize)
        ensures
            r == self.spec_cmdline_max_size(),
    {
        match self {
            Arch::X86_64 => X86_64_CMDLINE_MAX_SIZE,
            Arch::Aarch64 => AARCH64_CMDLINE_MAX_SIZE,
        }
    }

    /// Where the kernel image is loaded.
    pub open spec fn spec_kernel_start(self) -> u64 {
        match self {
            Arch::X86_64 => X86_64_HIMEM_START,
            Arch::Aarch64 => AARCH64_DRAM_MEM_START,
        }
    }

    /// Where the kernel image is loaded.
    #[verifier::when_used_as_spec(spec_kernel_start)]
    pub fn get_kernel_start(self) -> (r: u64)
        ensures
            r == self.spec_kernel_start(),
    {
        match self {
            Arch::X86_64 => X86_64_HIMEM_START,
            Arch::Aarch64 => AARCH64_DRAM_MEM_START,
        }
    }
}

/// The regions in which `size` bytes of guest memory lie.
///
/// On x86_64 memory starts at address zero and steps over the device gap:
/// what does not fit below the gap continues above it. On aarch64 memory is
/// one region from the start of DRAM, cut off at the most that there can be.
pub open spec fn memory_regions(arch: Arch, size: u64) -> Seq<MemoryRegion> {
    match arch {
        Arch::X86_64 => if size <= X86_64_MMIO_GAP_START {
            seq![MemoryRegion { guest_base: 0, size }]
        } else {
            seq![
                MemoryRegion { guest_base: 0, size: X86_64_MMIO_GAP_START },
                MemoryRegion {
                    guest_base: X86_64_MMIO_GAP_END,
                    size: (size - X86_64_MMIO_GAP_START) as u64,
                },
            ]
        },
        Arch::Aarch64 => seq![
            MemoryRegion {
                guest_base: AARCH64_DRAM_MEM_START,
                size: if size <= AARCH64_DRAM_MEM_MAX_SIZE {
                    size
                } else {
                    AARCH64_DRAM_MEM_MAX_SIZE
                },
            },
        ],
    }
}

/// The number of bytes in all of `regions`.
pub open spec fn total_size(regions: Seq<MemoryRegion>) -> int
    decreases regions.len(),
{
    if regions.len() == 0 {
        0
    } else {
        total_size(regions.drop_last()) + regions.last().size
    }
}

/// No region of `regions` reaches into the next, and each lies below the next.
pub open spec fn regions_ordered(regions: Seq<MemoryRegion>) -> bool {
    forall|i: int, j: int|
        0 <= i < j < regions.len() ==> (#[trigger] regions[i]).guest_base + regions[i].size <= (
        #[trigger] regions[j]).guest_base
}

/// The regions of a memory size lie apart and in rising order, none of them
/// reaches into the x86_64 device gap, and together they hold the whole size
/// (on aarch64, as far as the most that there can be).
pub proof fn lemma_memory_regions(arch: Arch, size: u64)
    ensures
        regions_ordered(memory_regions(arch, size)),
        1 <= memory_regions(arch, size).len() <= 2,
        arch == Arch::X86_64 ==> total_size(memory_regions(arch, size)) == size,
        arch == Arch::X86_64 ==> forall|i: int|
            0 <= i < memory_regions(arch, size).len() ==> {
                let r = #[trigger] memory_regions(arch, size)[i];
                r.guest_base + r.size <= X86_64_MMIO_GAP_START || r.guest_base
                    >= X86_64_MMIO_GAP_END
            },
        arch == Arch::Aarch64 ==> total_size(memory_regions(arch, size)) == if size
            <= AARCH64_DRAM_MEM_MAX_SIZE {
            size
        } else {
            AARCH64_DRAM_MEM_MAX_SIZE
        },
{
    let regions = memory_regions(arch, size);
    reveal_with_fuel(total_size, 3);
    if regions.len() == 2 {
        assert(regions.drop_last() =~= seq![regions[0]]);
        assert(regions.drop_last().drop_last() =~= Seq::<MemoryRegion>::empty());
    } else {
        assert(regions.drop_last() =~= Seq::<MemoryRegion>::empty());
    }
}

/// The regions in which `size` bytes of guest memory lie.
pub fn arch_memory_regions(arch: Arch, size: u64) -> (r: Vec<MemoryRegion>)
    ensures
        r@ == memory_regions(arch, size),
{
    let mut regions: Vec<MemoryRegion> = Vec::new();
    match arch {
        Arch::X86_64 => {
            if size <= X86_64_MMIO_GAP_START {
                regions.push(MemoryRegion { guest_base: 0, size });
            } else {
                regions.push(MemoryRegion { guest_base: 0, size: X86_64_MMIO_GAP_START });
                regions.push(
                    MemoryRegion {
                        guest_base: X86_64_MMIO_GAP_END,
                        size: size - X86_64_MMIO_GAP_START,
                    },
                );
            }
        },
        Arch::Aarch64 => {
            let dram_size = if size <= AARCH64_DRAM_MEM_MAX_SIZE {
                size
            } else {
                AARCH64_DRAM_MEM_MAX_SIZE
            };
            regions.push(MemoryRegion { guest_base: AARCH64_DRAM_MEM_START, size: dram_size });
        },
    }
    assert(regions@ =~= memory_regions(arch, size));
    regions
}

/// The first address above all of `regions`, which lie in rising order; zero
/// where there is no region.
pub open spec fn end_addr(regions: Seq<MemoryRegion>) -> int {
    if regions.len() == 0 {
        0
    } else {
        regions.last().guest_base + regions.last().size
    }
}

} // verus!
