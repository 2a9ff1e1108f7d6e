//! The MMIO device manager: it hands each virtio device a window of
//! guest-physical addresses and an interrupt line, and announces the device on
//! the kernel command line.

use crate::arch::Arch;
use crate::cmdline::{element_error, joined, key_value, printable, Cmdline, CmdlineError};
use crate::text::{
    decimal, digit, digits, lemma_digits_are_digits, padded_digits, push_digits,
    push_padded_digits,
};
use vstd::prelude::*;
use vstd::string::*;

verus! {

/// The size of one device's window of addresses.
pub const MMIO_LEN: u64 = 0x1000;

/// Where, within a device's window, its configuration space begins.
pub const MMIO_CFG_SPACE_OFF: u64 = 0x100;

/// The key under which a device is announced on the kernel command line.
pub const MMIO_CMDLINE_KEY: &'static str = "virtio_mmio.device";

/// The kind of a device on the bus.
#[derive(Clone, Copy, Debug, PartialEq, Eq, Structural)]
pub enum DeviceType {
    /// A virtio device of the given virtio type.
    Virtio(u32),
    /// The serial console.
    Serial,
    /// The real-time clock.
    RTC,
}

/// Why a device could not be registered.
#[derive(Clone, Debug, PartialEq, Eq)]
pub enum MmioError {
    /// The device could not be put on the bus; with the cause.
    BusError(String),
    /// The device could not be announced on the kernel command line.
    Cmdline(CmdlineError),
    /// The MMIO transport of the device could not be made; with the cause.
    CreateMmioDevice(String),
    /// Every interrupt line is taken.
    IrqsExhausted,
    /// A queue event of the device could not be registered; with the cause.
    RegisterIoEvent(String),
    /// The interrupt event of the device could not be registered; with the
    /// cause.
    RegisterIrqFd(String),
    /// The device could not be updated.
    UpdateFailed,
}

impl MmioError {
    /// The text of `message`.
    pub open spec fn message_spec(self) -> Seq<char> {
        match self {
            MmioError::BusError(cause) => "failed to perform bus operation: "@ + cause@,
            MmioError::Cmdline(e) => "unable to add device to kernel command line: "@
                + e.message_spec(),
            MmioError::CreateMmioDevice(cause) => "failed to create mmio device: "@ + cause@,
            MmioError::IrqsExhausted => "no more IRQs are available"@,
            MmioError::RegisterIoEvent(cause) => "failed to register IO event: "@ + cause@,
            MmioError::RegisterIrqFd(cause) => "failed to register irqfd: "@ + cause@,
            MmioError::UpdateFailed => "failed to update the mmio device"@,
        }
    }

    /// A sentence that describes the error.
    pub fn message(&self) -> (r: String)
        ensures
            r@ == self.message_spec(),
    {
        match self {
            MmioError::BusError(cause) => {
                let mut text = String::from_str("failed to perform bus operation: ");
                text.append(cause.as_str());
                text
            },
            MmioError::Cmdline(e) => {
                let mut text = String::from_str("unable to add device to kernel command line: ");
                text.append(e.message().as_str());
                text
            },
            MmioError::CreateMmioDevice(cause) => {
                let mut text = String::from_str("failed to create mmio device: ");
                text.append(cause.as_str());
                text
            },
            MmioError::IrqsExhausted => String::from_str("no more IRQs are available"),
            MmioError::RegisterIoEvent(cause) => {
                let mut text = String::from_str("failed to register IO event: ");
                text.append(cause.as_str());
                text
            },
            MmioError::RegisterIrqFd(cause) => {
                let mut text = String::from_str("failed to register irqfd: ");
                text.append(cause.as_str());
                text
            },
            MmioError::UpdateFailed => String::from_str("failed to update the mmio device"),
        }
    }
}

/// Where a registered device lies and which interrupt line it has.
#[derive(Debug, PartialEq, Eq)]
pub struct MmioDeviceInfo {
    /// The virtio type of the device.
    pub type_id: u32,
    /// The name by which the device is known.
    pub device_id: String,
    /// The guest-physical address of the device's window.
    pub addr: u64,
    /// The size of the device's window.
    pub len: u64,
    /// The interrupt line of the device.
    pub irq: u32,
}

impl Clone for MmioDeviceInfo {
    fn clone(&self) -> (r: Self)
        ensures
            r == *self,
    {
        MmioDeviceInfo {
            type_id: self.type_id,
            device_id: self.device_id.clone(),
            addr: self.addr,
            len: self.len,
            irq: self.irq,
        }
    }
}

/// What announces, as the value of `virtio_mmio.device`, a device at `addr`
/// with the interrupt line `irq`: the window's size in KiB, the address in
/// hexadecimal, the line in decimal.
pub open spec fn mmio_cmdline_value(addr: u64, irq: u32) -> Seq<char> {
    "4K@0x"@ + padded_digits(addr as nat, 16, 8) + seq![':'] + decimal(irq as nat)
}

/// The whole fragment that announces a device on the kernel command line.
pub open spec fn mmio_cmdline_fragment(addr: u64, irq: u32) -> Seq<char> {
    key_value(MMIO_CMDLINE_KEY@, mmio_cmdline_value(addr, irq))
}

/// What a device manager holds.
pub struct MmioView {
    /// Where the next device's window will lie.
    pub mmio_base: u64,
    /// The interrupt line that the next device will get.
    pub irq: u32,
    /// The last interrupt line that a device may take.
    pub last_irq: u32,
    /// The registered devices, in the order of their registration.
    pub devices: Seq<MmioDeviceInfo>,
}

impl MmioView {
    /// There is room, in addresses and in numbers, for every interrupt line
    /// that is still free.
    pub open spec fn wf(self) -> bool {
        &&& self.last_irq < u32::MAX
        &&& self.irq <= self.last_irq + 1
        &&& self.mmio_base + MMIO_LEN * (self.last_irq + 1 - self.irq) <= u64::MAX
    }

    /// Whether an interrupt line is free.
    pub open spec fn has_free_irq(self) -> bool {
        self.irq <= self.last_irq
    }

    /// The manager after a device was registered in the next free slot.
    pub open spec fn with_device(self, type_id: u32, device_id: String) -> MmioView {
        MmioView {
            mmio_base: (self.mmio_base + MMIO_LEN) as u64,
            irq: (self.irq + 1) as u32,
            last_irq: self.last_irq,
            devices: self.devices.push(
                MmioDeviceInfo {
                    type_id,
                    device_id,
                    addr: self.mmio_base,
                    len: MMIO_LEN,
                    irq: self.irq,
                },
            ),
        }
    }

    /// The command line `line` after the next device was announced on it. Only
    /// x86_64 announces devices there.
    pub open spec fn announced(self, arch: Arch, line: Seq<char>) -> Seq<char> {
        if arch == Arch::X86_64 {
            joined(line, mmio_cmdline_fragment(self.mmio_base, self.irq))
        } else {
            line
        }
    }

    /// Why the next device cannot be registered, if it cannot: no interrupt
    /// line is free, or the announcement does not fit on the command line.
    pub open spec fn register_error(self, arch: Arch, line: Seq<char>, capacity: nat) -> Option<
        MmioError,
    > {
        if !self.has_free_irq() {
            Some(MmioError::IrqsExhausted)
        } else if self.announced(arch, line).len() > capacity {
            Some(MmioError::Cmdline(CmdlineError::CommandLineOverflow))
        } else {
            None
        }
    }

    /// Whether the device at `i` is of the type `type_id` and registered
    /// under `id`.
    pub open spec fn holds(self, i: int, type_id: u32, id: Seq<char>) -> bool {
        &&& 0 <= i < self.devices.len()
        &&& self.devices[i].type_id == type_id
        &&& self.devices[i].device_id@ == id
    }

    /// Whether a device of the type `type_id` is registered under `id`.
    pub open spec fn has_device(self, type_id: u32, id: Seq<char>) -> bool {
        exists|i: int| #[trigger] self.holds(i, type_id, id)
    }

    /// Whether the device at `i` is the one of the type `type_id` that was
    /// registered last under `id`.
    pub open spec fn is_latest_device(self, i: int, type_id: u32, id: Seq<char>) -> bool {
        &&& self.holds(i, type_id, id)
        &&& forall|j: int| i < j ==> !#[trigger] self.holds(j, type_id, id)
    }

    /// The place of the device of the type `type_id` that was registered last
    /// under `id`.
    pub open spec fn latest_device(self, type_id: u32, id: Seq<char>) -> int {
        choose|i: int| self.is_latest_device(i, type_id, id)
    }

    /// There is one latest device at most.
    pub proof fn lemma_latest_device(self, i: int, type_id: u32, id: Seq<char>)
        requires
            self.is_latest_device(i, type_id, id),
        ensures
            self.latest_device(type_id, id) == i,
            self.has_device(type_id, id),
    {
        let k = self.latest_device(type_id, id);
        assert(self.is_latest_device(k, type_id, id));
        if k < i {
            assert(!self.holds(i, type_id, id));
        } else if i < k {
            assert(!self.holds(k, type_id, id));
        }
    }
}

/// The value that announces a device can stand as a value on a command line.
pub proof fn lemma_mmio_cmdline_value_valid(addr: u64, irq: u32)
    ensures
        element_error(mmio_cmdline_value(addr, irq)) is None,
        element_error(MMIO_CMDLINE_KEY@) is None,
{
    reveal_strlit("4K@0x");
    reveal_strlit("virtio_mmio.device");
    let head = "4K@0x"@;
    let hex = padded_digits(addr as nat, 16, 8);
    let dec = decimal(irq as nat);
    let value = mmio_cmdline_value(addr, irq);
    lemma_digits_are_digits(addr as nat, 16);
    lemma_digits_are_digits(irq as nat, 10);
    assert forall|i: int| 0 <= i < hex.len() implies plain(#[trigger] hex[i]) by {
        let d = digits(addr as nat, 16);
        if d.len() >= 8 {
            let k = choose|k: int| d[i] == digit(k);
            assert(d[i] == digit(k));
        } else {
            if i < 8 - d.len() {
                assert(hex[i] == '0');
            } else {
                let j = i - (8 - d.len());
                assert(hex[i] == d[j]);
                let k = choose|k: int| d[j] == digit(k);
                assert(d[j] == digit(k));
            }
        }
    }
    assert forall|i: int| 0 <= i < dec.len() implies plain(#[trigger] dec[i]) by {
        let k = choose|k: int| dec[i] == digit(k);
        assert(dec[i] == digit(k));
    }
    assert forall|i: int| 0 <= i < value.len() implies plain(#[trigger] value[i]) by {
        if i < 5 {
            assert(value[i] == head[i]);
        } else if i < 5 + hex.len() {
            assert(value[i] == hex[i - 5]);
        } else if i == 5 + hex.len() {
            assert(value[i] == ':');
        } else {
            assert(value[i] == dec[i - 6 - hex.len()]);
        }
    }
    lemma_plain_is_element(value);
    let key = MMIO_CMDLINE_KEY@;
    assert forall|i: int| 0 <= i < key.len() implies plain(#[trigger] key[i]) by {
    }
    lemma_plain_is_element(key);
}

/// Whether `c` is printable ASCII other than a space and an equals sign.
pub open spec fn plain(c: char) -> bool {
    printable(c) && c != ' ' && c != '='
}

proof fn lemma_plain_is_element(s: Seq<char>)
    requires
        forall|i: int| 0 <= i < s.len() ==> plain(#[trigger] s[i]),
    ensures
        element_error(s) is None,
{
    assert forall|i: int| 0 <= i < s.len() implies printable(#[trigger] s[i]) by {
        assert(plain(s[i]));
    }
    if s.contains(' ') {
        let i = choose|i: int| 0 <= i < s.len() && s[i] == ' ';
        assert(plain(s[i]));
    }
    if s.contains('=') {
        let i = choose|i: int| 0 <= i < s.len() && s[i] == '=';
        assert(plain(s[i]));
    }
}

/// The manager of the MMIO devices of a microVM.
#[derive(Debug)]
pub struct MMIODeviceManager {
    mmio_base: u64,
    irq: u32,
    last_irq: u32,
    devices: Vec<MmioDeviceInfo>,
}

impl View for MMIODeviceManager {
    type V = MmioView;

    closed spec fn view(&self) -> MmioView {
        MmioView {
            mmio_base: self.mmio_base,
            irq: self.irq,
            last_irq: self.last_irq,
            devices: self.devices@,
        }
    }
}

impl Clone for MMIODeviceManager {
    fn clone(&self) -> (r: Self)
        ensures
            r@ == self@,
    {
        let mut devices: Vec<MmioDeviceInfo> = Vec::new();
        let mut i: usize = 0;
        while i < self.devices.len()
            invariant
                i <= self.devices.len(),
                devices@ == self.devices@.take(i as int),
            decreases self.devices.len() - i,
        {
            devices.push(self.devices[i].clone());
            assert(devices@ =~= self.devices@.take(i as int + 1));
            i = i + 1;
        }
        assert(self.devices@.take(i as int) =~= self.devices@);
        MMIODeviceManager {
            mmio_base: self.mmio_base,
            irq: self.irq,
            last_irq: self.last_irq,
            devices,
        }
    }
}

impl MMIODeviceManager {
    /// There is room for every interrupt line that is still free.
    pub open spec fn wf(&self) -> bool {
        self@.wf()
    }

    /// A manager without devices. The first device will lie at `mmio_base`;
    /// devices may take the interrupt lines from `irq_base` to `irq_max`.
    pub fn new(mmio_base: u64, irq_base: u32, irq_max: u32) -> (r: Self)
        requires
            irq_max < u32::MAX,
            irq_base <= irq_max + 1,
            mmio_base + MMIO_LEN * (irq_max + 1 - irq_base) <= u64::MAX,
        ensures
            r.wf(),
            r@ == (MmioView {
                mmio_base,
                irq: irq_base,
                last_irq: irq_max,
                devices: Seq::<MmioDeviceInfo>::empty(),
            }),
    {
        MMIODeviceManager { mmio_base, irq: irq_base, last_irq: irq_max, devices: Vec::new() }
    }

    /// A manager without devices, with the addresses and the interrupt lines
    /// that `arch` keeps for devices.
    pub fn for_arch(arch: Arch) -> (r: Self)
        ensures
            r.wf(),
            r@ == (MmioView {
                mmio_base: arch.mmio_mem_start(),
                irq: arch.irq_base(),
                last_irq: arch.irq_max(),
                devices: Seq::<MmioDeviceInfo>::empty(),
            }),
    {
        MMIODeviceManager::new(arch.mmio_mem_start(), arch.irq_base(), arch.irq_max())
    }

    /// Whether an interrupt line is free.
    pub fn has_free_irq(&self) -> (r: bool)
        ensures
            r == self@.has_free_irq(),
    {
        self.irq <= self.last_irq
    }

    /// The registered devices, in the order of their registration.
    pub fn devices(&self) -> (r: &Vec<MmioDeviceInfo>)
        ensures
            r@ == self@.devices,
    {
        &self.devices
    }

    /// Registers a device in the next free slot and, on x86_64, announces it
    /// at the end of `cmdline`. Returns the address of the device's window.
    /// Where the registration is refused, neither the manager nor the command
    /// line changes.
    pub fn register_mmio_device(
        &mut self,
        arch: Arch,
        cmdline: &mut Cmdline,
        type_id: u32,
        device_id: String,
    ) -> (r: Result<u64, MmioError>)
        requires
            old(self).wf(),
            old(cmdline).wf(),
        ensures
            final(self).wf(),
            final(cmdline).wf(),
            final(cmdline).spec_capacity() == old(cmdline).spec_capacity(),
            match r {
                Ok(addr) => {
                    &&& old(self)@.register_error(arch, old(cmdline)@, old(cmdline).spec_capacity())
                        is None
                    &&& addr == old(self)@.mmio_base
                    &&& final(self)@ == old(self)@.with_device(type_id, device_id)
                    &&& final(cmdline)@ == old(self)@.announced(arch, old(cmdline)@)
                },
                Err(e) => {
                    &&& old(self)@.register_error(arch, old(cmdline)@, old(cmdline).spec_capacity())
                        == Some(e)
                    &&& final(self)@ == old(self)@
                    &&& *final(cmdline) == *old(cmdline)
                },
            },
    {
        if self.irq > self.last_irq {
            return Err(MmioError::IrqsExhausted);
        }
        if arch == Arch::X86_64 {
            let mut value = String::from_str("4K@0x");
            push_padded_digits(&mut value, self.mmio_base, 16, 8);
            value.push(':');
            push_digits(&mut value, self.irq as u64, 10);
            proof {
                assert(value@ =~= mmio_cmdline_value(self.mmio_base, self.irq));
                lemma_mmio_cmdline_value_valid(self.mmio_base, self.irq);
            }
            if let Err(e) = cmdline.insert(MMIO_CMDLINE_KEY, value.as_str()) {
                return Err(MmioError::Cmdline(e));
            }
        }
        let addr = self.mmio_base;
        self.devices.push(
            MmioDeviceInfo { type_id, device_id, addr, len: MMIO_LEN, irq: self.irq },
        );
        assert(MMIO_LEN * (self.last_irq + 1 - self.irq) == MMIO_LEN * (self.last_irq + 1 - (
        self.irq + 1)) + MMIO_LEN) by (nonlinear_arith);
        self.mmio_base = self.mmio_base + MMIO_LEN;
        self.irq = self.irq + 1;
        Ok(addr)
    }

    /// The device of the type `type_id` that was registered last under `id`.
    pub fn get_device_info(&self, type_id: u32, id: &str) -> (r: Option<&MmioDeviceInfo>)
        ensures
            r is Some <==> self@.has_device(type_id, id@),
            r matches Some(info) ==> *info == self@.devices[self@.latest_device(type_id, id@)],
    {
        let mut i: usize = self.devices.len();
        while i > 0
            invariant
                i <= self.devices.len(),
                forall|j: int| i <= j ==> !#[trigger] self@.holds(j, type_id, id@),
            decreases i,
        {
            i = i - 1;
            if self.devices[i].type_id == type_id && self.devices[i].device_id.as_str().eq(id) {
                proof {
                    assert(self@.holds(i as int, type_id, id@));
                    self@.lemma_latest_device(i as int, type_id, id@);
                }
                return Some(&self.devices[i]);
            }
        }
        None
    }
}

} // verus!
