//! The boot assembler: from the registry of a microVM's configuration it works
//! out, in order, every operation that the host has to perform to bring the
//! microVM up, and what the running machine will look like.
//!
//! The assembler does not touch the host. It hands back a [`BootPlan`]; whoever
//! runs the plan performs its steps one by one and reports the first that
//! failed, and [`BootPlan::finish`] says what came of the boot.

use crate::arch::{
    arch_memory_regions, end_addr, memory_regions, Arch, MemoryRegion, MIB, X86_64_CMDLINE_START,
};
use crate::cmdline::{insert_str_error, joined, Cmdline, CmdlineError};
use crate::controller::{start_error_kind, VmmActionError};
use crate::device_manager::{MMIODeviceManager, MmioDeviceInfo, MmioError, MmioView};
use crate::devices::{
    BLOCK_EVENTS_COUNT, NET_EVENTS_COUNT, TYPE_BLOCK, TYPE_NET, TYPE_VSOCK, VSOCK_EVENTS_COUNT,
};
use crate::epoll_context::{DeviceHandler, EpollContext, EpollDispatch, EpollView};
use crate::memory_model::{layout_error, GuestMemory, GuestMemoryError};
use crate::error::{prefixed, prefixed_unquoted, Error};
use crate::resources::{VmResources, VmResourcesView};
use crate::text::without_quotes;
use crate::vmm_config::drive::{
    has_partuuid_root, has_read_only_root, has_root, BlockDeviceConfig, OpenMode,
};
use crate::vmm_config::machine_config::{CpuFeaturesTemplate, VmConfig};
use crate::vmm_config::net::NetworkInterfaceConfig;
use crate::vmm_config::rate_limiter::optional_limiter;
use crate::vmm_config::vsock::VsockDeviceConfig;
use vstd::prelude::*;
use vstd::string::*;

verus! {

/// The number of seconds between two writes of the metrics.
pub const WRITE_METRICS_PERIOD_SECONDS: u64 = 60;

/// Why a microVM could not be started. Where a variant holds a text, it is the
/// cause as the host reported it.
#[derive(Clone, Debug, PartialEq, Eq)]
pub enum StartMicrovmError {
    /// The virtual machine could not be configured.
    ConfigureVm(String),
    /// The backing file of a block device could not be sought.
    CreateBlockDevice(String),
    /// A network device could not be created.
    CreateNetDevice(String),
    /// A rate limiter could not be created.
    CreateRateLimiter(String),
    /// The backend of the vsock device could not be created.
    CreateVsockBackend(String),
    /// The vsock device could not be created.
    CreateVsockDevice(String),
    /// Guest memory could not be set up.
    GuestMemory(GuestMemoryError),
    /// The monitor failed inside.
    Internal(Error),
    /// The kernel command line did not take a fragment; with the reason.
    KernelCmdline(String),
    /// The kernel image could not be loaded.
    KernelLoader(String),
    /// The kernel command line could not be written into guest memory.
    LoadCommandline(CmdlineError),
    /// The microVM runs already.
    MicroVMAlreadyRunning,
    /// No boot source is configured.
    MissingKernelConfig,
    /// The tap device of a network interface could not be opened.
    NetDeviceNotConfigured,
    /// The backing file of a block device could not be opened.
    OpenBlockDevice(String),
    /// A block device, or any device at the last stage of its registration,
    /// could not be registered.
    RegisterBlockDevice(MmioError),
    /// The transport of a network device could not be made.
    RegisterNetDevice(MmioError),
    /// The transport of the vsock device could not be made.
    RegisterVsockDevice(MmioError),
}

impl StartMicrovmError {
    /// The text of `message`. Causes that may hold quoted text are shown
    /// without the quotes.
    pub open spec fn message_spec(self) -> Seq<char> {
        match self {
            StartMicrovmError::ConfigureVm(cause) => "Cannot configure virtual machine. "@
                + without_quotes(cause@),
            StartMicrovmError::CreateBlockDevice(cause) => "Unable to seek the block device backing file due to invalid permissions or the file was deleted/corrupted. Error number: "@
                + cause@,
            StartMicrovmError::CreateNetDevice(cause) => "Cannot create network device. "@
                + without_quotes(cause@),
            StartMicrovmError::CreateRateLimiter(cause) => "Cannot create RateLimiter: "@ + cause@,
            StartMicrovmError::CreateVsockBackend(cause) => "Cannot create backend for vsock device: "@
                + cause@,
            StartMicrovmError::CreateVsockDevice(cause) => "Cannot create vsock device: "@ + cause@,
            StartMicrovmError::GuestMemory(e) => "Invalid Memory Configuration: "@ + without_quotes(
                e.message_spec(),
            ),
            StartMicrovmError::Internal(e) => "Internal error while starting microVM: "@
                + e.message_spec(),
            StartMicrovmError::KernelCmdline(reason) => "Invalid kernel command line: "@
                + reason@,
            StartMicrovmError::KernelLoader(cause) => "Cannot load kernel due to invalid memory configuration or invalid kernel image. "@
                + without_quotes(cause@),
            StartMicrovmError::LoadCommandline(e) => "Cannot load command line string. "@
                + without_quotes(e.message_spec()),
            StartMicrovmError::MicroVMAlreadyRunning => "Microvm already running."@,
            StartMicrovmError::MissingKernelConfig => "Cannot start microvm without kernel configuration."@,
            StartMicrovmError::NetDeviceNotConfigured => "The net device configuration is missing the tap device."@,
            StartMicrovmError::OpenBlockDevice(cause) => "Cannot open the block device backing file. "@
                + without_quotes(cause@),
            StartMicrovmError::RegisterBlockDevice(e) => "Cannot initialize a MMIO Block Device or add a device to the MMIO Bus. "@
                + without_quotes(e.message_spec()),
            StartMicrovmError::RegisterNetDevice(e) => "Cannot initialize a MMIO Network Device or add a device to the MMIO Bus. "@
                + without_quotes(e.message_spec()),
            StartMicrovmError::RegisterVsockDevice(e) => "Cannot initialize a MMIO Vsock Device or add a device to the MMIO Bus. "@
                + without_quotes(e.message_spec()),
        }
    }

    /// A sentence that describes the failure, for the user.
    pub fn message(&self) -> (r: String)
        ensures
            r@ == self.message_spec(),
    {
        match self {
            StartMicrovmError::ConfigureVm(cause) => prefixed_unquoted(
                "Cannot configure virtual machine. ",
                cause.as_str(),
            ),
            StartMicrovmError::CreateBlockDevice(cause) => prefixed(
                "Unable to seek the block device backing file due to invalid permissions or the file was deleted/corrupted. Error number: ",
                cause.as_str(),
            ),
            StartMicrovmError::CreateNetDevice(cause) => prefixed_unquoted(
                "Cannot create network device. ",
                cause.as_str(),
            ),
            StartMicrovmError::CreateRateLimiter(cause) => prefixed(
                "Cannot create RateLimiter: ",
                cause.as_str(),
            ),
            StartMicrovmError::CreateVsockBackend(cause) => prefixed(
                "Cannot create backend for vsock device: ",
                cause.as_str(),
            ),
            StartMicrovmError::CreateVsockDevice(cause) => prefixed(
                "Cannot create vsock device: ",
                cause.as_str(),
            ),
            StartMicrovmError::GuestMemory(e) => prefixed_unquoted(
                "Invalid Memory Configuration: ",
                e.message().as_str(),
            ),
            StartMicrovmError::Internal(e) => prefixed(
                "Internal error while starting microVM: ",
                e.message().as_str(),
            ),
            StartMicrovmError::KernelCmdline(reason) => prefixed(
                "Invalid kernel command line: ",
                reason.as_str(),
            ),
            StartMicrovmError::KernelLoader(cause) => prefixed_unquoted(
                "Cannot load kernel due to invalid memory configuration or invalid kernel image. ",
                cause.as_str(),
            ),
            StartMicrovmError::LoadCommandline(e) => prefixed_unquoted(
                "Cannot load command line string. ",
                e.message().as_str(),
            ),
            StartMicrovmError::MicroVMAlreadyRunning => String::from_str(
                "Microvm already running.",
            ),
            StartMicrovmError::MissingKernelConfig => String::from_str(
                "Cannot start microvm without kernel configuration.",
            ),
            StartMicrovmError::NetDeviceNotConfigured => String::from_str(
                "The net device configuration is missing the tap device.",
            ),
            StartMicrovmError::OpenBlockDevice(cause) => prefixed_unquoted(
                "Cannot open the block device backing file. ",
                cause.as_str(),
            ),
            StartMicrovmError::RegisterBlockDevice(e) => prefixed_unquoted(
                "Cannot initialize a MMIO Block Device or add a device to the MMIO Bus. ",
                e.message().as_str(),
            ),
            StartMicrovmError::RegisterNetDevice(e) => prefixed_unquoted(
                "Cannot initialize a MMIO Network Device or add a device to the MMIO Bus. ",
                e.message().as_str(),
            ),
            StartMicrovmError::RegisterVsockDevice(e) => prefixed_unquoted(
                "Cannot initialize a MMIO Vsock Device or add a device to the MMIO Bus. ",
                e.message().as_str(),
            ),
        }
    }
}

/// Whether `e` says that the kernel command line did not take a fragment, for
/// the reason `cause`.
pub open spec fn is_kernel_cmdline_error(e: StartMicrovmError, cause: CmdlineError) -> bool {
    e matches StartMicrovmError::KernelCmdline(reason) && reason@ == cause.message_spec()
}

impl From<CmdlineError> for StartMicrovmError {
    /// A refusal of the kernel command line as a failed start: the reason is
    /// kept as text.
    fn from(e: CmdlineError) -> (r: StartMicrovmError)
        ensures
            is_kernel_cmdline_error(r, e),
    {
        StartMicrovmError::KernelCmdline(e.message())
    }
}

impl vstd::std_specs::convert::FromSpecImpl<CmdlineError> for StartMicrovmError {
    /// The text of the result is made anew, so no value can be named for it
    /// beforehand; what holds of the result, `from` states itself.
    open spec fn obeys_from_spec() -> bool {
        false
    }

    open spec fn from_spec(e: CmdlineError) -> StartMicrovmError {
        choose|r: StartMicrovmError| is_kernel_cmdline_error(r, e)
    }
}

/// A failure as a plan knows it before it happens.
pub enum PlannedFailure {
    /// The kernel command line did not take a fragment, for this reason.
    KernelCmdline(CmdlineError),
    /// Any other failure, as it will be handed out.
    Other(StartMicrovmError),
}

impl PlannedFailure {
    /// Whether `e` is this failure as it is handed out.
    pub open spec fn is_shown_by(self, e: StartMicrovmError) -> bool {
        match self {
            PlannedFailure::KernelCmdline(cause) => is_kernel_cmdline_error(e, cause),
            PlannedFailure::Other(failure) => e == failure,
        }
    }
}

/// Whether the failure `shown`, if there is one, is the planned failure
/// `planned`, and there is none where none is planned.
pub open spec fn shows(shown: Option<StartMicrovmError>, planned: Option<PlannedFailure>) -> bool {
    match planned {
        None => shown is None,
        Some(failure) => shown matches Some(e) && failure.is_shown_by(e),
    }
}

/// A device that is being attached: a block device or a network interface by
/// its place in the registry's list, or the vsock device.
#[derive(Clone, Copy, Debug, PartialEq, Eq, Structural)]
pub enum DeviceRef {
    Block(usize),
    Net(usize),
    Vsock,
}

/// One operation that the host performs while a microVM is brought up.
/// Numbers are places in the registry's list of block devices or of network
/// interfaces.
#[derive(Clone, Copy, Debug, PartialEq, Eq, Structural)]
pub enum BootStep {
    /// Note the time, for the metric of how long the boot took.
    CaptureBootTimestamp,
    /// Map the regions of guest memory.
    CreateGuestMemory,
    /// Duplicate the handle of the kernel image file.
    CloneKernelFile,
    /// Load the kernel image into guest memory, at the architecture's kernel
    /// start.
    LoadKernel,
    /// Create the metrics timer (monotonic, non-blocking, closed on exec)
    /// and put it on the dispatcher.
    CreateMetricsTimer,
    /// Create the secondary event manager and put it on the dispatcher.
    CreateEventManager,
    /// Open the host's KVM interface.
    OpenKvm,
    /// Create the virtual machine.
    CreateVm,
    /// Hand guest memory to the virtual machine.
    InitVmMemory,
    /// Create the manager of the legacy PIO devices.
    CreateLegacyDeviceManager,
    /// Create the interrupt controller.
    SetupInterruptController,
    /// Create the legacy devices: keyboard controller and serial console.
    AttachLegacyDevices,
    /// Create the vCPUs.
    CreateVcpus,
    /// Open the backing file of a block device, with the access that the
    /// step names.
    OpenBlockFile(usize, OpenMode),
    /// Create the rate limiter of a block device.
    CreateBlockRateLimiter(usize),
    /// Create a block device.
    CreateBlockDevice(usize),
    /// Create the limiter on what a network interface receives.
    CreateNetRxRateLimiter(usize),
    /// Create the limiter on what a network interface sends.
    CreateNetTxRateLimiter(usize),
    /// Open the host tap device of a network interface.
    OpenTap(usize),
    /// Create a network device.
    CreateNetDevice(usize),
    /// Create the Unix-socket backend of the vsock device, bound to the socket
    /// path of the configuration, for the guest with this context id.
    CreateVsockBackend(u64),
    /// Create the vsock device, for the guest with this context id.
    CreateVsockDevice(u64),
    /// Wrap a device in its MMIO transport.
    CreateMmioTransport(DeviceRef),
    /// Register the queue events of a device with the virtual machine.
    RegisterIoEvents(DeviceRef),
    /// Register the interrupt event of a device with the virtual machine.
    RegisterIrqFd(DeviceRef),
    /// Put a device on the MMIO bus.
    InsertOnBus(DeviceRef),
    /// Write the kernel command line, closed by a NUL byte, into guest memory.
    WriteCmdline,
    /// Write the boot-protocol structures into guest memory.
    ConfigureSystem,
    /// Put the exit event and the events of the vCPU threads on the
    /// dispatcher.
    RegisterEvents,
    /// Start each vCPU on a thread of its own.
    StartVcpus,
    /// Arm the metrics timer.
    ArmMetricsTimer,
    /// Write the metrics once, straight away.
    LogMetrics,
}

/// The failure that a microVM's start ends with when the host fails at
/// `step`, for the reason `cause`; none for a step whose failure the start
/// passes over.
pub open spec fn host_failure_spec(step: BootStep, cause: String) -> Option<StartMicrovmError> {
    match step {
        BootStep::CaptureBootTimestamp => None,
        BootStep::CreateGuestMemory => Some(
            StartMicrovmError::GuestMemory(GuestMemoryError::MemoryMappingFailed(cause)),
        ),
        BootStep::CloneKernelFile => Some(StartMicrovmError::Internal(Error::KernelFile(cause))),
        BootStep::LoadKernel => Some(StartMicrovmError::KernelLoader(cause)),
        BootStep::CreateMetricsTimer => Some(StartMicrovmError::Internal(Error::TimerFd(cause))),
        BootStep::CreateEventManager => Some(
            StartMicrovmError::Internal(Error::EventManager(cause)),
        ),
        BootStep::OpenKvm => Some(StartMicrovmError::Internal(Error::KvmContext(cause))),
        BootStep::CreateVm => Some(StartMicrovmError::Internal(Error::Vm(cause))),
        BootStep::InitVmMemory => Some(StartMicrovmError::ConfigureVm(cause)),
        BootStep::CreateLegacyDeviceManager => Some(
            StartMicrovmError::Internal(Error::CreateLegacyDevice(cause)),
        ),
        BootStep::SetupInterruptController => Some(StartMicrovmError::Internal(Error::Other(cause))),
        BootStep::AttachLegacyDevices => Some(StartMicrovmError::Internal(Error::Other(cause))),
        BootStep::CreateVcpus => Some(StartMicrovmError::Internal(Error::Other(cause))),
        BootStep::OpenBlockFile(_, _) => Some(StartMicrovmError::OpenBlockDevice(cause)),
        BootStep::CreateBlockRateLimiter(_) => Some(StartMicrovmError::CreateRateLimiter(cause)),
        BootStep::CreateBlockDevice(_) => Some(StartMicrovmError::CreateBlockDevice(cause)),
        BootStep::CreateNetRxRateLimiter(_) => Some(StartMicrovmError::CreateRateLimiter(cause)),
        BootStep::CreateNetTxRateLimiter(_) => Some(StartMicrovmError::CreateRateLimiter(cause)),
        BootStep::OpenTap(_) => Some(StartMicrovmError::NetDeviceNotConfigured),
        BootStep::CreateNetDevice(_) => Some(StartMicrovmError::CreateNetDevice(cause)),
        BootStep::CreateVsockBackend(_) => Some(StartMicrovmError::CreateVsockBackend(cause)),
        BootStep::CreateVsockDevice(_) => Some(StartMicrovmError::CreateVsockDevice(cause)),
        BootStep::CreateMmioTransport(device) => match device {
            DeviceRef::Block(_) => Some(
                StartMicrovmError::RegisterBlockDevice(MmioError::CreateMmioDevice(cause)),
            ),
            DeviceRef::Net(_) => Some(
                StartMicrovmError::RegisterNetDevice(MmioError::CreateMmioDevice(cause)),
            ),
            DeviceRef::Vsock => Some(
                StartMicrovmError::RegisterVsockDevice(MmioError::CreateMmioDevice(cause)),
            ),
        },
        BootStep::RegisterIoEvents(_) => Some(
            StartMicrovmError::RegisterBlockDevice(MmioError::RegisterIoEvent(cause)),
        ),
        BootStep::RegisterIrqFd(_) => Some(
            StartMicrovmError::RegisterBlockDevice(MmioError::RegisterIrqFd(cause)),
        ),
        BootStep::InsertOnBus(_) => Some(
            StartMicrovmError::RegisterBlockDevice(MmioError::BusError(cause)),
        ),
        BootStep::WriteCmdline => Some(
            StartMicrovmError::LoadCommandline(CmdlineError::CommandLineCopy),
        ),
        BootStep::ConfigureSystem => Some(StartMicrovmError::Internal(Error::Other(cause))),
        BootStep::RegisterEvents => Some(StartMicrovmError::Internal(Error::Other(cause))),
        BootStep::StartVcpus => Some(StartMicrovmError::Internal(Error::Other(cause))),
        BootStep::ArmMetricsTimer => None,
        BootStep::LogMetrics => None,
    }
}

/// The failure that a microVM's start ends with when the host fails at
/// `step`, for the reason `cause`; none for a step whose failure the start
/// passes over.
pub fn host_failure(step: BootStep, cause: String) -> (r: Option<StartMicrovmError>)
    ensures
        r == host_failure_spec(step, cause),
{
    match step {
        BootStep::CaptureBootTimestamp => None,
        BootStep::CreateGuestMemory => Some(
            StartMicrovmError::GuestMemory(GuestMemoryError::MemoryMappingFailed(cause)),
        ),
        BootStep::CloneKernelFile => Some(StartMicrovmError::Internal(Error::KernelFile(cause))),
        BootStep::LoadKernel => Some(StartMicrovmError::KernelLoader(cause)),
        BootStep::CreateMetricsTimer => Some(StartMicrovmError::Internal(Error::TimerFd(cause))),
        BootStep::CreateEventManager => Some(
            StartMicrovmError::Internal(Error::EventManager(cause)),
        ),
        BootStep::OpenKvm => Some(StartMicrovmError::Internal(Error::KvmContext(cause))),
        BootStep::CreateVm => Some(StartMicrovmError::Internal(Error::Vm(cause))),
        BootStep::InitVmMemory => Some(StartMicrovmError::ConfigureVm(cause)),
        BootStep::CreateLegacyDeviceManager => Some(
            StartMicrovmError::Internal(Error::CreateLegacyDevice(cause)),
        ),
        BootStep::SetupInterruptController => Some(StartMicrovmError::Internal(Error::Other(cause))),
        BootStep::AttachLegacyDevices => Some(StartMicrovmError::Internal(Error::Other(cause))),
        BootStep::CreateVcpus => Some(StartMicrovmError::Internal(Error::Other(cause))),
        BootStep::OpenBlockFile(_, _) => Some(StartMicrovmError::OpenBlockDevice(cause)),
        BootStep::CreateBlockRateLimiter(_) => Some(StartMicrovmError::CreateRateLimiter(cause)),
        BootStep::CreateBlockDevice(_) => Some(StartMicrovmError::CreateBlockDevice(cause)),
        BootStep::CreateNetRxRateLimiter(_) => Some(StartMicrovmError::CreateRateLimiter(cause)),
        BootStep::CreateNetTxRateLimiter(_) => Some(StartMicrovmError::CreateRateLimiter(cause)),
        BootStep::OpenTap(_) => Some(StartMicrovmError::NetDeviceNotConfigured),
        BootStep::CreateNetDevice(_) => Some(StartMicrovmError::CreateNetDevice(cause)),
        BootStep::CreateVsockBackend(_) => Some(StartMicrovmError::CreateVsockBackend(cause)),
        BootStep::CreateVsockDevice(_) => Some(StartMicrovmError::CreateVsockDevice(cause)),
        BootStep::CreateMmioTransport(device) => match device {
            DeviceRef::Block(_) => Some(
                StartMicrovmError::RegisterBlockDevice(MmioError::CreateMmioDevice(cause)),
            ),
            DeviceRef::Net(_) => Some(
                StartMicrovmError::RegisterNetDevice(MmioError::CreateMmioDevice(cause)),
            ),
            DeviceRef::Vsock => Some(
                StartMicrovmError::RegisterVsockDevice(MmioError::CreateMmioDevice(cause)),
            ),
        },
        BootStep::RegisterIoEvents(_) => Some(
            StartMicrovmError::RegisterBlockDevice(MmioError::RegisterIoEvent(cause)),
        ),
        BootStep::RegisterIrqFd(_) => Some(
            StartMicrovmError::RegisterBlockDevice(MmioError::RegisterIrqFd(cause)),
        ),
        BootStep::InsertOnBus(_) => Some(
            StartMicrovmError::RegisterBlockDevice(MmioError::BusError(cause)),
        ),
        BootStep::WriteCmdline => Some(
            StartMicrovmError::LoadCommandline(CmdlineError::CommandLineCopy),
        ),
        BootStep::ConfigureSystem => Some(StartMicrovmError::Internal(Error::Other(cause))),
        BootStep::RegisterEvents => Some(StartMicrovmError::Internal(Error::Other(cause))),
        BootStep::StartVcpus => Some(StartMicrovmError::Internal(Error::Other(cause))),
        BootStep::ArmMetricsTimer => None,
        BootStep::LogMetrics => None,
    }
}

/// The vCPUs of a machine as they are configured at boot.
#[derive(Clone, Copy, Debug, PartialEq, Eq)]
pub struct VcpuConfig {
    /// Number of vCPUs.
    pub vcpu_count: u8,
    /// Whether hyperthreading is enabled.
    pub ht_enabled: bool,
    /// The CPU features template, if any.
    pub cpu_template: Option<CpuFeaturesTemplate>,
}

/// How a periodic timer is to be armed.
#[derive(Clone, Copy, Debug, PartialEq, Eq, Structural)]
pub struct TimerSetting {
    /// Seconds until the timer fires first.
    pub current_secs: u64,
    /// Seconds between two firings thereafter.
    pub interval_secs: u64,
}

/// What a machine is made of.
pub struct VmmView {
    /// The architecture of the machine.
    pub arch: Arch,
    /// The regions of guest memory.
    pub guest_memory: Seq<MemoryRegion>,
    /// The vCPUs.
    pub vcpu_config: VcpuConfig,
    /// The text of the kernel command line.
    pub line: Seq<char>,
    /// The capacity of the kernel command line.
    pub cmdline_capacity: nat,
    /// The MMIO devices.
    pub mmio: MmioView,
    /// The level of system call filtering: 0, 1 or 2.
    pub seccomp_level: u32,
}

impl VmmView {
    /// Whether `other` is this machine but for its command line and its MMIO
    /// devices.
    pub open spec fn same_machine(self, other: VmmView) -> bool {
        &&& self.arch == other.arch
        &&& self.guest_memory == other.guest_memory
        &&& self.vcpu_config == other.vcpu_config
        &&& self.cmdline_capacity == other.cmdline_capacity
        &&& self.seccomp_level == other.seccomp_level
    }
}

/// A machine as the boot assembler puts it together: what the running
/// microVM is made of, as far as the monitor decides it.
#[derive(Debug)]
pub struct Vmm {
    arch: Arch,
    guest_memory: GuestMemory,
    vcpu_config: VcpuConfig,
    kernel_cmdline: Cmdline,
    mmio_device_manager: MMIODeviceManager,
    seccomp_level: u32,
}

impl View for Vmm {
    type V = VmmView;

    closed spec fn view(&self) -> VmmView {
        VmmView {
            arch: self.arch,
            guest_memory: self.guest_memory@,
            vcpu_config: self.vcpu_config,
            line: self.kernel_cmdline@,
            cmdline_capacity: self.kernel_cmdline.spec_capacity(),
            mmio: self.mmio_device_manager@,
            seccomp_level: self.seccomp_level,
        }
    }
}

impl Vmm {
    /// Guest memory has a layout, the command line holds printable ASCII
    /// within its capacity, and the device manager has room for the interrupt
    /// lines that are free.
    pub open spec fn wf(&self) -> bool {
        &&& layout_error(self@.guest_memory) is None
        &&& self@.line.len() <= self@.cmdline_capacity
        &&& crate::cmdline::all_printable(self@.line)
        &&& self@.mmio.wf()
    }

    /// The architecture of the machine.
    pub fn arch(&self) -> (r: Arch)
        ensures
            r == self@.arch,
    {
        self.arch
    }

    /// The layout of guest memory.
    pub fn guest_memory(&self) -> (r: &GuestMemory)
        ensures
            r@ == self@.guest_memory,
            self.wf() ==> r.wf(),
    {
        &self.guest_memory
    }

    /// The vCPUs.
    pub fn vcpu_config(&self) -> (r: VcpuConfig)
        ensures
            r == self@.vcpu_config,
    {
        self.vcpu_config
    }

    /// The kernel command line.
    pub fn kernel_cmdline(&self) -> (r: &Cmdline)
        ensures
            r@ == self@.line,
            r.spec_capacity() == self@.cmdline_capacity,
            self.wf() ==> r.wf(),
    {
        &self.kernel_cmdline
    }

    /// The manager of the MMIO devices.
    pub fn mmio_device_manager(&self) -> (r: &MMIODeviceManager)
        ensures
            r@ == self@.mmio,
    {
        &self.mmio_device_manager
    }

    /// The level of system call filtering.
    pub fn seccomp_level(&self) -> (r: u32)
        ensures
            r == self@.seccomp_level,
    {
        self.seccomp_level
    }

    /// The device of the kind `device_type` that is on the bus as `id`.
    pub fn get_bus_device(&self, device_type: crate::device_manager::DeviceType, id: &str) -> (r:
        Option<&MmioDeviceInfo>)
        ensures
            r is Some <==> (device_type matches crate::device_manager::DeviceType::Virtio(t)
                && self@.mmio.has_device(t, id@)),
            r matches Some(info) ==> device_type matches crate::device_manager::DeviceType::Virtio(
                t,
            ) && *info == self@.mmio.devices[self@.mmio.latest_device(t, id@)],
    {
        match device_type {
            crate::device_manager::DeviceType::Virtio(type_id) => {
                self.mmio_device_manager.get_device_info(type_id, id)
            },
            _ => None,
        }
    }
}

/// How far the assembly of a machine has come: the steps that the host has
/// been given so far, the state that they lead to, and the failure that ended
/// the assembly, if one did. Once the assembly has failed, nothing is added
/// to it.
pub struct Progress {
    /// The architecture of the machine.
    pub arch: Arch,
    /// The capacity of the kernel command line.
    pub capacity: nat,
    /// The steps for the host, in order.
    pub steps: Seq<BootStep>,
    /// The text of the kernel command line.
    pub line: Seq<char>,
    /// The MMIO devices.
    pub mmio: MmioView,
    /// The dispatcher.
    pub epoll: EpollView,
    /// The failure that ended the assembly.
    pub failure: Option<PlannedFailure>,
}

/// The word that tells the kernel how to mount the root device.
pub open spec fn root_flags(read_only: bool) -> Seq<char> {
    if read_only {
        "ro"@
    } else {
        "rw"@
    }
}

/// The fragment that names the root partition by its unique id.
pub open spec fn partuuid_fragment(uuid: Seq<char>) -> Seq<char> {
    "root=PARTUUID="@ + uuid
}

/// The tokens of the threads of `count` vCPUs.
pub open spec fn vcpu_tokens(count: nat) -> Seq<Option<EpollDispatch>> {
    Seq::new(count, |i: int| Some(EpollDispatch::Vcpu(i as u8)))
}

/// The handler of a network device with the limiters that `cfg` asks for.
pub open spec fn net_handler(cfg: NetworkInterfaceConfig) -> DeviceHandler {
    DeviceHandler::Net {
        rx_rate_limiter: optional_limiter(cfg.rx_rate_limiter),
        tx_rate_limiter: optional_limiter(cfg.tx_rate_limiter),
    }
}

impl Progress {
    /// The assembly ends with the failure `e`.
    pub open spec fn failed(self, e: StartMicrovmError) -> Progress {
        if self.failure is Some {
            self
        } else {
            Progress { failure: Some(PlannedFailure::Other(e)), ..self }
        }
    }

    /// The host is given one more step.
    pub open spec fn step(self, s: BootStep) -> Progress {
        if self.failure is Some {
            self
        } else {
            Progress { steps: self.steps.push(s), ..self }
        }
    }

    /// `fragment` is added to the kernel command line; the assembly fails
    /// where the line does not take it.
    pub open spec fn insert_str(self, fragment: Seq<char>) -> Progress {
        if self.failure is Some {
            self
        } else {
            match insert_str_error(self.line, self.capacity, fragment) {
                Some(e) => Progress { failure: Some(PlannedFailure::KernelCmdline(e)), ..self },
                None => Progress { line: joined(self.line, fragment), ..self },
            }
        }
    }

    /// `token` is put on the dispatcher.
    pub open spec fn listen(self, token: EpollDispatch) -> Progress {
        if self.failure is Some {
            self
        } else {
            Progress { epoll: self.epoll.with_token(token), ..self }
        }
    }

    /// Places on the dispatcher are set aside for a device.
    pub open spec fn allocate(
        self,
        type_id: u32,
        device_id: String,
        count: nat,
        handler: DeviceHandler,
    ) -> Progress {
        if self.failure is Some {
            self
        } else {
            Progress { epoll: self.epoll.with_device(type_id, device_id, count, handler), ..self }
        }
    }

    /// A device gets its window of addresses and its interrupt line, goes on
    /// the bus, and is announced on the kernel command line. Without a free
    /// interrupt line the assembly fails before the host is asked for
    /// anything; where the announcement does not fit, after.
    pub open spec fn register(self, device: DeviceRef, type_id: u32, device_id: String) -> Progress {
        if self.failure is Some {
            self
        } else if !self.mmio.has_free_irq() {
            self.failed(StartMicrovmError::RegisterBlockDevice(MmioError::IrqsExhausted))
        } else {
            let asked = self.step(BootStep::RegisterIoEvents(device)).step(
                BootStep::RegisterIrqFd(device),
            ).step(BootStep::InsertOnBus(device));
            match self.mmio.register_error(self.arch, self.line, self.capacity) {
                Some(e) => asked.failed(StartMicrovmError::RegisterBlockDevice(e)),
                None => Progress {
                    line: self.mmio.announced(self.arch, self.line),
                    mmio: self.mmio.with_device(type_id, device_id),
                    ..asked
                },
            }
        }
    }

    /// Where there is a root device that does not name its partition by
    /// unique id, the kernel is told to boot from the first block device.
    pub open spec fn root_by_device(self, blocks: Seq<BlockDeviceConfig>) -> Progress {
        if has_root(blocks) && !has_partuuid_root(blocks) {
            self.insert_str("root=/dev/vda"@).insert_str(root_flags(has_read_only_root(blocks)))
        } else {
            self
        }
    }

    /// The block device `cfg`, which stands at `index`, is attached.
    pub open spec fn attach_block(self, cfg: BlockDeviceConfig, index: usize) -> Progress {
        let opened = self.step(BootStep::OpenBlockFile(index, cfg.spec_open_mode()));
        let rooted = if cfg.is_root_device && cfg.partuuid is Some {
            opened.insert_str(partuuid_fragment(cfg.partuuid->0@)).insert_str(
                root_flags(cfg.is_read_only),
            )
        } else {
            opened
        };
        let listening = rooted.allocate(
            TYPE_BLOCK,
            cfg.drive_id,
            BLOCK_EVENTS_COUNT as nat,
            DeviceHandler::Block,
        );
        let limited = if cfg.rate_limiter is Some {
            listening.step(BootStep::CreateBlockRateLimiter(index))
        } else {
            listening
        };
        limited.step(BootStep::CreateBlockDevice(index)).step(
            BootStep::CreateMmioTransport(DeviceRef::Block(index)),
        ).register(DeviceRef::Block(index), TYPE_BLOCK, cfg.drive_id)
    }

    /// The first `n` of `blocks` are attached, in their order.
    pub open spec fn attach_blocks(self, blocks: Seq<BlockDeviceConfig>, n: nat) -> Progress
        decreases n,
    {
        if n == 0 {
            self
        } else {
            self.attach_blocks(blocks, (n - 1) as nat).attach_block(
                blocks[n - 1],
                (n - 1) as usize,
            )
        }
    }

    /// All block devices are attached.
    pub open spec fn attach_block_devices(self, blocks: Seq<BlockDeviceConfig>) -> Progress {
        self.root_by_device(blocks).attach_blocks(blocks, blocks.len())
    }

    /// The network interface `cfg`, which stands at `index`, is attached.
    pub open spec fn attach_net(self, cfg: NetworkInterfaceConfig, index: usize) -> Progress {
        let listening = self.allocate(
            TYPE_NET,
            cfg.iface_id,
            NET_EVENTS_COUNT as nat,
            net_handler(cfg),
        );
        let rx_limited = if cfg.rx_rate_limiter is Some {
            listening.step(BootStep::CreateNetRxRateLimiter(index))
        } else {
            listening
        };
        let tx_limited = if cfg.tx_rate_limiter is Some {
            rx_limited.step(BootStep::CreateNetTxRateLimiter(index))
        } else {
            rx_limited
        };
        tx_limited.step(BootStep::OpenTap(index)).step(BootStep::CreateNetDevice(index)).step(
            BootStep::CreateMmioTransport(DeviceRef::Net(index)),
        ).register(DeviceRef::Net(index), TYPE_NET, cfg.iface_id)
    }

    /// The first `n` of `interfaces` are attached, in their order.
    pub open spec fn attach_nets(self, interfaces: Seq<NetworkInterfaceConfig>, n: nat) -> Progress
        decreases n,
    {
        if n == 0 {
            self
        } else {
            self.attach_nets(interfaces, (n - 1) as nat).attach_net(
                interfaces[n - 1],
                (n - 1) as usize,
            )
        }
    }

    /// All network interfaces are attached.
    pub open spec fn attach_net_devices(self, interfaces: Seq<NetworkInterfaceConfig>) -> Progress {
        self.attach_nets(interfaces, interfaces.len())
    }

    /// The vsock device is attached, if there is one.
    pub open spec fn attach_vsock_device(self, vsock: Option<VsockDeviceConfig>) -> Progress {
        match vsock {
            None => self,
            Some(cfg) => self.step(BootStep::CreateVsockBackend(cfg.guest_cid as u64)).allocate(
                TYPE_VSOCK,
                cfg.vsock_id,
                VSOCK_EVENTS_COUNT as nat,
                DeviceHandler::Vsock,
            ).step(BootStep::CreateVsockDevice(cfg.guest_cid as u64)).step(
                BootStep::CreateMmioTransport(DeviceRef::Vsock),
            ).register(DeviceRef::Vsock, TYPE_VSOCK, cfg.vsock_id),
        }
    }

    /// The interrupt controller, the legacy devices and the vCPUs are
    /// created, in the order that the architecture asks for: on x86_64 the
    /// interrupt controller comes before the vCPUs, on aarch64 after them.
    pub open spec fn interrupt_controller_and_vcpus(self) -> Progress {
        match self.arch {
            Arch::X86_64 => self.step(BootStep::CreateLegacyDeviceManager).step(
                BootStep::SetupInterruptController,
            ).step(BootStep::AttachLegacyDevices).step(BootStep::CreateVcpus),
            Arch::Aarch64 => self.step(BootStep::CreateVcpus).step(
                BootStep::SetupInterruptController,
            ).step(BootStep::AttachLegacyDevices),
        }
    }

    /// On x86_64 the kernel command line is written into guest memory, unless
    /// it is empty; the assembly fails where the line and its closing NUL
    /// byte reach beyond the end of guest memory. Elsewhere the line reaches
    /// the guest by other means.
    pub open spec fn load_cmdline(self, guest_memory: Seq<MemoryRegion>) -> Progress {
        if self.failure is Some || self.arch != Arch::X86_64 || self.line.len() == 0 {
            self
        } else if X86_64_CMDLINE_START + self.line.len() + 1 > end_addr(guest_memory) {
            self.failed(StartMicrovmError::LoadCommandline(CmdlineError::CommandLineOverflow))
        } else {
            self.step(BootStep::WriteCmdline)
        }
    }

    /// The exit event and the events of the vCPU threads are put on the
    /// dispatcher, and the standard input gets its place.
    pub open spec fn register_events(self, vcpu_count: u8) -> Progress {
        if self.failure is Some {
            self
        } else {
            Progress {
                epoll: EpollView {
                    dispatch_table: (self.epoll.dispatch_table.push(Some(EpollDispatch::Exit))
                        + vcpu_tokens(vcpu_count as nat)).update(0, Some(EpollDispatch::Stdin)),
                    ..self.epoll
                },
                ..self
            }
        }
    }

    /// Everything from the first device to the first write of the metrics.
    pub open spec fn devices_and_start(
        self,
        resources: VmResourcesView,
        guest_memory: Seq<MemoryRegion>,
    ) -> Progress {
        self.attach_block_devices(resources.block).attach_net_devices(
            resources.network_interface,
        ).attach_vsock_device(resources.vsock).load_cmdline(guest_memory).step(
            BootStep::ConfigureSystem,
        ).step(BootStep::RegisterEvents).register_events(resources.vm_config.vcpu_count->0).step(
            BootStep::StartVcpus,
        ).step(BootStep::ArmMetricsTimer).step(BootStep::LogMetrics)
    }

    /// Everything that comes before the first device.
    pub open spec fn machine(self) -> Progress {
        self.step(BootStep::CreateGuestMemory).step(BootStep::CloneKernelFile).step(
            BootStep::LoadKernel,
        ).step(BootStep::CreateMetricsTimer).listen(EpollDispatch::WriteMetrics).step(
            BootStep::CreateEventManager,
        ).listen(EpollDispatch::PollyEvent).step(BootStep::OpenKvm).step(BootStep::CreateVm).step(
            BootStep::InitVmMemory,
        ).interrupt_controller_and_vcpus()
    }
}

/// The interrupt controller and the vCPUs are created in the order that the
/// architecture asks for: on x86_64 the interrupt controller, with the legacy
/// devices behind it, comes before the vCPUs; on aarch64 the vCPUs come first.
pub proof fn lemma_interrupt_controller_order(p: Progress)
    requires
        p.failure is None,
    ensures
        ({
            let after = p.interrupt_controller_and_vcpus();
            let n = p.steps.len() as int;
            &&& after.failure is None
            &&& after.steps.subrange(0, n) == p.steps
            &&& p.arch == Arch::X86_64 ==> after.steps.subrange(n, after.steps.len() as int)
                == seq![
                BootStep::CreateLegacyDeviceManager,
                BootStep::SetupInterruptController,
                BootStep::AttachLegacyDevices,
                BootStep::CreateVcpus,
            ]
            &&& p.arch == Arch::Aarch64 ==> after.steps.subrange(n, after.steps.len() as int)
                == seq![
                BootStep::CreateVcpus,
                BootStep::SetupInterruptController,
                BootStep::AttachLegacyDevices,
            ]
        }),
{
    let after = p.interrupt_controller_and_vcpus();
    let n = p.steps.len() as int;
    assert(after.steps.subrange(0, n) =~= p.steps);
    if p.arch == Arch::X86_64 {
        assert(after.steps.subrange(n, after.steps.len() as int) =~= seq![
            BootStep::CreateLegacyDeviceManager,
            BootStep::SetupInterruptController,
            BootStep::AttachLegacyDevices,
            BootStep::CreateVcpus,
        ]);
    } else {
        assert(after.steps.subrange(n, after.steps.len() as int) =~= seq![
            BootStep::CreateVcpus,
            BootStep::SetupInterruptController,
            BootStep::AttachLegacyDevices,
        ]);
    }
}

/// A device as the MMIO device manager is told of it: its virtio type and
/// the name by which it is known.
pub struct DeviceEntry {
    /// The virtio type of the device.
    pub type_id: u32,
    /// The name by which the device is known.
    pub device_id: String,
}

/// The device manager `mmio` after each of `entries` was registered, in turn.
pub open spec fn with_devices(mmio: MmioView, entries: Seq<DeviceEntry>) -> MmioView
    decreases entries.len(),
{
    if entries.len() == 0 {
        mmio
    } else {
        with_devices(mmio, entries.drop_last()).with_device(
            entries.last().type_id,
            entries.last().device_id,
        )
    }
}

/// The devices of a registry in the order in which they are attached: the
/// block devices, the network interfaces, the vsock device.
pub open spec fn devices_in_order(resources: VmResourcesView) -> Seq<DeviceEntry> {
    resources.block.map_values(
        |c: BlockDeviceConfig| DeviceEntry { type_id: TYPE_BLOCK, device_id: c.drive_id },
    ) + resources.network_interface.map_values(
        |c: NetworkInterfaceConfig| DeviceEntry { type_id: TYPE_NET, device_id: c.iface_id },
    ) + match resources.vsock {
        Some(cfg) => seq![DeviceEntry { type_id: TYPE_VSOCK, device_id: cfg.vsock_id }],
        None => Seq::empty(),
    }
}

/// Registering a device that came last is registering it after the others.
proof fn lemma_with_devices_push(mmio: MmioView, entries: Seq<DeviceEntry>, last: DeviceEntry)
    ensures
        with_devices(mmio, entries.push(last)) == with_devices(mmio, entries).with_device(
            last.type_id,
            last.device_id,
        ),
{
    assert(entries.push(last).drop_last() =~= entries);
}

/// Registering two lists of devices one after the other is registering their
/// concatenation.
proof fn lemma_with_devices_add(mmio: MmioView, first: Seq<DeviceEntry>, second: Seq<DeviceEntry>)
    ensures
        with_devices(with_devices(mmio, first), second) == with_devices(mmio, first + second),
    decreases second.len(),
{
    if second.len() == 0 {
        assert(first + second =~= first);
    } else {
        lemma_with_devices_add(mmio, first, second.drop_last());
        assert((first + second).drop_last() =~= first + second.drop_last());
        assert((first + second).last() == second.last());
    }
}

/// Where all of the first `n` block devices are attached without failure, the
/// device manager holds them after what it held before, in their order.
proof fn lemma_blocks_in_order(p: Progress, blocks: Seq<BlockDeviceConfig>, n: nat)
    requires
        n <= blocks.len(),
        p.attach_blocks(blocks, n).failure is None,
    ensures
        p.failure is None,
        p.attach_blocks(blocks, n).mmio == with_devices(
            p.mmio,
            blocks.take(n as int).map_values(
                |c: BlockDeviceConfig| DeviceEntry { type_id: TYPE_BLOCK, device_id: c.drive_id },
            ),
        ),
    decreases n,
{
    let entry = |c: BlockDeviceConfig| DeviceEntry { type_id: TYPE_BLOCK, device_id: c.drive_id };
    if n == 0 {
        assert(blocks.take(0).map_values(entry) =~= Seq::<DeviceEntry>::empty());
    } else {
        let before = p.attach_blocks(blocks, (n - 1) as nat);
        let cfg = blocks[n - 1];
        assert(p.attach_blocks(blocks, n) == before.attach_block(cfg, (n - 1) as usize));
        assert(before.failure is None);
        lemma_blocks_in_order(p, blocks, (n - 1) as nat);
        assert(blocks.take(n as int).map_values(entry) =~= blocks.take(n - 1).map_values(
            entry,
        ).push(entry(cfg)));
        lemma_with_devices_push(p.mmio, blocks.take(n - 1).map_values(entry), entry(cfg));
    }
}

/// Where all of the first `n` network interfaces are attached without
/// failure, the device manager holds them after what it held before, in their
/// order.
proof fn lemma_nets_in_order(p: Progress, interfaces: Seq<NetworkInterfaceConfig>, n: nat)
    requires
        n <= interfaces.len(),
        p.attach_nets(interfaces, n).failure is None,
    ensures
        p.failure is None,
        p.attach_nets(interfaces, n).mmio == with_devices(
            p.mmio,
            interfaces.take(n as int).map_values(
                |c: NetworkInterfaceConfig| DeviceEntry { type_id: TYPE_NET, device_id: c.iface_id },
            ),
        ),
    decreases n,
{
    let entry = |c: NetworkInterfaceConfig| DeviceEntry { type_id: TYPE_NET, device_id: c.iface_id };
    if n == 0 {
        assert(interfaces.take(0).map_values(entry) =~= Seq::<DeviceEntry>::empty());
    } else {
        let before = p.attach_nets(interfaces, (n - 1) as nat);
        let cfg = interfaces[n - 1];
        assert(p.attach_nets(interfaces, n) == before.attach_net(cfg, (n - 1) as usize));
        assert(before.failure is None);
        lemma_nets_in_order(p, interfaces, (n - 1) as nat);
        assert(interfaces.take(n as int).map_values(entry) =~= interfaces.take(n - 1).map_values(
            entry,
        ).push(entry(cfg)));
        lemma_with_devices_push(p.mmio, interfaces.take(n - 1).map_values(entry), entry(cfg));
    }
}

/// A boot that is planned without failure registers the devices in the order
/// in which they are attached: first the block devices in the order of their
/// list, then the network interfaces in the order of theirs, then the vsock
/// device. Each gets the next window of addresses and the next interrupt
/// line, from the first that the architecture keeps for devices.
pub proof fn lemma_devices_in_attachment_order(
    resources: VmResourcesView,
    epoll: EpollView,
    arch: Arch,
)
    requires
        assembly(resources, epoll, arch).failure is None,
    ensures
        assembly(resources, epoll, arch).mmio == with_devices(
            MmioView {
                mmio_base: arch.mmio_mem_start(),
                irq: arch.irq_base(),
                last_irq: arch.irq_max(),
                devices: Seq::empty(),
            },
            devices_in_order(resources),
        ),
{
    let first = MmioView {
        mmio_base: arch.mmio_mem_start(),
        irq: arch.irq_base(),
        last_irq: arch.irq_max(),
        devices: Seq::empty(),
    };
    let boot = resources.boot_config->0;
    let start = Progress {
        arch,
        capacity: boot.cmdline.spec_capacity(),
        steps: Seq::empty(),
        line: boot.cmdline@,
        mmio: first,
        epoll,
        failure: None,
    };
    let machine = start.step(BootStep::CaptureBootTimestamp).machine();
    assert(machine.mmio == first);
    let memory = memory_regions(arch, mem_size_bytes(resources.vm_config));
    let blocks = resources.block;
    let interfaces = resources.network_interface;
    let rooted = machine.root_by_device(blocks);
    let with_blocks = machine.attach_block_devices(blocks);
    let with_nets = with_blocks.attach_net_devices(interfaces);
    let with_vsock = with_nets.attach_vsock_device(resources.vsock);
    let done = machine.devices_and_start(resources, memory);
    assert(done == assembly(resources, epoll, arch));
    assert(done.mmio == with_vsock.mmio);
    assert(with_vsock.failure is None);
    assert(with_nets.failure is None);
    lemma_nets_in_order(with_blocks, interfaces, interfaces.len());
    assert(with_blocks.failure is None);
    lemma_blocks_in_order(rooted, blocks, blocks.len());
    assert(rooted.mmio == machine.mmio);
    let block_entries = blocks.map_values(
        |c: BlockDeviceConfig| DeviceEntry { type_id: TYPE_BLOCK, device_id: c.drive_id },
    );
    let net_entries = interfaces.map_values(
        |c: NetworkInterfaceConfig| DeviceEntry { type_id: TYPE_NET, device_id: c.iface_id },
    );
    assert(blocks.take(blocks.len() as int) =~= blocks);
    assert(interfaces.take(interfaces.len() as int) =~= interfaces);
    lemma_with_devices_add(first, block_entries, net_entries);
    match resources.vsock {
        None => {
            assert(block_entries + net_entries + Seq::<DeviceEntry>::empty() =~= block_entries
                + net_entries);
        },
        Some(cfg) => {
            let entry = DeviceEntry { type_id: TYPE_VSOCK, device_id: cfg.vsock_id };
            lemma_with_devices_push(first, block_entries + net_entries, entry);
            assert(block_entries + net_entries + seq![entry] =~= (block_entries
                + net_entries).push(entry));
        },
    }
}

/// The device that is registered as number `k`, counted from zero, lies `k`
/// windows above the first window and has the interrupt line `k` above the
/// first line.
pub proof fn lemma_device_slot(mmio: MmioView, entries: Seq<DeviceEntry>, k: int)
    requires
        mmio.devices.len() == 0,
        0 <= k < entries.len(),
        mmio.mmio_base + crate::device_manager::MMIO_LEN * entries.len() <= u64::MAX,
        mmio.irq + entries.len() <= u32::MAX,
    ensures
        with_devices(mmio, entries).devices.len() == entries.len(),
        with_devices(mmio, entries).devices[k] == (MmioDeviceInfo {
            type_id: entries[k].type_id,
            device_id: entries[k].device_id,
            addr: (mmio.mmio_base + crate::device_manager::MMIO_LEN * k) as u64,
            len: crate::device_manager::MMIO_LEN,
            irq: (mmio.irq + k) as u32,
        }),
    decreases entries.len(),
{
    let shorter = entries.drop_last();
    lemma_device_count(mmio, shorter);
    lemma_device_count(mmio, entries);
    if k < shorter.len() {
        lemma_device_slot(mmio, shorter, k);
        assert(with_devices(mmio, entries).devices[k] == with_devices(mmio, shorter).devices[k]);
        assert(shorter[k] == entries[k]);
    }
}

/// After so many devices the next window lies so many windows above the
/// first, and the next interrupt line so many lines above the first.
pub proof fn lemma_device_count(mmio: MmioView, entries: Seq<DeviceEntry>)
    requires
        mmio.devices.len() == 0,
        mmio.mmio_base + crate::device_manager::MMIO_LEN * entries.len() <= u64::MAX,
        mmio.irq + entries.len() <= u32::MAX,
    ensures
        with_devices(mmio, entries).devices.len() == entries.len(),
        with_devices(mmio, entries).mmio_base == mmio.mmio_base + crate::device_manager::MMIO_LEN
            * entries.len(),
        with_devices(mmio, entries).irq == mmio.irq + entries.len(),
    decreases entries.len(),
{
    if entries.len() > 0 {
        lemma_device_count(mmio, entries.drop_last());
    }
}

/// `line` after each of `fragments` was added at its end, in turn.
pub open spec fn join_all(line: Seq<char>, fragments: Seq<Seq<char>>) -> Seq<char>
    decreases fragments.len(),
{
    if fragments.len() == 0 {
        line
    } else {
        joined(join_all(line, fragments.drop_last()), fragments.last())
    }
}

/// What the root device adds to the kernel command line before any device is
/// attached: where it does not name its partition by unique id, the selector
/// of the first block device and the word on how to mount it.
pub open spec fn root_fragments(blocks: Seq<BlockDeviceConfig>) -> Seq<Seq<char>> {
    if has_root(blocks) && !has_partuuid_root(blocks) {
        seq!["root=/dev/vda"@, root_flags(has_read_only_root(blocks))]
    } else {
        Seq::empty()
    }
}

/// What a device adds to the kernel command line when it is registered with
/// the device manager `mmio`: on x86_64 its announcement, elsewhere nothing.
pub open spec fn announcement(arch: Arch, mmio: MmioView) -> Seq<Seq<char>> {
    if arch == Arch::X86_64 {
        seq![crate::device_manager::mmio_cmdline_fragment(mmio.mmio_base, mmio.irq)]
    } else {
        Seq::empty()
    }
}

/// What the block device `cfg` adds to the kernel command line when it is
/// attached with the device manager `mmio`: where it is the root device and
/// names its partition by unique id, the selector of the partition and the
/// word on how to mount it; then its announcement.
pub open spec fn block_fragments(arch: Arch, mmio: MmioView, cfg: BlockDeviceConfig) -> Seq<
    Seq<char>,
> {
    (if cfg.is_root_device && cfg.partuuid is Some {
        seq![partuuid_fragment(cfg.partuuid->0@), root_flags(cfg.is_read_only)]
    } else {
        Seq::empty()
    }) + announcement(arch, mmio)
}

/// The block devices as the device manager is told of them.
pub open spec fn block_entries(blocks: Seq<BlockDeviceConfig>) -> Seq<DeviceEntry> {
    blocks.map_values(
        |c: BlockDeviceConfig| DeviceEntry { type_id: TYPE_BLOCK, device_id: c.drive_id },
    )
}

/// What the first `n` of `blocks` add to the kernel command line, one after
/// the other, when they are attached to a machine whose device manager is
/// `mmio` at first.
pub open spec fn blocks_fragments(
    arch: Arch,
    mmio: MmioView,
    blocks: Seq<BlockDeviceConfig>,
    n: nat,
) -> Seq<Seq<char>>
    decreases n,
{
    if n == 0 {
        Seq::empty()
    } else {
        blocks_fragments(arch, mmio, blocks, (n - 1) as nat) + block_fragments(
            arch,
            with_devices(mmio, block_entries(blocks.take(n - 1))),
            blocks[n - 1],
        )
    }
}

/// Everything that attaching `blocks` adds to the kernel command line.
pub open spec fn block_devices_fragments(arch: Arch, mmio: MmioView, blocks: Seq<BlockDeviceConfig>)
    -> Seq<Seq<char>> {
    root_fragments(blocks) + blocks_fragments(arch, mmio, blocks, blocks.len())
}

/// Whether the line of `q` is `base` with the first `k` of `fragments`, each
/// of them whole, within `capacity`; and with all of them where `q` has not
/// failed.
pub open spec fn took(
    q: Progress,
    base: Seq<char>,
    capacity: nat,
    fragments: Seq<Seq<char>>,
    k: int,
) -> bool {
    &&& 0 <= k <= fragments.len()
    &&& q.line == join_all(base, fragments.take(k))
    &&& q.line.len() <= capacity
    &&& q.failure is None ==> k == fragments.len()
}

proof fn lemma_join_all_push(line: Seq<char>, fragments: Seq<Seq<char>>, last: Seq<char>)
    ensures
        join_all(line, fragments.push(last)) == joined(join_all(line, fragments), last),
{
    assert(fragments.push(last).drop_last() =~= fragments);
}

proof fn lemma_insert_line(q: Progress, base: Seq<char>, so_far: Seq<Seq<char>>, f: Seq<char>)
    requires
        q.failure is None,
        q.line == join_all(base, so_far),
        q.line.len() <= q.capacity,
    ensures
        ({
            let r = q.insert_str(f);
            &&& r.arch == q.arch && r.capacity == q.capacity && r.mmio == q.mmio
            &&& r.line.len() <= r.capacity
            &&& r.failure is None ==> r.line == join_all(base, so_far.push(f))
            &&& r.failure is Some ==> r.line == q.line
        }),
{
    lemma_join_all_push(base, so_far, f);
}

proof fn lemma_register_line(
    q: Progress,
    base: Seq<char>,
    so_far: Seq<Seq<char>>,
    device: DeviceRef,
    type_id: u32,
    device_id: String,
)
    requires
        q.failure is None,
        q.line == join_all(base, so_far),
        q.line.len() <= q.capacity,
    ensures
        ({
            let r = q.register(device, type_id, device_id);
            &&& r.arch == q.arch && r.capacity == q.capacity
            &&& r.line.len() <= r.capacity
            &&& r.failure is None ==> r.line == join_all(
                base,
                so_far + announcement(q.arch, q.mmio),
            )
            &&& r.failure is Some ==> r.line == q.line && r.mmio == q.mmio
        }),
{
    let a = announcement(q.arch, q.mmio);
    if q.arch == Arch::X86_64 {
        assert(so_far + a =~= so_far.push(a[0]));
        lemma_join_all_push(base, so_far, a[0]);
    } else {
        assert(so_far + a =~= so_far);
    }
}

proof fn lemma_attach_block_line(
    q: Progress,
    base: Seq<char>,
    before: Seq<Seq<char>>,
    cfg: BlockDeviceConfig,
    index: usize,
)
    requires
        q.failure is None,
        q.line == join_all(base, before),
        q.line.len() <= q.capacity,
    ensures
        ({
            let r = q.attach_block(cfg, index);
            let all = before + block_fragments(q.arch, q.mmio, cfg);
            &&& r.arch == q.arch && r.capacity == q.capacity
            &&& exists|k: int| before.len() <= k && #[trigger] took(r, base, q.capacity, all, k)
        }),
{
    let r = q.attach_block(cfg, index);
    let a = announcement(q.arch, q.mmio);
    let b = block_fragments(q.arch, q.mmio, cfg);
    let all = before + b;
    let n = before.len() as int;
    let opened = q.step(BootStep::OpenBlockFile(index, cfg.spec_open_mode()));
    assert(all.take(n) =~= before);
    if cfg.is_root_device && cfg.partuuid is Some {
        let f0 = partuuid_fragment(cfg.partuuid->0@);
        let f1 = root_flags(cfg.is_read_only);
        assert(b =~= seq![f0, f1] + a);
        let r1 = opened.insert_str(f0);
        lemma_insert_line(opened, base, before, f0);
        if r1.failure is Some {
            assert(r == r1);
            assert(took(r, base, q.capacity, all, n));
        } else {
            assert(all.take(n + 1) =~= before.push(f0));
            let r2 = r1.insert_str(f1);
            lemma_insert_line(r1, base, before.push(f0), f1);
            if r2.failure is Some {
                assert(r == r2);
                assert(took(r, base, q.capacity, all, n + 1));
            } else {
                let so_far = before.push(f0).push(f1);
                assert(all.take(n + 2) =~= so_far);
                let listening = r2.allocate(
                    TYPE_BLOCK,
                    cfg.drive_id,
                    BLOCK_EVENTS_COUNT as nat,
                    DeviceHandler::Block,
                );
                let limited = if cfg.rate_limiter is Some {
                    listening.step(BootStep::CreateBlockRateLimiter(index))
                } else {
                    listening
                };
                let ready = limited.step(BootStep::CreateBlockDevice(index)).step(
                    BootStep::CreateMmioTransport(DeviceRef::Block(index)),
                );
                lemma_register_line(
                    ready,
                    base,
                    so_far,
                    DeviceRef::Block(index),
                    TYPE_BLOCK,
                    cfg.drive_id,
                );
                assert(r == ready.register(DeviceRef::Block(index), TYPE_BLOCK, cfg.drive_id));
                if r.failure is Some {
                    assert(took(r, base, q.capacity, all, n + 2));
                } else {
                    assert(so_far + a =~= all);
                    assert(all.take(all.len() as int) =~= all);
                    assert(took(r, base, q.capacity, all, all.len() as int));
                }
            }
        }
    } else {
        assert(b =~= a);
        let listening = opened.allocate(
            TYPE_BLOCK,
            cfg.drive_id,
            BLOCK_EVENTS_COUNT as nat,
            DeviceHandler::Block,
        );
        let limited = if cfg.rate_limiter is Some {
            listening.step(BootStep::CreateBlockRateLimiter(index))
        } else {
            listening
        };
        let ready = limited.step(BootStep::CreateBlockDevice(index)).step(
            BootStep::CreateMmioTransport(DeviceRef::Block(index)),
        );
        lemma_register_line(ready, base, before, DeviceRef::Block(index), TYPE_BLOCK, cfg.drive_id);
        assert(r == ready.register(DeviceRef::Block(index), TYPE_BLOCK, cfg.drive_id));
        if r.failure is Some {
            assert(took(r, base, q.capacity, all, n));
        } else {
            assert(all.take(all.len() as int) =~= all);
            assert(took(r, base, q.capacity, all, all.len() as int));
        }
    }
}

proof fn lemma_root_line(p: Progress, blocks: Seq<BlockDeviceConfig>)
    requires
        p.failure is None,
        p.line.len() <= p.capacity,
    ensures
        ({
            let r = p.root_by_device(blocks);
            &&& r.arch == p.arch && r.capacity == p.capacity && r.mmio == p.mmio
            &&& exists|k: int| #[trigger] took(r, p.line, p.capacity, root_fragments(blocks), k)
        }),
{
    let r = p.root_by_device(blocks);
    let f = root_fragments(blocks);
    let none = Seq::<Seq<char>>::empty();
    assert(f.take(0) =~= none);
    if has_root(blocks) && !has_partuuid_root(blocks) {
        let r1 = p.insert_str(f[0]);
        lemma_insert_line(p, p.line, none, f[0]);
        if r1.failure is Some {
            assert(r == r1);
            assert(took(r, p.line, p.capacity, f, 0));
        } else {
            assert(f.take(1) =~= none.push(f[0]));
            lemma_insert_line(r1, p.line, none.push(f[0]), f[1]);
            if r.failure is Some {
                assert(took(r, p.line, p.capacity, f, 1));
            } else {
                assert(f.take(2) =~= none.push(f[0]).push(f[1]));
                assert(took(r, p.line, p.capacity, f, 2));
            }
        }
    } else {
        assert(took(r, p.line, p.capacity, f, 0));
    }
}

proof fn lemma_blocks_line(
    p: Progress,
    base: Seq<char>,
    before: Seq<Seq<char>>,
    blocks: Seq<BlockDeviceConfig>,
    n: nat,
)
    requires
        n <= blocks.len(),
        p.line.len() <= p.capacity,
        exists|k: int| #[trigger] took(p, base, p.capacity, before, k),
    ensures
        ({
            let r = p.attach_blocks(blocks, n);
            &&& r.arch == p.arch && r.capacity == p.capacity
            &&& exists|k: int| #[trigger]
                took(
                    r,
                    base,
                    p.capacity,
                    before + blocks_fragments(p.arch, p.mmio, blocks, n),
                    k,
                )
        }),
    decreases n,
{
    let r = p.attach_blocks(blocks, n);
    let all = before + blocks_fragments(p.arch, p.mmio, blocks, n);
    if n == 0 {
        let k = choose|k: int| took(p, base, p.capacity, before, k);
        assert(all =~= before);
        assert(took(r, base, p.capacity, all, k));
    } else {
        let q = p.attach_blocks(blocks, (n - 1) as nat);
        let shorter = before + blocks_fragments(p.arch, p.mmio, blocks, (n - 1) as nat);
        lemma_blocks_line(p, base, before, blocks, (n - 1) as nat);
        let k = choose|k: int| took(q, base, p.capacity, shorter, k);
        let cfg = blocks[n - 1];
        let b = block_fragments(
            p.arch,
            with_devices(p.mmio, block_entries(blocks.take(n - 1))),
            cfg,
        );
        assert(all =~= shorter + b);
        assert(r == q.attach_block(cfg, (n - 1) as usize));
        if q.failure is Some {
            assert(r == q);
            assert(all.take(k) =~= shorter.take(k));
            assert(took(r, base, p.capacity, all, k));
        } else {
            assert(shorter.take(k) =~= shorter);
            lemma_blocks_in_order(p, blocks, (n - 1) as nat);
            assert(q.mmio == with_devices(p.mmio, block_entries(blocks.take(n - 1))));
            lemma_attach_block_line(q, base, shorter, cfg, (n - 1) as usize);
            let j = choose|j: int| shorter.len() <= j && took(r, base, p.capacity, all, j);
            assert(took(r, base, p.capacity, all, j));
        }
    }
}

/// Whatever comes of attaching the block devices, the kernel command line is
/// thereafter the line from before with fragments added whole, in their
/// order, each after one space: the root selector and its word, where the
/// root device does not name its partition, then for each device the
/// partition selector and its word, where the device is the root and names
/// its partition, and, on x86_64, the announcement of the device. The line
/// stays within its capacity. Where nothing failed, every fragment is on the
/// line; where a fragment did not fit, the line ends with the last fragment
/// that did.
pub proof fn lemma_block_devices_line(p: Progress, blocks: Seq<BlockDeviceConfig>)
    requires
        p.failure is None,
        p.line.len() <= p.capacity,
    ensures
        ({
            let r = p.attach_block_devices(blocks);
            let fragments = block_devices_fragments(p.arch, p.mmio, blocks);
            &&& exists|k: int| #[trigger] took(r, p.line, p.capacity, fragments, k)
            &&& r.failure is None ==> r.line == join_all(p.line, fragments)
        }),
{
    let rooted = p.root_by_device(blocks);
    lemma_root_line(p, blocks);
    lemma_blocks_line(rooted, p.line, root_fragments(blocks), blocks, blocks.len());
    let r = p.attach_block_devices(blocks);
    let fragments = block_devices_fragments(p.arch, p.mmio, blocks);
    let k = choose|k: int| took(r, p.line, p.capacity, fragments, k);
    assert(took(r, p.line, p.capacity, fragments, k));
    if r.failure is None {
        assert(fragments.take(k) =~= fragments);
    }
}

/// Whether `fragment` tells the kernel where its root file system is: whether
/// it begins with `root=`.
pub open spec fn selects_root(fragment: Seq<char>) -> bool {
    crate::cmdline::starts_with(fragment, "root="@)
}

/// The number of fragments among `fragments` that tell the kernel where its
/// root file system is.
pub open spec fn root_selectors(fragments: Seq<Seq<char>>) -> nat
    decreases fragments.len(),
{
    if fragments.len() == 0 {
        0
    } else {
        root_selectors(fragments.drop_last()) + if selects_root(fragments.last()) {
            1nat
        } else {
            0nat
        }
    }
}

proof fn lemma_root_selectors_add(a: Seq<Seq<char>>, b: Seq<Seq<char>>)
    ensures
        root_selectors(a + b) == root_selectors(a) + root_selectors(b),
    decreases b.len(),
{
    if b.len() == 0 {
        assert(a + b =~= a);
    } else {
        lemma_root_selectors_add(a, b.drop_last());
        assert((a + b).drop_last() =~= a + b.drop_last());
        assert((a + b).last() == b.last());
    }
}

/// Which of the fragments that a boot adds to the line select the root: the
/// two selectors do, the words on mounting and the announcements do not.
proof fn lemma_which_fragments_select_root(uuid: Seq<char>, read_only: bool, addr: u64, irq: u32)
    ensures
        selects_root("root=/dev/vda"@),
        selects_root(partuuid_fragment(uuid)),
        !selects_root(root_flags(read_only)),
        !selects_root(crate::device_manager::mmio_cmdline_fragment(addr, irq)),
{
    reveal_strlit("root=");
    reveal_strlit("root=/dev/vda");
    reveal_strlit("root=PARTUUID=");
    reveal_strlit("ro");
    reveal_strlit("rw");
    reveal_strlit("virtio_mmio.device");
    let head = "root="@;
    assert("root=/dev/vda"@.subrange(0, 5) =~= head);
    assert(partuuid_fragment(uuid).subrange(0, 5) =~= head);
    let announced = crate::device_manager::mmio_cmdline_fragment(addr, irq);
    assert(announced[0] == 'v');
    if selects_root(announced) {
        assert(announced.subrange(0, 5)[0] == head[0]);
    }
}

/// The number of devices among the first `n` of `blocks` that are the root
/// device and name their partition by unique id.
pub open spec fn partuuid_roots(blocks: Seq<BlockDeviceConfig>, n: nat) -> nat
    decreases n,
{
    if n == 0 {
        0
    } else {
        partuuid_roots(blocks, (n - 1) as nat) + if blocks[n - 1].is_root_device && blocks[n
            - 1].partuuid is Some {
            1nat
        } else {
            0nat
        }
    }
}

proof fn lemma_partuuid_roots(blocks: Seq<BlockDeviceConfig>, n: nat)
    requires
        n <= blocks.len(),
        crate::vmm_config::drive::single_root(blocks),
    ensures
        partuuid_roots(blocks, n) == (if exists|i: int|
            0 <= i < n && (#[trigger] blocks[i]).is_root_device && blocks[i].partuuid is Some {
            1nat
        } else {
            0nat
        }),
    decreases n,
{
    if n > 0 {
        lemma_partuuid_roots(blocks, (n - 1) as nat);
        let last = blocks[n - 1];
        if last.is_root_device && last.partuuid is Some {
            assert forall|i: int| 0 <= i < n - 1 implies !((#[trigger] blocks[i]).is_root_device
                && blocks[i].partuuid is Some) by {
                if blocks[i].is_root_device {
                    assert(blocks[n - 1].is_root_device);
                }
            }
        }
    }
}

proof fn lemma_blocks_selectors(
    arch: Arch,
    mmio: MmioView,
    blocks: Seq<BlockDeviceConfig>,
    n: nat,
)
    requires
        n <= blocks.len(),
    ensures
        root_selectors(blocks_fragments(arch, mmio, blocks, n)) == partuuid_roots(blocks, n),
    decreases n,
{
    if n > 0 {
        lemma_blocks_selectors(arch, mmio, blocks, (n - 1) as nat);
        let cfg = blocks[n - 1];
        let m = with_devices(mmio, block_entries(blocks.take(n - 1)));
        let b = block_fragments(arch, m, cfg);
        lemma_root_selectors_add(blocks_fragments(arch, mmio, blocks, (n - 1) as nat), b);
        let uuid = if cfg.partuuid is Some {
            cfg.partuuid->0@
        } else {
            Seq::empty()
        };
        lemma_which_fragments_select_root(uuid, cfg.is_read_only, m.mmio_base, m.irq);
        let a = announcement(arch, m);
        let named = if cfg.is_root_device && cfg.partuuid is Some {
            seq![partuuid_fragment(uuid), root_flags(cfg.is_read_only)]
        } else {
            Seq::<Seq<char>>::empty()
        };
        assert(b == named + a);
        lemma_root_selectors_add(named, a);
        reveal_with_fuel(root_selectors, 3);
        if arch == Arch::X86_64 {
            assert(a.drop_last() =~= Seq::<Seq<char>>::empty());
        }
        if cfg.is_root_device && cfg.partuuid is Some {
            assert(named.drop_last() =~= seq![partuuid_fragment(uuid)]);
            assert(named.drop_last().drop_last() =~= Seq::<Seq<char>>::empty());
        }
    }
}

/// Among the fragments that attaching the block devices adds to the kernel
/// command line, as many tell the kernel where its root file system is as
/// there are root devices: one where there is a root device, be it by the
/// first block device or by the partition that the root device names, never
/// both; none where there is no root device.
pub proof fn lemma_one_root_selector(arch: Arch, mmio: MmioView, blocks: Seq<BlockDeviceConfig>)
    requires
        crate::vmm_config::drive::single_root(blocks),
    ensures
        root_selectors(block_devices_fragments(arch, mmio, blocks)) == (if has_root(blocks) {
            1nat
        } else {
            0nat
        }),
{
    let r = root_fragments(blocks);
    let b = blocks_fragments(arch, mmio, blocks, blocks.len());
    lemma_root_selectors_add(r, b);
    lemma_blocks_selectors(arch, mmio, blocks, blocks.len());
    lemma_partuuid_roots(blocks, blocks.len());
    lemma_which_fragments_select_root(Seq::empty(), has_read_only_root(blocks), 0, 0);
    reveal_with_fuel(root_selectors, 3);
    if has_root(blocks) && !has_partuuid_root(blocks) {
        assert(r.drop_last() =~= seq!["root=/dev/vda"@]);
        assert(r.drop_last().drop_last() =~= Seq::<Seq<char>>::empty());
    }
}

/// Whether the device manager of `q` holds, beyond what `mmio` held, the first
/// `j` of `blocks` and nothing else; and all of the first `n` where `q` has
/// not failed.
pub open spec fn registered(
    q: Progress,
    mmio: MmioView,
    blocks: Seq<BlockDeviceConfig>,
    n: nat,
    j: int,
) -> bool {
    &&& 0 <= j <= n
    &&& q.mmio == with_devices(mmio, block_entries(blocks.take(j)))
    &&& q.failure is None ==> j == n
}

proof fn lemma_blocks_registered(p: Progress, blocks: Seq<BlockDeviceConfig>, n: nat)
    requires
        n <= blocks.len(),
    ensures
        exists|j: int| #[trigger] registered(p.attach_blocks(blocks, n), p.mmio, blocks, n, j),
    decreases n,
{
    let r = p.attach_blocks(blocks, n);
    if n == 0 {
        assert(block_entries(blocks.take(0)) =~= Seq::<DeviceEntry>::empty());
        assert(registered(r, p.mmio, blocks, n, 0));
    } else {
        let m = (n - 1) as nat;
        let q = p.attach_blocks(blocks, m);
        lemma_blocks_registered(p, blocks, m);
        let j = choose|j: int| #[trigger] registered(q, p.mmio, blocks, m, j);
        let cfg = blocks[n - 1];
        assert(r == q.attach_block(cfg, (n - 1) as usize));
        if q.failure is Some {
            assert(r == q);
            assert(registered(r, p.mmio, blocks, n, j));
        } else if r.failure is Some {
            assert(r.mmio == q.mmio);
            assert(registered(r, p.mmio, blocks, n, j));
        } else {
            let entry = DeviceEntry { type_id: TYPE_BLOCK, device_id: cfg.drive_id };
            assert(r.mmio == q.mmio.with_device(TYPE_BLOCK, cfg.drive_id));
            assert(block_entries(blocks.take(n as int)) =~= block_entries(
                blocks.take(n - 1),
            ).push(entry));
            lemma_with_devices_push(p.mmio, block_entries(blocks.take(n - 1)), entry);
            assert(registered(r, p.mmio, blocks, n, n as int));
        }
    }
}

/// Whatever comes of attaching the block devices, the device manager holds
/// thereafter the first so many of them, in their order, and no other: once a
/// device has failed, none is registered after it.
pub proof fn lemma_block_devices_registered(p: Progress, blocks: Seq<BlockDeviceConfig>)
    ensures
        exists|j: int| #[trigger]
            registered(p.attach_block_devices(blocks), p.mmio, blocks, blocks.len(), j),
{
    let rooted = p.root_by_device(blocks);
    assert(rooted.mmio == p.mmio);
    lemma_blocks_registered(rooted, blocks, blocks.len());
    let all = rooted.attach_blocks(blocks, blocks.len());
    let j = choose|j: int| #[trigger] registered(all, rooted.mmio, blocks, blocks.len(), j);
    assert(registered(p.attach_block_devices(blocks), p.mmio, blocks, blocks.len(), j));
}

/// The number of bytes of guest memory that `config` asks for.
pub open spec fn mem_size_bytes(config: VmConfig) -> u64 {
    (config.mem_size_mib->0 * MIB) as u64
}

/// The whole assembly of the machine that `resources` describes, on `arch`,
/// with the dispatcher as it is before the boot.
///
/// Without a boot source nothing is asked of the host; without a memory size
/// only the time is taken.
pub open spec fn assembly(resources: VmResourcesView, epoll: EpollView, arch: Arch) -> Progress {
    let start = Progress {
        arch,
        capacity: 0,
        steps: Seq::empty(),
        line: Seq::empty(),
        mmio: MmioView {
            mmio_base: arch.mmio_mem_start(),
            irq: arch.irq_base(),
            last_irq: arch.irq_max(),
            devices: Seq::empty(),
        },
        epoll,
        failure: None,
    };
    match resources.boot_config {
        None => start.failed(StartMicrovmError::MissingKernelConfig),
        Some(boot) => {
            let timed = Progress {
                capacity: boot.cmdline.spec_capacity(),
                line: boot.cmdline@,
                ..start
            }.step(BootStep::CaptureBootTimestamp);
            if resources.vm_config.mem_size_mib is None {
                timed.failed(
                    StartMicrovmError::GuestMemory(GuestMemoryError::MemoryNotInitialized),
                )
            } else {
                timed.machine().devices_and_start(
                    resources,
                    memory_regions(arch, mem_size_bytes(resources.vm_config)),
                )
            }
        },
    }
}

/// How far an assembly has come that started without a failure: `steps`,
/// `vmm` and `epoll` are its state.
pub open spec fn progress(steps: Seq<BootStep>, vmm: Vmm, epoll: EpollView) -> Progress {
    Progress {
        arch: vmm@.arch,
        capacity: vmm@.cmdline_capacity,
        steps,
        line: vmm@.line,
        mmio: vmm@.mmio,
        epoll,
        failure: None,
    }
}

/// Whether the state `steps`, `vmm`, `epoll` and the result `r` are those of
/// the assembly `p`.
pub open spec fn reached(
    steps: Seq<BootStep>,
    vmm: Vmm,
    epoll: EpollView,
    r: Result<(), StartMicrovmError>,
    p: Progress,
) -> bool {
    &&& steps == p.steps
    &&& vmm@.line == p.line
    &&& vmm@.mmio == p.mmio
    &&& vmm@.arch == p.arch
    &&& vmm@.cmdline_capacity == p.capacity
    &&& epoll == p.epoll
    &&& shows(
        match r {
            Ok(()) => None,
            Err(e) => Some(e),
        },
        p.failure,
    )
}

/// The regions of a memory size that a valid machine configuration can name
/// make a layout: they lie apart and below the end of the address space.
pub proof fn lemma_valid_size_has_layout(arch: Arch, config: VmConfig)
    requires
        config.wf(),
        config.mem_size_mib is Some,
    ensures
        layout_error(memory_regions(arch, mem_size_bytes(config))) is None,
{
}

/// The layout of the guest memory that the machine configuration asks for.
/// Without a memory size there is none.
pub fn create_guest_memory(vm_resources: &VmResources, arch: Arch) -> (r: Result<
    GuestMemory,
    StartMicrovmError,
>)
    requires
        vm_resources.wf(),
    ensures
        match r {
            Ok(memory) => vm_resources@.vm_config.mem_size_mib is Some && memory.wf() && memory@
                == memory_regions(arch, mem_size_bytes(vm_resources@.vm_config)),
            Err(e) => vm_resources@.vm_config.mem_size_mib is None && e
                == StartMicrovmError::GuestMemory(GuestMemoryError::MemoryNotInitialized),
        },
{
    match vm_resources.vm_config().mem_size_mib {
        None => Err(StartMicrovmError::GuestMemory(GuestMemoryError::MemoryNotInitialized)),
        Some(mib) => {
            proof {
                lemma_valid_size_has_layout(arch, vm_resources@.vm_config);
            }
            let regions = arch_memory_regions(arch, mib as u64 * MIB);
            match GuestMemory::new(&regions) {
                Ok(memory) => Ok(memory),
                Err(e) => Err(StartMicrovmError::GuestMemory(e)),
            }
        },
    }
}

/// The vCPUs that the machine configuration asks for.
pub fn vcpu_config(vm_resources: &VmResources) -> (r: VcpuConfig)
    requires
        vm_resources.wf(),
    ensures
        r == (VcpuConfig {
            vcpu_count: vm_resources@.vm_config.vcpu_count->0,
            ht_enabled: vm_resources@.vm_config.ht_enabled->0,
            cpu_template: vm_resources@.vm_config.cpu_template,
        }),
{
    let config = vm_resources.vm_config();
    VcpuConfig {
        vcpu_count: config.vcpu_count.unwrap(),
        ht_enabled: config.ht_enabled.unwrap(),
        cpu_template: config.cpu_template,
    }
}

/// How the metrics timer is armed: it fires first after one period and then
/// once every period.
pub fn metrics_timer_setting() -> (r: TimerSetting)
    ensures
        r == (TimerSetting {
            current_secs: WRITE_METRICS_PERIOD_SECONDS,
            interval_secs: WRITE_METRICS_PERIOD_SECONDS,
        }),
{
    TimerSetting {
        current_secs: WRITE_METRICS_PERIOD_SECONDS,
        interval_secs: WRITE_METRICS_PERIOD_SECONDS,
    }
}

/// Adds `fragment` to the kernel command line of `vmm`.
fn insert_cmdline_str(vmm: &mut Vmm, fragment: &str) -> (r: Result<(), StartMicrovmError>)
    requires
        old(vmm).wf(),
    ensures
        final(vmm).wf(),
        final(vmm)@.same_machine(old(vmm)@),
        final(vmm)@.mmio == old(vmm)@.mmio,
        match r {
            Ok(()) => insert_str_error(old(vmm)@.line, old(vmm)@.cmdline_capacity, fragment@)
                is None && final(vmm)@.line == joined(old(vmm)@.line, fragment@),
            Err(e) => insert_str_error(old(vmm)@.line, old(vmm)@.cmdline_capacity, fragment@)
                matches Some(c) && is_kernel_cmdline_error(e, c) && final(vmm)@.line
                == old(vmm)@.line,
        },
{
    match vmm.kernel_cmdline.insert_str(fragment) {
        Ok(()) => Ok(()),
        Err(e) => Err(StartMicrovmError::from(e)),
    }
}

/// Registers a device with the MMIO device manager of `vmm`.
fn attach_mmio_device(
    vmm: &mut Vmm,
    steps: &mut Vec<BootStep>,
    Ghost(epoll): Ghost<EpollView>,
    device: DeviceRef,
    type_id: u32,
    id: String,
) -> (r: Result<(), StartMicrovmError>)
    requires
        old(vmm).wf(),
    ensures
        final(vmm).wf(),
        final(vmm)@.same_machine(old(vmm)@),
        reached(
            final(steps)@,
            *final(vmm),
            epoll,
            r,
            progress(old(steps)@, *old(vmm), epoll).register(device, type_id, id),
        ),
{
    if !vmm.mmio_device_manager.has_free_irq() {
        return Err(StartMicrovmError::RegisterBlockDevice(MmioError::IrqsExhausted));
    }
    steps.push(BootStep::RegisterIoEvents(device));
    steps.push(BootStep::RegisterIrqFd(device));
    steps.push(BootStep::InsertOnBus(device));
    let arch = vmm.arch;
    match vmm.mmio_device_manager.register_mmio_device(arch, &mut vmm.kernel_cmdline, type_id, id) {
        Ok(_) => Ok(()),
        Err(e) => Err(StartMicrovmError::RegisterBlockDevice(e)),
    }
}

/// The word that tells the kernel how to mount the root device.
fn root_flags_str(read_only: bool) -> (r: &'static str)
    ensures
        r@ == root_flags(read_only),
{
    if read_only {
        "ro"
    } else {
        "rw"
    }
}

/// Attaches one block device.
fn attach_block_device(
    vmm: &mut Vmm,
    drive_config: &BlockDeviceConfig,
    index: usize,
    epoll_context: &mut EpollContext,
    steps: &mut Vec<BootStep>,
) -> (r: Result<(), StartMicrovmError>)
    requires
        old(vmm).wf(),
    ensures
        final(vmm).wf(),
        final(vmm)@.same_machine(old(vmm)@),
        final(epoll_context)@.dispatch_table.len() >= old(epoll_context)@.dispatch_table.len(),
        reached(
            final(steps)@,
            *final(vmm),
            final(epoll_context)@,
            r,
            progress(old(steps)@, *old(vmm), old(epoll_context)@).attach_block(
                *drive_config,
                index,
            ),
        ),
{
    steps.push(BootStep::OpenBlockFile(index, drive_config.open_mode()));
    if drive_config.is_root_device {
        if let Some(uuid) = drive_config.get_partuuid() {
            let fragment = prefixed("root=PARTUUID=", uuid.as_str());
            insert_cmdline_str(vmm, fragment.as_str())?;
            insert_cmdline_str(vmm, root_flags_str(drive_config.is_read_only()))?;
        }
    }
    epoll_context.allocate_tokens_for_virtio_device(
        TYPE_BLOCK,
        drive_config.drive_id.clone(),
        BLOCK_EVENTS_COUNT,
        DeviceHandler::Block,
    );
    if drive_config.rate_limiter.is_some() {
        steps.push(BootStep::CreateBlockRateLimiter(index));
    }
    steps.push(BootStep::CreateBlockDevice(index));
    steps.push(BootStep::CreateMmioTransport(DeviceRef::Block(index)));
    attach_mmio_device(
        vmm,
        steps,
        Ghost(epoll_context@),
        DeviceRef::Block(index),
        TYPE_BLOCK,
        drive_config.drive_id.clone(),
    )
}

/// Once an assembly has failed, attaching block devices adds nothing to it.
proof fn lemma_failed_blocks(p: Progress, blocks: Seq<BlockDeviceConfig>, from: nat, to: nat)
    requires
        from <= to,
        p.attach_blocks(blocks, from).failure is Some,
    ensures
        p.attach_blocks(blocks, to) == p.attach_blocks(blocks, from),
    decreases to,
{
    if from < to {
        lemma_failed_blocks(p, blocks, from, (to - 1) as nat);
    }
}

/// Once an assembly has failed, attaching network interfaces adds nothing to
/// it.
proof fn lemma_failed_nets(p: Progress, interfaces: Seq<NetworkInterfaceConfig>, from: nat, to: nat)
    requires
        from <= to,
        p.attach_nets(interfaces, from).failure is Some,
    ensures
        p.attach_nets(interfaces, to) == p.attach_nets(interfaces, from),
    decreases to,
{
    if from < to {
        lemma_failed_nets(p, interfaces, from, (to - 1) as nat);
    }
}

/// Plans the attachment of the block devices of the registry, in their
/// order: for each the host opens the backing file, with the access that the
/// device declares, and creates the device, and the device is registered. The
/// kernel is told where its root file system is: on the first block device,
/// or on the partition that the root device names.
///
/// All of this is laid down in the draft. The tokens of a device come after
/// the step that opens its file; they reach the dispatcher that runs only
/// when the whole boot has succeeded.
pub fn attach_block_devices(
    draft: &mut BootDraft,
    vm_resources: &VmResources,
) -> (r: Result<(), StartMicrovmError>)
    requires
        old(draft).wf(),
        vm_resources.wf(),
    ensures
        final(draft).wf(),
        final(draft)@.vmm@.same_machine(old(draft)@.vmm@),
        final(draft)@.epoll.dispatch_table.len() >= old(draft)@.epoll.dispatch_table.len(),
        reached(
            final(draft)@.steps,
            final(draft)@.vmm,
            final(draft)@.epoll,
            r,
            old(draft)@.progress().attach_block_devices(
                vm_resources@.block,
            ),
        ),
{
    let ghost start = old(draft)@.progress();
    let ghost blocks = vm_resources@.block;
    let block = vm_resources.block();
    let ghost rooted = start.root_by_device(blocks);
    if block.has_root_block_device() && !block.has_partuuid_root() {
        if let Err(e) = insert_cmdline_str(&mut draft.vmm, "root=/dev/vda") {
            proof {
                lemma_failed_blocks(rooted, blocks, 0, blocks.len());
            }
            return Err(e);
        }
        if let Err(e) = insert_cmdline_str(&mut draft.vmm, root_flags_str(block.has_read_only_root())) {
            proof {
                lemma_failed_blocks(rooted, blocks, 0, blocks.len());
            }
            return Err(e);
        }
    }
    let config_list = block.config_list();
    let n = config_list.len();
    let mut i: usize = 0;
    while i < n
        invariant
            i <= n,
            n == blocks.len(),
            config_list@ == blocks,
            draft.wf(),
            draft@.vmm@.same_machine(old(draft)@.vmm@),
            draft@.epoll.dispatch_table.len() >= old(draft)@.epoll.dispatch_table.len(),
            blocks == vm_resources@.block,
            rooted == old(draft)@.progress().root_by_device(blocks),
            reached(draft@.steps, draft@.vmm, draft@.epoll, Ok(()), rooted.attach_blocks(blocks, i as nat)),
        decreases n - i,
    {
        let ghost before = rooted.attach_blocks(blocks, i as nat);
        assert(before == draft@.progress());
        match attach_block_device(
            &mut draft.vmm,
            &config_list[i],
            i,
            &mut draft.epoll_context,
            &mut draft.steps,
        ) {
            Ok(()) => {},
            Err(e) => {
                proof {
                    assert(rooted.attach_blocks(blocks, (i + 1) as nat) == before.attach_block(
                        blocks[i as int],
                        i,
                    ));
                    lemma_failed_blocks(rooted, blocks, (i + 1) as nat, n as nat);
                }
                return Err(e);
            },
        }
        i = i + 1;
    }
    Ok(())
}

/// Attaches one network interface.
fn attach_net_device(
    vmm: &mut Vmm,
    cfg: &NetworkInterfaceConfig,
    index: usize,
    epoll_context: &mut EpollContext,
    steps: &mut Vec<BootStep>,
) -> (r: Result<(), StartMicrovmError>)
    requires
        old(vmm).wf(),
    ensures
        final(vmm).wf(),
        final(vmm)@.same_machine(old(vmm)@),
        final(epoll_context)@.dispatch_table.len() >= old(epoll_context)@.dispatch_table.len(),
        reached(
            final(steps)@,
            *final(vmm),
            final(epoll_context)@,
            r,
            progress(old(steps)@, *old(vmm), old(epoll_context)@).attach_net(*cfg, index),
        ),
{
    let rx_rate_limiter = match cfg.rx_rate_limiter {
        Some(limits) => limits.into_rate_limiter(),
        None => crate::vmm_config::rate_limiter::RateLimiter::unlimited(),
    };
    let tx_rate_limiter = match cfg.tx_rate_limiter {
        Some(limits) => limits.into_rate_limiter(),
        None => crate::vmm_config::rate_limiter::RateLimiter::unlimited(),
    };
    epoll_context.allocate_tokens_for_virtio_device(
        TYPE_NET,
        cfg.iface_id.clone(),
        NET_EVENTS_COUNT,
        DeviceHandler::Net { rx_rate_limiter, tx_rate_limiter },
    );
    if cfg.rx_rate_limiter.is_some() {
        steps.push(BootStep::CreateNetRxRateLimiter(index));
    }
    if cfg.tx_rate_limiter.is_some() {
        steps.push(BootStep::CreateNetTxRateLimiter(index));
    }
    steps.push(BootStep::OpenTap(index));
    steps.push(BootStep::CreateNetDevice(index));
    steps.push(BootStep::CreateMmioTransport(DeviceRef::Net(index)));
    attach_mmio_device(
        vmm,
        steps,
        Ghost(epoll_context@),
        DeviceRef::Net(index),
        TYPE_NET,
        cfg.iface_id.clone(),
    )
}

/// Plans the attachment of the network interfaces of the registry, in their
/// order: for each the host creates the rate limiters that are asked for,
/// opens the tap device and creates the network device, and the device is
/// registered.
///
/// All of this is laid down in the draft; the tokens reach the dispatcher
/// that runs only when the whole boot has succeeded.
pub fn attach_net_devices(
    draft: &mut BootDraft,
    vm_resources: &VmResources,
) -> (r: Result<(), StartMicrovmError>)
    requires
        old(draft).wf(),
        vm_resources.wf(),
    ensures
        final(draft).wf(),
        final(draft)@.vmm@.same_machine(old(draft)@.vmm@),
        final(draft)@.epoll.dispatch_table.len() >= old(draft)@.epoll.dispatch_table.len(),
        reached(
            final(draft)@.steps,
            final(draft)@.vmm,
            final(draft)@.epoll,
            r,
            old(draft)@.progress().attach_net_devices(
                vm_resources@.network_interface,
            ),
        ),
{
    let ghost start = old(draft)@.progress();
    let ghost interfaces = vm_resources@.network_interface;
    let if_list = vm_resources.network_interface().if_list();
    let n = if_list.len();
    let mut i: usize = 0;
    while i < n
        invariant
            i <= n,
            n == interfaces.len(),
            if_list@ == interfaces,
            draft.wf(),
            draft@.vmm@.same_machine(old(draft)@.vmm@),
            draft@.epoll.dispatch_table.len() >= old(draft)@.epoll.dispatch_table.len(),
            interfaces == vm_resources@.network_interface,
            start == old(draft)@.progress(),
            reached(draft@.steps, draft@.vmm, draft@.epoll, Ok(()), start.attach_nets(interfaces, i as nat)),
        decreases n - i,
    {
        let ghost before = start.attach_nets(interfaces, i as nat);
        assert(before == draft@.progress());
        match attach_net_device(
            &mut draft.vmm,
            &if_list[i],
            i,
            &mut draft.epoll_context,
            &mut draft.steps,
        ) {
            Ok(()) => {},
            Err(e) => {
                proof {
                    assert(start.attach_nets(interfaces, (i + 1) as nat) == before.attach_net(
                        interfaces[i as int],
                        i,
                    ));
                    lemma_failed_nets(start, interfaces, (i + 1) as nat, n as nat);
                }
                return Err(e);
            },
        }
        i = i + 1;
    }
    Ok(())
}

/// Plans the attachment of the vsock device of the registry, if there is
/// one: the host creates the backend, bound to the socket path and with the
/// guest's context id, then the device, and the device is registered.
///
/// All of this is laid down in the draft. The tokens of the device come after
/// the step that makes the backend; they reach the dispatcher that runs only
/// when the whole boot has succeeded, so a backend that cannot be made leaves
/// no token behind.
pub fn attach_vsock_device(
    draft: &mut BootDraft,
    vm_resources: &VmResources,
) -> (r: Result<(), StartMicrovmError>)
    requires
        old(draft).wf(),
        vm_resources.wf(),
    ensures
        final(draft).wf(),
        final(draft)@.vmm@.same_machine(old(draft)@.vmm@),
        final(draft)@.epoll.dispatch_table.len() >= old(draft)@.epoll.dispatch_table.len(),
        reached(
            final(draft)@.steps,
            final(draft)@.vmm,
            final(draft)@.epoll,
            r,
            old(draft)@.progress().attach_vsock_device(
                vm_resources@.vsock,
            ),
        ),
{
    match vm_resources.vsock() {
        None => Ok(()),
        Some(cfg) => {
            draft.steps.push(BootStep::CreateVsockBackend(cfg.guest_cid as u64));
            draft.epoll_context.allocate_tokens_for_virtio_device(
                TYPE_VSOCK,
                cfg.vsock_id.clone(),
                VSOCK_EVENTS_COUNT,
                DeviceHandler::Vsock,
            );
            draft.steps.push(BootStep::CreateVsockDevice(cfg.guest_cid as u64));
            draft.steps.push(BootStep::CreateMmioTransport(DeviceRef::Vsock));
            attach_mmio_device(
                &mut draft.vmm,
                &mut draft.steps,
                Ghost(draft.epoll_context@),
                DeviceRef::Vsock,
                TYPE_VSOCK,
                cfg.vsock_id.clone(),
            )
        },
    }
}

/// On x86_64, has the kernel command line written into guest memory.
fn load_cmdline(vmm: &Vmm, steps: &mut Vec<BootStep>, Ghost(epoll): Ghost<EpollView>) -> (r:
    Result<(), StartMicrovmError>)
    requires
        vmm.wf(),
    ensures
        reached(
            final(steps)@,
            *vmm,
            epoll,
            r,
            progress(old(steps)@, *vmm, epoll).load_cmdline(vmm@.guest_memory),
        ),
{
    if vmm.arch != Arch::X86_64 {
        return Ok(());
    }
    let len = vmm.kernel_cmdline.len();
    if len == 0 {
        return Ok(());
    }
    if X86_64_CMDLINE_START as u128 + len as u128 + 1 > vmm.guest_memory.end_addr() as u128 {
        return Err(StartMicrovmError::LoadCommandline(CmdlineError::CommandLineOverflow));
    }
    steps.push(BootStep::WriteCmdline);
    Ok(())
}

/// Plans the metrics timer: the host creates it, and thereafter it has its
/// place on the dispatcher.
pub fn setup_metrics(draft: &mut BootDraft)
    ensures
        final(draft)@ == (BootDraftView {
            steps: old(draft)@.steps.push(BootStep::CreateMetricsTimer),
            epoll: old(draft)@.epoll.with_token(EpollDispatch::WriteMetrics),
            ..old(draft)@
        }),
{
    draft.steps.push(BootStep::CreateMetricsTimer);
    draft.epoll_context.add_epollin_event(EpollDispatch::WriteMetrics);
}

/// Plans the secondary event manager: the host creates it, and thereafter it
/// has its place on the dispatcher.
pub fn setup_event_manager(draft: &mut BootDraft)
    ensures
        final(draft)@ == (BootDraftView {
            steps: old(draft)@.steps.push(BootStep::CreateEventManager),
            epoll: old(draft)@.epoll.with_token(EpollDispatch::PollyEvent),
            ..old(draft)@
        }),
{
    draft.steps.push(BootStep::CreateEventManager);
    draft.epoll_context.add_epollin_event(EpollDispatch::PollyEvent);
}

/// Has the virtual machine created and given its memory.
pub fn setup_kvm_vm(steps: &mut Vec<BootStep>)
    ensures
        final(steps)@ == old(steps)@.push(BootStep::OpenKvm).push(BootStep::CreateVm).push(
            BootStep::InitVmMemory,
        ),
{
    steps.push(BootStep::OpenKvm);
    steps.push(BootStep::CreateVm);
    steps.push(BootStep::InitVmMemory);
}

/// Has the metrics timer armed and the metrics written once.
pub fn arm_logger_and_metrics(steps: &mut Vec<BootStep>)
    ensures
        final(steps)@ == old(steps)@.push(BootStep::ArmMetricsTimer).push(BootStep::LogMetrics),
{
    steps.push(BootStep::ArmMetricsTimer);
    steps.push(BootStep::LogMetrics);
}

/// Puts the exit event and the events of the vCPU threads on the dispatcher,
/// and gives the standard input its place.
fn register_events(epoll_context: &mut EpollContext, vcpu_count: u8)
    requires
        old(epoll_context)@.wf(),
    ensures
        final(epoll_context)@ == (EpollView {
            dispatch_table: (old(epoll_context)@.dispatch_table.push(Some(EpollDispatch::Exit))
                + vcpu_tokens(vcpu_count as nat)).update(0, Some(EpollDispatch::Stdin)),
            ..old(epoll_context)@
        }),
{
    epoll_context.add_epollin_event(EpollDispatch::Exit);
    let ghost with_exit = epoll_context@.dispatch_table;
    let mut i: u8 = 0;
    while i < vcpu_count
        invariant
            i <= vcpu_count,
            epoll_context@.device_handlers == old(epoll_context)@.device_handlers,
            epoll_context@.dispatch_table == with_exit + vcpu_tokens(i as nat),
        decreases vcpu_count - i,
    {
        epoll_context.add_epollin_event(EpollDispatch::Vcpu(i));
        assert(epoll_context@.dispatch_table =~= with_exit + vcpu_tokens((i + 1) as nat));
        i = i + 1;
    }
    epoll_context.set_stdin_event(true);
}

/// Everything from the first device to the first write of the metrics.
fn attach_devices_and_start(draft: &mut BootDraft, vm_resources: &VmResources) -> (r: Result<
    (),
    StartMicrovmError,
>)
    requires
        old(draft).wf(),
        vm_resources.wf(),
    ensures
        final(draft).wf(),
        final(draft)@.vmm@.same_machine(old(draft)@.vmm@),
        reached(
            final(draft)@.steps,
            final(draft)@.vmm,
            final(draft)@.epoll,
            r,
            old(draft)@.progress().devices_and_start(vm_resources@, old(draft)@.vmm@.guest_memory),
        ),
{
    let ghost start = old(draft)@.progress();
    let ghost interfaces = vm_resources@.network_interface;
    if let Err(e) = attach_block_devices(draft, vm_resources) {
        proof {
            lemma_failed_nets(
                start.attach_block_devices(vm_resources@.block),
                interfaces,
                0,
                interfaces.len(),
            );
        }
        return Err(e);
    }
    let ghost with_blocks = start.attach_block_devices(vm_resources@.block);
    assert(with_blocks == draft@.progress());
    attach_net_devices(draft, vm_resources)?;
    let ghost with_nets = with_blocks.attach_net_devices(interfaces);
    assert(with_nets == draft@.progress());
    attach_vsock_device(draft, vm_resources)?;
    let ghost with_vsock = with_nets.attach_vsock_device(vm_resources@.vsock);
    assert(with_vsock == draft@.progress());
    load_cmdline(&draft.vmm, &mut draft.steps, Ghost(draft.epoll_context@))?;
    let ghost loaded = with_vsock.load_cmdline(old(draft)@.vmm@.guest_memory);
    assert(loaded == draft@.progress());
    draft.steps.push(BootStep::ConfigureSystem);
    draft.steps.push(BootStep::RegisterEvents);
    register_events(&mut draft.epoll_context, vcpu_config(vm_resources).vcpu_count);
    draft.steps.push(BootStep::StartVcpus);
    arm_logger_and_metrics(&mut draft.steps);
    Ok(())
}

/// A boot plan while it is drawn up: the steps that the host will be asked
/// for, the machine that they will make, and the dispatcher as it will be
/// once the host has performed them. The dispatcher here is the plan's own:
/// the one that runs is touched only when a boot has succeeded.
#[derive(Debug)]
pub struct BootDraft {
    steps: Vec<BootStep>,
    vmm: Vmm,
    epoll_context: EpollContext,
}

/// What a boot plan holds while it is drawn up.
pub struct BootDraftView {
    /// The steps for the host, in order.
    pub steps: Seq<BootStep>,
    /// The machine as far as it is put together.
    pub vmm: Vmm,
    /// The dispatcher as it will be once the steps are performed.
    pub epoll: EpollView,
}

impl BootDraftView {
    /// How far the assembly has come.
    pub open spec fn progress(self) -> Progress {
        progress(self.steps, self.vmm, self.epoll)
    }
}

impl View for BootDraft {
    type V = BootDraftView;

    closed spec fn view(&self) -> BootDraftView {
        BootDraftView { steps: self.steps@, vmm: self.vmm, epoll: self.epoll_context@ }
    }
}

impl BootDraft {
    /// The machine and the dispatcher are well formed.
    pub open spec fn wf(&self) -> bool {
        self@.vmm.wf() && self@.epoll.wf()
    }

    /// A draft without steps for the machine `vmm`, with a copy of the
    /// dispatcher `epoll_context` to plan on.
    pub fn new(vmm: Vmm, epoll_context: &EpollContext) -> (r: BootDraft)
        ensures
            r@ == (BootDraftView { steps: Seq::empty(), vmm, epoll: epoll_context@ }),
    {
        BootDraft { steps: Vec::new(), vmm, epoll_context: epoll_context.clone() }
    }

    /// The steps for the host, in order.
    pub fn steps(&self) -> (r: &Vec<BootStep>)
        ensures
            r@ == self@.steps,
    {
        &self.steps
    }

    /// The machine as far as it is put together.
    pub fn vmm(&self) -> (r: &Vmm)
        ensures
            *r == self@.vmm,
    {
        &self.vmm
    }

    /// The dispatcher as it will be once the steps are performed.
    pub fn epoll_context(&self) -> (r: &EpollContext)
        ensures
            r@ == self@.epoll,
    {
        &self.epoll_context
    }
}

/// What the boot assembler hands back: the steps for the host, in order; the
/// machine as far as it was put together; the dispatcher as it will be once
/// the host has performed every step; and the failure that ended the
/// assembly, if one did.
///
/// A failure of the plan comes after the plan's steps: the host performs them
/// first, and a step that fails there takes precedence. The machine and the
/// dispatcher of the plan take effect only where the boot succeeds; a boot
/// that fails leaves the dispatcher that runs as it was before the boot.
#[derive(Debug)]
pub struct BootPlan {
    steps: Vec<BootStep>,
    vmm: Option<Vmm>,
    epoll_context: EpollContext,
    failure: Option<StartMicrovmError>,
}

/// What a boot plan holds.
pub struct BootPlanView {
    /// The steps for the host, in order.
    pub steps: Seq<BootStep>,
    /// The machine as far as it was put together; none where the assembly
    /// failed before there was a machine to speak of.
    pub vmm: Option<Vmm>,
    /// The dispatcher as it will be once the host has performed every step.
    pub epoll: EpollView,
    /// The failure that ended the assembly.
    pub failure: Option<StartMicrovmError>,
}

impl View for BootPlan {
    type V = BootPlanView;

    closed spec fn view(&self) -> BootPlanView {
        BootPlanView {
            steps: self.steps@,
            vmm: self.vmm,
            epoll: self.epoll_context@,
            failure: self.failure,
        }
    }
}

/// The failure that a boot ends with: `steps` and `failure` are those of the
/// plan, and `host_failure` names the first step at which the host failed,
/// by its place among the steps, with the cause.
pub open spec fn boot_error(
    steps: Seq<BootStep>,
    failure: Option<StartMicrovmError>,
    host_failure: Option<(usize, String)>,
) -> Option<StartMicrovmError> {
    match host_failure {
        None => failure,
        Some((at, cause)) => if at < steps.len() {
            match host_failure_spec(steps[at as int], cause) {
                Some(e) => Some(e),
                None => failure,
            }
        } else {
            Some(StartMicrovmError::Internal(Error::Other(cause)))
        },
    }
}

impl BootPlan {
    /// A plan without a failure has a machine, and the machine and the
    /// dispatcher are well formed.
    pub open spec fn wf(&self) -> bool {
        &&& self@.failure is None ==> self@.vmm is Some
        &&& self@.vmm matches Some(vmm) ==> vmm.wf()
        &&& self@.epoll.wf()
    }

    /// Whether this is the plan for the boot of the microVM that `resources`
    /// describes, on `arch`, with the dispatcher `epoll` as it is before the
    /// boot: the steps and the failure are those of the assembly, and the
    /// machine and the dispatcher are those that the assembly leads to. There
    /// is a machine as soon as there are a boot source and a memory size.
    pub open spec fn plans(
        self,
        resources: VmResourcesView,
        epoll: EpollView,
        arch: Arch,
        seccomp_level: u32,
    ) -> bool {
        let assembled = assembly(resources, epoll, arch);
        &&& self@.steps == assembled.steps
        &&& shows(self@.failure, assembled.failure)
        &&& self@.epoll == assembled.epoll
        &&& self@.vmm is Some <==> resources.boot_config is Some && resources.vm_config.mem_size_mib
            is Some
        &&& self@.vmm matches Some(vmm) ==> vmm@ == (VmmView {
            arch,
            guest_memory: memory_regions(arch, mem_size_bytes(resources.vm_config)),
            vcpu_config: VcpuConfig {
                vcpu_count: resources.vm_config.vcpu_count->0,
                ht_enabled: resources.vm_config.ht_enabled->0,
                cpu_template: resources.vm_config.cpu_template,
            },
            line: assembled.line,
            cmdline_capacity: assembled.capacity,
            mmio: assembled.mmio,
            seccomp_level,
        })
    }

    /// The steps for the host, in order.
    pub fn steps(&self) -> (r: &Vec<BootStep>)
        ensures
            r@ == self@.steps,
    {
        &self.steps
    }

    /// The machine as far as it was put together; none where the assembly
    /// failed before there was a machine to speak of.
    pub fn vmm(&self) -> (r: Option<&Vmm>)
        ensures
            r is Some <==> self@.vmm is Some,
            r matches Some(vmm) ==> *vmm == self@.vmm->0,
    {
        self.vmm.as_ref()
    }

    /// The dispatcher as it will be once the host has performed every step.
    /// The host finds there the tokens under which it puts what it creates.
    pub fn epoll_context(&self) -> (r: &EpollContext)
        ensures
            r@ == self@.epoll,
    {
        &self.epoll_context
    }

    /// The failure that ended the assembly, if one did.
    pub fn failure(&self) -> (r: Option<&StartMicrovmError>)
        ensures
            r is Some <==> self@.failure is Some,
            r matches Some(e) ==> *e == self@.failure->0,
    {
        self.failure.as_ref()
    }

    /// The first `performed` steps of the plan, last first: the order in
    /// which what the host acquired in them is released when the boot is
    /// given up.
    pub fn unwind_steps(&self, performed: usize) -> (r: Vec<BootStep>)
        ensures
            r@ == self@.steps.take(
                if performed <= self@.steps.len() {
                    performed as int
                } else {
                    self@.steps.len() as int
                },
            ).reverse(),
    {
        let n = if performed <= self.steps.len() {
            performed
        } else {
            self.steps.len()
        };
        let ghost done = self.steps@.take(n as int);
        let mut undo: Vec<BootStep> = Vec::new();
        let mut i: usize = n;
        while i > 0
            invariant
                i <= n,
                n <= self.steps@.len(),
                done == self.steps@.take(n as int),
                undo@ == done.reverse().take(n - i),
            decreases i,
        {
            i = i - 1;
            undo.push(self.steps[i]);
            assert(undo@ =~= done.reverse().take(n - i));
        }
        assert(done.reverse().take(n as int) =~= done.reverse());
        undo
    }

    /// What came of the boot. `failed_step` names the first step at which
    /// the host failed, by its place among the plan's steps, with the cause;
    /// it is none where the host performed every step. The machine and its
    /// dispatcher are handed out only where neither the host nor the plan
    /// failed; where either did, nothing of the plan takes effect.
    pub fn finish(self, failed_step: Option<(usize, String)>) -> (r: Result<
        (Vmm, EpollContext),
        VmmActionError,
    >)
        requires
            self.wf(),
        ensures
            match r {
                Ok((vmm, epoll_context)) => {
                    &&& boot_error(self@.steps, self@.failure, failed_step) is None
                    &&& self@.vmm == Some(vmm)
                    &&& vmm.wf()
                    &&& epoll_context@ == self@.epoll
                },
                Err(e) => boot_error(self@.steps, self@.failure, failed_step) matches Some(cause)
                    && e == VmmActionError::StartMicrovm(start_error_kind(cause), cause),
            },
    {
        let BootPlan { steps, vmm, epoll_context, failure } = self;
        let host_error = match failed_step {
            None => None,
            Some((at, cause)) => {
                if at < steps.len() {
                    host_failure(steps[at], cause)
                } else {
                    Some(StartMicrovmError::Internal(Error::Other(cause)))
                }
            },
        };
        match host_error {
            Some(e) => Err(VmmActionError::from(e)),
            None => match failure {
                Some(e) => Err(VmmActionError::from(e)),
                None => Ok((vmm.unwrap(), epoll_context)),
            },
        }
    }
}

/// Plans the boot of the microVM that `vm_resources` describes, on `arch`,
/// with the dispatcher `epoll_context` as it is before the boot.
///
/// The plan holds every operation that the host has to perform, in order:
/// guest memory, the kernel, the metrics timer and the event manager, the
/// virtual machine, the interrupt controller and the vCPUs in the order that
/// the architecture asks for, then the block devices, the network interfaces
/// and the vsock device, the kernel command line, the boot structures, the
/// events, the start of the vCPUs, and the metrics. It also holds the
/// dispatcher with the tokens of all of these. The dispatcher that was handed
/// in is not touched: what the plan holds takes effect where the boot
/// succeeds, and only there.
pub fn build_microvm(
    vm_resources: &VmResources,
    epoll_context: &EpollContext,
    seccomp_level: u32,
    arch: Arch,
) -> (plan: BootPlan)
    requires
        vm_resources.wf(),
        epoll_context@.wf(),
    ensures
        plan.wf(),
        plan.plans(vm_resources@, epoll_context@, arch, seccomp_level),
{
    let mut steps: Vec<BootStep> = Vec::new();
    let boot_config = match vm_resources.boot_source() {
        None => {
            return BootPlan {
                steps,
                vmm: None,
                epoll_context: epoll_context.clone(),
                failure: Some(StartMicrovmError::MissingKernelConfig),
            };
        },
        Some(boot_config) => boot_config,
    };
    steps.push(BootStep::CaptureBootTimestamp);
    let guest_memory = match create_guest_memory(vm_resources, arch) {
        Err(e) => {
            return BootPlan {
                steps,
                vmm: None,
                epoll_context: epoll_context.clone(),
                failure: Some(e),
            };
        },
        Ok(guest_memory) => guest_memory,
    };
    let vmm = Vmm {
        arch,
        guest_memory,
        vcpu_config: vcpu_config(vm_resources),
        // The command line is copied, so that a failed boot leaves the registry's own untouched.
        kernel_cmdline: boot_config.cmdline.clone(),
        mmio_device_manager: MMIODeviceManager::for_arch(arch),
        seccomp_level,
    };
    let mut draft = BootDraft { steps, vmm, epoll_context: epoll_context.clone() };
    draft.steps.push(BootStep::CreateGuestMemory);
    draft.steps.push(BootStep::CloneKernelFile);
    draft.steps.push(BootStep::LoadKernel);
    setup_metrics(&mut draft);
    setup_event_manager(&mut draft);
    setup_kvm_vm(&mut draft.steps);
    // x86_64 wants the interrupt controller before the vCPUs, aarch64 after them.
    match arch {
        Arch::X86_64 => {
            draft.steps.push(BootStep::CreateLegacyDeviceManager);
            draft.steps.push(BootStep::SetupInterruptController);
            draft.steps.push(BootStep::AttachLegacyDevices);
            draft.steps.push(BootStep::CreateVcpus);
        },
        Arch::Aarch64 => {
            draft.steps.push(BootStep::CreateVcpus);
            draft.steps.push(BootStep::SetupInterruptController);
            draft.steps.push(BootStep::AttachLegacyDevices);
        },
    }
    let failure = match attach_devices_and_start(&mut draft, vm_resources) {
        Ok(()) => None,
        Err(e) => Some(e),
    };
    let BootDraft { steps, vmm, epoll_context } = draft;
    BootPlan { steps, vmm: Some(vmm), epoll_context, failure }
}

} // verus!
