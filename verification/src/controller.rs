//! The action controller: one method for each action on a microVM, before
//! boot and after it, with a uniform account of what went wrong.

use crate::arch::Arch;
use crate::builder::{boot_error, build_microvm, BootPlan, StartMicrovmError, Vmm};
use crate::cmdline::CmdlineError;
use crate::device_manager::{DeviceType, MMIO_CFG_SPACE_OFF};
use crate::devices::{
    build_config_space, config_space, SECTOR_SIZE, TYPE_BLOCK, VIRTIO_MMIO_INT_CONFIG,
};
use crate::epoll_context::{EpollContext, EpollDispatch, EpollView};
use crate::error::Error as VmmError;
use crate::resources::{VmResources, VmResourcesView};
use crate::vmm_config::boot_source::boot_source_error;
use crate::vmm_config::drive::{drive_position, has_drive, insert_result, OpenMode};
use crate::vmm_config::net::{net_insert_result, net_update_result};
use crate::vmm_config::rate_limiter::{RateLimiterConfig, TokenBucket};
use crate::vmm_config::boot_source::{BootSourceConfig, BootSourceConfigError};
use crate::vmm_config::drive::{BlockDeviceConfig, DriveError};
use crate::vmm_config::logger::{LoggerConfig, LoggerConfigError};
use crate::vmm_config::machine_config::{VmConfig, VmConfigError};
use crate::vmm_config::net::{
    NetworkInterfaceConfig, NetworkInterfaceError, NetworkInterfaceUpdateConfig, TapError,
};
use crate::vmm_config::vsock::{VsockDeviceConfig, VsockError};
use vstd::prelude::*;
use vstd::string::*;

verus! {

/// An action on a microVM, with what the action needs to know.
#[derive(Debug, PartialEq, Eq)]
pub enum VmmAction {
    /// Set the boot source. Before boot only.
    ConfigureBootSource(BootSourceConfig),
    /// Set up the logger. Before boot only.
    ConfigureLogger(LoggerConfig),
    /// Read the machine configuration.
    GetVmConfiguration,
    /// Write the metrics. Only once the logger is set up.
    FlushMetrics,
    /// Add a block device, or replace the one with the same id. Before boot
    /// only.
    InsertBlockDevice(BlockDeviceConfig),
    /// Add a network interface, or replace the one with the same id. Before
    /// boot only.
    InsertNetworkDevice(NetworkInterfaceConfig),
    /// Set the vsock device, or replace it. Before boot only.
    SetVsockDevice(VsockDeviceConfig),
    /// Tell the guest the new size of the block device with this id. After
    /// boot only.
    RescanBlockDevice(String),
    /// Change the machine configuration. Before boot only.
    SetVmConfiguration(VmConfig),
    /// Boot the microVM. Before boot only.
    StartMicroVm,
    /// Send CTRL+ALT+DEL to the guest, through the keyboard controller. After
    /// boot only, and on x86_64 only.
    SendCtrlAltDel,
    /// Give the block device with the id that comes first the backing file
    /// whose path comes second.
    UpdateBlockDevicePath(String, String),
    /// Replace rate limiters of a network interface.
    UpdateNetworkInterface(NetworkInterfaceUpdateConfig),
}

/// Whose fault a failure is.
#[derive(Clone, Copy, Debug, PartialEq, Eq, Structural)]
pub enum ErrorKind {
    /// The user's: the input was bad.
    User,
    /// The monitor's or the host's: something inside went wrong or ran out.
    Internal,
}

/// Why an action failed.
#[derive(Debug, PartialEq, Eq)]
pub enum VmmActionError {
    /// `ConfigureBootSource` failed.
    BootSource(ErrorKind, BootSourceConfigError),
    /// `InsertBlockDevice`, `RescanBlockDevice` or `UpdateBlockDevicePath`
    /// failed.
    DriveConfig(ErrorKind, DriveError),
    /// `ConfigureLogger` or `FlushMetrics` failed.
    Logger(ErrorKind, LoggerConfigError),
    /// `GetVmConfiguration` or `SetVmConfiguration` failed.
    MachineConfig(ErrorKind, VmConfigError),
    /// `InsertNetworkDevice` or `UpdateNetworkInterface` failed.
    NetworkConfig(ErrorKind, NetworkInterfaceError),
    /// The action cannot be taken once the microVM has booted.
    OperationNotSupportedPostBoot,
    /// The action cannot be taken before the microVM has booted.
    OperationNotSupportedPreBoot,
    /// `StartMicroVm` failed.
    StartMicrovm(ErrorKind, StartMicrovmError),
    /// `SendCtrlAltDel` failed.
    SendCtrlAltDel(ErrorKind, VmmError),
    /// `SetVsockDevice` failed.
    VsockConfig(ErrorKind, VsockError),
}

/// Whose fault a failed start is. Bad input is the user's: a missing or
/// unloadable kernel, a command line that does not take a fragment or does
/// not fit into guest memory, a backing file or a tap device that cannot be
/// opened, a device that cannot be created from them, a second start. The
/// rest is internal.
pub open spec fn start_error_kind(e: StartMicrovmError) -> ErrorKind {
    match e {
        StartMicrovmError::CreateVsockBackend(_) => ErrorKind::User,
        StartMicrovmError::CreateBlockDevice(_) => ErrorKind::User,
        StartMicrovmError::CreateNetDevice(_) => ErrorKind::User,
        StartMicrovmError::KernelCmdline(_) => ErrorKind::User,
        StartMicrovmError::KernelLoader(_) => ErrorKind::User,
        StartMicrovmError::MicroVMAlreadyRunning => ErrorKind::User,
        StartMicrovmError::MissingKernelConfig => ErrorKind::User,
        StartMicrovmError::NetDeviceNotConfigured => ErrorKind::User,
        StartMicrovmError::OpenBlockDevice(_) => ErrorKind::User,
        StartMicrovmError::ConfigureVm(_) => ErrorKind::Internal,
        StartMicrovmError::CreateRateLimiter(_) => ErrorKind::Internal,
        StartMicrovmError::CreateVsockDevice(_) => ErrorKind::Internal,
        StartMicrovmError::GuestMemory(_) => ErrorKind::Internal,
        StartMicrovmError::Internal(_) => ErrorKind::Internal,
        StartMicrovmError::RegisterBlockDevice(_) => ErrorKind::Internal,
        StartMicrovmError::RegisterNetDevice(_) => ErrorKind::Internal,
        StartMicrovmError::RegisterVsockDevice(_) => ErrorKind::Internal,
        StartMicrovmError::LoadCommandline(cause) => match cause {
            CmdlineError::CommandLineOverflow => ErrorKind::User,
            _ => ErrorKind::Internal,
        },
    }
}

/// Whose fault a failure on a network interface is. A tap device that cannot
/// be opened is the user's fault where the tun device or the tap device could
/// not be had or the name is bad, and internal where a control call or its
/// socket failed.
pub open spec fn network_error_kind(e: NetworkInterfaceError) -> ErrorKind {
    match e {
        NetworkInterfaceError::GuestMacAddressInUse(_) => ErrorKind::User,
        NetworkInterfaceError::HostDeviceNameInUse(_) => ErrorKind::User,
        NetworkInterfaceError::DeviceIdNotFound => ErrorKind::User,
        NetworkInterfaceError::UpdateNotAllowedPostBoot => ErrorKind::User,
        NetworkInterfaceError::EpollHandlerNotFound(_) => ErrorKind::Internal,
        NetworkInterfaceError::RateLimiterUpdateFailed(_) => ErrorKind::Internal,
        NetworkInterfaceError::OpenTap(cause) => match cause {
            TapError::OpenTun(_) => ErrorKind::User,
            TapError::CreateTap(_) => ErrorKind::User,
            TapError::InvalidIfname => ErrorKind::User,
            TapError::IoctlError(_) => ErrorKind::Internal,
            TapError::CreateSocket(_) => ErrorKind::Internal,
        },
    }
}

impl From<StartMicrovmError> for VmmActionError {
    fn from(e: StartMicrovmError) -> (r: VmmActionError) {
        let kind = match &e {
            StartMicrovmError::CreateVsockBackend(_) => ErrorKind::User,
            StartMicrovmError::CreateBlockDevice(_) => ErrorKind::User,
            StartMicrovmError::CreateNetDevice(_) => ErrorKind::User,
            StartMicrovmError::KernelCmdline(_) => ErrorKind::User,
            StartMicrovmError::KernelLoader(_) => ErrorKind::User,
            StartMicrovmError::MicroVMAlreadyRunning => ErrorKind::User,
            StartMicrovmError::MissingKernelConfig => ErrorKind::User,
            StartMicrovmError::NetDeviceNotConfigured => ErrorKind::User,
            StartMicrovmError::OpenBlockDevice(_) => ErrorKind::User,
            StartMicrovmError::ConfigureVm(_) => ErrorKind::Internal,
            StartMicrovmError::CreateRateLimiter(_) => ErrorKind::Internal,
            StartMicrovmError::CreateVsockDevice(_) => ErrorKind::Internal,
            StartMicrovmError::GuestMemory(_) => ErrorKind::Internal,
            StartMicrovmError::Internal(_) => ErrorKind::Internal,
            StartMicrovmError::RegisterBlockDevice(_) => ErrorKind::Internal,
            StartMicrovmError::RegisterNetDevice(_) => ErrorKind::Internal,
            StartMicrovmError::RegisterVsockDevice(_) => ErrorKind::Internal,
            // The only failure of the user's among these is a line that is too long.
            StartMicrovmError::LoadCommandline(cause) => match cause {
                CmdlineError::CommandLineOverflow => ErrorKind::User,
                _ => ErrorKind::Internal,
            },
        };
        VmmActionError::StartMicrovm(kind, e)
    }
}

impl vstd::std_specs::convert::FromSpecImpl<StartMicrovmError> for VmmActionError {
    open spec fn obeys_from_spec() -> bool {
        true
    }

    open spec fn from_spec(e: StartMicrovmError) -> VmmActionError {
        VmmActionError::StartMicrovm(start_error_kind(e), e)
    }
}

impl From<DriveError> for VmmActionError {
    fn from(e: DriveError) -> (r: VmmActionError) {
        VmmActionError::DriveConfig(ErrorKind::User, e)
    }
}

impl vstd::std_specs::convert::FromSpecImpl<DriveError> for VmmActionError {
    open spec fn obeys_from_spec() -> bool {
        true
    }

    /// Every failure on a block device is the user's.
    open spec fn from_spec(e: DriveError) -> VmmActionError {
        VmmActionError::DriveConfig(ErrorKind::User, e)
    }
}

impl From<VmConfigError> for VmmActionError {
    fn from(e: VmConfigError) -> (r: VmmActionError) {
        VmmActionError::MachineConfig(ErrorKind::User, e)
    }
}

impl vstd::std_specs::convert::FromSpecImpl<VmConfigError> for VmmActionError {
    open spec fn obeys_from_spec() -> bool {
        true
    }

    /// Every failure on the machine configuration is the user's.
    open spec fn from_spec(e: VmConfigError) -> VmmActionError {
        VmmActionError::MachineConfig(ErrorKind::User, e)
    }
}

impl From<NetworkInterfaceError> for VmmActionError {
    fn from(e: NetworkInterfaceError) -> (r: VmmActionError) {
        let kind = match &e {
            NetworkInterfaceError::GuestMacAddressInUse(_) => ErrorKind::User,
            NetworkInterfaceError::HostDeviceNameInUse(_) => ErrorKind::User,
            NetworkInterfaceError::DeviceIdNotFound => ErrorKind::User,
            NetworkInterfaceError::UpdateNotAllowedPostBoot => ErrorKind::User,
            NetworkInterfaceError::EpollHandlerNotFound(_) => ErrorKind::Internal,
            NetworkInterfaceError::RateLimiterUpdateFailed(_) => ErrorKind::Internal,
            NetworkInterfaceError::OpenTap(cause) => match cause {
                TapError::OpenTun(_) => ErrorKind::User,
                TapError::CreateTap(_) => ErrorKind::User,
                TapError::InvalidIfname => ErrorKind::User,
                TapError::IoctlError(_) => ErrorKind::Internal,
                TapError::CreateSocket(_) => ErrorKind::Internal,
            },
        };
        VmmActionError::NetworkConfig(kind, e)
    }
}

impl vstd::std_specs::convert::FromSpecImpl<NetworkInterfaceError> for VmmActionError {
    open spec fn obeys_from_spec() -> bool {
        true
    }

    open spec fn from_spec(e: NetworkInterfaceError) -> VmmActionError {
        VmmActionError::NetworkConfig(network_error_kind(e), e)
    }
}

impl VmmActionError {
    /// Whose fault the failure is. An action that is taken in the wrong phase
    /// is the user's fault.
    pub open spec fn spec_kind(self) -> ErrorKind {
        match self {
            VmmActionError::BootSource(kind, _) => kind,
            VmmActionError::DriveConfig(kind, _) => kind,
            VmmActionError::Logger(kind, _) => kind,
            VmmActionError::MachineConfig(kind, _) => kind,
            VmmActionError::NetworkConfig(kind, _) => kind,
            VmmActionError::OperationNotSupportedPostBoot => ErrorKind::User,
            VmmActionError::OperationNotSupportedPreBoot => ErrorKind::User,
            VmmActionError::StartMicrovm(kind, _) => kind,
            VmmActionError::SendCtrlAltDel(kind, _) => kind,
            VmmActionError::VsockConfig(kind, _) => kind,
        }
    }

    /// Whose fault the failure is.
    pub fn kind(&self) -> (r: &ErrorKind)
        ensures
            *r == self.spec_kind(),
    {
        match self {
            VmmActionError::BootSource(kind, _) => kind,
            VmmActionError::DriveConfig(kind, _) => kind,
            VmmActionError::Logger(kind, _) => kind,
            VmmActionError::MachineConfig(kind, _) => kind,
            VmmActionError::NetworkConfig(kind, _) => kind,
            VmmActionError::OperationNotSupportedPostBoot => &ErrorKind::User,
            VmmActionError::OperationNotSupportedPreBoot => &ErrorKind::User,
            VmmActionError::StartMicrovm(kind, _) => kind,
            VmmActionError::SendCtrlAltDel(kind, _) => kind,
            VmmActionError::VsockConfig(kind, _) => kind,
        }
    }

    /// The text of `message`: that of the failure inside, or the sentence on
    /// the wrong phase.
    pub open spec fn message_spec(self) -> Seq<char> {
        match self {
            VmmActionError::BootSource(_, e) => e.message_spec(),
            VmmActionError::DriveConfig(_, e) => e.message_spec(),
            VmmActionError::Logger(_, e) => e.message_spec(),
            VmmActionError::MachineConfig(_, e) => e.message_spec(),
            VmmActionError::NetworkConfig(_, e) => e.message_spec(),
            VmmActionError::OperationNotSupportedPostBoot => "The requested operation is not supported after starting the microVM."@,
            VmmActionError::OperationNotSupportedPreBoot => "The requested operation is not supported before starting the microVM."@,
            VmmActionError::StartMicrovm(_, e) => e.message_spec(),
            VmmActionError::SendCtrlAltDel(_, e) => e.message_spec(),
            VmmActionError::VsockConfig(_, e) => e.message_spec(),
        }
    }

    /// A sentence that describes the failure, for the user.
    pub fn message(&self) -> (r: String)
        ensures
            r@ == self.message_spec(),
    {
        match self {
            VmmActionError::BootSource(_, e) => e.message(),
            VmmActionError::DriveConfig(_, e) => e.message(),
            VmmActionError::Logger(_, e) => e.message(),
            VmmActionError::MachineConfig(_, e) => e.message(),
            VmmActionError::NetworkConfig(_, e) => e.message(),
            VmmActionError::OperationNotSupportedPostBoot => String::from_str(
                "The requested operation is not supported after starting the microVM.",
            ),
            VmmActionError::OperationNotSupportedPreBoot => String::from_str(
                "The requested operation is not supported before starting the microVM.",
            ),
            VmmActionError::StartMicrovm(_, e) => e.message(),
            VmmActionError::SendCtrlAltDel(_, e) => e.message(),
            VmmActionError::VsockConfig(_, e) => e.message(),
        }
    }
}

/// What an action hands back when it succeeds.
#[derive(Debug, PartialEq, Eq)]
pub enum VmmData {
    /// Nothing.
    Empty,
    /// The machine configuration.
    MachineConfiguration(VmConfig),
}

/// Why the event loop handed control back.
#[derive(Clone, Copy, Debug, PartialEq, Eq, Structural)]
pub enum EventLoopExitReason {
    /// The guest has halted.
    Break,
    /// A control action is waiting.
    ControlAction,
}

/// The exit code of a monitor that ended in good order.
pub const FC_EXIT_CODE_OK: u8 = 0;

/// The exit code of a monitor that ended on a failure of no special kind.
pub const FC_EXIT_CODE_GENERIC_ERROR: u8 = 1;

/// What the host does about one event on the dispatcher.
#[derive(Clone, Copy, Debug, PartialEq, Eq, Structural)]
pub enum EventAction {
    /// Read the exit event, to clear it.
    ReadExitEvent,
    /// Hand the input on the standard input to the serial console.
    ForwardStdin,
    /// Hand the event to the handler at `handler`, as the event number `event`
    /// of its device.
    DispatchDevice { handler: usize, event: u16 },
    /// Read the metrics timer, to arm it again, and write the metrics.
    WriteMetrics,
    /// Let the secondary event manager handle its events.
    RunEventManager,
    /// Take in the thread of the vCPU with this number.
    CollectVcpu(u8),
    /// Nothing.
    Nothing,
}

/// What follows from one event on the dispatcher: what the host does about it,
/// and whether the event loop hands control back thereafter, and why.
#[derive(Clone, Copy, Debug, PartialEq, Eq, Structural)]
pub struct EventLoopStep {
    /// What the host does.
    pub action: EventAction,
    /// Why the loop hands control back; none where it goes on.
    pub exit: Option<EventLoopExitReason>,
}

/// What follows from an event that carries `token`, on a machine with
/// `vcpu_count` vCPUs.
///
/// The loop hands control back on three events: the guest asked for shutdown,
/// the thread of one of the machine's vCPUs ended, or a control action is
/// waiting. An event without a token, or of a vCPU that the machine does not
/// have, is passed over.
pub open spec fn event_loop_step(token: Option<EpollDispatch>, vcpu_count: u8) -> EventLoopStep {
    match token {
        None => EventLoopStep { action: EventAction::Nothing, exit: None },
        Some(EpollDispatch::Exit) => EventLoopStep {
            action: EventAction::ReadExitEvent,
            exit: Some(EventLoopExitReason::Break),
        },
        Some(EpollDispatch::Stdin) => EventLoopStep {
            action: EventAction::ForwardStdin,
            exit: None,
        },
        Some(EpollDispatch::DeviceHandler(handler, event)) => EventLoopStep {
            action: EventAction::DispatchDevice { handler, event },
            exit: None,
        },
        Some(EpollDispatch::VmmActionRequest) => EventLoopStep {
            action: EventAction::Nothing,
            exit: Some(EventLoopExitReason::ControlAction),
        },
        Some(EpollDispatch::WriteMetrics) => EventLoopStep {
            action: EventAction::WriteMetrics,
            exit: None,
        },
        Some(EpollDispatch::PollyEvent) => EventLoopStep {
            action: EventAction::RunEventManager,
            exit: None,
        },
        Some(EpollDispatch::Vcpu(index)) => if index < vcpu_count {
            EventLoopStep {
                action: EventAction::CollectVcpu(index),
                exit: Some(EventLoopExitReason::Break),
            }
        } else {
            EventLoopStep { action: EventAction::Nothing, exit: None }
        },
    }
}

/// The exit code with which the monitor stops after the event loop handed
/// control back with `exit_reason`; none where the monitor runs on. `handled`
/// is what the handler of control events made of a waiting control action.
///
/// The monitor stops with the generic error code where the loop failed, with
/// the OK code where the guest has halted, and with the handler's code where
/// the handler asks for a stop.
pub open spec fn exit_code_spec(
    exit_reason: Result<EventLoopExitReason, String>,
    handled: Result<(), u8>,
) -> Option<i32> {
    match exit_reason {
        Err(_) => Some(FC_EXIT_CODE_GENERIC_ERROR as i32),
        Ok(EventLoopExitReason::Break) => Some(FC_EXIT_CODE_OK as i32),
        Ok(EventLoopExitReason::ControlAction) => match handled {
            Ok(()) => None,
            Err(code) => Some(code as i32),
        },
    }
}

/// The exit code with which the monitor stops after the event loop handed
/// control back with `exit_reason`; none where the monitor runs on. `handled`
/// is what the handler of control events made of a waiting control action; it
/// is not looked at unless one was waiting.
pub fn exit_code(exit_reason: &Result<EventLoopExitReason, String>, handled: Result<(), u8>) -> (r:
    Option<i32>)
    ensures
        r == exit_code_spec(*exit_reason, handled),
{
    match exit_reason {
        Err(_) => Some(FC_EXIT_CODE_GENERIC_ERROR as i32),
        Ok(EventLoopExitReason::Break) => Some(FC_EXIT_CODE_OK as i32),
        Ok(EventLoopExitReason::ControlAction) => match handled {
            Ok(()) => None,
            Err(code) => Some(code as i32),
        },
    }
}

/// What the host found when it looked at the backing file of a block device
/// and at the device itself.
#[derive(Clone, Copy, Debug, PartialEq, Eq)]
pub struct DiskProbe {
    /// The size of the backing file in bytes, found by seeking to its end;
    /// none where the file could not be opened or sought.
    pub size: Option<u64>,
    /// Whether the device on the bus could be locked.
    pub device_locked: bool,
}

/// What the host found when it gave a block device another backing file.
#[derive(Debug, PartialEq, Eq)]
pub struct PathUpdateProbe {
    /// Whether the new backing file could be opened, with the permissions of
    /// the device; if not, the cause.
    pub opened: Result<(), String>,
    /// Whether the handler of the running device took the new file.
    pub image_replaced: bool,
    /// What a look at the new backing file and at the device gave.
    pub rescan: DiskProbe,
}

/// What the host writes to a block device to tell the guest of a new size.
#[derive(Debug, PartialEq, Eq)]
pub struct BlockRescan {
    /// The guest-physical address of the device's window.
    pub device_addr: u64,
    /// Where in the window the bytes go.
    pub offset: u64,
    /// The bytes: the device's configuration space.
    pub data: Vec<u8>,
    /// The interrupt status bit to raise.
    pub interrupt: u32,
}

/// The warning that is owed when the backing file of a block device has a
/// size that is no whole number of sectors: the guest will not see what lies
/// beyond the last whole sector.
#[derive(Clone, Copy, Debug, PartialEq, Eq, Structural)]
pub struct UnalignedDisk {
    /// The size of the backing file in bytes.
    pub size: u64,
    /// The size of a sector in bytes.
    pub sector_size: u64,
}

impl UnalignedDisk {
    /// The text of `message`.
    pub open spec fn message_spec(self) -> Seq<char> {
        "Disk size "@ + crate::text::decimal(self.size as nat)
            + " is not a multiple of sector size "@ + crate::text::decimal(self.sector_size as nat)
            + "; the remainder will not be visible to the guest."@
    }

    /// The warning as a sentence.
    pub fn message(&self) -> (r: String)
        ensures
            r@ == self.message_spec(),
    {
        let mut text = String::from_str("Disk size ");
        crate::text::push_digits(&mut text, self.size, 10);
        text.append(" is not a multiple of sector size ");
        crate::text::push_digits(&mut text, self.sector_size, 10);
        text.append("; the remainder will not be visible to the guest.");
        text
    }
}

/// The warning that a backing file of `size` bytes calls for, if it calls for
/// one.
pub open spec fn unaligned_warning(size: u64) -> Option<UnalignedDisk> {
    if size % SECTOR_SIZE != 0 {
        Some(UnalignedDisk { size, sector_size: SECTOR_SIZE })
    } else {
        None
    }
}

/// What came of an action that looks at the size of a disk: the warning that
/// the host owes the user, whether or not the action then succeeded, and the
/// result of the action.
#[derive(Debug, PartialEq, Eq)]
pub struct Rescanned<T> {
    /// The warning that is owed, if one is.
    pub warning: Option<UnalignedDisk>,
    /// The result of the action.
    pub result: Result<T, VmmActionError>,
}

/// What a controller holds.
pub struct VmmControllerView {
    /// The architecture of the microVM.
    pub arch: Arch,
    /// The dispatcher.
    pub epoll: EpollView,
    /// The registry.
    pub resources: VmResourcesView,
    /// The running machine; none before boot.
    pub vmm: Option<Vmm>,
}

impl VmmControllerView {
    /// Whether the microVM has booted.
    pub open spec fn is_running(self) -> bool {
        self.vmm is Some
    }

    /// Why the microVM cannot be started with what came of the boot that
    /// `plan` laid out, if it cannot: it runs already, or the boot failed.
    pub open spec fn start_error(self, plan: BootPlan, failed_step: Option<(usize, String)>)
        -> Option<VmmActionError> {
        if self.is_running() {
            Some(
                VmmActionError::StartMicrovm(
                    ErrorKind::User,
                    StartMicrovmError::MicroVMAlreadyRunning,
                ),
            )
        } else {
            match boot_error(plan@.steps, plan@.failure, failed_step) {
                Some(cause) => Some(VmmActionError::StartMicrovm(start_error_kind(cause), cause)),
                None => None,
            }
        }
    }

    /// The controller after the microVM was started with the machine and the
    /// dispatcher of `plan`.
    pub open spec fn started(self, plan: BootPlan) -> VmmControllerView {
        VmmControllerView { vmm: plan@.vmm, epoll: plan@.epoll, ..self }
    }

    /// A microVM starts once at most: after a start that succeeded, every
    /// further start fails, because the microVM runs already.
    pub proof fn lemma_start_at_most_once(
        self,
        first: BootPlan,
        first_failed: Option<(usize, String)>,
        second: BootPlan,
        second_failed: Option<(usize, String)>,
    )
        requires
            first.wf(),
            self.start_error(first, first_failed) is None,
        ensures
            self.started(first).is_running(),
            self.started(first).start_error(second, second_failed) == Some(
                VmmActionError::StartMicrovm(
                    ErrorKind::User,
                    StartMicrovmError::MicroVMAlreadyRunning,
                ),
            ),
    {
    }

    /// Before boot, a step at which the host fails decides what the start
    /// ends with, whatever the plan holds beyond that step.
    pub proof fn lemma_host_failure_decides(
        self,
        plan: BootPlan,
        at: usize,
        cause: String,
        failure: StartMicrovmError,
    )
        requires
            !self.is_running(),
            at < plan@.steps.len(),
            crate::builder::host_failure_spec(plan@.steps[at as int], cause) == Some(failure),
        ensures
            self.start_error(plan, Some((at, cause))) == Some(
                VmmActionError::StartMicrovm(start_error_kind(failure), failure),
            ),
    {
    }

    /// Why the block device `drive_id` cannot be rescanned, if it cannot.
    pub open spec fn rescan_error(self, drive_id: Seq<char>, probe: DiskProbe) -> Option<
        VmmActionError,
    > {
        if !self.is_running() {
            Some(VmmActionError::OperationNotSupportedPreBoot)
        } else if !has_drive(self.resources.block, drive_id) {
            Some(VmmActionError::DriveConfig(ErrorKind::User, DriveError::InvalidBlockDeviceID))
        } else if probe.size is None || !self.vmm->0@.mmio.has_device(TYPE_BLOCK, drive_id)
            || !probe.device_locked {
            Some(VmmActionError::DriveConfig(ErrorKind::User, DriveError::BlockDeviceUpdateFailed))
        } else {
            None
        }
    }

    /// The warning that a rescan of the block device `drive_id` owes: one is
    /// owed as soon as the size of the backing file was read and is no whole
    /// number of sectors, whatever becomes of the rescan thereafter.
    pub open spec fn rescan_warning(self, drive_id: Seq<char>, probe: DiskProbe) -> Option<
        UnalignedDisk,
    > {
        if self.is_running() && has_drive(self.resources.block, drive_id) && probe.size is Some {
            unaligned_warning(probe.size->0)
        } else {
            None
        }
    }

    /// Whether `rescan` is what tells the guest that the block device
    /// `drive_id` has `size` bytes.
    pub open spec fn is_rescan(self, drive_id: Seq<char>, size: u64, rescan: BlockRescan) -> bool {
        let mmio = self.vmm->0@.mmio;
        &&& rescan.device_addr == mmio.devices[mmio.latest_device(TYPE_BLOCK, drive_id)].addr
        &&& rescan.offset == MMIO_CFG_SPACE_OFF
        &&& rescan.data@ == config_space(size)
        &&& rescan.interrupt == VIRTIO_MMIO_INT_CONFIG
    }

    /// The registry after the block device `drive_id` got the backing file
    /// `path`.
    pub open spec fn with_drive_path(self, drive_id: Seq<char>, path: String) -> VmResourcesView {
        let i = drive_position(self.resources.block, drive_id);
        VmResourcesView {
            block: self.resources.block.update(i, self.resources.block[i].with_path(path)),
            ..self.resources
        }
    }

    /// Why the block device `drive_id` cannot get another backing file, if it
    /// cannot. The first two failures leave the registry as it was; the others
    /// come after the registry has taken the new path.
    pub open spec fn path_update_error(self, drive_id: Seq<char>, probe: PathUpdateProbe) -> Option<
        VmmActionError,
    > {
        if !has_drive(self.resources.block, drive_id) {
            Some(VmmActionError::DriveConfig(ErrorKind::User, DriveError::InvalidBlockDeviceID))
        } else if probe.opened is Err {
            Some(
                VmmActionError::DriveConfig(
                    ErrorKind::User,
                    DriveError::CannotOpenBlockDevice(probe.opened->Err_0),
                ),
            )
        } else if !self.is_running() {
            None
        } else if !self.epoll.has_handler(TYPE_BLOCK, drive_id) {
            Some(VmmActionError::DriveConfig(ErrorKind::User, DriveError::EpollHandlerNotFound))
        } else if !probe.image_replaced {
            Some(VmmActionError::DriveConfig(ErrorKind::User, DriveError::BlockDeviceUpdateFailed))
        } else {
            self.rescan_error(drive_id, probe.rescan)
        }
    }

    /// Whether a request for another backing file for the block device
    /// `drive_id` gets as far as the rescan of the running device.
    pub open spec fn path_update_reaches_rescan(self, drive_id: Seq<char>, probe: PathUpdateProbe)
        -> bool {
        &&& self.path_update_reaches_registry(drive_id, probe)
        &&& self.is_running()
        &&& self.epoll.has_handler(TYPE_BLOCK, drive_id)
        &&& probe.image_replaced
    }

    /// The warning that a request for another backing file for the block
    /// device `drive_id` owes: that of the rescan, where the request gets as
    /// far.
    pub open spec fn path_update_warning(self, drive_id: Seq<char>, probe: PathUpdateProbe)
        -> Option<UnalignedDisk> {
        if self.path_update_reaches_rescan(drive_id, probe) {
            self.rescan_warning(drive_id, probe.rescan)
        } else {
            None
        }
    }

    /// The access with which a new backing file for the block device
    /// `drive_id` is opened: that which the device declares.
    pub open spec fn block_open_mode(self, drive_id: Seq<char>) -> Option<OpenMode> {
        if has_drive(self.resources.block, drive_id) {
            Some(
                self.resources.block[drive_position(
                    self.resources.block,
                    drive_id,
                )].spec_open_mode(),
            )
        } else {
            None
        }
    }

    /// Whether a request for another backing file for the block device
    /// `drive_id` gets as far as the registry.
    pub open spec fn path_update_reaches_registry(self, drive_id: Seq<char>, probe: PathUpdateProbe)
        -> bool {
        has_drive(self.resources.block, drive_id) && probe.opened is Ok
    }
}

/// The bucket for bytes that `limits` names, if it names one.
pub open spec fn bandwidth_bucket(limits: Option<RateLimiterConfig>) -> Option<TokenBucket> {
    match limits {
        Some(RateLimiterConfig { bandwidth: Some(bucket), .. }) => Some(bucket.bucket()),
        _ => None,
    }
}

/// The bucket for operations that `limits` names, if it names one.
pub open spec fn ops_bucket(limits: Option<RateLimiterConfig>) -> Option<TokenBucket> {
    match limits {
        Some(RateLimiterConfig { ops: Some(bucket), .. }) => Some(bucket.bucket()),
        _ => None,
    }
}

/// The bucket for bytes that `limits` names, if it names one.
pub fn bandwidth_bucket_of(limits: &Option<RateLimiterConfig>) -> (r: Option<TokenBucket>)
    ensures
        r == bandwidth_bucket(*limits),
{
    match limits {
        Some(limiter) => match limiter.bandwidth {
            Some(bucket) => Some(bucket.into_token_bucket()),
            None => None,
        },
        None => None,
    }
}

/// The bucket for operations that `limits` names, if it names one.
pub fn ops_bucket_of(limits: &Option<RateLimiterConfig>) -> (r: Option<TokenBucket>)
    ensures
        r == ops_bucket(*limits),
{
    match limits {
        Some(limiter) => match limiter.ops {
            Some(bucket) => Some(bucket.into_token_bucket()),
            None => None,
        },
        None => None,
    }
}

/// Whether an action may be taken before the microVM has booted.
pub open spec fn allowed_pre_boot(action: VmmAction) -> bool {
    match action {
        VmmAction::RescanBlockDevice(_) => false,
        VmmAction::SendCtrlAltDel => false,
        _ => true,
    }
}

/// Whether an action may be taken once the microVM has booted.
pub open spec fn allowed_post_boot(action: VmmAction) -> bool {
    match action {
        VmmAction::GetVmConfiguration => true,
        VmmAction::FlushMetrics => true,
        VmmAction::RescanBlockDevice(_) => true,
        VmmAction::UpdateBlockDevicePath(_, _) => true,
        VmmAction::UpdateNetworkInterface(_) => true,
        VmmAction::SendCtrlAltDel => true,
        _ => false,
    }
}

/// Why `action` cannot be taken in the phase that `running` tells, if it
/// cannot: before boot, an action that needs a running microVM is not
/// supported; after boot, a second start finds the microVM running, and any
/// other action that belongs before boot is not supported.
pub open spec fn phase_error(action: VmmAction, running: bool) -> Option<VmmActionError> {
    if running {
        if allowed_post_boot(action) {
            None
        } else if action is StartMicroVm {
            Some(
                VmmActionError::StartMicrovm(
                    ErrorKind::User,
                    StartMicrovmError::MicroVMAlreadyRunning,
                ),
            )
        } else {
            Some(VmmActionError::OperationNotSupportedPostBoot)
        }
    } else {
        if allowed_pre_boot(action) {
            None
        } else {
            Some(VmmActionError::OperationNotSupportedPreBoot)
        }
    }
}

/// Every action may be taken in one phase at least. Once the microVM has
/// booted, an action that belongs before boot is refused as not supported
/// after boot, but for a second start, which is refused because the microVM
/// runs already; before boot, an action that needs a running microVM is
/// refused as not supported before boot. Either way the failure is the
/// user's.
pub proof fn lemma_phase_gate(action: VmmAction)
    ensures
        allowed_pre_boot(action) || allowed_post_boot(action),
        phase_error(action, true) is None <==> allowed_post_boot(action),
        phase_error(action, false) is None <==> allowed_pre_boot(action),
        !allowed_post_boot(action) && !(action is StartMicroVm) ==> phase_error(action, true)
            == Some(VmmActionError::OperationNotSupportedPostBoot),
        action is StartMicroVm ==> phase_error(action, true) == Some(
            VmmActionError::StartMicrovm(ErrorKind::User, StartMicrovmError::MicroVMAlreadyRunning),
        ),
        !allowed_pre_boot(action) ==> phase_error(action, false) == Some(
            VmmActionError::OperationNotSupportedPreBoot,
        ),
        phase_error(action, true) matches Some(e) ==> e.spec_kind() == ErrorKind::User,
        phase_error(action, false) matches Some(e) ==> e.spec_kind() == ErrorKind::User,
{
}

impl VmmAction {
    /// Checks that the action may be taken in the phase that `running` tells.
    pub fn check_phase(&self, running: bool) -> (r: Result<(), VmmActionError>)
        ensures
            match r {
                Ok(()) => phase_error(*self, running) is None,
                Err(e) => phase_error(*self, running) == Some(e),
            },
    {
        if running {
            match self {
                VmmAction::GetVmConfiguration => Ok(()),
                VmmAction::FlushMetrics => Ok(()),
                VmmAction::RescanBlockDevice(_) => Ok(()),
                VmmAction::UpdateBlockDevicePath(_, _) => Ok(()),
                VmmAction::UpdateNetworkInterface(_) => Ok(()),
                VmmAction::SendCtrlAltDel => Ok(()),
                VmmAction::StartMicroVm => Err(
                    VmmActionError::StartMicrovm(
                        ErrorKind::User,
                        StartMicrovmError::MicroVMAlreadyRunning,
                    ),
                ),
                _ => Err(VmmActionError::OperationNotSupportedPostBoot),
            }
        } else {
            match self {
                VmmAction::RescanBlockDevice(_) => Err(VmmActionError::OperationNotSupportedPreBoot),
                VmmAction::SendCtrlAltDel => Err(VmmActionError::OperationNotSupportedPreBoot),
                _ => Ok(()),
            }
        }
    }
}

/// To be implemented by whoever drives a controller: it is called when a
/// control action is waiting, takes the action from wherever it waits, and
/// performs it on the controller. An error stops the monitor with the code
/// that it holds.
pub trait ControlEventHandler {
    /// Handles the control action that is waiting.
    fn handle_control_event(&self, controller: &mut VmmController) -> (r: Result<(), u8>)
        requires
            old(controller).wf(),
        ensures
            final(controller).wf(),
    ;
}

/// The controller of a microVM: it holds the registry, the dispatcher and,
/// once the microVM has booted, the machine; and it takes the actions, each in
/// the phase in which it is allowed.
pub struct VmmController {
    arch: Arch,
    epoll_context: EpollContext,
    vm_resources: VmResources,
    vmm: Option<Vmm>,
}

impl View for VmmController {
    type V = VmmControllerView;

    closed spec fn view(&self) -> VmmControllerView {
        VmmControllerView {
            arch: self.arch,
            epoll: self.epoll_context@,
            resources: self.vm_resources@,
            vmm: self.vmm,
        }
    }
}

impl VmmController {
    /// The registry and the dispatcher are well formed, and so is the machine
    /// if there is one.
    pub open spec fn wf(&self) -> bool {
        &&& self@.resources.wf()
        &&& self@.epoll.wf()
        &&& self@.vmm matches Some(vmm) ==> vmm.wf()
    }

    /// A controller for a microVM on `arch`. With a machine it controls a
    /// microVM that has booted, without one it controls a microVM that is yet
    /// to boot.
    pub fn new(arch: Arch, epoll_context: EpollContext, vm_resources: VmResources, vmm: Option<Vmm>)
        -> (r: Self)
        ensures
            r@ == (VmmControllerView {
                arch,
                epoll: epoll_context@,
                resources: vm_resources@,
                vmm,
            }),
    {
        VmmController { arch, epoll_context, vm_resources, vmm }
    }

    /// Whether the microVM has booted.
    pub fn is_running(&self) -> (r: bool)
        ensures
            r == self@.is_running(),
    {
        self.vmm.is_some()
    }

    /// The machine configuration.
    pub fn vm_config(&self) -> (r: &VmConfig)
        ensures
            *r == self@.resources.vm_config,
    {
        self.vm_resources.vm_config()
    }

    /// The machine configuration, as the answer to a request for it. Allowed
    /// before boot and after.
    pub fn get_vm_configuration(&self) -> (r: VmmData)
        ensures
            r == VmmData::MachineConfiguration(self@.resources.vm_config),
    {
        VmmData::MachineConfiguration(*self.vm_resources.vm_config())
    }

    /// Checks that `action` may be taken in the phase in which the microVM
    /// is.
    pub fn check_action(&self, action: &VmmAction) -> (r: Result<(), VmmActionError>)
        ensures
            match r {
                Ok(()) => phase_error(*action, self@.is_running()) is None,
                Err(e) => phase_error(*action, self@.is_running()) == Some(e),
            },
    {
        action.check_phase(self.vmm.is_some())
    }

    /// The registry.
    pub fn vm_resources(&self) -> (r: &VmResources)
        ensures
            r@ == self@.resources,
    {
        &self.vm_resources
    }

    /// The dispatcher.
    pub fn epoll_context(&self) -> (r: &EpollContext)
        ensures
            r@ == self@.epoll,
    {
        &self.epoll_context
    }

    /// The running machine; none before boot.
    pub fn vmm(&self) -> (r: Option<&Vmm>)
        ensures
            r is Some <==> self@.vmm is Some,
            r matches Some(vmm) ==> *vmm == self@.vmm->0,
    {
        self.vmm.as_ref()
    }

    /// Sets the boot source. `kernel_found` tells whether the host could open
    /// the kernel image. Before boot only; a request that fails changes
    /// nothing.
    pub fn configure_boot_source(
        &mut self,
        boot_source_cfg: BootSourceConfig,
        kernel_found: Result<(), String>,
    ) -> (r: Result<(), VmmActionError>)
        requires
            old(self).wf(),
        ensures
            final(self).wf(),
            old(self)@.is_running() ==> r == Err::<(), VmmActionError>(
                VmmActionError::OperationNotSupportedPostBoot,
            ),
            !old(self)@.is_running() ==> match r {
                Ok(()) => boot_source_error(
                    boot_source_cfg,
                    old(self)@.arch.cmdline_max_size(),
                    kernel_found,
                ) is None,
                Err(e) => boot_source_error(
                    boot_source_cfg,
                    old(self)@.arch.cmdline_max_size(),
                    kernel_found,
                ) matches Some(cause) && e == VmmActionError::BootSource(ErrorKind::User, cause),
            },
            r is Err ==> final(self)@ == old(self)@,
            r is Ok ==> final(self)@ == (VmmControllerView {
                resources: VmResourcesView {
                    boot_config: final(self)@.resources.boot_config,
                    ..old(self)@.resources
                },
                ..old(self)@
            }),
            r is Ok ==> (final(self)@.resources.boot_config matches Some(boot) && boot.cmdline@
                == crate::vmm_config::boot_source::boot_args_of(boot_source_cfg)
                && boot.kernel_image_path == boot_source_cfg.kernel_image_path),
    {
        if self.vmm.is_some() {
            return Err(VmmActionError::OperationNotSupportedPostBoot);
        }
        match self.vm_resources.set_boot_source(boot_source_cfg, self.arch, kernel_found) {
            Ok(()) => Ok(()),
            Err(e) => Err(VmmActionError::BootSource(ErrorKind::User, e)),
        }
    }

    /// Takes note of how the host's attempt to set up the logger went: where
    /// it failed, `outcome` holds the cause. Before boot only.
    pub fn configure_logger(&mut self, logger_cfg: LoggerConfig, outcome: Result<(), String>) -> (r:
        Result<(), VmmActionError>)
        requires
            old(self).wf(),
        ensures
            final(self)@ == old(self)@,
            r == (if old(self)@.is_running() {
                Err::<(), VmmActionError>(VmmActionError::OperationNotSupportedPostBoot)
            } else {
                match outcome {
                    Ok(()) => Ok(()),
                    Err(cause) => Err(
                        VmmActionError::Logger(
                            ErrorKind::User,
                            LoggerConfigError::InitializationFailure(cause),
                        ),
                    ),
                }
            }),
    {
        if self.vmm.is_some() {
            return Err(VmmActionError::OperationNotSupportedPostBoot);
        }
        match outcome {
            Ok(()) => Ok(()),
            Err(cause) => Err(
                VmmActionError::Logger(
                    ErrorKind::User,
                    LoggerConfigError::InitializationFailure(cause),
                ),
            ),
        }
    }

    /// Changes the machine configuration. Before boot only; a request that
    /// fails changes nothing.
    pub fn set_vm_configuration(&mut self, machine_config: VmConfig) -> (r: Result<
        (),
        VmmActionError,
    >)
        requires
            old(self).wf(),
        ensures
            final(self).wf(),
            old(self)@.is_running() ==> r == Err::<(), VmmActionError>(
                VmmActionError::OperationNotSupportedPostBoot,
            ),
            !old(self)@.is_running() ==> match r {
                Ok(()) => old(self)@.resources.vm_config.updated(machine_config) == Ok::<
                    VmConfig,
                    VmConfigError,
                >(final(self)@.resources.vm_config),
                Err(e) => old(self)@.resources.vm_config.updated(machine_config) matches Err(
                    cause,
                ) && e == VmmActionError::MachineConfig(ErrorKind::User, cause),
            },
            r is Err ==> final(self)@ == old(self)@,
            r is Ok ==> final(self)@ == (VmmControllerView {
                resources: VmResourcesView {
                    vm_config: final(self)@.resources.vm_config,
                    ..old(self)@.resources
                },
                ..old(self)@
            }),
    {
        if self.vmm.is_some() {
            return Err(VmmActionError::OperationNotSupportedPostBoot);
        }
        match self.vm_resources.set_vm_config(machine_config) {
            Ok(()) => Ok(()),
            Err(e) => Err(VmmActionError::from(e)),
        }
    }

    /// Adds a block device, or replaces the one with the same id.
    /// `path_exists` says whether the backing file was found on the host.
    /// Before boot only; a request that fails changes nothing.
    pub fn insert_block_device(&mut self, block_device_config: BlockDeviceConfig, path_exists: bool)
        -> (r: Result<(), VmmActionError>)
        requires
            old(self).wf(),
        ensures
            final(self).wf(),
            old(self)@.is_running() ==> r == Err::<(), VmmActionError>(
                VmmActionError::OperationNotSupportedPostBoot,
            ),
            !old(self)@.is_running() ==> match r {
                Ok(()) => insert_result(old(self)@.resources.block, block_device_config, path_exists)
                    == Ok::<Seq<BlockDeviceConfig>, DriveError>(final(self)@.resources.block),
                Err(e) => insert_result(old(self)@.resources.block, block_device_config, path_exists)
                    matches Err(cause) && e == VmmActionError::DriveConfig(ErrorKind::User, cause),
            },
            r is Err ==> final(self)@ == old(self)@,
            r is Ok ==> final(self)@ == (VmmControllerView {
                resources: VmResourcesView {
                    block: final(self)@.resources.block,
                    ..old(self)@.resources
                },
                ..old(self)@
            }),
    {
        if self.vmm.is_some() {
            return Err(VmmActionError::OperationNotSupportedPostBoot);
        }
        match self.vm_resources.insert_block_device(block_device_config, path_exists) {
            Ok(()) => Ok(()),
            Err(e) => Err(VmmActionError::from(e)),
        }
    }

    /// Adds a network interface, or replaces the one with the same id. Before
    /// boot only; a request that fails changes nothing.
    pub fn insert_net_device(&mut self, netif_config: NetworkInterfaceConfig) -> (r: Result<
        (),
        VmmActionError,
    >)
        requires
            old(self).wf(),
        ensures
            final(self).wf(),
            old(self)@.is_running() ==> r == Err::<(), VmmActionError>(
                VmmActionError::OperationNotSupportedPostBoot,
            ),
            !old(self)@.is_running() ==> match r {
                Ok(()) => net_insert_result(old(self)@.resources.network_interface, netif_config)
                    == Ok::<Seq<NetworkInterfaceConfig>, NetworkInterfaceError>(
                    final(self)@.resources.network_interface,
                ),
                Err(e) => net_insert_result(old(self)@.resources.network_interface, netif_config)
                    matches Err(cause) && e == VmmActionError::NetworkConfig(ErrorKind::User, cause),
            },
            r is Err ==> final(self)@ == old(self)@,
            r is Ok ==> final(self)@ == (VmmControllerView {
                resources: VmResourcesView {
                    network_interface: final(self)@.resources.network_interface,
                    ..old(self)@.resources
                },
                ..old(self)@
            }),
    {
        if self.vmm.is_some() {
            return Err(VmmActionError::OperationNotSupportedPostBoot);
        }
        match self.vm_resources.insert_net_device(netif_config) {
            Ok(()) => Ok(()),
            Err(e) => Err(VmmActionError::from(e)),
        }
    }

    /// Sets the vsock device; one that was set before is replaced without
    /// notice. Before boot only.
    pub fn set_vsock_device(&mut self, config: VsockDeviceConfig) -> (r: Result<(), VmmActionError>)
        requires
            old(self).wf(),
        ensures
            final(self).wf(),
            old(self)@.is_running() ==> r == Err::<(), VmmActionError>(
                VmmActionError::OperationNotSupportedPostBoot,
            ) && final(self)@ == old(self)@,
            !old(self)@.is_running() ==> r is Ok && final(self)@ == (VmmControllerView {
                resources: VmResourcesView { vsock: Some(config), ..old(self)@.resources },
                ..old(self)@
            }),
    {
        if self.vmm.is_some() {
            return Err(VmmActionError::OperationNotSupportedPostBoot);
        }
        self.vm_resources.set_vsock_device(config);
        Ok(())
    }

    /// Plans the boot of the microVM, for the host to carry out. The
    /// controller is not changed by it: the plan works on a dispatcher of its
    /// own, which takes the place of the controller's when the boot has
    /// succeeded. Once the microVM runs there is nothing to plan, and the
    /// request fails.
    pub fn plan_boot(&self, seccomp_level: u32) -> (r: Result<BootPlan, VmmActionError>)
        requires
            self.wf(),
        ensures
            match r {
                Ok(plan) => {
                    &&& !self@.is_running()
                    &&& plan.wf()
                    &&& plan.plans(self@.resources, self@.epoll, self@.arch, seccomp_level)
                },
                Err(e) => self@.is_running() && e == VmmActionError::StartMicrovm(
                    ErrorKind::User,
                    StartMicrovmError::MicroVMAlreadyRunning,
                ),
            },
    {
        if self.vmm.is_some() {
            return Err(VmmActionError::from(StartMicrovmError::MicroVMAlreadyRunning));
        }
        Ok(build_microvm(&self.vm_resources, &self.epoll_context, seccomp_level, self.arch))
    }

    /// Starts the microVM: takes in what came of the boot that `plan` laid
    /// out. `failed_step` names the first step at which the host failed, by
    /// its place among the plan's steps, with the cause; it is none where the
    /// host performed every step.
    ///
    /// Where the boot succeeded, the controller takes the machine and the
    /// dispatcher of the plan. Where the boot failed, at the host or in the
    /// plan, the controller stays as it was before the boot: no machine, and
    /// on the dispatcher no token and no handler of the boot that failed. A
    /// microVM starts once at most: where it runs already, the request fails
    /// and changes nothing.
    pub fn start_microvm(&mut self, plan: BootPlan, failed_step: Option<(usize, String)>) -> (r:
        Result<(), VmmActionError>)
        requires
            old(self).wf(),
            plan.wf(),
        ensures
            final(self).wf(),
            match r {
                Ok(()) => {
                    &&& old(self)@.start_error(plan, failed_step) is None
                    &&& final(self)@ == old(self)@.started(plan)
                    &&& final(self)@.is_running()
                },
                Err(e) => {
                    &&& old(self)@.start_error(plan, failed_step) == Some(e)
                    &&& final(self)@ == old(self)@
                },
            },
    {
        if self.vmm.is_some() {
            return Err(VmmActionError::from(StartMicrovmError::MicroVMAlreadyRunning));
        }
        match plan.finish(failed_step) {
            Ok((vmm, epoll_context)) => {
                self.vmm = Some(vmm);
                self.epoll_context = epoll_context;
                Ok(())
            },
            Err(e) => Err(e),
        }
    }

    /// Takes note of how the host's attempt to write the metrics went: where
    /// it failed, `outcome` holds the cause. Allowed before boot and after.
    pub fn flush_metrics(&mut self, outcome: Result<(), String>) -> (r: Result<(), VmmActionError>)
        ensures
            final(self)@ == old(self)@,
            r == (match outcome {
                Ok(()) => Ok::<(), VmmActionError>(()),
                Err(cause) => Err(
                    VmmActionError::Logger(
                        ErrorKind::Internal,
                        LoggerConfigError::FlushMetrics(cause),
                    ),
                ),
            }),
    {
        match outcome {
            Ok(()) => Ok(()),
            Err(cause) => Err(
                VmmActionError::Logger(ErrorKind::Internal, LoggerConfigError::FlushMetrics(cause)),
            ),
        }
    }

    /// Takes note of how the host's attempt to send CTRL+ALT+DEL through the
    /// keyboard controller went: where it failed, `outcome` holds the cause.
    /// After boot only. A failure counts as internal.
    pub fn send_ctrl_alt_del(&mut self, outcome: Result<(), String>) -> (r: Result<
        (),
        VmmActionError,
    >)
        ensures
            final(self)@ == old(self)@,
            r == (if !old(self)@.is_running() {
                Err::<(), VmmActionError>(VmmActionError::OperationNotSupportedPreBoot)
            } else {
                match outcome {
                    Ok(()) => Ok(()),
                    Err(cause) => Err(
                        VmmActionError::SendCtrlAltDel(
                            ErrorKind::Internal,
                            VmmError::I8042Error(cause),
                        ),
                    ),
                }
            }),
    {
        if self.vmm.is_none() {
            return Err(VmmActionError::OperationNotSupportedPreBoot);
        }
        match outcome {
            Ok(()) => Ok(()),
            Err(cause) => Err(
                VmmActionError::SendCtrlAltDel(ErrorKind::Internal, VmmError::I8042Error(cause)),
            ),
        }
    }

    /// What follows from the event at the place `token_index` of the
    /// dispatch table: one turn of the event loop.
    pub fn run_event_loop(&self, token_index: u64) -> (r: EventLoopStep)
        ensures
            r == event_loop_step(
                self@.epoll.token_at(token_index),
                match self@.vmm {
                    Some(vmm) => vmm@.vcpu_config.vcpu_count,
                    None => 0u8,
                },
            ),
    {
        let vcpu_count = match &self.vmm {
            Some(vmm) => vmm.vcpu_config().vcpu_count,
            None => 0,
        };
        match self.epoll_context.dispatch(token_index) {
            None => EventLoopStep { action: EventAction::Nothing, exit: None },
            Some(EpollDispatch::Exit) => EventLoopStep {
                action: EventAction::ReadExitEvent,
                exit: Some(EventLoopExitReason::Break),
            },
            Some(EpollDispatch::Stdin) => EventLoopStep {
                action: EventAction::ForwardStdin,
                exit: None,
            },
            Some(EpollDispatch::DeviceHandler(handler, event)) => EventLoopStep {
                action: EventAction::DispatchDevice { handler, event },
                exit: None,
            },
            Some(EpollDispatch::VmmActionRequest) => EventLoopStep {
                action: EventAction::Nothing,
                exit: Some(EventLoopExitReason::ControlAction),
            },
            Some(EpollDispatch::WriteMetrics) => EventLoopStep {
                action: EventAction::WriteMetrics,
                exit: None,
            },
            Some(EpollDispatch::PollyEvent) => EventLoopStep {
                action: EventAction::RunEventManager,
                exit: None,
            },
            Some(EpollDispatch::Vcpu(index)) => {
                if index < vcpu_count {
                    EventLoopStep {
                        action: EventAction::CollectVcpu(index),
                        exit: Some(EventLoopExitReason::Break),
                    }
                } else {
                    EventLoopStep { action: EventAction::Nothing, exit: None }
                }
            },
        }
    }

    /// One turn of the monitor's run: the event loop has handed control back
    /// with `exit_reason`, or has failed with the cause that `exit_reason`
    /// holds. A waiting control action is given to `external_handler`.
    /// Returns the exit code with which the monitor is to stop, or none where
    /// it is to run on.
    ///
    /// The monitor stops with the generic error code where the loop failed and
    /// with the OK code where the guest has halted; the controller is then as
    /// it was. After a control action the monitor stops only where the
    /// handler asks for it, with a code that the handler names.
    pub fn run(
        &mut self,
        exit_reason: Result<EventLoopExitReason, String>,
        external_handler: &dyn ControlEventHandler,
    ) -> (r: Option<i32>)
        requires
            old(self).wf(),
        ensures
            final(self).wf(),
            !(exit_reason matches Ok(EventLoopExitReason::ControlAction)) ==> final(self)@ == old(self)@ && r == exit_code_spec(exit_reason, Ok(())),
            exit_reason matches Ok(EventLoopExitReason::ControlAction) ==> exists|
                handled: Result<(), u8>,
            | r == #[trigger] exit_code_spec(exit_reason, handled),
    {
        match exit_reason {
            Ok(EventLoopExitReason::ControlAction) => {
                let handled = external_handler.handle_control_event(self);
                let code = exit_code(&exit_reason, handled);
                assert(code == exit_code_spec(exit_reason, handled));
                code
            },
            _ => exit_code(&exit_reason, Ok(())),
        }
    }

    /// Works out what tells the guest of the new size of the block device
    /// `drive_id`, for the host to write to the device. `probe` holds what the
    /// host found when it looked at the backing file and at the device. After
    /// boot only.
    ///
    /// A size that is no whole number of sectors calls for a warning. The
    /// warning is owed as soon as the size was read, also where the device is
    /// then not found on the bus or cannot be locked.
    pub fn rescan_block_device(&mut self, drive_id: &str, probe: DiskProbe) -> (r: Rescanned<
        BlockRescan,
    >)
        requires
            old(self).wf(),
        ensures
            final(self)@ == old(self)@,
            r.warning == old(self)@.rescan_warning(drive_id@, probe),
            match r.result {
                Ok(rescan) => old(self)@.rescan_error(drive_id@, probe) is None && old(
                    self)@.is_rescan(drive_id@, probe.size->0, rescan),
                Err(e) => old(self)@.rescan_error(drive_id@, probe) == Some(e),
            },
    {
        let vmm = match &self.vmm {
            None => {
                return Rescanned {
                    warning: None,
                    result: Err(VmmActionError::OperationNotSupportedPreBoot),
                };
            },
            Some(vmm) => vmm,
        };
        if self.vm_resources.block().get_index_of_drive_id(drive_id).is_none() {
            return Rescanned {
                warning: None,
                result: Err(VmmActionError::from(DriveError::InvalidBlockDeviceID)),
            };
        }
        let new_size = match probe.size {
            None => {
                return Rescanned {
                    warning: None,
                    result: Err(VmmActionError::from(DriveError::BlockDeviceUpdateFailed)),
                };
            },
            Some(size) => size,
        };
        let warning = if new_size % SECTOR_SIZE != 0 {
            Some(UnalignedDisk { size: new_size, sector_size: SECTOR_SIZE })
        } else {
            None
        };
        let result = match vmm.get_bus_device(DeviceType::Virtio(TYPE_BLOCK), drive_id) {
            Some(device) => {
                if probe.device_locked {
                    Ok(
                        BlockRescan {
                            device_addr: device.addr,
                            offset: MMIO_CFG_SPACE_OFF,
                            data: build_config_space(new_size),
                            interrupt: VIRTIO_MMIO_INT_CONFIG,
                        },
                    )
                } else {
                    Err(VmmActionError::from(DriveError::BlockDeviceUpdateFailed))
                }
            },
            None => Err(VmmActionError::from(DriveError::BlockDeviceUpdateFailed)),
        };
        Rescanned { warning, result }
    }

    /// The access with which the host is to open a new backing file for the
    /// block device `drive_id`: for reading always, for writing unless the
    /// device is read-only.
    pub fn block_device_open_mode(&self, drive_id: &str) -> (r: Result<OpenMode, VmmActionError>)
        requires
            self.wf(),
        ensures
            match r {
                Ok(mode) => self@.block_open_mode(drive_id@) == Some(mode),
                Err(e) => self@.block_open_mode(drive_id@) is None && e
                    == VmmActionError::DriveConfig(
                    ErrorKind::User,
                    DriveError::InvalidBlockDeviceID,
                ),
            },
    {
        match self.vm_resources.block().get_index_of_drive_id(drive_id) {
            None => Err(VmmActionError::from(DriveError::InvalidBlockDeviceID)),
            Some(index) => {
                proof {
                    crate::vmm_config::drive::lemma_drive_position(
                        self@.resources.block,
                        index as int,
                    );
                }
                Ok(self.vm_resources.block().config_list()[index].open_mode())
            },
        }
    }

    /// Gives the block device `drive_id` the backing file `path_on_host`.
    /// `probe` holds what the host found when it opened the file with the
    /// access that `block_device_open_mode` names and, once the microVM runs,
    /// when it handed the file to the running device and looked at it.
    ///
    /// Before boot only the registry changes. After boot the running device
    /// changes too, and the result holds what tells the guest of the new
    /// size, with the warning that the size calls for.
    pub fn update_block_device_path(
        &mut self,
        drive_id: String,
        path_on_host: String,
        probe: PathUpdateProbe,
    ) -> (r: Rescanned<Option<BlockRescan>>)
        requires
            old(self).wf(),
        ensures
            final(self).wf(),
            final(self)@ == (VmmControllerView {
                resources: if old(self)@.path_update_reaches_registry(drive_id@, probe) {
                    old(self)@.with_drive_path(drive_id@, path_on_host)
                } else {
                    old(self)@.resources
                },
                ..old(self)@
            }),
            r.warning == old(self)@.path_update_warning(drive_id@, probe),
            match r.result {
                Ok(rescan) => {
                    &&& old(self)@.path_update_error(drive_id@, probe) is None
                    &&& rescan is Some <==> old(self)@.is_running()
                    &&& rescan matches Some(rescan) ==> old(self)@.is_rescan(
                        drive_id@,
                        probe.rescan.size->0,
                        rescan,
                    )
                },
                Err(e) => old(self)@.path_update_error(drive_id@, probe) == Some(e),
            },
    {
        let index = match self.vm_resources.block().get_index_of_drive_id(drive_id.as_str()) {
            None => {
                return Rescanned {
                    warning: None,
                    result: Err(VmmActionError::from(DriveError::InvalidBlockDeviceID)),
                };
            },
            Some(index) => index,
        };
        proof {
            crate::vmm_config::drive::lemma_drive_position(self@.resources.block, index as int);
        }
        let PathUpdateProbe { opened, image_replaced, rescan } = probe;
        if let Err(cause) = opened {
            return Rescanned {
                warning: None,
                result: Err(VmmActionError::from(DriveError::CannotOpenBlockDevice(cause))),
            };
        }
        self.vm_resources.set_block_device_path(index, path_on_host);
        proof {
            crate::vmm_config::drive::lemma_drive_position(self@.resources.block, index as int);
        }
        if self.vmm.is_none() {
            return Rescanned { warning: None, result: Ok(None) };
        }
        if self.epoll_context.get_device_handler_by_device_id(TYPE_BLOCK, drive_id.as_str()).is_err() {
            return Rescanned {
                warning: None,
                result: Err(VmmActionError::from(DriveError::EpollHandlerNotFound)),
            };
        }
        if !image_replaced {
            return Rescanned {
                warning: None,
                result: Err(VmmActionError::from(DriveError::BlockDeviceUpdateFailed)),
            };
        }
        let rescanned = self.rescan_block_device(drive_id.as_str(), rescan);
        let Rescanned { warning, result } = rescanned;
        match result {
            Ok(rescan) => Rescanned { warning, result: Ok(Some(rescan)) },
            Err(e) => Rescanned { warning, result: Err(e) },
        }
    }

    /// Replaces rate limiters of the network interface that `new_cfg` names.
    /// A limiter or a bucket that `new_cfg` leaves out stays as it is.
    ///
    /// Before boot the registry changes. After boot the buckets of the running
    /// device are replaced in place, and the registry stays as it is.
    pub fn update_net_rate_limiters(&mut self, new_cfg: NetworkInterfaceUpdateConfig) -> (r: Result<
        (),
        VmmActionError,
    >)
        requires
            old(self).wf(),
        ensures
            final(self).wf(),
            final(self)@.arch == old(self)@.arch,
            final(self)@.vmm == old(self)@.vmm,
            r is Err ==> final(self)@ == old(self)@,
            !old(self)@.is_running() ==> final(self)@.epoll == old(self)@.epoll && match r {
                Ok(()) => net_update_result(old(self)@.resources.network_interface, new_cfg)
                    == Ok::<Seq<NetworkInterfaceConfig>, NetworkInterfaceError>(
                    final(self)@.resources.network_interface,
                ) && final(self)@.resources == (VmResourcesView {
                    network_interface: final(self)@.resources.network_interface,
                    ..old(self)@.resources
                }),
                Err(e) => net_update_result(old(self)@.resources.network_interface, new_cfg)
                    matches Err(cause) && e == VmmActionError::NetworkConfig(ErrorKind::User, cause),
            },
            old(self)@.is_running() ==> final(self)@.resources == old(self)@.resources && match r {
                Ok(()) => old(self)@.epoll.patch_error(new_cfg.iface_id@) is None && final(self)@.epoll == old(self)@.epoll.patched(
                    new_cfg.iface_id@,
                    bandwidth_bucket(new_cfg.rx_rate_limiter),
                    ops_bucket(new_cfg.rx_rate_limiter),
                    bandwidth_bucket(new_cfg.tx_rate_limiter),
                    ops_bucket(new_cfg.tx_rate_limiter),
                ),
                Err(e) => old(self)@.epoll.patch_error(new_cfg.iface_id@) matches Some(cause) && (
                e matches VmmActionError::NetworkConfig(
                    ErrorKind::Internal,
                    NetworkInterfaceError::EpollHandlerNotFound(text),
                ) && text@ == cause.message_spec()),
            },
    {
        if self.vmm.is_none() {
            return match self.vm_resources.update_net_rate_limiters(&new_cfg) {
                Ok(()) => Ok(()),
                Err(e) => Err(VmmActionError::from(e)),
            };
        }
        let patched = self.epoll_context.patch_rate_limiters(
            new_cfg.iface_id.as_str(),
            bandwidth_bucket_of(&new_cfg.rx_rate_limiter),
            ops_bucket_of(&new_cfg.rx_rate_limiter),
            bandwidth_bucket_of(&new_cfg.tx_rate_limiter),
            ops_bucket_of(&new_cfg.tx_rate_limiter),
        );
        match patched {
            Ok(()) => Ok(()),
            Err(e) => Err(
                VmmActionError::from(NetworkInterfaceError::EpollHandlerNotFound(e.message())),
            ),
        }
    }
}

} // verus!
