use vmm::builder::StartMicrovmError;
use vmm::memory_model::GuestMemoryError;
use vmm::cmdline::CmdlineError;
use vmm::controller::{ErrorKind, VmmActionError};
use vmm::device_manager::MmioError;
use vmm::epoll_context::EpollError;
use vmm::error::Error;
use vmm::vmm_config::boot_source::BootSourceConfigError;
use vmm::vmm_config::drive::DriveError;
use vmm::vmm_config::logger::LoggerConfigError;
use vmm::vmm_config::machine_config::VmConfigError;
use vmm::vmm_config::net::{MacAddr, NetworkInterfaceError, TapError};
use vmm::vmm_config::vsock::VsockError;

fn c() -> String {
    String::from("cause")
}

fn start_kind(e: StartMicrovmError) -> ErrorKind {
    match VmmActionError::from(e.clone()) {
        VmmActionError::StartMicrovm(kind, inner) => {
            assert_eq!(inner, e);
            kind
        }
        other => panic!("unexpected {:?}", other),
    }
}

fn net_kind(e: NetworkInterfaceError) -> ErrorKind {
    match VmmActionError::from(e.clone()) {
        VmmActionError::NetworkConfig(kind, inner) => {
            assert_eq!(inner, e);
            kind
        }
        other => panic!("unexpected {:?}", other),
    }
}

#[test]
fn start_errors_of_the_user() {
    assert_eq!(start_kind(StartMicrovmError::CreateVsockBackend(c())), ErrorKind::User);
    assert_eq!(start_kind(StartMicrovmError::CreateBlockDevice(c())), ErrorKind::User);
    assert_eq!(start_kind(StartMicrovmError::CreateNetDevice(c())), ErrorKind::User);
    assert_eq!(start_kind(StartMicrovmError::KernelCmdline(c())), ErrorKind::User);
    assert_eq!(start_kind(StartMicrovmError::KernelLoader(c())), ErrorKind::User);
    assert_eq!(start_kind(StartMicrovmError::MicroVMAlreadyRunning), ErrorKind::User);
    assert_eq!(start_kind(StartMicrovmError::MissingKernelConfig), ErrorKind::User);
    assert_eq!(start_kind(StartMicrovmError::NetDeviceNotConfigured), ErrorKind::User);
    assert_eq!(start_kind(StartMicrovmError::OpenBlockDevice(c())), ErrorKind::User);
}

#[test]
fn start_errors_of_the_monitor() {
    assert_eq!(start_kind(StartMicrovmError::ConfigureVm(c())), ErrorKind::Internal);
    assert_eq!(start_kind(StartMicrovmError::CreateRateLimiter(c())), ErrorKind::Internal);
    assert_eq!(start_kind(StartMicrovmError::CreateVsockDevice(c())), ErrorKind::Internal);
    assert_eq!(
        start_kind(StartMicrovmError::GuestMemory(GuestMemoryError::MemoryNotInitialized)),
        ErrorKind::Internal
    );
    assert_eq!(
        start_kind(StartMicrovmError::GuestMemory(GuestMemoryError::MemoryMappingFailed(c()))),
        ErrorKind::Internal
    );
    assert_eq!(start_kind(StartMicrovmError::Internal(Error::Other(c()))), ErrorKind::Internal);
    assert_eq!(
        start_kind(StartMicrovmError::RegisterBlockDevice(MmioError::IrqsExhausted)),
        ErrorKind::Internal
    );
    assert_eq!(
        start_kind(StartMicrovmError::RegisterNetDevice(MmioError::CreateMmioDevice(c()))),
        ErrorKind::Internal
    );
    assert_eq!(
        start_kind(StartMicrovmError::RegisterVsockDevice(MmioError::CreateMmioDevice(c()))),
        ErrorKind::Internal
    );
}

#[test]
fn a_command_line_that_cannot_be_loaded_is_the_users_fault_only_if_it_is_too_long() {
    let load = StartMicrovmError::LoadCommandline;
    assert_eq!(start_kind(load(CmdlineError::CommandLineOverflow)), ErrorKind::User);
    assert_eq!(start_kind(load(CmdlineError::CommandLineCopy)), ErrorKind::Internal);
    assert_eq!(start_kind(load(CmdlineError::InvalidAscii)), ErrorKind::Internal);
    assert_eq!(start_kind(load(CmdlineError::HasSpace)), ErrorKind::Internal);
    assert_eq!(start_kind(load(CmdlineError::HasEquals)), ErrorKind::Internal);
}

#[test]
fn cmdline_error_becomes_a_start_error() {
    assert_eq!(
        StartMicrovmError::from(CmdlineError::CommandLineOverflow),
        StartMicrovmError::KernelCmdline(String::from("Command line string is too long"))
    );
    assert_eq!(
        StartMicrovmError::from(CmdlineError::HasSpace),
        StartMicrovmError::KernelCmdline(String::from("string contains a space"))
    );
}

#[test]
fn drive_errors_are_the_users() {
    let all = vec![
        DriveError::CannotOpenBlockDevice(c()),
        DriveError::InvalidBlockDeviceID,
        DriveError::InvalidBlockDevicePath,
        DriveError::BlockDevicePathAlreadyExists,
        DriveError::EpollHandlerNotFound,
        DriveError::BlockDeviceUpdateFailed,
        DriveError::OperationNotAllowedPreBoot,
        DriveError::UpdateNotAllowedPostBoot,
        DriveError::RootBlockDeviceAlreadyAdded,
    ];
    for e in all {
        assert_eq!(
            VmmActionError::from(e.clone()),
            VmmActionError::DriveConfig(ErrorKind::User, e)
        );
    }
}

#[test]
fn machine_config_errors_are_the_users() {
    let all = vec![
        VmConfigError::InvalidVcpuCount,
        VmConfigError::InvalidMemorySize,
        VmConfigError::UpdateNotAllowedPostBoot,
    ];
    for e in all {
        assert_eq!(VmmActionError::from(e), VmmActionError::MachineConfig(ErrorKind::User, e));
    }
}

#[test]
fn network_errors_by_kind() {
    let mac = MacAddr::from_bytes([1, 2, 3, 4, 5, 6]);
    assert_eq!(net_kind(NetworkInterfaceError::GuestMacAddressInUse(mac)), ErrorKind::User);
    assert_eq!(net_kind(NetworkInterfaceError::HostDeviceNameInUse(c())), ErrorKind::User);
    assert_eq!(net_kind(NetworkInterfaceError::DeviceIdNotFound), ErrorKind::User);
    assert_eq!(net_kind(NetworkInterfaceError::UpdateNotAllowedPostBoot), ErrorKind::User);
    assert_eq!(net_kind(NetworkInterfaceError::EpollHandlerNotFound(c())), ErrorKind::Internal);
    assert_eq!(net_kind(NetworkInterfaceError::RateLimiterUpdateFailed(c())), ErrorKind::Internal);
    let tap = NetworkInterfaceError::OpenTap;
    assert_eq!(net_kind(tap(TapError::OpenTun(c()))), ErrorKind::User);
    assert_eq!(net_kind(tap(TapError::CreateTap(c()))), ErrorKind::User);
    assert_eq!(net_kind(tap(TapError::InvalidIfname)), ErrorKind::User);
    assert_eq!(net_kind(tap(TapError::IoctlError(c()))), ErrorKind::Internal);
    assert_eq!(net_kind(tap(TapError::CreateSocket(c()))), ErrorKind::Internal);
}

#[test]
fn kind_of_each_action_error() {
    let u = ErrorKind::User;
    let i = ErrorKind::Internal;
    assert_eq!(*VmmActionError::BootSource(i, BootSourceConfigError::UpdateNotAllowedPostBoot).kind(), i);
    assert_eq!(*VmmActionError::DriveConfig(u, DriveError::InvalidBlockDeviceID).kind(), u);
    assert_eq!(*VmmActionError::Logger(i, LoggerConfigError::FlushMetrics(c())).kind(), i);
    assert_eq!(*VmmActionError::MachineConfig(u, VmConfigError::InvalidVcpuCount).kind(), u);
    assert_eq!(*VmmActionError::NetworkConfig(i, NetworkInterfaceError::DeviceIdNotFound).kind(), i);
    assert_eq!(*VmmActionError::OperationNotSupportedPostBoot.kind(), u);
    assert_eq!(*VmmActionError::OperationNotSupportedPreBoot.kind(), u);
    assert_eq!(*VmmActionError::StartMicrovm(i, StartMicrovmError::MissingKernelConfig).kind(), i);
    assert_eq!(*VmmActionError::SendCtrlAltDel(i, Error::I8042Error(c())).kind(), i);
    assert_eq!(*VmmActionError::VsockConfig(u, VsockError::UpdateNotAllowedPostBoot).kind(), u);
}

#[test]
fn start_error_messages() {
    let quoted = || String::from("Os { code: 2, message: \"No such file\" }");
    assert_eq!(
        StartMicrovmError::ConfigureVm(quoted()).message(),
        "Cannot configure virtual machine. Os { code: 2, message: No such file }"
    );
    assert_eq!(
        StartMicrovmError::CreateBlockDevice(quoted()).message(),
        "Unable to seek the block device backing file due to invalid permissions or the file \
         was deleted/corrupted. Error number: Os { code: 2, message: \"No such file\" }"
    );
    assert_eq!(
        StartMicrovmError::CreateNetDevice(quoted()).message(),
        "Cannot create network device. Os { code: 2, message: No such file }"
    );
    assert_eq!(
        StartMicrovmError::CreateRateLimiter(quoted()).message(),
        "Cannot create RateLimiter: Os { code: 2, message: \"No such file\" }"
    );
    assert_eq!(
        StartMicrovmError::CreateVsockBackend(c()).message(),
        "Cannot create backend for vsock device: cause"
    );
    assert_eq!(
        StartMicrovmError::CreateVsockDevice(c()).message(),
        "Cannot create vsock device: cause"
    );
    assert_eq!(
        StartMicrovmError::GuestMemory(GuestMemoryError::MemoryNotInitialized).message(),
        "Invalid Memory Configuration: MemoryNotInitialized"
    );
    assert_eq!(
        StartMicrovmError::GuestMemory(GuestMemoryError::MemoryMappingFailed(quoted())).message(),
        "Invalid Memory Configuration: MemoryMappingFailed(Os { code: 2, message: No such file })"
    );
    assert_eq!(
        StartMicrovmError::Internal(Error::KernelFile(quoted())).message(),
        "Internal error while starting microVM: KernelFile(Os { code: 2, message: \"No such file\" })"
    );
    assert_eq!(
        StartMicrovmError::KernelCmdline(String::from("x")).message(),
        "Invalid kernel command line: x"
    );
    assert_eq!(
        StartMicrovmError::from(CmdlineError::HasSpace).message(),
        "Invalid kernel command line: string contains a space"
    );
    assert_eq!(
        StartMicrovmError::KernelLoader(quoted()).message(),
        "Cannot load kernel due to invalid memory configuration or invalid kernel image. \
         Os { code: 2, message: No such file }"
    );
    assert_eq!(
        StartMicrovmError::LoadCommandline(CmdlineError::CommandLineOverflow).message(),
        "Cannot load command line string. Command line string is too long"
    );
    assert_eq!(StartMicrovmError::MicroVMAlreadyRunning.message(), "Microvm already running.");
    assert_eq!(
        StartMicrovmError::MissingKernelConfig.message(),
        "Cannot start microvm without kernel configuration."
    );
    assert_eq!(
        StartMicrovmError::NetDeviceNotConfigured.message(),
        "The net device configuration is missing the tap device."
    );
    assert_eq!(
        StartMicrovmError::OpenBlockDevice(quoted()).message(),
        "Cannot open the block device backing file. Os { code: 2, message: No such file }"
    );
    assert_eq!(
        StartMicrovmError::RegisterBlockDevice(MmioError::BusError(String::from("\"overlap\""))).message(),
        "Cannot initialize a MMIO Block Device or add a device to the MMIO Bus. \
         failed to perform bus operation: overlap"
    );
    assert_eq!(
        StartMicrovmError::RegisterNetDevice(MmioError::IrqsExhausted).message(),
        "Cannot initialize a MMIO Network Device or add a device to the MMIO Bus. \
         no more IRQs are available"
    );
    assert_eq!(
        StartMicrovmError::RegisterVsockDevice(MmioError::CreateMmioDevice(c())).message(),
        "Cannot initialize a MMIO Vsock Device or add a device to the MMIO Bus. \
         failed to create mmio device: cause"
    );
}

#[test]
fn action_error_messages() {
    let u = ErrorKind::User;
    assert_eq!(
        VmmActionError::OperationNotSupportedPostBoot.message(),
        "The requested operation is not supported after starting the microVM."
    );
    assert_eq!(
        VmmActionError::OperationNotSupportedPreBoot.message(),
        "The requested operation is not supported before starting the microVM."
    );
    assert_eq!(
        VmmActionError::StartMicrovm(u, StartMicrovmError::MicroVMAlreadyRunning).message(),
        "Microvm already running."
    );
    assert_eq!(
        VmmActionError::DriveConfig(u, DriveError::InvalidBlockDeviceID).message(),
        "Invalid block device ID!"
    );
    assert_eq!(
        VmmActionError::BootSource(u, BootSourceConfigError::InvalidKernelPath(c())).message(),
        "The kernel file cannot be opened: cause"
    );
    assert_eq!(
        VmmActionError::Logger(u, LoggerConfigError::InitializationFailure(c())).message(),
        "cause"
    );
    assert_eq!(
        VmmActionError::MachineConfig(u, VmConfigError::InvalidMemorySize).message(),
        "The memory size (MiB) is invalid."
    );
    assert_eq!(
        VmmActionError::NetworkConfig(u, NetworkInterfaceError::DeviceIdNotFound).message(),
        "Invalid interface ID - not found."
    );
    assert_eq!(
        VmmActionError::SendCtrlAltDel(ErrorKind::Internal, Error::I8042Error(c())).message(),
        "I8042Error(cause)"
    );
    assert_eq!(
        VmmActionError::VsockConfig(u, VsockError::UpdateNotAllowedPostBoot).message(),
        "The update operation is not allowed after boot."
    );
}

#[test]
fn configuration_error_messages() {
    assert_eq!(
        DriveError::CannotOpenBlockDevice(c()).message(),
        "Cannot open block device. Invalid permission/path: cause"
    );
    assert_eq!(DriveError::InvalidBlockDevicePath.message(), "Invalid block device path!");
    assert_eq!(
        DriveError::BlockDevicePathAlreadyExists.message(),
        "The block device path was already added to a different drive!"
    );
    assert_eq!(DriveError::EpollHandlerNotFound.message(), "Error retrieving device epoll handler!");
    assert_eq!(DriveError::BlockDeviceUpdateFailed.message(), "The update operation failed!");
    assert_eq!(DriveError::OperationNotAllowedPreBoot.message(), "Operation not allowed pre-boot!");
    assert_eq!(
        DriveError::UpdateNotAllowedPostBoot.message(),
        "The update operation is not allowed after boot."
    );
    assert_eq!(
        DriveError::RootBlockDeviceAlreadyAdded.message(),
        "A root block device already exists!"
    );
    assert_eq!(
        VmConfigError::InvalidVcpuCount.message(),
        "The vCPU number is invalid! The vCPU number can only be 1 or an even number when \
         hyperthreading is enabled."
    );
    assert_eq!(
        VmConfigError::UpdateNotAllowedPostBoot.message(),
        "The update operation is not allowed after boot."
    );
    assert_eq!(
        BootSourceConfigError::InvalidKernelCommandLine(CmdlineError::InvalidAscii).message(),
        "The kernel command line is invalid: string contains non-printable ASCII character"
    );
    assert_eq!(
        BootSourceConfigError::UpdateNotAllowedPostBoot.message(),
        "The update operation is not allowed after boot."
    );
    assert_eq!(LoggerConfigError::FlushMetrics(c()).message(), "cause");
}

#[test]
fn network_error_messages() {
    let mac = MacAddr::from_bytes([0x12, 0x34, 0x56, 0x78, 0x9a, 0xbc]);
    assert_eq!(
        NetworkInterfaceError::GuestMacAddressInUse(mac).message(),
        "The guest MAC address 12:34:56:78:9a:bc is already in use."
    );
    assert_eq!(
        NetworkInterfaceError::HostDeviceNameInUse(String::from("tap0")).message(),
        "The host device name tap0 is already in use."
    );
    assert_eq!(
        NetworkInterfaceError::UpdateNotAllowedPostBoot.message(),
        "The update operation is not allowed after boot."
    );
    assert_eq!(
        NetworkInterfaceError::EpollHandlerNotFound(c()).message(),
        "Event handler not found: cause"
    );
    assert_eq!(
        NetworkInterfaceError::RateLimiterUpdateFailed(c()).message(),
        "Failed to update the rate limiters: cause"
    );
    assert_eq!(
        NetworkInterfaceError::OpenTap(TapError::InvalidIfname).message(),
        "Cannot open TAP device. Invalid interface name"
    );
    assert_eq!(TapError::OpenTun(c()).message(), "Couldn't open /dev/net/tun: cause");
    assert_eq!(TapError::CreateTap(c()).message(), "Unable to create tap interface: cause");
    assert_eq!(TapError::IoctlError(c()).message(), "Failed to configure the tap interface: cause");
    assert_eq!(
        TapError::CreateSocket(c()).message(),
        "Unable to create a socket for the tap interface: cause"
    );
}

#[test]
fn internal_error_messages() {
    assert_eq!(Error::CreateLegacyDevice(c()).message(), "CreateLegacyDevice(cause)");
    assert_eq!(Error::DeviceEventHandlerNotFound.message(), "DeviceEventHandlerNotFound");
    assert_eq!(Error::EventManager(c()).message(), "EventManager(cause)");
    assert_eq!(Error::I8042Error(c()).message(), "I8042Error(cause)");
    assert_eq!(Error::KernelFile(c()).message(), "KernelFile(cause)");
    assert_eq!(Error::KvmContext(c()).message(), "KvmContext(cause)");
    assert_eq!(Error::TimerFd(c()).message(), "TimerFd(cause)");
    assert_eq!(Error::Vm(c()).message(), "Vm(cause)");
    assert_eq!(Error::Other(c()).message(), "cause");
    assert_eq!(GuestMemoryError::MemoryNotInitialized.message(), "MemoryNotInitialized");
    assert_eq!(
        GuestMemoryError::MemoryMappingFailed(c()).message(),
        "MemoryMappingFailed(cause)"
    );
    assert_eq!(GuestMemoryError::MemoryRegionOverlap.message(), "MemoryRegionOverlap");
    assert_eq!(GuestMemoryError::NoMemoryRegions.message(), "NoMemoryRegions");
    assert_eq!(
        GuestMemoryError::InvalidGuestAddress(4096).message(),
        "InvalidGuestAddress(4096)"
    );
    assert_eq!(
        GuestMemoryError::InvalidGuestAddressRange(4096, 17).message(),
        "InvalidGuestAddressRange(4096, 17)"
    );
    assert_eq!(EpollError::DeviceEventHandlerNotFound.message(), "DeviceEventHandlerNotFound");
    assert_eq!(
        EpollError::DeviceEventHandlerInvalidDowncast.message(),
        "DeviceEventHandlerInvalidDowncast"
    );
}

#[test]
fn mmio_error_messages() {
    assert_eq!(MmioError::BusError(c()).message(), "failed to perform bus operation: cause");
    assert_eq!(
        MmioError::Cmdline(CmdlineError::CommandLineOverflow).message(),
        "unable to add device to kernel command line: Command line string is too long"
    );
    assert_eq!(MmioError::CreateMmioDevice(c()).message(), "failed to create mmio device: cause");
    assert_eq!(MmioError::IrqsExhausted.message(), "no more IRQs are available");
    assert_eq!(MmioError::RegisterIoEvent(c()).message(), "failed to register IO event: cause");
    assert_eq!(MmioError::RegisterIrqFd(c()).message(), "failed to register irqfd: cause");
    assert_eq!(MmioError::UpdateFailed.message(), "failed to update the mmio device");
}
