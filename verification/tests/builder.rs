use vmm::arch::{Arch, MemoryRegion};
use vmm::builder::{
    attach_block_devices, attach_net_devices, attach_vsock_device, build_microvm,
    create_guest_memory, host_failure, metrics_timer_setting, vcpu_config, BootDraft, BootPlan,
    BootStep, DeviceRef, StartMicrovmError, TimerSetting, VcpuConfig,
};
use vmm::memory_model::GuestMemoryError;
use vmm::cmdline::CmdlineError;
use vmm::controller::{ErrorKind, VmmActionError};
use vmm::device_manager::{DeviceType, MmioDeviceInfo, MmioError};
use vmm::epoll_context::{DeviceHandler, EpollContext, EpollDispatch};
use vmm::error::Error;
use vmm::resources::VmResources;
use vmm::vmm_config::boot_source::{BootSourceConfig, DEFAULT_KERNEL_CMDLINE};
use vmm::vmm_config::drive::{BlockDeviceConfig, OpenMode};
use vmm::vmm_config::machine_config::VmConfig;
use vmm::vmm_config::net::NetworkInterfaceConfig;
use vmm::vmm_config::rate_limiter::{
    RateLimiter, RateLimiterConfig, TokenBucket, TokenBucketConfig,
};
use vmm::vmm_config::vsock::VsockDeviceConfig;

fn resources(arch: Arch, boot_args: Option<&str>) -> VmResources {
    let mut res = VmResources::new();
    let cfg = BootSourceConfig {
        kernel_image_path: String::from("/vmlinux"),
        boot_args: boot_args.map(String::from),
    };
    assert!(res.set_boot_source(cfg, arch, Ok(())).is_ok());
    res
}

fn block(id: &str, root: bool, partuuid: Option<&str>, read_only: bool) -> BlockDeviceConfig {
    BlockDeviceConfig {
        drive_id: String::from(id),
        path_on_host: format!("/images/{}", id),
        is_root_device: root,
        partuuid: partuuid.map(String::from),
        is_read_only: read_only,
        rate_limiter: None,
    }
}

fn net(id: &str, host: &str) -> NetworkInterfaceConfig {
    NetworkInterfaceConfig {
        iface_id: String::from(id),
        host_dev_name: String::from(host),
        guest_mac: None,
        rx_rate_limiter: None,
        tx_rate_limiter: None,
        allow_mmds_requests: false,
    }
}

fn plan_for(res: &VmResources, arch: Arch) -> BootPlan {
    build_microvm(res, &EpollContext::new(), 0, arch)
}

fn cmdline_of(plan: &BootPlan) -> String {
    String::from(plan.vmm().unwrap().kernel_cmdline().as_str())
}

fn open(index: usize, write: bool) -> BootStep {
    BootStep::OpenBlockFile(index, OpenMode { read: true, write })
}

fn overflow() -> StartMicrovmError {
    StartMicrovmError::KernelCmdline(String::from("Command line string is too long"))
}

fn x86_64_machine_steps() -> Vec<BootStep> {
    vec![
        BootStep::CaptureBootTimestamp,
        BootStep::CreateGuestMemory,
        BootStep::CloneKernelFile,
        BootStep::LoadKernel,
        BootStep::CreateMetricsTimer,
        BootStep::CreateEventManager,
        BootStep::OpenKvm,
        BootStep::CreateVm,
        BootStep::InitVmMemory,
        BootStep::CreateLegacyDeviceManager,
        BootStep::SetupInterruptController,
        BootStep::AttachLegacyDevices,
        BootStep::CreateVcpus,
    ]
}

fn last_steps() -> Vec<BootStep> {
    vec![
        BootStep::ConfigureSystem,
        BootStep::RegisterEvents,
        BootStep::StartVcpus,
        BootStep::ArmMetricsTimer,
        BootStep::LogMetrics,
    ]
}

fn registration(device: DeviceRef) -> Vec<BootStep> {
    vec![
        BootStep::CreateMmioTransport(device),
        BootStep::RegisterIoEvents(device),
        BootStep::RegisterIrqFd(device),
        BootStep::InsertOnBus(device),
    ]
}

#[test]
fn root_without_partuuid() {
    let mut res = resources(Arch::X86_64, None);
    assert!(res.insert_block_device(block("root", true, None, false), true).is_ok());
    let plan = plan_for(&res, Arch::X86_64);
    assert_eq!(plan.failure(), None);
    assert!(cmdline_of(&plan).contains("root=/dev/vda rw"));
    assert_eq!(
        cmdline_of(&plan),
        format!("{} root=/dev/vda rw virtio_mmio.device=4K@0xd0000000:5", DEFAULT_KERNEL_CMDLINE)
    );
}

#[test]
fn root_with_partuuid() {
    let mut res = resources(Arch::X86_64, None);
    assert!(res.insert_block_device(block("root", true, Some("0eaa91a0-01"), false), true).is_ok());
    let plan = plan_for(&res, Arch::X86_64);
    assert_eq!(plan.failure(), None);
    assert!(cmdline_of(&plan).contains("root=PARTUUID=0eaa91a0-01 rw"));
    assert!(!cmdline_of(&plan).contains("root=/dev/vda"));
    assert_eq!(
        cmdline_of(&plan),
        format!(
            "{} root=PARTUUID=0eaa91a0-01 rw virtio_mmio.device=4K@0xd0000000:5",
            DEFAULT_KERNEL_CMDLINE
        )
    );
}

#[test]
fn read_only_root() {
    let mut res = resources(Arch::X86_64, None);
    assert!(res.insert_block_device(block("root", true, None, true), true).is_ok());
    let plan = plan_for(&res, Arch::X86_64);
    assert_eq!(plan.failure(), None);
    assert!(cmdline_of(&plan).contains("root=/dev/vda ro"));
}

#[test]
fn read_only_root_with_partuuid() {
    let mut res = resources(Arch::X86_64, Some("quiet"));
    assert!(res.insert_block_device(block("root", true, Some("0eaa91a0-01"), true), true).is_ok());
    let plan = plan_for(&res, Arch::X86_64);
    assert_eq!(
        cmdline_of(&plan),
        "quiet root=PARTUUID=0eaa91a0-01 ro virtio_mmio.device=4K@0xd0000000:5"
    );
}

#[test]
fn no_root() {
    let mut res = resources(Arch::X86_64, None);
    assert!(res
        .insert_block_device(block("not_root", false, Some("0eaa91a0-01"), false), true)
        .is_ok());
    let plan = plan_for(&res, Arch::X86_64);
    assert_eq!(plan.failure(), None);
    assert!(!cmdline_of(&plan).contains("root=PARTUUID="));
    assert!(!cmdline_of(&plan).contains("root=/dev/vda"));
    assert_eq!(
        cmdline_of(&plan),
        format!("{} virtio_mmio.device=4K@0xd0000000:5", DEFAULT_KERNEL_CMDLINE)
    );
}

#[test]
fn steps_of_a_machine_with_one_block_device_on_x86_64() {
    let mut res = resources(Arch::X86_64, None);
    assert!(res.insert_block_device(block("root", true, None, false), true).is_ok());
    let plan = plan_for(&res, Arch::X86_64);
    let mut expected = x86_64_machine_steps();
    expected.push(open(0, true));
    expected.push(BootStep::CreateBlockDevice(0));
    expected.extend(registration(DeviceRef::Block(0)));
    expected.push(BootStep::WriteCmdline);
    expected.extend(last_steps());
    assert_eq!(plan.steps(), &expected);
}

#[test]
fn steps_of_a_machine_without_devices_on_aarch64() {
    let res = resources(Arch::Aarch64, None);
    let plan = plan_for(&res, Arch::Aarch64);
    let mut expected = vec![
        BootStep::CaptureBootTimestamp,
        BootStep::CreateGuestMemory,
        BootStep::CloneKernelFile,
        BootStep::LoadKernel,
        BootStep::CreateMetricsTimer,
        BootStep::CreateEventManager,
        BootStep::OpenKvm,
        BootStep::CreateVm,
        BootStep::InitVmMemory,
        BootStep::CreateVcpus,
        BootStep::SetupInterruptController,
        BootStep::AttachLegacyDevices,
    ];
    expected.extend(last_steps());
    assert_eq!(plan.steps(), &expected);
    assert_eq!(plan.failure(), None);
    assert_eq!(cmdline_of(&plan), DEFAULT_KERNEL_CMDLINE);
}

#[test]
fn devices_are_not_announced_on_the_command_line_on_aarch64() {
    let mut res = resources(Arch::Aarch64, Some("quiet"));
    assert!(res.insert_block_device(block("root", true, None, false), true).is_ok());
    assert!(res.insert_net_device(net("eth0", "tap0")).is_ok());
    let plan = plan_for(&res, Arch::Aarch64);
    assert_eq!(plan.failure(), None);
    assert_eq!(cmdline_of(&plan), "quiet root=/dev/vda rw");
    let vmm = plan.vmm().unwrap();
    assert_eq!(
        vmm.mmio_device_manager().devices(),
        &vec![
            MmioDeviceInfo {
                type_id: 2,
                device_id: String::from("root"),
                addr: 0x4000_0000,
                len: 0x1000,
                irq: 32,
            },
            MmioDeviceInfo {
                type_id: 1,
                device_id: String::from("eth0"),
                addr: 0x4000_1000,
                len: 0x1000,
                irq: 33,
            },
        ]
    );
    assert!(!plan.steps().contains(&BootStep::WriteCmdline));
}

#[test]
fn devices_are_attached_in_order_blocks_nets_vsock() {
    let mut res = resources(Arch::X86_64, Some("quiet"));
    let mut limited = block("data", false, None, true);
    limited.rate_limiter = Some(RateLimiterConfig::default());
    assert!(res.insert_block_device(limited, true).is_ok());
    assert!(res.insert_block_device(block("root", true, None, false), true).is_ok());
    let mut eth0 = net("eth0", "tap0");
    eth0.rx_rate_limiter = Some(RateLimiterConfig::default());
    assert!(res.insert_net_device(eth0).is_ok());
    let mut eth1 = net("eth1", "tap1");
    eth1.tx_rate_limiter = Some(RateLimiterConfig::default());
    assert!(res.insert_net_device(eth1).is_ok());
    res.set_vsock_device(VsockDeviceConfig {
        vsock_id: String::from("vsock"),
        guest_cid: 3,
        uds_path: String::from("/tmp/v.sock"),
    });
    let plan = plan_for(&res, Arch::X86_64);
    assert_eq!(plan.failure(), None);

    let mut expected = x86_64_machine_steps();
    // The root device went to the front of the list.
    expected.push(open(0, true));
    expected.push(BootStep::CreateBlockDevice(0));
    expected.extend(registration(DeviceRef::Block(0)));
    // The second device is read-only: its file is opened without write access.
    expected.push(open(1, false));
    expected.push(BootStep::CreateBlockRateLimiter(1));
    expected.push(BootStep::CreateBlockDevice(1));
    expected.extend(registration(DeviceRef::Block(1)));
    expected.push(BootStep::CreateNetRxRateLimiter(0));
    expected.push(BootStep::OpenTap(0));
    expected.push(BootStep::CreateNetDevice(0));
    expected.extend(registration(DeviceRef::Net(0)));
    expected.push(BootStep::CreateNetTxRateLimiter(1));
    expected.push(BootStep::OpenTap(1));
    expected.push(BootStep::CreateNetDevice(1));
    expected.extend(registration(DeviceRef::Net(1)));
    expected.push(BootStep::CreateVsockBackend(3));
    expected.push(BootStep::CreateVsockDevice(3));
    expected.extend(registration(DeviceRef::Vsock));
    expected.push(BootStep::WriteCmdline);
    expected.extend(last_steps());
    assert_eq!(plan.steps(), &expected);

    assert_eq!(
        cmdline_of(&plan),
        "quiet root=/dev/vda rw \
         virtio_mmio.device=4K@0xd0000000:5 virtio_mmio.device=4K@0xd0001000:6 \
         virtio_mmio.device=4K@0xd0002000:7 virtio_mmio.device=4K@0xd0003000:8 \
         virtio_mmio.device=4K@0xd0004000:9"
    );
    let vmm = plan.vmm().unwrap();
    let ids: Vec<(u32, &str)> = vmm
        .mmio_device_manager()
        .devices()
        .iter()
        .map(|d| (d.type_id, d.device_id.as_str()))
        .collect();
    assert_eq!(ids, vec![(2, "root"), (2, "data"), (1, "eth0"), (1, "eth1"), (19, "vsock")]);
    assert_eq!(
        vmm.get_bus_device(DeviceType::Virtio(1), "eth1").map(|d| (d.addr, d.irq)),
        Some((0xd000_3000, 8))
    );
    assert!(vmm.get_bus_device(DeviceType::Virtio(2), "eth1").is_none());
    assert!(vmm.get_bus_device(DeviceType::Serial, "root").is_none());
    assert!(vmm.get_bus_device(DeviceType::RTC, "root").is_none());
}

#[test]
fn the_dispatcher_gets_the_tokens_of_a_boot() {
    let mut res = resources(Arch::X86_64, None);
    let update = VmConfig { vcpu_count: Some(2), mem_size_mib: None, ht_enabled: None, cpu_template: None };
    assert!(res.set_vm_config(update).is_ok());
    assert!(res.insert_block_device(block("root", true, None, false), true).is_ok());
    let mut eth0 = net("eth0", "tap0");
    eth0.rx_rate_limiter = Some(RateLimiterConfig {
        bandwidth: Some(TokenBucketConfig { size: 10, one_time_burst: Some(1), refill_time: 5 }),
        ops: None,
    });
    assert!(res.insert_net_device(eth0).is_ok());
    let before = EpollContext::new();
    let plan = build_microvm(&res, &before, 2, Arch::X86_64);
    // The dispatcher that was handed in is as it was; the plan has its own.
    assert_eq!(before.dispatch(0), None);
    assert_eq!(before.dispatch(1), None);
    assert!(before.device_handlers().is_empty());
    let epoll = plan.epoll_context();
    assert_eq!(plan.failure(), None);
    let mut table = Vec::new();
    let mut i = 0;
    while i < 13 {
        table.push(epoll.dispatch(i));
        i += 1;
    }
    assert_eq!(
        table,
        vec![
            Some(EpollDispatch::Stdin),
            Some(EpollDispatch::WriteMetrics),
            Some(EpollDispatch::PollyEvent),
            Some(EpollDispatch::DeviceHandler(0, 0)),
            Some(EpollDispatch::DeviceHandler(0, 1)),
            Some(EpollDispatch::DeviceHandler(1, 0)),
            Some(EpollDispatch::DeviceHandler(1, 1)),
            Some(EpollDispatch::DeviceHandler(1, 2)),
            Some(EpollDispatch::DeviceHandler(1, 3)),
            Some(EpollDispatch::DeviceHandler(1, 4)),
            Some(EpollDispatch::Exit),
            Some(EpollDispatch::Vcpu(0)),
            Some(EpollDispatch::Vcpu(1)),
        ]
    );
    assert_eq!(epoll.dispatch(13), None);
    let handlers = epoll.device_handlers();
    assert_eq!(handlers.len(), 2);
    assert_eq!((handlers[0].type_id, handlers[0].device_id.as_str()), (2, "root"));
    assert_eq!(handlers[0].first_token, 3);
    assert_eq!(handlers[0].handler, DeviceHandler::Block);
    assert_eq!((handlers[1].type_id, handlers[1].device_id.as_str()), (1, "eth0"));
    assert_eq!(handlers[1].first_token, 5);
    assert_eq!(
        handlers[1].handler,
        DeviceHandler::Net {
            rx_rate_limiter: RateLimiter {
                bandwidth: Some(TokenBucket { size: 10, one_time_burst: Some(1), refill_time: 5 }),
                ops: None,
            },
            tx_rate_limiter: RateLimiter { bandwidth: None, ops: None },
        }
    );
    let vmm = plan.vmm().unwrap();
    assert_eq!(vmm.seccomp_level(), 2);
    assert_eq!(vmm.arch(), Arch::X86_64);
    assert_eq!(
        vmm.vcpu_config(),
        VcpuConfig { vcpu_count: 2, ht_enabled: false, cpu_template: None }
    );
    assert_eq!(
        vmm.guest_memory().regions(),
        &vec![MemoryRegion { guest_base: 0, size: 128 << 20 }]
    );
}

#[test]
fn without_a_boot_source_nothing_is_asked_of_the_host() {
    let res = VmResources::new();
    let plan = build_microvm(&res, &EpollContext::new(), 0, Arch::X86_64);
    assert_eq!(plan.failure(), Some(&StartMicrovmError::MissingKernelConfig));
    assert!(plan.steps().is_empty());
    assert!(plan.vmm().is_none());
    assert_eq!(plan.epoll_context().dispatch(1), None);
    assert_eq!(
        plan.finish(None).err(),
        Some(VmmActionError::StartMicrovm(ErrorKind::User, StartMicrovmError::MissingKernelConfig))
    );
}

#[test]
fn without_a_memory_size_only_the_time_is_taken() {
    let sizing = VmConfig {
        vcpu_count: Some(1),
        mem_size_mib: None,
        ht_enabled: Some(false),
        cpu_template: None,
    };
    let mut res = VmResources::with_vm_config(sizing).unwrap();
    let cfg = BootSourceConfig { kernel_image_path: String::from("/vmlinux"), boot_args: None };
    assert!(res.set_boot_source(cfg, Arch::X86_64, Ok(())).is_ok());
    assert_eq!(
        create_guest_memory(&res, Arch::X86_64).err(),
        Some(StartMicrovmError::GuestMemory(GuestMemoryError::MemoryNotInitialized))
    );
    let plan = plan_for(&res, Arch::X86_64);
    assert_eq!(plan.failure(), Some(&StartMicrovmError::GuestMemory(GuestMemoryError::MemoryNotInitialized))
    );
    assert_eq!(plan.steps(), &vec![BootStep::CaptureBootTimestamp]);
    assert!(plan.vmm().is_none());
    assert_eq!(
        plan.finish(None).err(),
        Some(VmmActionError::StartMicrovm(
            ErrorKind::Internal,
            StartMicrovmError::GuestMemory(GuestMemoryError::MemoryNotInitialized)
        ))
    );
}

#[test]
fn guest_memory_follows_the_memory_size() {
    let mut res = VmResources::new();
    let update = VmConfig { vcpu_count: None, mem_size_mib: Some(4096), ht_enabled: None, cpu_template: None };
    assert!(res.set_vm_config(update).is_ok());
    assert_eq!(
        create_guest_memory(&res, Arch::X86_64).ok().unwrap().regions(),
        &vec![
            MemoryRegion { guest_base: 0, size: 0xd000_0000 },
            MemoryRegion { guest_base: 0x1_0000_0000, size: 0x3000_0000 },
        ]
    );
    assert_eq!(
        create_guest_memory(&res, Arch::Aarch64).ok().unwrap().regions(),
        &vec![MemoryRegion { guest_base: 0x8000_0000, size: 4096 << 20 }]
    );
    // The largest size that a machine configuration takes still has a layout.
    let update = VmConfig {
        vcpu_count: None,
        mem_size_mib: Some(0xfff_ffff_fcff),
        ht_enabled: None,
        cpu_template: None,
    };
    assert!(res.set_vm_config(update).is_ok());
    let memory = create_guest_memory(&res, Arch::X86_64).ok().unwrap();
    assert_eq!(memory.end_addr(), u64::MAX - 0xf_ffff);
    let update = VmConfig {
        vcpu_count: None,
        mem_size_mib: Some(0xfff_ffff_fd00),
        ht_enabled: None,
        cpu_template: None,
    };
    assert_eq!(
        res.set_vm_config(update),
        Err(vmm::vmm_config::machine_config::VmConfigError::InvalidMemorySize)
    );
}

#[test]
fn vcpu_config_follows_the_machine_configuration() {
    let mut res = VmResources::new();
    assert_eq!(
        vcpu_config(&res),
        VcpuConfig { vcpu_count: 1, ht_enabled: false, cpu_template: None }
    );
    let update = VmConfig {
        vcpu_count: Some(8),
        mem_size_mib: None,
        ht_enabled: Some(true),
        cpu_template: Some(vmm::vmm_config::machine_config::CpuFeaturesTemplate::C3),
    };
    assert!(res.set_vm_config(update).is_ok());
    assert_eq!(
        vcpu_config(&res),
        VcpuConfig {
            vcpu_count: 8,
            ht_enabled: true,
            cpu_template: Some(vmm::vmm_config::machine_config::CpuFeaturesTemplate::C3),
        }
    );
}

#[test]
fn the_metrics_timer_fires_every_minute() {
    assert_eq!(metrics_timer_setting(), TimerSetting { current_secs: 60, interval_secs: 60 });
}

#[test]
fn cmdline_overflow() {
    let mut cl = vmm::cmdline::Cmdline::new(4096);
    assert!(cl.insert_str(&"x".repeat(4095)).is_ok());
    assert_eq!(cl.len(), cl.capacity() - 1);
    let e = cl.insert_str("ab").err().unwrap();
    assert_eq!(e, CmdlineError::CommandLineOverflow);
    assert_eq!(cl.len(), 4095);
    let action_error = VmmActionError::from(StartMicrovmError::from(e));
    assert_eq!(
        action_error,
        VmmActionError::StartMicrovm(
            ErrorKind::User,
            overflow()
        )
    );
    assert_eq!(*action_error.kind(), ErrorKind::User);
    assert_eq!(
        *VmmActionError::from(StartMicrovmError::LoadCommandline(e)).kind(),
        ErrorKind::User
    );
}

#[test]
fn cmdline_overflow_on_the_root_fragment() {
    // The line is one byte below its capacity; even the shortest fragment needs two.
    let mut res = resources(Arch::X86_64, Some(&"x".repeat(4095)));
    assert!(res.insert_block_device(block("root", true, None, false), true).is_ok());
    let plan = plan_for(&res, Arch::X86_64);
    assert_eq!(plan.failure(), Some(&overflow())
    );
    // The failure comes before the host is asked to open the backing file.
    assert_eq!(plan.steps(), &x86_64_machine_steps());
    assert_eq!(cmdline_of(&plan), "x".repeat(4095));
    assert_eq!(
        plan.finish(None).err(),
        Some(VmmActionError::StartMicrovm(
            ErrorKind::User,
            overflow()
        ))
    );
}

#[test]
fn cmdline_overflow_on_the_root_flags() {
    // There is room for " root=/dev/vda" but not for " rw" as well.
    let mut res = resources(Arch::X86_64, Some(&"x".repeat(4096 - 14 - 2)));
    assert!(res.insert_block_device(block("root", true, None, false), true).is_ok());
    let plan = plan_for(&res, Arch::X86_64);
    assert_eq!(plan.failure(), Some(&overflow())
    );
    assert_eq!(cmdline_of(&plan), format!("{} root=/dev/vda", "x".repeat(4096 - 16)));
}

#[test]
fn cmdline_overflow_on_the_partuuid_comes_after_the_file_is_opened() {
    let mut res = resources(Arch::X86_64, Some(&"x".repeat(4090)));
    assert!(res.insert_block_device(block("root", true, Some("0eaa91a0-01"), false), true).is_ok());
    let plan = plan_for(&res, Arch::X86_64);
    assert_eq!(plan.failure(), Some(&overflow())
    );
    let mut expected = x86_64_machine_steps();
    expected.push(open(0, true));
    assert_eq!(plan.steps(), &expected);
}

#[test]
fn a_selector_that_does_not_fit_at_a_later_device_leaves_whole_fragments() {
    let boot_args = "x".repeat(4096 - 35 - 10);
    let mut res = resources(Arch::X86_64, Some(&boot_args));
    assert!(res.insert_block_device(block("a", false, None, false), true).is_ok());
    assert!(res.insert_block_device(block("b", false, None, false), true).is_ok());
    assert!(res.insert_block_device(block("c", false, None, false), true).is_ok());
    // The second device becomes the root where it stands, with a partition id.
    assert!(res
        .insert_block_device(block("b", true, Some("0eaa91a0-01"), false), true)
        .is_ok());
    let plan = plan_for(&res, Arch::X86_64);
    assert_eq!(plan.failure(), Some(&overflow()));
    // The line holds the announcement of the first device, whole, and
    // nothing of the selector that did not fit.
    assert_eq!(
        cmdline_of(&plan),
        format!("{} virtio_mmio.device=4K@0xd0000000:5", boot_args)
    );
    assert!(cmdline_of(&plan).len() <= 4096);
    // No device is registered after the failure.
    let vmm = plan.vmm().unwrap();
    assert_eq!(vmm.mmio_device_manager().devices().len(), 1);
    assert_eq!(vmm.mmio_device_manager().devices()[0].device_id, "a");
    // The host is asked to open the second file, and for nothing beyond.
    assert_eq!(plan.steps().last(), Some(&open(1, true)));
}

#[test]
fn a_flag_that_does_not_fit_leaves_the_selector_whole() {
    // Room for " root=PARTUUID=0eaa91a0-01" but not for " rw" as well.
    let boot_args = "x".repeat(4096 - 26 - 2);
    let mut res = resources(Arch::X86_64, Some(&boot_args));
    assert!(res
        .insert_block_device(block("root", true, Some("0eaa91a0-01"), false), true)
        .is_ok());
    let plan = plan_for(&res, Arch::X86_64);
    assert_eq!(plan.failure(), Some(&overflow()));
    assert_eq!(cmdline_of(&plan), format!("{} root=PARTUUID=0eaa91a0-01", boot_args));
    assert!(plan.vmm().unwrap().mmio_device_manager().devices().is_empty());
}

#[test]
fn a_vsock_backend_that_cannot_be_made_ends_the_boot() {
    let mut res = resources(Arch::X86_64, Some("quiet"));
    res.set_vsock_device(VsockDeviceConfig {
        vsock_id: String::from("vsock"),
        guest_cid: 42,
        uds_path: String::from("/tmp/v.sock"),
    });
    let before = EpollContext::new();
    let plan = build_microvm(&res, &before, 0, Arch::X86_64);
    let at = plan.steps().iter().position(|s| *s == BootStep::CreateVsockBackend(42)).unwrap();
    assert_eq!(plan.steps()[at + 1], BootStep::CreateVsockDevice(42));
    assert_eq!(
        plan.finish(Some((at, String::from("bind failed")))).err(),
        Some(VmmActionError::StartMicrovm(
            ErrorKind::User,
            StartMicrovmError::CreateVsockBackend(String::from("bind failed"))
        ))
    );
    // Nothing is handed out, and the dispatcher from before holds no token.
    assert!(before.device_handlers().is_empty());
    assert_eq!(before.dispatch(1), None);
}

#[test]
fn a_partuuid_that_cannot_stand_on_the_command_line() {
    let mut res = resources(Arch::X86_64, None);
    assert!(res.insert_block_device(block("root", true, Some("bad\nuuid"), false), true).is_ok());
    let plan = plan_for(&res, Arch::X86_64);
    assert_eq!(plan.failure(), Some(&StartMicrovmError::KernelCmdline(String::from(
            "string contains non-printable ASCII character"
        ))));
}

#[test]
fn cmdline_overflow_on_the_announcement_of_a_device() {
    let mut res = resources(Arch::X86_64, Some(&"x".repeat(4090)));
    assert!(res.insert_block_device(block("data", false, None, false), true).is_ok());
    let plan = plan_for(&res, Arch::X86_64);
    assert_eq!(plan.failure(), Some(&StartMicrovmError::RegisterBlockDevice(MmioError::Cmdline(
            CmdlineError::CommandLineOverflow
        )))
    );
    // The host has put the device on the bus by then.
    let mut expected = x86_64_machine_steps();
    expected.push(open(0, true));
    expected.push(BootStep::CreateBlockDevice(0));
    expected.extend(registration(DeviceRef::Block(0)));
    assert_eq!(plan.steps(), &expected);
    assert!(plan.vmm().unwrap().mmio_device_manager().devices().is_empty());
    assert_eq!(
        plan.finish(None).err().map(|e| *e.kind()),
        Some(ErrorKind::Internal)
    );
}

#[test]
fn the_interrupt_lines_run_out() {
    let mut res = resources(Arch::X86_64, Some("quiet"));
    let mut i = 0;
    while i < 12 {
        assert!(res.insert_block_device(block(&format!("d{}", i), false, None, false), true).is_ok());
        i += 1;
    }
    let plan = plan_for(&res, Arch::X86_64);
    assert_eq!(plan.failure(), Some(&StartMicrovmError::RegisterBlockDevice(MmioError::IrqsExhausted))
    );
    let vmm = plan.vmm().unwrap();
    assert_eq!(vmm.mmio_device_manager().devices().len(), 11);
    assert_eq!(vmm.mmio_device_manager().devices()[10].irq, 15);
    assert_eq!(vmm.mmio_device_manager().devices()[10].addr, 0xd000_a000);
    assert!(!vmm.mmio_device_manager().has_free_irq());
    // For the twelfth device the host is not asked to register anything.
    assert_eq!(plan.steps().last(), Some(&BootStep::CreateMmioTransport(DeviceRef::Block(11))));
    assert!(!plan.steps().contains(&BootStep::RegisterIoEvents(DeviceRef::Block(11))));
    assert!(plan.steps().contains(&BootStep::InsertOnBus(DeviceRef::Block(10))));
}

#[test]
fn attach_block_devices_on_its_own() {
    let mut res = resources(Arch::X86_64, Some("quiet"));
    let plan = plan_for(&res, Arch::X86_64);
    let vmm = plan.finish(None).ok().unwrap().0;
    assert!(res.insert_block_device(block("root", true, None, true), true).is_ok());
    let mut draft = BootDraft::new(vmm, &EpollContext::new());
    assert_eq!(attach_block_devices(&mut draft, &res), Ok(()));
    let (vmm, steps, epoll) = (draft.vmm(), draft.steps(), draft.epoll_context());
    assert_eq!(vmm.kernel_cmdline().as_str(), "quiet root=/dev/vda ro virtio_mmio.device=4K@0xd0000000:5");
    assert_eq!(steps[0], open(0, false));
    assert_eq!(steps.len(), 6);
    assert_eq!(epoll.dispatch(2), Some(EpollDispatch::DeviceHandler(0, 1)));
}

#[test]
fn attach_net_and_vsock_devices_on_their_own() {
    let mut res = resources(Arch::X86_64, Some("quiet"));
    let plan = plan_for(&res, Arch::X86_64);
    let vmm = plan.finish(None).ok().unwrap().0;
    assert!(res.insert_net_device(net("eth0", "tap0")).is_ok());
    res.set_vsock_device(VsockDeviceConfig {
        vsock_id: String::from("vsock"),
        guest_cid: 3,
        uds_path: String::from("/tmp/v.sock"),
    });
    let mut draft = BootDraft::new(vmm, &EpollContext::new());
    assert_eq!(attach_net_devices(&mut draft, &res), Ok(()));
    let mut expected = vec![BootStep::OpenTap(0), BootStep::CreateNetDevice(0)];
    expected.extend(registration(DeviceRef::Net(0)));
    assert_eq!(draft.steps(), &expected);
    assert_eq!(attach_vsock_device(&mut draft, &res), Ok(()));
    expected.push(BootStep::CreateVsockBackend(3));
    expected.push(BootStep::CreateVsockDevice(3));
    expected.extend(registration(DeviceRef::Vsock));
    assert_eq!(draft.steps(), &expected);
    let (vmm, epoll) = (draft.vmm(), draft.epoll_context());
    assert_eq!(
        vmm.kernel_cmdline().as_str(),
        "quiet virtio_mmio.device=4K@0xd0000000:5 virtio_mmio.device=4K@0xd0001000:6"
    );
    assert_eq!(epoll.dispatch(6), Some(EpollDispatch::DeviceHandler(1, 0)));
    assert_eq!(epoll.dispatch(9), Some(EpollDispatch::DeviceHandler(1, 3)));
    assert_eq!(epoll.dispatch(10), None);
    assert_eq!(epoll.device_handlers()[1].handler, DeviceHandler::Vsock);
}

#[test]
fn what_was_acquired_is_released_in_reverse_order() {
    let res = resources(Arch::Aarch64, Some("quiet"));
    let plan = plan_for(&res, Arch::Aarch64);
    assert_eq!(plan.unwind_steps(0), vec![]);
    assert_eq!(
        plan.unwind_steps(3),
        vec![BootStep::CloneKernelFile, BootStep::CreateGuestMemory, BootStep::CaptureBootTimestamp]
    );
    let mut all = plan.steps().clone();
    all.reverse();
    assert_eq!(plan.unwind_steps(plan.steps().len()), all);
    assert_eq!(plan.unwind_steps(usize::MAX), all);
}

#[test]
fn a_boot_without_failure_hands_out_the_machine() {
    let res = resources(Arch::X86_64, Some("quiet"));
    let plan = plan_for(&res, Arch::X86_64);
    let vmm = plan.finish(None).ok().unwrap().0;
    assert_eq!(vmm.kernel_cmdline().as_str(), "quiet");
}

#[test]
fn a_failure_of_the_host_ends_the_boot() {
    let res = resources(Arch::X86_64, Some("quiet"));
    let plan = plan_for(&res, Arch::X86_64);
    assert_eq!(plan.steps()[3], BootStep::LoadKernel);
    assert_eq!(
        plan.finish(Some((3, String::from("bad \"image\"")))).err(),
        Some(VmmActionError::StartMicrovm(
            ErrorKind::User,
            StartMicrovmError::KernelLoader(String::from("bad \"image\""))
        ))
    );
}

#[test]
fn a_failure_of_the_host_takes_precedence_over_a_failure_of_the_plan() {
    let mut res = resources(Arch::X86_64, Some("quiet"));
    let mut i = 0;
    while i < 12 {
        assert!(res.insert_block_device(block(&format!("d{}", i), false, None, false), true).is_ok());
        i += 1;
    }
    let plan = plan_for(&res, Arch::X86_64);
    assert!(plan.failure().is_some());
    assert_eq!(plan.steps()[13], open(0, true));
    assert_eq!(
        plan.finish(Some((13, String::from("denied")))).err(),
        Some(VmmActionError::StartMicrovm(
            ErrorKind::User,
            StartMicrovmError::OpenBlockDevice(String::from("denied"))
        ))
    );
}

#[test]
fn a_failure_that_the_boot_passes_over() {
    let res = resources(Arch::X86_64, Some("quiet"));
    let plan = plan_for(&res, Arch::X86_64);
    let last = plan.steps().len() - 1;
    assert_eq!(plan.steps()[last], BootStep::LogMetrics);
    assert!(plan.finish(Some((last, String::from("no logger")))).is_ok());
}

#[test]
fn a_failure_at_a_step_that_the_plan_does_not_have() {
    let res = resources(Arch::X86_64, Some("quiet"));
    let plan = plan_for(&res, Arch::X86_64);
    let beyond = plan.steps().len();
    assert_eq!(
        plan.finish(Some((beyond, String::from("what")))).err(),
        Some(VmmActionError::StartMicrovm(
            ErrorKind::Internal,
            StartMicrovmError::Internal(Error::Other(String::from("what")))
        ))
    );
}

#[test]
fn host_failures_by_step() {
    let c = || String::from("cause");
    let internal = |e| Some(StartMicrovmError::Internal(e));
    assert_eq!(host_failure(BootStep::CaptureBootTimestamp, c()), None);
    assert_eq!(host_failure(BootStep::ArmMetricsTimer, c()), None);
    assert_eq!(host_failure(BootStep::LogMetrics, c()), None);
    assert_eq!(
        host_failure(BootStep::CreateGuestMemory, c()),
        Some(StartMicrovmError::GuestMemory(GuestMemoryError::MemoryMappingFailed(c())))
    );
    assert_eq!(host_failure(BootStep::CloneKernelFile, c()), internal(Error::KernelFile(c())));
    assert_eq!(host_failure(BootStep::LoadKernel, c()), Some(StartMicrovmError::KernelLoader(c())));
    assert_eq!(host_failure(BootStep::CreateMetricsTimer, c()), internal(Error::TimerFd(c())));
    assert_eq!(host_failure(BootStep::CreateEventManager, c()), internal(Error::EventManager(c())));
    assert_eq!(host_failure(BootStep::OpenKvm, c()), internal(Error::KvmContext(c())));
    assert_eq!(host_failure(BootStep::CreateVm, c()), internal(Error::Vm(c())));
    assert_eq!(host_failure(BootStep::InitVmMemory, c()), Some(StartMicrovmError::ConfigureVm(c())));
    assert_eq!(
        host_failure(BootStep::CreateLegacyDeviceManager, c()),
        internal(Error::CreateLegacyDevice(c()))
    );
    assert_eq!(host_failure(BootStep::SetupInterruptController, c()), internal(Error::Other(c())));
    assert_eq!(host_failure(BootStep::AttachLegacyDevices, c()), internal(Error::Other(c())));
    assert_eq!(host_failure(BootStep::CreateVcpus, c()), internal(Error::Other(c())));
    assert_eq!(host_failure(BootStep::ConfigureSystem, c()), internal(Error::Other(c())));
    assert_eq!(host_failure(BootStep::RegisterEvents, c()), internal(Error::Other(c())));
    assert_eq!(host_failure(BootStep::StartVcpus, c()), internal(Error::Other(c())));
    assert_eq!(
        host_failure(open(0, true), c()),
        Some(StartMicrovmError::OpenBlockDevice(c()))
    );
    assert_eq!(
        host_failure(BootStep::CreateBlockRateLimiter(0), c()),
        Some(StartMicrovmError::CreateRateLimiter(c()))
    );
    assert_eq!(
        host_failure(BootStep::CreateNetRxRateLimiter(1), c()),
        Some(StartMicrovmError::CreateRateLimiter(c()))
    );
    assert_eq!(
        host_failure(BootStep::CreateNetTxRateLimiter(2), c()),
        Some(StartMicrovmError::CreateRateLimiter(c()))
    );
    assert_eq!(
        host_failure(BootStep::CreateBlockDevice(0), c()),
        Some(StartMicrovmError::CreateBlockDevice(c()))
    );
    assert_eq!(host_failure(BootStep::OpenTap(0), c()), Some(StartMicrovmError::NetDeviceNotConfigured));
    assert_eq!(
        host_failure(BootStep::CreateNetDevice(0), c()),
        Some(StartMicrovmError::CreateNetDevice(c()))
    );
    assert_eq!(
        host_failure(BootStep::CreateVsockBackend(3), c()),
        Some(StartMicrovmError::CreateVsockBackend(c()))
    );
    assert_eq!(
        host_failure(BootStep::CreateVsockDevice(3), c()),
        Some(StartMicrovmError::CreateVsockDevice(c()))
    );
    assert_eq!(
        host_failure(BootStep::CreateMmioTransport(DeviceRef::Block(0)), c()),
        Some(StartMicrovmError::RegisterBlockDevice(MmioError::CreateMmioDevice(c())))
    );
    assert_eq!(
        host_failure(BootStep::CreateMmioTransport(DeviceRef::Net(0)), c()),
        Some(StartMicrovmError::RegisterNetDevice(MmioError::CreateMmioDevice(c())))
    );
    assert_eq!(
        host_failure(BootStep::CreateMmioTransport(DeviceRef::Vsock), c()),
        Some(StartMicrovmError::RegisterVsockDevice(MmioError::CreateMmioDevice(c())))
    );
    // At the last stage of its registration every device fails as a block device does.
    assert_eq!(
        host_failure(BootStep::RegisterIoEvents(DeviceRef::Net(0)), c()),
        Some(StartMicrovmError::RegisterBlockDevice(MmioError::RegisterIoEvent(c())))
    );
    assert_eq!(
        host_failure(BootStep::RegisterIrqFd(DeviceRef::Vsock), c()),
        Some(StartMicrovmError::RegisterBlockDevice(MmioError::RegisterIrqFd(c())))
    );
    assert_eq!(
        host_failure(BootStep::InsertOnBus(DeviceRef::Block(3)), c()),
        Some(StartMicrovmError::RegisterBlockDevice(MmioError::BusError(c())))
    );
    assert_eq!(
        host_failure(BootStep::WriteCmdline, c()),
        Some(StartMicrovmError::LoadCommandline(CmdlineError::CommandLineCopy))
    );
}

#[test]
fn a_failed_boot_leaves_the_registry_as_it_was() {
    let mut res = resources(Arch::X86_64, Some("quiet"));
    assert!(res.insert_block_device(block("root", true, None, false), true).is_ok());
    let plan = plan_for(&res, Arch::X86_64);
    assert!(plan.finish(Some((1, String::from("no memory")))).is_err());
    assert_eq!(res.boot_source().unwrap().cmdline.as_str(), "quiet");
    assert_eq!(res.block().len(), 1);
}
