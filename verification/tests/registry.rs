use vmm::arch::Arch;
use vmm::cmdline::CmdlineError;
use vmm::resources::VmResources;
use vmm::vmm_config::boot_source::{
    BootConfig, BootSourceConfig, BootSourceConfigError, DEFAULT_KERNEL_CMDLINE,
};
use vmm::vmm_config::drive::{BlockDeviceConfig, BlockDeviceConfigs, DriveError};
use vmm::vmm_config::machine_config::{CpuFeaturesTemplate, VmConfig, VmConfigError};
use vmm::vmm_config::net::{
    MacAddr, NetworkInterfaceConfig, NetworkInterfaceConfigs, NetworkInterfaceError,
    NetworkInterfaceUpdateConfig,
};
use vmm::vmm_config::rate_limiter::{
    RateLimiter, RateLimiterConfig, TokenBucket, TokenBucketConfig,
};
use vmm::vmm_config::vsock::VsockDeviceConfig;

fn drive(id: &str, path: &str, root: bool) -> BlockDeviceConfig {
    BlockDeviceConfig {
        drive_id: String::from(id),
        path_on_host: String::from(path),
        is_root_device: root,
        partuuid: None,
        is_read_only: false,
        rate_limiter: None,
    }
}

fn iface(id: &str, host: &str, mac: Option<[u8; 6]>) -> NetworkInterfaceConfig {
    NetworkInterfaceConfig {
        iface_id: String::from(id),
        host_dev_name: String::from(host),
        guest_mac: mac.map(MacAddr::from_bytes),
        rx_rate_limiter: None,
        tx_rate_limiter: None,
        allow_mmds_requests: false,
    }
}

fn bucket(size: u64) -> TokenBucketConfig {
    TokenBucketConfig { size, one_time_burst: None, refill_time: 100 }
}

#[test]
fn insert_block_device_adds_and_replaces() {
    let mut blocks = BlockDeviceConfigs::new();
    let root = drive("root", "/tmp/root.img", true);
    assert!(blocks.insert(root.clone(), true).is_ok());
    assert!(blocks.config_list().contains(&root));

    // The same id again: the device is replaced where it stands.
    let mut changed = drive("root", "/tmp/root.img", true);
    changed.is_read_only = true;
    assert!(blocks.insert(changed.clone(), true).is_ok());
    assert_eq!(blocks.len(), 1);
    assert_eq!(blocks.config_list()[0], changed);

    // A second drive on the same path fails.
    assert_eq!(
        blocks.insert(drive("dummy_dev", "/tmp/root.img", false), true),
        Err(DriveError::BlockDevicePathAlreadyExists)
    );

    // A second drive on a path of its own is fine.
    assert!(blocks.insert(drive("non_root", "/tmp/other.img", false), true).is_ok());
    assert_eq!(blocks.len(), 2);

    // Making the second drive a root device fails: there would be two.
    assert_eq!(
        blocks.insert(drive("non_root", "/tmp/other.img", true), true),
        Err(DriveError::RootBlockDeviceAlreadyAdded)
    );
    assert_eq!(blocks.config_list()[1], drive("non_root", "/tmp/other.img", false));
}

#[test]
fn duplicate_drive_id_updates_in_place() {
    let mut blocks = BlockDeviceConfigs::new();
    assert!(blocks.insert(drive("a", "/a", false), true).is_ok());
    assert!(blocks.insert(drive("b", "/b", false), true).is_ok());
    assert!(blocks.insert(drive("c", "/c", false), true).is_ok());
    let mut new_b = drive("b", "/b2", false);
    new_b.is_read_only = true;
    new_b.partuuid = Some(String::from("0eaa91a0-01"));
    assert!(blocks.insert(new_b.clone(), true).is_ok());
    assert_eq!(blocks.len(), 3);
    assert_eq!(
        blocks.config_list(),
        &vec![drive("a", "/a", false), new_b, drive("c", "/c", false)]
    );
    assert_eq!(blocks.get_index_of_drive_id("b"), Some(1));
}

#[test]
fn a_new_root_device_goes_to_the_front() {
    let mut blocks = BlockDeviceConfigs::new();
    assert!(blocks.insert(drive("a", "/a", false), true).is_ok());
    assert!(blocks.insert(drive("b", "/b", false), true).is_ok());
    assert!(!blocks.has_root_block_device());
    assert!(blocks.insert(drive("r", "/r", true), true).is_ok());
    assert_eq!(
        blocks.config_list(),
        &vec![drive("r", "/r", true), drive("a", "/a", false), drive("b", "/b", false)]
    );
    assert!(blocks.has_root_block_device());
    assert_eq!(
        blocks.insert(drive("r2", "/r2", true), true),
        Err(DriveError::RootBlockDeviceAlreadyAdded)
    );
    assert_eq!(blocks.len(), 3);
}

#[test]
fn a_root_device_may_be_replaced_by_a_root_device() {
    let mut blocks = BlockDeviceConfigs::new();
    assert!(blocks.insert(drive("r", "/r", true), true).is_ok());
    assert!(blocks.insert(drive("r", "/r-new", true), true).is_ok());
    assert_eq!(blocks.config_list(), &vec![drive("r", "/r-new", true)]);
    // And by one that is no root device; then another may become root.
    assert!(blocks.insert(drive("r", "/r-new", false), true).is_ok());
    assert!(!blocks.has_root_block_device());
    assert!(blocks.insert(drive("s", "/s", true), true).is_ok());
    assert_eq!(blocks.get_index_of_drive_id("s"), Some(0));
}

#[test]
fn a_drive_whose_file_is_missing_is_refused() {
    let mut blocks = BlockDeviceConfigs::new();
    assert_eq!(
        blocks.insert(drive("a", "/nowhere", false), false),
        Err(DriveError::InvalidBlockDevicePath)
    );
    assert_eq!(blocks.len(), 0);
    assert!(blocks.insert(drive("a", "/a", false), true).is_ok());
    assert_eq!(
        blocks.insert(drive("a", "/nowhere", false), false),
        Err(DriveError::InvalidBlockDevicePath)
    );
    assert_eq!(blocks.config_list(), &vec![drive("a", "/a", false)]);
}

#[test]
fn root_flags_of_a_block_list() {
    let mut blocks = BlockDeviceConfigs::new();
    assert!(!blocks.has_root_block_device());
    assert!(!blocks.has_partuuid_root());
    assert!(!blocks.has_read_only_root());
    let mut data = drive("data", "/d", false);
    data.partuuid = Some(String::from("0eaa91a0-02"));
    data.is_read_only = true;
    assert!(blocks.insert(data, true).is_ok());
    assert!(!blocks.has_root_block_device());
    assert!(!blocks.has_partuuid_root());
    assert!(!blocks.has_read_only_root());
    let mut root = drive("root", "/r", true);
    root.partuuid = Some(String::from("0eaa91a0-01"));
    assert!(blocks.insert(root, true).is_ok());
    assert!(blocks.has_root_block_device());
    assert!(blocks.has_partuuid_root());
    assert!(!blocks.has_read_only_root());
    let mut root = drive("root", "/r", true);
    root.is_read_only = true;
    assert!(blocks.insert(root, true).is_ok());
    assert!(!blocks.has_partuuid_root());
    assert!(blocks.has_read_only_root());
}

#[test]
fn block_list_lookups() {
    let mut blocks = BlockDeviceConfigs::new();
    assert!(blocks.insert(drive("a", "/a", false), true).is_ok());
    assert!(blocks.insert(drive("b", "/b", false), true).is_ok());
    assert_eq!(blocks.get_index_of_drive_id("a"), Some(0));
    assert_eq!(blocks.get_index_of_drive_id("b"), Some(1));
    assert_eq!(blocks.get_index_of_drive_id("c"), None);
    assert_eq!(blocks.get_index_of_drive_id(""), None);
    assert!(blocks.contains_drive_path("/a"));
    assert!(!blocks.contains_drive_path("/c"));
    blocks.set_path(1, String::from("/c"));
    assert!(blocks.contains_drive_path("/c"));
    assert!(!blocks.contains_drive_path("/b"));
    assert_eq!(blocks.config_list()[1], drive("b", "/c", false));
}

#[test]
fn block_device_config_getters() {
    let mut cfg = drive("a", "/a", true);
    assert!(!cfg.is_read_only());
    assert_eq!(cfg.get_partuuid(), None);
    cfg.is_read_only = true;
    cfg.partuuid = Some(String::from("0eaa91a0-01"));
    assert!(cfg.is_read_only());
    assert_eq!(cfg.get_partuuid(), Some(&String::from("0eaa91a0-01")));
}

#[test]
fn insert_network_device_adds_and_replaces() {
    let mut nets = NetworkInterfaceConfigs::new();
    let a = iface("a", "tap0", Some([1, 2, 3, 4, 5, 6]));
    assert!(nets.insert(a.clone()).is_ok());
    let b = iface("b", "tap1", Some([1, 2, 3, 4, 5, 7]));
    assert!(nets.insert(b.clone()).is_ok());
    assert_eq!(nets.if_list(), &vec![a.clone(), b.clone()]);

    let mut new_a = iface("a", "tap2", Some([9, 9, 9, 9, 9, 9]));
    new_a.allow_mmds_requests = true;
    assert!(nets.insert(new_a.clone()).is_ok());
    assert_eq!(nets.len(), 2);
    assert_eq!(nets.if_list(), &vec![new_a, b]);
    assert_eq!(nets.get_index_of_iface_id("b"), Some(1));
    assert_eq!(nets.get_index_of_iface_id("c"), None);
}

#[test]
fn guest_macs_are_unique() {
    let mut nets = NetworkInterfaceConfigs::new();
    assert!(nets.insert(iface("a", "tap0", Some([1, 2, 3, 4, 5, 6]))).is_ok());
    assert_eq!(
        nets.insert(iface("b", "tap1", Some([1, 2, 3, 4, 5, 6]))),
        Err(NetworkInterfaceError::GuestMacAddressInUse(MacAddr::from_bytes([1, 2, 3, 4, 5, 6])))
    );
    assert_eq!(nets.len(), 1);
    // Interfaces without a fixed address never clash.
    assert!(nets.insert(iface("b", "tap1", None)).is_ok());
    assert!(nets.insert(iface("c", "tap2", None)).is_ok());
    // An interface may keep its own address when it is replaced.
    assert!(nets.insert(iface("a", "tap0", Some([1, 2, 3, 4, 5, 6]))).is_ok());
    // But it may not take another interface's.
    assert!(nets.insert(iface("d", "tap3", Some([6, 5, 4, 3, 2, 1]))).is_ok());
    assert_eq!(
        nets.insert(iface("a", "tap0", Some([6, 5, 4, 3, 2, 1]))),
        Err(NetworkInterfaceError::GuestMacAddressInUse(MacAddr::from_bytes([6, 5, 4, 3, 2, 1])))
    );
    assert_eq!(nets.if_list()[0], iface("a", "tap0", Some([1, 2, 3, 4, 5, 6])));
}

#[test]
fn host_tap_names_are_unique() {
    let mut nets = NetworkInterfaceConfigs::new();
    assert!(nets.insert(iface("a", "tap0", None)).is_ok());
    assert_eq!(
        nets.insert(iface("b", "tap0", None)),
        Err(NetworkInterfaceError::HostDeviceNameInUse(String::from("tap0")))
    );
    assert!(nets.insert(iface("b", "tap1", None)).is_ok());
    assert_eq!(
        nets.insert(iface("a", "tap1", None)),
        Err(NetworkInterfaceError::HostDeviceNameInUse(String::from("tap1")))
    );
    assert!(nets.insert(iface("a", "tap0", Some([1, 1, 1, 1, 1, 1]))).is_ok());
    assert_eq!(nets.len(), 2);
}

#[test]
fn a_clash_of_addresses_is_found_before_a_clash_of_tap_names() {
    let mut nets = NetworkInterfaceConfigs::new();
    assert!(nets.insert(iface("a", "tap0", Some([1, 2, 3, 4, 5, 6]))).is_ok());
    assert_eq!(
        nets.insert(iface("b", "tap0", Some([1, 2, 3, 4, 5, 6]))),
        Err(NetworkInterfaceError::GuestMacAddressInUse(MacAddr::from_bytes([1, 2, 3, 4, 5, 6])))
    );
}

#[test]
fn rate_limiters_of_an_interface_are_laid_over() {
    let mut nets = NetworkInterfaceConfigs::new();
    let mut a = iface("a", "tap0", None);
    a.rx_rate_limiter = Some(RateLimiterConfig { bandwidth: Some(bucket(10)), ops: Some(bucket(20)) });
    assert!(nets.insert(a).is_ok());
    let update = NetworkInterfaceUpdateConfig {
        iface_id: String::from("a"),
        rx_rate_limiter: Some(RateLimiterConfig { bandwidth: None, ops: Some(bucket(21)) }),
        tx_rate_limiter: Some(RateLimiterConfig { bandwidth: Some(bucket(30)), ops: None }),
    };
    assert!(nets.update_rate_limiters(&update).is_ok());
    assert_eq!(
        nets.if_list()[0].rx_rate_limiter,
        Some(RateLimiterConfig { bandwidth: Some(bucket(10)), ops: Some(bucket(21)) })
    );
    assert_eq!(
        nets.if_list()[0].tx_rate_limiter,
        Some(RateLimiterConfig { bandwidth: Some(bucket(30)), ops: None })
    );
    let nothing = NetworkInterfaceUpdateConfig {
        iface_id: String::from("a"),
        rx_rate_limiter: None,
        tx_rate_limiter: None,
    };
    assert!(nets.update_rate_limiters(&nothing).is_ok());
    assert_eq!(
        nets.if_list()[0].tx_rate_limiter,
        Some(RateLimiterConfig { bandwidth: Some(bucket(30)), ops: None })
    );
    let unknown = NetworkInterfaceUpdateConfig {
        iface_id: String::from("b"),
        rx_rate_limiter: None,
        tx_rate_limiter: None,
    };
    assert_eq!(nets.update_rate_limiters(&unknown), Err(NetworkInterfaceError::DeviceIdNotFound));
}

#[test]
fn network_interface_getters() {
    let mut a = iface("a", "tap0", Some([0x12, 0x34, 0x56, 0x78, 0x9a, 0xbc]));
    assert_eq!(a.guest_mac(), Some(MacAddr::from_bytes([0x12, 0x34, 0x56, 0x78, 0x9a, 0xbc])));
    assert!(!a.allow_mmds_requests());
    a.allow_mmds_requests = true;
    a.guest_mac = None;
    assert!(a.allow_mmds_requests());
    assert_eq!(a.guest_mac(), None);
}

#[test]
fn mac_address_as_bytes_and_as_text() {
    let mac = MacAddr::from_bytes([0x12, 0x34, 0x56, 0x78, 0x9a, 0xbc]);
    assert_eq!(mac.get_bytes(), [0x12, 0x34, 0x56, 0x78, 0x9a, 0xbc]);
    assert_eq!(mac.text(), "12:34:56:78:9a:bc");
    assert_eq!(MacAddr::from_bytes([0, 1, 0x0a, 0xff, 0x10, 0]).text(), "00:01:0a:ff:10:00");
    assert_ne!(mac, MacAddr::from_bytes([0x12, 0x34, 0x56, 0x78, 0x9a, 0xbd]));
}

#[test]
fn rate_limiter_config_update_and_conversion() {
    let mut cfg = RateLimiterConfig { bandwidth: Some(bucket(1)), ops: None };
    cfg.update(&RateLimiterConfig { bandwidth: None, ops: Some(bucket(2)) });
    assert_eq!(cfg, RateLimiterConfig { bandwidth: Some(bucket(1)), ops: Some(bucket(2)) });
    cfg.update(&RateLimiterConfig { bandwidth: Some(bucket(3)), ops: None });
    assert_eq!(cfg, RateLimiterConfig { bandwidth: Some(bucket(3)), ops: Some(bucket(2)) });

    let with_burst = TokenBucketConfig { size: 7, one_time_burst: Some(9), refill_time: 11 };
    assert_eq!(
        with_burst.into_token_bucket(),
        TokenBucket { size: 7, one_time_burst: Some(9), refill_time: 11 }
    );
    assert_eq!(
        RateLimiterConfig { bandwidth: Some(with_burst), ops: None }.into_rate_limiter(),
        RateLimiter {
            bandwidth: Some(TokenBucket { size: 7, one_time_burst: Some(9), refill_time: 11 }),
            ops: None,
        }
    );
    assert_eq!(RateLimiter::unlimited(), RateLimiter { bandwidth: None, ops: None });
}

#[test]
fn rate_limiter_buckets_are_replaced_one_by_one() {
    let b = |size| TokenBucket { size, one_time_burst: None, refill_time: 1 };
    let mut limiter = RateLimiter { bandwidth: Some(b(1)), ops: None };
    limiter.update_buckets(None, Some(b(2)));
    assert_eq!(limiter, RateLimiter { bandwidth: Some(b(1)), ops: Some(b(2)) });
    limiter.update_buckets(Some(b(3)), None);
    assert_eq!(limiter, RateLimiter { bandwidth: Some(b(3)), ops: Some(b(2)) });
    limiter.update_buckets(None, None);
    assert_eq!(limiter, RateLimiter { bandwidth: Some(b(3)), ops: Some(b(2)) });
}

#[test]
fn vm_config_defaults() {
    let res = VmResources::new();
    assert_eq!(
        res.vm_config(),
        &VmConfig {
            vcpu_count: Some(1),
            mem_size_mib: Some(128),
            ht_enabled: Some(false),
            cpu_template: None,
        }
    );
    assert_eq!(VmConfig::default(), *res.vm_config());
    assert!(res.boot_source().is_none());
    assert_eq!(res.block().len(), 0);
    assert_eq!(res.network_interface().len(), 0);
    assert!(res.vsock().is_none());
}

#[test]
fn vm_config_updates_keep_what_is_left_out() {
    let mut res = VmResources::new();
    let update =
        VmConfig { vcpu_count: Some(4), mem_size_mib: None, ht_enabled: None, cpu_template: None };
    assert!(res.set_vm_config(update).is_ok());
    assert_eq!(
        res.vm_config(),
        &VmConfig {
            vcpu_count: Some(4),
            mem_size_mib: Some(128),
            ht_enabled: Some(false),
            cpu_template: None,
        }
    );
    let update = VmConfig {
        vcpu_count: None,
        mem_size_mib: Some(256),
        ht_enabled: Some(true),
        cpu_template: Some(CpuFeaturesTemplate::T2),
    };
    assert!(res.set_vm_config(update).is_ok());
    assert_eq!(
        res.vm_config(),
        &VmConfig {
            vcpu_count: Some(4),
            mem_size_mib: Some(256),
            ht_enabled: Some(true),
            cpu_template: Some(CpuFeaturesTemplate::T2),
        }
    );
}

#[test]
fn vm_config_refuses_bad_sizing() {
    let mut res = VmResources::new();
    let before = *res.vm_config();
    let vcpus = |n| VmConfig { vcpu_count: Some(n), mem_size_mib: None, ht_enabled: None, cpu_template: None };
    assert_eq!(res.set_vm_config(vcpus(0)), Err(VmConfigError::InvalidVcpuCount));
    assert_eq!(res.set_vm_config(vcpus(33)), Err(VmConfigError::InvalidVcpuCount));
    assert!(res.set_vm_config(vcpus(32)).is_ok());
    assert!(res.set_vm_config(vcpus(1)).is_ok());
    let mem = |m| VmConfig { vcpu_count: None, mem_size_mib: Some(m), ht_enabled: None, cpu_template: None };
    assert_eq!(res.set_vm_config(mem(0)), Err(VmConfigError::InvalidMemorySize));
    assert_eq!(res.vm_config(), &before);
    // An odd number of vCPUs, other than one, does not go with hyperthreading.
    let odd_ht = VmConfig { vcpu_count: Some(3), mem_size_mib: None, ht_enabled: Some(true), cpu_template: None };
    assert_eq!(res.set_vm_config(odd_ht), Err(VmConfigError::InvalidVcpuCount));
    let one_ht = VmConfig { vcpu_count: Some(1), mem_size_mib: None, ht_enabled: Some(true), cpu_template: None };
    assert!(res.set_vm_config(one_ht).is_ok());
    assert_eq!(res.set_vm_config(vcpus(5)), Err(VmConfigError::InvalidVcpuCount));
    assert!(res.set_vm_config(vcpus(6)).is_ok());
    // A bad vCPU count is found before a bad memory size.
    let both = VmConfig { vcpu_count: Some(0), mem_size_mib: Some(0), ht_enabled: None, cpu_template: None };
    assert_eq!(res.set_vm_config(both), Err(VmConfigError::InvalidVcpuCount));
}

#[test]
fn boot_source_with_default_arguments() {
    let mut res = VmResources::new();
    let cfg = BootSourceConfig { kernel_image_path: String::from("/vmlinux"), boot_args: None };
    assert!(res.set_boot_source(cfg, Arch::X86_64, Ok(())).is_ok());
    let boot = res.boot_source().unwrap();
    assert_eq!(boot.cmdline.as_str(), DEFAULT_KERNEL_CMDLINE);
    assert_eq!(
        boot.cmdline.as_str(),
        "reboot=k panic=1 pci=off nomodules 8250.nr_uarts=0 i8042.noaux i8042.nomux i8042.nopnp i8042.dumbkbd"
    );
    assert_eq!(boot.cmdline.capacity(), 4096);
    assert_eq!(boot.kernel_image_path, "/vmlinux");
}

#[test]
fn boot_source_with_given_arguments() {
    let mut res = VmResources::new();
    let cfg = BootSourceConfig {
        kernel_image_path: String::from("/vmlinux"),
        boot_args: Some(String::from("console=ttyS0")),
    };
    assert!(res.set_boot_source(cfg, Arch::Aarch64, Ok(())).is_ok());
    let boot = res.boot_source().unwrap();
    assert_eq!(boot.cmdline.as_str(), "console=ttyS0");
    assert_eq!(boot.cmdline.capacity(), 2048);
}

#[test]
fn boot_source_failures() {
    let mut res = VmResources::new();
    let cfg = BootSourceConfig { kernel_image_path: String::from("/nowhere"), boot_args: None };
    assert_eq!(
        res.set_boot_source(cfg, Arch::X86_64, Err(String::from("No such file"))),
        Err(BootSourceConfigError::InvalidKernelPath(String::from("No such file")))
    );
    assert!(res.boot_source().is_none());
    let cfg = BootSourceConfig {
        kernel_image_path: String::from("/vmlinux"),
        boot_args: Some(String::from("tab\there")),
    };
    assert_eq!(
        res.set_boot_source(cfg, Arch::X86_64, Ok(())),
        Err(BootSourceConfigError::InvalidKernelCommandLine(CmdlineError::InvalidAscii))
    );
    let cfg = BootSourceConfig {
        kernel_image_path: String::from("/vmlinux"),
        boot_args: Some("x".repeat(4097)),
    };
    assert_eq!(
        res.set_boot_source(cfg, Arch::X86_64, Ok(())),
        Err(BootSourceConfigError::InvalidKernelCommandLine(CmdlineError::CommandLineOverflow))
    );
    assert!(res.boot_source().is_none());
    let cfg = BootSourceConfig {
        kernel_image_path: String::from("/vmlinux"),
        boot_args: Some("x".repeat(4096)),
    };
    assert!(res.set_boot_source(cfg, Arch::X86_64, Ok(())).is_ok());
}

#[test]
fn a_refused_boot_source_keeps_the_one_before() {
    let mut res = VmResources::new();
    let cfg = BootSourceConfig {
        kernel_image_path: String::from("/vmlinux"),
        boot_args: Some(String::from("first")),
    };
    assert!(res.set_boot_source(cfg, Arch::X86_64, Ok(())).is_ok());
    let cfg = BootSourceConfig { kernel_image_path: String::from("/other"), boot_args: None };
    assert!(res.set_boot_source(cfg, Arch::X86_64, Err(String::from("gone"))).is_err());
    assert_eq!(res.boot_source().unwrap().cmdline.as_str(), "first");
    assert_eq!(res.boot_source().unwrap().kernel_image_path, "/vmlinux");
}

#[test]
fn boot_config_new_checks_the_kernel_first() {
    let cfg = BootSourceConfig {
        kernel_image_path: String::from("/nowhere"),
        boot_args: Some(String::from("bad\n")),
    };
    let r = BootConfig::new(cfg, 10, Err(String::from("gone")));
    assert_eq!(r.err(), Some(BootSourceConfigError::InvalidKernelPath(String::from("gone"))));
}

#[test]
fn vsock_device_is_replaced_without_notice() {
    let mut res = VmResources::new();
    let first = VsockDeviceConfig {
        vsock_id: String::from("vsock0"),
        guest_cid: 3,
        uds_path: String::from("/tmp/v.sock"),
    };
    res.set_vsock_device(first.clone());
    assert_eq!(res.vsock(), Some(&first));
    let second = VsockDeviceConfig {
        vsock_id: String::from("vsock1"),
        guest_cid: 4,
        uds_path: String::from("/tmp/w.sock"),
    };
    res.set_vsock_device(second.clone());
    assert_eq!(res.vsock(), Some(&second));
}

#[test]
fn registry_passes_devices_on_to_its_lists() {
    let mut res = VmResources::new();
    assert!(res.insert_block_device(drive("a", "/a", true), true).is_ok());
    assert_eq!(
        res.insert_block_device(drive("b", "/b", true), true),
        Err(DriveError::RootBlockDeviceAlreadyAdded)
    );
    res.set_block_device_path(0, String::from("/a2"));
    assert_eq!(res.block().config_list(), &vec![drive("a", "/a2", true)]);
    assert!(res.insert_net_device(iface("n", "tap0", None)).is_ok());
    assert_eq!(
        res.insert_net_device(iface("m", "tap0", None)),
        Err(NetworkInterfaceError::HostDeviceNameInUse(String::from("tap0")))
    );
    let update = NetworkInterfaceUpdateConfig {
        iface_id: String::from("n"),
        rx_rate_limiter: Some(RateLimiterConfig { bandwidth: Some(bucket(5)), ops: None }),
        tx_rate_limiter: None,
    };
    assert!(res.update_net_rate_limiters(&update).is_ok());
    assert_eq!(
        res.network_interface().if_list()[0].rx_rate_limiter,
        Some(RateLimiterConfig { bandwidth: Some(bucket(5)), ops: None })
    );
}

#[test]
fn registry_with_a_given_sizing() {
    let sizing = VmConfig {
        vcpu_count: Some(2),
        mem_size_mib: None,
        ht_enabled: Some(true),
        cpu_template: None,
    };
    let res = VmResources::with_vm_config(sizing).unwrap();
    assert_eq!(res.vm_config(), &sizing);
    assert!(res.boot_source().is_none());
}

#[test]
fn registry_refuses_a_sizing_that_is_incomplete_or_invalid() {
    let good = VmConfig {
        vcpu_count: Some(2),
        mem_size_mib: Some(64),
        ht_enabled: Some(false),
        cpu_template: None,
    };
    assert_eq!(good.validate(), Ok(()));
    let refused = |config: VmConfig| VmResources::with_vm_config(config).err();
    assert_eq!(refused(good), None);
    assert_eq!(
        refused(VmConfig { vcpu_count: None, ..good }),
        Some(VmConfigError::InvalidVcpuCount)
    );
    assert_eq!(
        refused(VmConfig { ht_enabled: None, ..good }),
        Some(VmConfigError::InvalidVcpuCount)
    );
    assert_eq!(
        refused(VmConfig { vcpu_count: Some(3), ht_enabled: Some(true), ..good }),
        Some(VmConfigError::InvalidVcpuCount)
    );
    assert_eq!(
        refused(VmConfig { vcpu_count: Some(33), ..good }),
        Some(VmConfigError::InvalidVcpuCount)
    );
    assert_eq!(
        refused(VmConfig { mem_size_mib: Some(0), ..good }),
        Some(VmConfigError::InvalidMemorySize)
    );
    assert_eq!(
        refused(VmConfig { vcpu_count: Some(0), mem_size_mib: Some(0), ..good }),
        Some(VmConfigError::InvalidVcpuCount)
    );
}
