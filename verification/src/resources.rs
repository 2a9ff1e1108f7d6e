//! The registry of everything that is configured before a microVM boots.

use crate::arch::Arch;
use crate::vmm_config::boot_source::{
    boot_args_of, boot_source_error, BootConfig, BootSourceConfig, BootSourceConfigError,
};
use crate::vmm_config::drive::{
    block_list_valid, insert_result, BlockDeviceConfig, BlockDeviceConfigs, DriveError,
};
use crate::vmm_config::machine_config::{VmConfig, VmConfigError};
use crate::vmm_config::net::{
    net_insert_result, net_list_valid, net_update_result, NetworkInterfaceConfig,
    NetworkInterfaceConfigs, NetworkInterfaceError, NetworkInterfaceUpdateConfig,
};
use crate::vmm_config::vsock::VsockDeviceConfig;
use vstd::prelude::*;

verus! {

/// What a registry holds.
pub struct VmResourcesView {
    /// The machine sizing.
    pub vm_config: VmConfig,
    /// The boot source, once one was accepted.
    pub boot_config: Option<BootConfig>,
    /// The block devices, in the order in which the guest will see them.
    pub block: Seq<BlockDeviceConfig>,
    /// The network interfaces.
    pub network_interface: Seq<NetworkInterfaceConfig>,
    /// The vsock device, if there is one.
    pub vsock: Option<VsockDeviceConfig>,
}

impl VmResourcesView {
    /// Every part is valid by its own rules.
    pub open spec fn wf(self) -> bool {
        &&& self.vm_config.wf()
        &&& self.boot_config matches Some(boot) ==> boot.wf()
        &&& block_list_valid(self.block)
        &&& net_list_valid(self.network_interface)
    }
}

/// The registry of a microVM's configuration: machine sizing, boot source,
/// block devices, network interfaces and the vsock device.
#[derive(Debug)]
pub struct VmResources {
    vm_config: VmConfig,
    boot_config: Option<BootConfig>,
    block: BlockDeviceConfigs,
    network_interface: NetworkInterfaceConfigs,
    vsock: Option<VsockDeviceConfig>,
}

impl View for VmResources {
    type V = VmResourcesView;

    closed spec fn view(&self) -> VmResourcesView {
        VmResourcesView {
            vm_config: self.vm_config,
            boot_config: self.boot_config,
            block: self.block@,
            network_interface: self.network_interface@,
            vsock: self.vsock,
        }
    }
}

impl VmResources {
    /// Every part of the registry is valid by its own rules.
    pub open spec fn wf(&self) -> bool {
        self@.wf()
    }

    /// The registry of a fresh microVM: default sizing, no boot source, no
    /// devices.
    pub fn new() -> (r: Self)
        ensures
            r.wf(),
            r@.vm_config == VmConfig::default_spec(),
            r@.boot_config is None,
            r@.block == Seq::<BlockDeviceConfig>::empty(),
            r@.network_interface == Seq::<NetworkInterfaceConfig>::empty(),
            r@.vsock is None,
    {
        VmResources {
            vm_config: VmConfig::default(),
            boot_config: None,
            block: BlockDeviceConfigs::new(),
            network_interface: NetworkInterfaceConfigs::new(),
            vsock: None,
        }
    }

    /// A registry with the sizing `vm_config`, no boot source and no devices.
    /// The sizing must be complete in its vCPU count and hyperthreading flag,
    /// and valid; a memory size may be missing.
    pub fn with_vm_config(vm_config: VmConfig) -> (r: Result<Self, VmConfigError>)
        ensures
            match r {
                Ok(resources) => {
                    &&& vm_config.validity_error() is None
                    &&& resources.wf()
                    &&& resources@.vm_config == vm_config
                    &&& resources@.boot_config is None
                    &&& resources@.block == Seq::<BlockDeviceConfig>::empty()
                    &&& resources@.network_interface == Seq::<NetworkInterfaceConfig>::empty()
                    &&& resources@.vsock is None
                },
                Err(e) => vm_config.validity_error() == Some(e),
            },
    {
        match vm_config.validate() {
            Err(e) => Err(e),
            Ok(()) => Ok(
                VmResources {
                    vm_config,
                    boot_config: None,
                    block: BlockDeviceConfigs::new(),
                    network_interface: NetworkInterfaceConfigs::new(),
                    vsock: None,
                },
            ),
        }
    }

    /// The machine sizing.
    pub fn vm_config(&self) -> (r: &VmConfig)
        ensures
            *r == self@.vm_config,
    {
        &self.vm_config
    }

    /// The boot source, once one was accepted.
    pub fn boot_source(&self) -> (r: Option<&BootConfig>)
        ensures
            r is Some <==> self@.boot_config is Some,
            r matches Some(boot) ==> *boot == self@.boot_config->0,
    {
        self.boot_config.as_ref()
    }

    /// The block devices.
    pub fn block(&self) -> (r: &BlockDeviceConfigs)
        ensures
            r@ == self@.block,
    {
        &self.block
    }

    /// The network interfaces.
    pub fn network_interface(&self) -> (r: &NetworkInterfaceConfigs)
        ensures
            r@ == self@.network_interface,
    {
        &self.network_interface
    }

    /// The vsock device, if there is one.
    pub fn vsock(&self) -> (r: Option<&VsockDeviceConfig>)
        ensures
            r is Some <==> self@.vsock is Some,
            r matches Some(cfg) ==> *cfg == self@.vsock->0,
    {
        self.vsock.as_ref()
    }

    /// Applies a request to change the machine sizing. A refused request
    /// changes nothing.
    pub fn set_vm_config(&mut self, machine_config: VmConfig) -> (r: Result<(), VmConfigError>)
        requires
            old(self).wf(),
        ensures
            final(self).wf(),
            match r {
                Ok(()) => old(self)@.vm_config.updated(machine_config) == Ok::<
                    VmConfig,
                    VmConfigError,
                >(final(self)@.vm_config) && final(self)@ == (VmResourcesView {
                    vm_config: final(self)@.vm_config,
                    ..old(self)@
                }),
                Err(e) => old(self)@.vm_config.updated(machine_config) == Err::<
                    VmConfig,
                    VmConfigError,
                >(e) && final(self)@ == old(self)@,
            },
    {
        self.vm_config.update(machine_config)
    }

    /// Checks a requested boot source and stores it in place of the one
    /// before. `kernel_found` tells whether the host could open the kernel
    /// image. A refused request changes nothing.
    pub fn set_boot_source(
        &mut self,
        boot_source_cfg: BootSourceConfig,
        arch: Arch,
        kernel_found: Result<(), String>,
    ) -> (r: Result<(), BootSourceConfigError>)
        requires
            old(self).wf(),
        ensures
            final(self).wf(),
            match r {
                Ok(()) => {
                    &&& boot_source_error(boot_source_cfg, arch.cmdline_max_size(), kernel_found)
                        is None
                    &&& final(self)@.boot_config matches Some(boot)
                    &&& boot.cmdline@ == boot_args_of(boot_source_cfg)
                    &&& boot.cmdline.spec_capacity() == arch.cmdline_max_size()
                    &&& boot.kernel_image_path == boot_source_cfg.kernel_image_path
                    &&& final(self)@ == (VmResourcesView {
                        boot_config: final(self)@.boot_config,
                        ..old(self)@
                    })
                },
                Err(e) => boot_source_error(boot_source_cfg, arch.cmdline_max_size(), kernel_found)
                    == Some(e) && final(self)@ == old(self)@,
            },
    {
        match BootConfig::new(boot_source_cfg, arch.cmdline_max_size(), kernel_found) {
            Ok(boot) => {
                self.boot_config = Some(boot);
                Ok(())
            },
            Err(e) => Err(e),
        }
    }

    /// Inserts a block device, or replaces the one that has its id.
    /// `path_exists` says whether the backing file was found on the host. A
    /// refused request changes nothing.
    pub fn insert_block_device(&mut self, config: BlockDeviceConfig, path_exists: bool) -> (r:
        Result<(), DriveError>)
        requires
            old(self).wf(),
        ensures
            final(self).wf(),
            match r {
                Ok(()) => insert_result(old(self)@.block, config, path_exists) == Ok::<
                    Seq<BlockDeviceConfig>,
                    DriveError,
                >(final(self)@.block) && final(self)@ == (VmResourcesView {
                    block: final(self)@.block,
                    ..old(self)@
                }),
                Err(e) => insert_result(old(self)@.block, config, path_exists) == Err::<
                    Seq<BlockDeviceConfig>,
                    DriveError,
                >(e) && final(self)@ == old(self)@,
            },
    {
        self.block.insert(config, path_exists)
    }

    /// Gives the block device at `index` another backing file.
    pub fn set_block_device_path(&mut self, index: usize, path: String)
        requires
            old(self).wf(),
            index < old(self)@.block.len(),
        ensures
            final(self).wf(),
            final(self)@ == (VmResourcesView {
                block: old(self)@.block.update(
                    index as int,
                    old(self)@.block[index as int].with_path(path),
                ),
                ..old(self)@
            }),
    {
        self.block.set_path(index, path);
    }

    /// Inserts a network interface, or replaces the one that has its id. A
    /// refused request changes nothing.
    pub fn insert_net_device(&mut self, config: NetworkInterfaceConfig) -> (r: Result<
        (),
        NetworkInterfaceError,
    >)
        requires
            old(self).wf(),
        ensures
            final(self).wf(),
            match r {
                Ok(()) => net_insert_result(old(self)@.network_interface, config) == Ok::<
                    Seq<NetworkInterfaceConfig>,
                    NetworkInterfaceError,
                >(final(self)@.network_interface) && final(self)@ == (VmResourcesView {
                    network_interface: final(self)@.network_interface,
                    ..old(self)@
                }),
                Err(e) => net_insert_result(old(self)@.network_interface, config) == Err::<
                    Seq<NetworkInterfaceConfig>,
                    NetworkInterfaceError,
                >(e) && final(self)@ == old(self)@,
            },
    {
        self.network_interface.insert(config)
    }

    /// Lays new rate limiters over those of the interface that `update` names.
    /// A refused request changes nothing.
    pub fn update_net_rate_limiters(&mut self, update: &NetworkInterfaceUpdateConfig) -> (r:
        Result<(), NetworkInterfaceError>)
        requires
            old(self).wf(),
        ensures
            final(self).wf(),
            match r {
                Ok(()) => net_update_result(old(self)@.network_interface, *update) == Ok::<
                    Seq<NetworkInterfaceConfig>,
                    NetworkInterfaceError,
                >(final(self)@.network_interface) && final(self)@ == (VmResourcesView {
                    network_interface: final(self)@.network_interface,
                    ..old(self)@
                }),
                Err(e) => net_update_result(old(self)@.network_interface, *update) == Err::<
                    Seq<NetworkInterfaceConfig>,
                    NetworkInterfaceError,
                >(e) && final(self)@ == old(self)@,
            },
    {
        self.network_interface.update_rate_limiters(update)
    }

    /// Sets the vsock device. One that was set before is replaced without
    /// notice.
    pub fn set_vsock_device(&mut self, config: VsockDeviceConfig)
        requires
            old(self).wf(),
        ensures
            final(self).wf(),
            final(self)@ == (VmResourcesView { vsock: Some(config), ..old(self)@ }),
    {
        self.vsock = Some(config);
    }
}

} // verus!
