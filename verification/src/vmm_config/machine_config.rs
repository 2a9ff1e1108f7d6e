//! Machine sizing: how many vCPUs, how much memory, which CPU features.

use vstd::prelude::*;
use vstd::string::*;

verus! {

/// The largest number of vCPUs that a microVM may have.
pub const MAX_SUPPORTED_VCPUS: u8 = 32;

/// The largest memory size, in MiB, whose regions lie below the end of a
/// 64-bit address space on every architecture.
pub const MAX_MEM_SIZE_MIB: u64 = 0xfff_ffff_fcff;

/// A named set of CPU features that the guest is shown.
#[derive(Clone, Copy, Debug, PartialEq, Eq, Structural)]
pub enum CpuFeaturesTemplate {
    C3,
    T2,
}

/// Machine sizing. As a request it names the fields to change; as the stored
/// configuration it holds the values in force.
#[derive(Clone, Copy, Debug, PartialEq, Eq)]
pub struct VmConfig {
    /// Number of vCPUs.
    pub vcpu_count: Option<u8>,
    /// Memory size in MiB.
    pub mem_size_mib: Option<usize>,
    /// Whether hyperthreading is enabled.
    pub ht_enabled: Option<bool>,
    /// The CPU features template, if any.
    pub cpu_template: Option<CpuFeaturesTemplate>,
}

/// Why a machine configuration was refused.
#[derive(Clone, Copy, Debug, PartialEq, Eq, Structural)]
pub enum VmConfigError {
    /// The vCPU count is zero, above the supported maximum, or odd (and not one)
    /// with hyperthreading enabled.
    InvalidVcpuCount,
    /// The memory size is zero or larger than the address space.
    InvalidMemorySize,
    /// The microVM has booted; its sizing can no longer change.
    UpdateNotAllowedPostBoot,
}

impl VmConfigError {
    /// The text of `message`.
    pub open spec fn message_spec(self) -> Seq<char> {
        match self {
            VmConfigError::InvalidVcpuCount => "The vCPU number is invalid! The vCPU number can only be 1 or an even number when hyperthreading is enabled."@,
            VmConfigError::InvalidMemorySize => "The memory size (MiB) is invalid."@,
            VmConfigError::UpdateNotAllowedPostBoot => "The update operation is not allowed after boot."@,
        }
    }

    /// A sentence that describes the error.
    pub fn message(&self) -> (r: String)
        ensures
            r@ == self.message_spec(),
    {
        match self {
            VmConfigError::InvalidVcpuCount => String::from_str(
                "The vCPU number is invalid! The vCPU number can only be 1 or an even number when hyperthreading is enabled.",
            ),
            VmConfigError::InvalidMemorySize => String::from_str(
                "The memory size (MiB) is invalid.",
            ),
            VmConfigError::UpdateNotAllowedPostBoot => String::from_str(
                "The update operation is not allowed after boot.",
            ),
        }
    }
}

/// Whether `count` vCPUs are acceptable with hyperthreading on or off.
pub open spec fn vcpu_count_valid(count: u8, ht_enabled: bool) -> bool {
    &&& 1 <= count <= MAX_SUPPORTED_VCPUS
    &&& !(ht_enabled && count > 1 && count % 2 == 1)
}

/// Whether `mib` MiB is an acceptable memory size.
pub open spec fn mem_size_valid(mib: usize) -> bool {
    1 <= mib <= MAX_MEM_SIZE_MIB
}

impl VmConfig {
    /// A stored configuration is complete in its vCPU count and hyperthreading
    /// flag, and what it holds is valid.
    pub open spec fn wf(&self) -> bool {
        &&& self.vcpu_count is Some
        &&& self.ht_enabled is Some
        &&& vcpu_count_valid(self.vcpu_count->0, self.ht_enabled->0)
        &&& self.mem_size_mib matches Some(mib) ==> mem_size_valid(mib)
    }

    /// Why this cannot be a stored configuration, if it cannot: the vCPU
    /// count or the hyperthreading flag is missing or they do not go
    /// together, or the memory size is out of range.
    pub open spec fn validity_error(self) -> Option<VmConfigError> {
        if self.vcpu_count is None || self.ht_enabled is None || !vcpu_count_valid(
            self.vcpu_count->0,
            self.ht_enabled->0,
        ) {
            Some(VmConfigError::InvalidVcpuCount)
        } else if self.mem_size_mib matches Some(mib) && !mem_size_valid(mib) {
            Some(VmConfigError::InvalidMemorySize)
        } else {
            None
        }
    }

    /// Checks that this can be a stored configuration.
    pub fn validate(&self) -> (r: Result<(), VmConfigError>)
        ensures
            r is Ok <==> self.wf(),
            match r {
                Ok(()) => self.validity_error() is None,
                Err(e) => self.validity_error() == Some(e),
            },
    {
        let (vcpu_count, ht_enabled) = match (self.vcpu_count, self.ht_enabled) {
            (Some(vcpu_count), Some(ht_enabled)) => (vcpu_count, ht_enabled),
            _ => {
                return Err(VmConfigError::InvalidVcpuCount);
            },
        };
        if vcpu_count == 0 || vcpu_count > MAX_SUPPORTED_VCPUS || (ht_enabled && vcpu_count > 1
            && vcpu_count % 2 == 1) {
            return Err(VmConfigError::InvalidVcpuCount);
        }
        if let Some(mib) = self.mem_size_mib {
            if mib == 0 || mib as u64 > MAX_MEM_SIZE_MIB {
                return Err(VmConfigError::InvalidMemorySize);
            }
        }
        Ok(())
    }

    /// The configuration of a fresh microVM: one vCPU, 128 MiB, no
    /// hyperthreading, no CPU template.
    pub open spec fn default_spec() -> VmConfig {
        VmConfig {
            vcpu_count: Some(1u8),
            mem_size_mib: Some(128usize),
            ht_enabled: Some(false),
            cpu_template: None,
        }
    }

    /// The stored configuration `self` after the request `update`, or why the
    /// request is refused. Fields that the request leaves out keep their value.
    pub open spec fn updated(self, update: VmConfig) -> Result<VmConfig, VmConfigError> {
        let ht_enabled = match update.ht_enabled {
            Some(ht) => ht,
            None => self.ht_enabled->0,
        };
        let vcpu_count = match update.vcpu_count {
            Some(count) => count,
            None => self.vcpu_count->0,
        };
        if !(1 <= vcpu_count <= MAX_SUPPORTED_VCPUS) {
            Err(VmConfigError::InvalidVcpuCount)
        } else if update.mem_size_mib matches Some(mib) && !mem_size_valid(mib) {
            Err(VmConfigError::InvalidMemorySize)
        } else if !vcpu_count_valid(vcpu_count, ht_enabled) {
            Err(VmConfigError::InvalidVcpuCount)
        } else {
            Ok(
                VmConfig {
                    vcpu_count: Some(vcpu_count),
                    mem_size_mib: if update.mem_size_mib is Some {
                        update.mem_size_mib
                    } else {
                        self.mem_size_mib
                    },
                    ht_enabled: Some(ht_enabled),
                    cpu_template: if update.cpu_template is Some {
                        update.cpu_template
                    } else {
                        self.cpu_template
                    },
                },
            )
        }
    }

    /// Applies the request `update` to the stored configuration. A refused
    /// request changes nothing.
    pub fn update(&mut self, update: VmConfig) -> (r: Result<(), VmConfigError>)
        requires
            old(self).wf(),
        ensures
            final(self).wf(),
            match r {
                Ok(()) => old(self).updated(update) == Ok::<VmConfig, VmConfigError>(*final(self)),
                Err(e) => old(self).updated(update) == Err::<VmConfig, VmConfigError>(e)
                    && *final(self) == *old(self),
            },
    {
        let ht_enabled = match update.ht_enabled {
            Some(ht) => ht,
            None => self.ht_enabled.unwrap(),
        };
        let vcpu_count = match update.vcpu_count {
            Some(count) => count,
            None => self.vcpu_count.unwrap(),
        };
        if vcpu_count == 0 || vcpu_count > MAX_SUPPORTED_VCPUS {
            return Err(VmConfigError::InvalidVcpuCount);
        }
        if let Some(mib) = update.mem_size_mib {
            if mib == 0 || mib as u64 > MAX_MEM_SIZE_MIB {
                return Err(VmConfigError::InvalidMemorySize);
            }
        }
        if ht_enabled && vcpu_count > 1 && vcpu_count % 2 == 1 {
            return Err(VmConfigError::InvalidVcpuCount);
        }
        self.vcpu_count = Some(vcpu_count);
        self.ht_enabled = Some(ht_enabled);
        if update.mem_size_mib.is_some() {
            self.mem_size_mib = update.mem_size_mib;
        }
        if update.cpu_template.is_some() {
            self.cpu_template = update.cpu_template;
        }
        Ok(())
    }
}

impl Default for VmConfig {
    fn default() -> (r: VmConfig)
        ensures
            r == VmConfig::default_spec(),
            r.wf(),
    {
        VmConfig {
            vcpu_count: Some(1),
            mem_size_mib: Some(128),
            ht_enabled: Some(false),
            cpu_template: None,
        }
    }
}

} // verus!
