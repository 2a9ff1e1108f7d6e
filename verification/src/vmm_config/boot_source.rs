//! Where the guest kernel comes from and what it is told at boot.

use crate::cmdline::{insert_str_error, Cmdline, CmdlineError};
use vstd::prelude::*;
use vstd::string::*;

verus! {

/// The kernel arguments of a microVM whose configuration names none.
pub const DEFAULT_KERNEL_CMDLINE: &'static str =
    "reboot=k panic=1 pci=off nomodules 8250.nr_uarts=0 i8042.noaux i8042.nomux i8042.nopnp i8042.dumbkbd";

/// A request to boot from a kernel image, with optional kernel arguments.
#[derive(Debug, PartialEq, Eq)]
pub struct BootSourceConfig {
    /// The path of the kernel image on the host.
    pub kernel_image_path: String,
    /// The kernel arguments, where they differ from the default.
    pub boot_args: Option<String>,
}

/// Why a boot source was refused.
#[derive(Clone, Debug, PartialEq, Eq)]
pub enum BootSourceConfigError {
    /// The kernel image cannot be opened; with the cause.
    InvalidKernelPath(String),
    /// The kernel arguments cannot stand in a command line.
    InvalidKernelCommandLine(CmdlineError),
    /// The microVM has booted; its boot source can no longer change.
    UpdateNotAllowedPostBoot,
}

impl BootSourceConfigError {
    /// The text of `message`.
    pub open spec fn message_spec(self) -> Seq<char> {
        match self {
            BootSourceConfigError::InvalidKernelPath(cause) => "The kernel file cannot be opened: "@
                + cause@,
            BootSourceConfigError::InvalidKernelCommandLine(e) => "The kernel command line is invalid: "@
                + e.message_spec(),
            BootSourceConfigError::UpdateNotAllowedPostBoot => "The update operation is not allowed after boot."@,
        }
    }

    /// A sentence that describes the error.
    pub fn message(&self) -> (r: String)
        ensures
            r@ == self.message_spec(),
    {
        match self {
            BootSourceConfigError::InvalidKernelPath(cause) => {
                let mut text = String::from_str("The kernel file cannot be opened: ");
                text.append(cause.as_str());
                text
            },
            BootSourceConfigError::InvalidKernelCommandLine(e) => {
                let mut text = String::from_str("The kernel command line is invalid: ");
                text.append(e.message().as_str());
                text
            },
            BootSourceConfigError::UpdateNotAllowedPostBoot => String::from_str(
                "The update operation is not allowed after boot.",
            ),
        }
    }
}

/// A boot source that was accepted: the kernel image and the command line that
/// the kernel arguments gave.
#[derive(Debug)]
pub struct BootConfig {
    /// The kernel command line.
    pub cmdline: Cmdline,
    /// The path of the kernel image on the host.
    pub kernel_image_path: String,
}

impl Clone for BootConfig {
    fn clone(&self) -> (r: Self)
        ensures
            r == *self,
    {
        BootConfig {
            cmdline: self.cmdline.clone(),
            kernel_image_path: self.kernel_image_path.clone(),
        }
    }
}

/// The kernel arguments that `config` asks for.
pub open spec fn boot_args_of(config: BootSourceConfig) -> Seq<char> {
    match config.boot_args {
        Some(args) => args@,
        None => DEFAULT_KERNEL_CMDLINE@,
    }
}

/// Why `config` is refused, if it is: `kernel_found` tells whether the host
/// could open the kernel image, and `capacity` is the longest command line
/// that the architecture takes.
pub open spec fn boot_source_error(
    config: BootSourceConfig,
    capacity: usize,
    kernel_found: Result<(), String>,
) -> Option<BootSourceConfigError> {
    match kernel_found {
        Err(cause) => Some(BootSourceConfigError::InvalidKernelPath(cause)),
        Ok(()) => match insert_str_error(Seq::empty(), capacity as nat, boot_args_of(config)) {
            Some(e) => Some(BootSourceConfigError::InvalidKernelCommandLine(e)),
            None => None,
        },
    }
}

impl BootConfig {
    /// The command line is well formed.
    pub open spec fn wf(&self) -> bool {
        self.cmdline.wf()
    }

    /// Checks a requested boot source and builds what is stored of it.
    /// `kernel_found` tells whether the host could open the kernel image, and
    /// `capacity` is the longest command line that the architecture takes.
    pub fn new(config: BootSourceConfig, capacity: usize, kernel_found: Result<(), String>) -> (r:
        Result<BootConfig, BootSourceConfigError>)
        ensures
            match r {
                Ok(boot) => {
                    &&& boot_source_error(config, capacity, kernel_found) is None
                    &&& boot.wf()
                    &&& boot.cmdline@ == boot_args_of(config)
                    &&& boot.cmdline.spec_capacity() == capacity
                    &&& boot.kernel_image_path == config.kernel_image_path
                },
                Err(e) => boot_source_error(config, capacity, kernel_found) == Some(e),
            },
    {
        if let Err(cause) = kernel_found {
            return Err(BootSourceConfigError::InvalidKernelPath(cause));
        }
        let mut cmdline = Cmdline::new(capacity);
        let inserted = match &config.boot_args {
            Some(args) => cmdline.insert_str(args.as_str()),
            None => cmdline.insert_str(DEFAULT_KERNEL_CMDLINE),
        };
        match inserted {
            Err(e) => Err(BootSourceConfigError::InvalidKernelCommandLine(e)),
            Ok(()) => Ok(BootConfig { cmdline, kernel_image_path: config.kernel_image_path }),
        }
    }
}

} // verus!
