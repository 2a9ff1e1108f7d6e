//! The assembly and lifecycle core of a lightweight virtual machine monitor.
//!
//! A microVM is first described: its machine configuration, its boot source and
//! its devices go into a registry ([`resources`], [`vmm_config`]). The boot
//! assembler ([`builder`]) then works out, step by step, how the host has to
//! bring the machine up, and what the machine will be: its guest memory
//! ([`arch`], [`memory_model`]), its kernel command line ([`cmdline`]), its
//! MMIO devices ([`device_manager`], [`devices`]) and the tokens of its events
//! ([`epoll_context`]). The action controller ([`controller`]) takes the
//! actions on the microVM, each in the phase in which it is allowed, and
//! classifies what goes wrong ([`error`]).
//!
//! Nothing in this crate touches the host. A boot is planned on a dispatcher
//! of the plan's own, which replaces the running one when the boot has
//! succeeded; a boot that fails leaves no trace. Where an action depends on what the
//! host finds or does, the caller hands in what was found and gets back what is
//! to be done.

pub mod arch;
pub mod builder;
pub mod cmdline;
pub mod controller;
pub mod device_manager;
pub mod devices;
pub mod epoll_context;
pub mod error;
pub mod memory_model;
pub mod resources;
pub mod text;
pub mod vmm_config;

pub use builder::{build_microvm, BootDraft, BootPlan, BootStep, StartMicrovmError, Vmm};
pub use controller::{
    ControlEventHandler, ErrorKind, VmmAction, VmmActionError, VmmController, VmmData,
};
pub use resources::VmResources;
