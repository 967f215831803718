//! Lifecycle management for local virtual machines driven by QEMU/KVM.
//!
//! The library holds the decisions of the backends: the paths of a VM's work
//! directory, the QEMU argument vector, the QMP wire protocol, the shutdown
//! state machine, guest-IP discovery from command output, and the layout of
//! the cloud-init seed. Process spawning, sockets and the filesystem are left
//! to the caller, which hands the observed results back in plain values.
pub mod cli;
pub mod cloudinit;
pub mod error;
pub mod image;
pub mod json;
pub mod noop;
pub mod oci;
pub mod paths;
pub mod provision;
pub mod qemu;
pub mod qmp;
pub mod router;
pub mod text;
pub mod types;

pub use error::VmError;
pub use noop::NoopBackend;
pub use qemu::QemuBackend;
pub use router::RouterHypervisor;
pub use types::{
    BackendTag, CloudInitConfig, ConsoleEndpoint, NetworkConfig, SshConfig, VmHandle, VmSpec, VmState,
};
