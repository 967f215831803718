use vstd::prelude::*;

use crate::error::VmError;

verus! {

/// Which backend a handle belongs to.
#[derive(Debug, Clone, Copy, PartialEq, Eq, Structural)]
pub enum BackendTag {
    Qemu,
    Noop,
}

/// Observable state of a VM.
#[derive(Debug, Clone, Copy, PartialEq, Eq, Structural)]
pub enum VmState {
    Prepared,
    Running,
    Stopped,
    Destroyed,
}

/// Guest networking mode.
#[derive(Debug, Clone)]
pub enum NetworkConfig {
    /// No network device.
    Disabled,
    User,
    Bridge { name: String },
}

/// Cloud-init NoCloud seed contents.
#[derive(Debug, Clone)]
pub struct CloudInitConfig {
    pub user_data: Vec<u8>,
    pub meta_data: Option<Vec<u8>>,
    pub instance_id: Option<String>,
    pub hostname: Option<String>,
}

/// SSH access to the guest.
#[derive(Debug, Clone)]
pub struct SshConfig {
    pub user: String,
    pub public_key: Option<String>,
    pub private_key_path: Option<String>,
    pub private_key_pem: Option<String>,
}

/// The declarative description of one VM.
#[derive(Debug, Clone)]
pub struct VmSpec {
    pub name: String,
    pub image_path: String,
    pub vcpus: u16,
    pub memory_mb: u64,
    pub disk_gb: Option<u32>,
    pub network: NetworkConfig,
    pub cloud_init: Option<CloudInitConfig>,
    pub ssh: Option<SshConfig>,
}

impl VmSpec {
    /// A spec asks for at least one vCPU and at least one MiB of memory.
    pub open spec fn valid(&self) -> bool {
        self.vcpus >= 1 && self.memory_mb >= 1
    }

    /// Checks the sizes of the spec; a spec without a vCPU or memory is an
    /// `InvalidState` of the VM it names.
    pub fn validate(&self) -> (r: Result<(), VmError>)
        ensures
            r is Ok <==> self.valid(),
            r matches Err(e) ==> (e matches VmError::InvalidState { name: n, .. } && n@ == self.name@),
    {
        if self.vcpus >= 1 && self.memory_mb >= 1 {
            Ok(())
        } else {
            Err(VmError::InvalidState { name: self.name.clone(), state: String::from_str("vcpus and memory_mb must be at least 1") })
        }
    }
}

/// The durable identity of a prepared VM.
#[derive(Debug, Clone)]
pub struct VmHandle {
    pub id: String,
    pub name: String,
    pub backend: BackendTag,
    pub vcpus: u16,
    pub memory_mb: u64,
    pub work_dir: String,
    pub overlay_path: Option<String>,
    pub seed_iso_path: Option<String>,
    pub pid: Option<u32>,
    pub qmp_socket: Option<String>,
    pub console_socket: Option<String>,
    pub vnc_addr: Option<String>,
}

/// Where the serial console of a VM can be reached.
#[derive(Debug, Clone)]
pub enum ConsoleEndpoint {
    UnixSocket(String),
    WebSocket(String),
    /// The backend offers no console.
    Unavailable,
}

} // verus!
