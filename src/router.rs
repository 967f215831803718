use vstd::prelude::*;

use crate::error::VmError;
use crate::noop::{noop_ip, NoopBackend};
use crate::qemu::{decide_state, guest_ip_of, select_guest_ip, state_of, QemuBackend};
use crate::text::{opt_str_view, opt_view};
use crate::types::{BackendTag, ConsoleEndpoint, VmHandle, VmState};

verus! {

/// Dispatches each operation to the backend that a handle names.
pub struct RouterHypervisor {
    pub qemu: QemuBackend,
    pub noop: NoopBackend,
}

impl RouterHypervisor {
    /// A router whose QEMU backend uses the given bridge and data directory.
    pub fn new(default_bridge: Option<String>, data_dir: Option<String>) -> (r: Self)
        ensures
            opt_view(r.qemu.default_bridge) == opt_view(default_bridge),
            data_dir is Some ==> r.qemu.data_dir@ == data_dir.unwrap()@,
    {
        RouterHypervisor { qemu: QemuBackend::new(None, data_dir, default_bridge), noop: NoopBackend }
    }

    /// The backend that `prepare` uses: noop when asked for, else QEMU.
    pub fn backend_for_prepare(use_noop: bool) -> (r: BackendTag)
        ensures
            r == if use_noop {
                BackendTag::Noop
            } else {
                BackendTag::Qemu
            },
    {
        if use_noop {
            BackendTag::Noop
        } else {
            BackendTag::Qemu
        }
    }

    /// The state of `vm` from what was observed of it (see `decide_state`);
    /// a noop VM is always `Prepared`.
    pub fn state_from(&self, vm: &VmHandle, pid_alive: bool, qmp_status: Option<String>, work_dir_exists: bool) -> (r: VmState)
        ensures
            vm.backend == BackendTag::Noop ==> r == VmState::Prepared,
            vm.backend == BackendTag::Qemu ==> r == state_of(pid_alive, opt_view(qmp_status), work_dir_exists),
    {
        match vm.backend {
            BackendTag::Noop => VmState::Prepared,
            BackendTag::Qemu => decide_state(pid_alive, qmp_status, work_dir_exists),
        }
    }

    /// The guest IP of `vm` from the neighbour table and lease file contents
    /// that could be read; a noop guest is at `127.0.0.1`.
    pub fn guest_ip_from(&self, vm: &VmHandle, neigh: Option<&str>, leases: Option<&str>) -> (r: Result<String, VmError>)
        ensures
            vm.backend == BackendTag::Noop ==> (r matches Ok(ip) && ip@ == noop_ip()),
            vm.backend == BackendTag::Qemu ==> match (r, guest_ip_of(opt_str_view(neigh), self.qemu.default_bridge is Some, opt_str_view(leases))) {
                (Ok(ip), Some(want)) => ip@ == want,
                (Err(VmError::IpDiscoveryTimeout { name: n }), None) => n@ == vm.name@,
                _ => false,
            },
    {
        match vm.backend {
            BackendTag::Noop => self.noop.guest_ip(vm),
            BackendTag::Qemu => select_guest_ip(vm.name.as_str(), neigh, self.qemu.default_bridge.is_some(), leases),
        }
    }

    /// The console of `vm`: its serial socket for QEMU, none for noop.
    pub fn console_endpoint(&self, vm: &VmHandle) -> (r: Result<ConsoleEndpoint, VmError>)
        ensures
            vm.backend == BackendTag::Noop ==> r matches Ok(ConsoleEndpoint::Unavailable),
            vm.backend == BackendTag::Qemu ==> match (r, vm.console_socket) {
                (Ok(ConsoleEndpoint::UnixSocket(p)), Some(c)) => p@ == c@,
                (Ok(ConsoleEndpoint::Unavailable), None) => true,
                _ => false,
            },
    {
        match vm.backend {
            BackendTag::Noop => self.noop.console_endpoint(vm),
            BackendTag::Qemu => self.qemu.console_endpoint(vm),
        }
    }
}

} // verus!
