use vstd::prelude::*;

use crate::error::VmError;
use crate::paths::{join_path, path_join};
use crate::qemu::fresh_uuid;
use crate::types::{BackendTag, ConsoleEndpoint, VmHandle, VmSpec, VmState};

verus! {

/// No-op hypervisor for development and testing on hosts without VM capabilities.
#[derive(Debug, Clone, Copy, Default)]
pub struct NoopBackend;

/// The address a noop guest answers on.
pub open spec fn noop_ip() -> Seq<char> {
    "127.0.0.1"@
}

/// `h` is the synthetic handle of a noop VM for `spec`, with work directory
/// `<temp_dir>/vmctl-noop/<id>`.
pub open spec fn noop_prepared(temp_dir: Seq<char>, spec: VmSpec, h: VmHandle) -> bool {
    &&& h.name@ == spec.name@
    &&& h.backend == BackendTag::Noop
    &&& h.vcpus == spec.vcpus
    &&& h.memory_mb == spec.memory_mb
    &&& h.work_dir@ == path_join(path_join(temp_dir, "vmctl-noop"@), h.id@)
    &&& h.overlay_path is None
    &&& h.seed_iso_path is None
    &&& h.pid is None
    &&& h.qmp_socket is None
    &&& h.console_socket is None
    &&& h.vnc_addr is None
}

impl NoopBackend {
    /// The handle of a noop VM for `spec`, identified by `uuid`, with its work
    /// directory under `temp_dir`.
    pub fn handle_for(&self, spec: &VmSpec, temp_dir: &str, uuid: &str) -> (r: VmHandle)
        ensures
            r.id@ == "noop-"@ + uuid@,
            noop_prepared(temp_dir@, *spec, r),
    {
        let mut id = String::from_str("noop-");
        id.append(uuid);
        let base = join_path(temp_dir, "vmctl-noop");
        let work_dir = join_path(base.as_str(), id.as_str());
        VmHandle {
            id,
            name: spec.name.clone(),
            backend: BackendTag::Noop,
            vcpus: spec.vcpus,
            memory_mb: spec.memory_mb,
            work_dir,
            overlay_path: None,
            seed_iso_path: None,
            pid: None,
            qmp_socket: None,
            console_socket: None,
            vnc_addr: None,
        }
    }

    /// The handle of a noop VM for `spec`, with a fresh random id.
    pub fn prepare(&self, spec: &VmSpec, temp_dir: &str) -> (r: VmHandle)
        ensures
            exists|u: Seq<char>| r.id@ == "noop-"@ + u,
            noop_prepared(temp_dir@, *spec, r),
    {
        let uuid = fresh_uuid();
        self.handle_for(spec, temp_dir, uuid.as_str())
    }

    /// Starting always succeeds.
    pub fn start(&self, vm: &VmHandle) -> (r: Result<(), VmError>)
        ensures
            r is Ok,
    {
        Ok(())
    }

    /// Stopping always succeeds.
    pub fn stop(&self, vm: &VmHandle, timeout_ms: u64) -> (r: Result<(), VmError>)
        ensures
            r is Ok,
    {
        Ok(())
    }

    /// Suspending always succeeds.
    pub fn suspend(&self, vm: &VmHandle) -> (r: Result<(), VmError>)
        ensures
            r is Ok,
    {
        Ok(())
    }

    /// Resuming always succeeds.
    pub fn resume(&self, vm: &VmHandle) -> (r: Result<(), VmError>)
        ensures
            r is Ok,
    {
        Ok(())
    }

    /// Destroying always succeeds; the caller removes the work directory.
    pub fn destroy(&self, vm: VmHandle) -> (r: Result<(), VmError>)
        ensures
            r is Ok,
    {
        Ok(())
    }

    /// A noop VM is always `Prepared`.
    pub fn state(&self, vm: &VmHandle) -> (r: Result<VmState, VmError>)
        ensures
            r == Ok::<VmState, VmError>(VmState::Prepared),
    {
        Ok(VmState::Prepared)
    }

    /// A noop guest is at `127.0.0.1`.
    pub fn guest_ip(&self, vm: &VmHandle) -> (r: Result<String, VmError>)
        ensures
            r matches Ok(ip) && ip@ == noop_ip(),
    {
        Ok(String::from_str("127.0.0.1"))
    }

    /// A noop VM has no console.
    pub fn console_endpoint(&self, vm: &VmHandle) -> (r: Result<ConsoleEndpoint, VmError>)
        ensures
            r matches Ok(ConsoleEndpoint::Unavailable),
    {
        Ok(ConsoleEndpoint::Unavailable)
    }
}

} // verus!
