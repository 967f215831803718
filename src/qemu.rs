use std::hash::{BuildHasher, Hasher};
use vstd::prelude::*;

use crate::cloudinit::{meta_data_bytes, meta_data_text};
use crate::error::VmError;
use crate::image::overlay_argv;
use crate::qmp::{command_outcome, lemma_events_ignored, strip_events, QmpReply};
use crate::paths::{app_data_dir, app_data_path, host_data_dir, join_path, path_join};
use crate::text::{
    append_decimal, contains, decimal, line_at, lines_of, nth_token, opt_str_view, opt_view, starts_with, str_contains, str_starts_with,
    strings_view, token,
};
use crate::types::{BackendTag, ConsoleEndpoint, VmHandle, VmSpec, VmState};
use vstd::utf8::encode_utf8;

verus! {

/// QEMU-KVM backend for Linux: VMs are QEMU processes with QMP control sockets.
pub struct QemuBackend {
    pub qemu_binary: String,
    pub data_dir: String,
    pub default_bridge: Option<String>,
}

/// `unix:<path>,server,nowait`, the listening-socket form of a chardev path.
pub open spec fn unix_server(path: Seq<char>) -> Seq<char> {
    "unix:"@ + path + ",server,nowait"@
}

/// The `-drive` value for the overlay disk.
pub open spec fn overlay_drive(path: Seq<char>) -> Seq<char> {
    "file="@ + path + ",format=qcow2,if=none,id=drive0,discard=unmap"@
}

/// The `-drive` value for the cloud-init seed.
pub open spec fn seed_drive(path: Seq<char>) -> Seq<char> {
    "file="@ + path + ",format=raw,if=none,id=seed,readonly=on"@
}

/// The QEMU argument vector for a VM, in order.
pub open spec fn qemu_argv(
    vcpus: u16,
    memory_mb: u64,
    work_dir: Seq<char>,
    overlay: Seq<char>,
    qmp: Seq<char>,
    console: Seq<char>,
    seed: Option<Seq<char>>,
) -> Seq<Seq<char>> {
    let head = seq![
        "-enable-kvm"@,
        "-machine"@,
        "q35,accel=kvm"@,
        "-cpu"@,
        "host"@,
        "-smp"@,
        decimal(vcpus as nat),
        "-m"@,
        decimal(memory_mb as nat),
        "-nodefaults"@,
        "-qmp"@,
        unix_server(qmp),
        "-serial"@,
        unix_server(console),
        "-vnc"@,
        "127.0.0.1:0"@,
        "-device"@,
        "virtio-rng-pci"@,
        "-drive"@,
        overlay_drive(overlay),
        "-device"@,
        "virtio-blk-pci,drive=drive0"@,
    ];
    let seed_args = match seed {
        Some(s) => seq!["-drive"@, seed_drive(s), "-device"@, "virtio-blk-pci,drive=seed"@],
        None => Seq::empty(),
    };
    head + seed_args + seq!["-daemonize"@, "-pidfile"@, path_join(work_dir, "qemu.pid"@)]
}

/// A handle can be started when its overlay and both socket paths are set.
pub open spec fn startable(h: VmHandle) -> bool {
    h.overlay_path is Some && h.qmp_socket is Some && h.console_socket is Some
}

fn concat3(a: &str, b: &str, c: &str) -> (r: String)
    ensures
        r@ == a@ + b@ + c@,
{
    let mut r = a.to_owned();
    r.append(b);
    r.append(c);
    r
}

fn push_str(v: &mut Vec<String>, s: &str)
    ensures
        final(v)@.len() == old(v)@.len() + 1,
        strings_view(final(v)@) == strings_view(old(v)@).push(s@),
{
    let t = s.to_owned();
    v.push(t);
    proof {
        assert(strings_view(final(v)@) =~= strings_view(old(v)@).push(s@));
    }
}

fn push_string(v: &mut Vec<String>, s: String)
    ensures
        strings_view(final(v)@) == strings_view(old(v)@).push(s@),
{
    let ghost sv = s@;
    v.push(s);
    proof {
        assert(strings_view(final(v)@) =~= strings_view(old(v)@).push(sv));
    }
}

fn decimal_string(n: u64) -> (r: String)
    ensures
        r@ == decimal(n as nat),
{
    let mut s = String::new();
    append_decimal(&mut s, n);
    assert(s@ =~= decimal(n as nat));
    s
}

/// Builds the QEMU argument vector for `vm`.
///
/// Fails with `InvalidState` when the handle lacks its overlay or a socket path.
pub fn qemu_args(vm: &VmHandle) -> (r: Result<Vec<String>, VmError>)
    ensures
        r is Ok <==> startable(*vm),
        r matches Ok(v) ==> strings_view(v@) == qemu_argv(
            vm.vcpus,
            vm.memory_mb,
            vm.work_dir@,
            vm.overlay_path.unwrap()@,
            vm.qmp_socket.unwrap()@,
            vm.console_socket.unwrap()@,
            opt_view(vm.seed_iso_path),
        ),
        r matches Err(e) ==> (e matches VmError::InvalidState { name: n, .. } && n@ == vm.name@),
{
    let overlay = match &vm.overlay_path {
        Some(p) => p,
        None => {
            return Err(VmError::InvalidState { name: vm.name.clone(), state: String::from_str("no overlay path") });
        },
    };
    let qmp = match &vm.qmp_socket {
        Some(p) => p,
        None => {
            return Err(VmError::InvalidState { name: vm.name.clone(), state: String::from_str("no QMP socket path") });
        },
    };
    let console = match &vm.console_socket {
        Some(p) => p,
        None => {
            return Err(VmError::InvalidState { name: vm.name.clone(), state: String::from_str("no console socket path") });
        },
    };
    let mut args: Vec<String> = Vec::new();
    push_str(&mut args, "-enable-kvm");
    push_str(&mut args, "-machine");
    push_str(&mut args, "q35,accel=kvm");
    push_str(&mut args, "-cpu");
    push_str(&mut args, "host");
    push_str(&mut args, "-smp");
    push_string(&mut args, decimal_string(vm.vcpus as u64));
    push_str(&mut args, "-m");
    push_string(&mut args, decimal_string(vm.memory_mb));
    push_str(&mut args, "-nodefaults");
    push_str(&mut args, "-qmp");
    push_string(&mut args, concat3("unix:", qmp.as_str(), ",server,nowait"));
    push_str(&mut args, "-serial");
    push_string(&mut args, concat3("unix:", console.as_str(), ",server,nowait"));
    push_str(&mut args, "-vnc");
    push_str(&mut args, "127.0.0.1:0");
    push_str(&mut args, "-device");
    push_str(&mut args, "virtio-rng-pci");
    push_str(&mut args, "-drive");
    push_string(&mut args, concat3("file=", overlay.as_str(), ",format=qcow2,if=none,id=drive0,discard=unmap"));
    push_str(&mut args, "-device");
    push_str(&mut args, "virtio-blk-pci,drive=drive0");
    let ghost head = strings_view(args@);
    match &vm.seed_iso_path {
        Some(iso) => {
            push_str(&mut args, "-drive");
            push_string(&mut args, concat3("file=", iso.as_str(), ",format=raw,if=none,id=seed,readonly=on"));
            push_str(&mut args, "-device");
            push_str(&mut args, "virtio-blk-pci,drive=seed");
        },
        None => {},
    }
    push_str(&mut args, "-daemonize");
    push_str(&mut args, "-pidfile");
    push_string(&mut args, join_path(vm.work_dir.as_str(), "qemu.pid"));
    proof {
        let want = qemu_argv(vm.vcpus, vm.memory_mb, vm.work_dir@, overlay@, qmp@, console@, opt_view(vm.seed_iso_path));
        assert(strings_view(args@) =~= want);
    }
    Ok(args)
}

/// The binary started when none is configured.
pub open spec fn default_qemu_binary() -> Seq<char> {
    "qemu-system-x86_64"@
}

/// Relies on uuid::Uuid::new_v4 and its hyphenated `to_string`: a fresh random
/// identifier, of which nothing is stated.
#[verifier::external_body]
pub(crate) fn fresh_uuid() -> (r: String) {
    uuid::Uuid::new_v4().to_string()
}

/// Relies on std::time::SystemTime::now: nanoseconds since the Unix epoch (0
/// before it), truncated to 64 bits. The clock is read, so nothing is stated.
#[verifier::external_body]
fn clock_nanos() -> (r: u64) {
    std::time::SystemTime::now()
        .duration_since(std::time::UNIX_EPOCH)
        .unwrap_or_default()
        .as_nanos() as u64
}

/// Relies on std::collections::hash_map::RandomState: hashes `x` with a
/// randomly seeded hasher, so nothing is stated of the result.
#[verifier::external_body]
fn seeded_hash(x: u64) -> (r: u64) {
    let mut h = std::collections::hash_map::RandomState::new().build_hasher();
    h.write_u64(x);
    h.finish()
}

/// A locally administered unicast MAC with the QEMU prefix `52:54`, whose
/// last four bytes are the low 32 bits of `v`, most significant first.
pub open spec fn mac_of_seed(v: u64) -> Seq<u8> {
    seq![
        0x52u8,
        0x54u8,
        (v >> 24u64) as u8,
        (v >> 16u64) as u8,
        (v >> 8u64) as u8,
        v as u8,
    ]
}

/// The MAC address bytes derived from `v`.
pub fn mac_from_seed(v: u64) -> (r: [u8; 6])
    ensures
        r@ == mac_of_seed(v),
{
    let r: [u8; 6] = [0x52u8, 0x54u8, (v >> 24u64) as u8, (v >> 16u64) as u8, (v >> 8u64) as u8, v as u8];
    assert(r@ =~= mac_of_seed(v));
    r
}

/// Generates a locally administered unicast MAC address from random bytes.
fn rand_mac() -> (r: [u8; 6])
    ensures
        exists|v: u64| r@ == mac_of_seed(v),
{
    let v = seeded_hash(clock_nanos());
    mac_from_seed(v)
}

/// The lowercase hexadecimal digit of `n`.
pub open spec fn hex_digit(n: int) -> char {
    "0123456789abcdef"@[n]
}

/// A byte as two lowercase hexadecimal digits.
pub open spec fn hex_byte(b: u8) -> Seq<char> {
    seq![hex_digit(b as int / 16), hex_digit(b as int % 16)]
}

/// Six bytes written `xx:xx:xx:xx:xx:xx`.
pub open spec fn mac_text(b: Seq<u8>) -> Seq<char> {
    hex_byte(b[0]) + seq![':'] + hex_byte(b[1]) + seq![':'] + hex_byte(b[2]) + seq![':'] + hex_byte(
        b[3],
    ) + seq![':'] + hex_byte(b[4]) + seq![':'] + hex_byte(b[5])
}

fn append_hex_byte(s: &mut String, b: u8)
    ensures
        final(s)@ == old(s)@ + hex_byte(b),
{
    let digits = "0123456789abcdef";
    proof {
        reveal_strlit("0123456789abcdef");
    }
    let hi = (b / 16) as usize;
    let lo = (b % 16) as usize;
    s.append(digits.substring_char(hi, hi + 1));
    s.append(digits.substring_char(lo, lo + 1));
    proof {
        assert(digits@.subrange(hi as int, hi + 1) =~= seq![hex_digit(b as int / 16)]);
        assert(digits@.subrange(lo as int, lo + 1) =~= seq![hex_digit(b as int % 16)]);
        assert(final(s)@ =~= old(s)@ + hex_byte(b));
    }
}

/// Writes six bytes as a colon-separated lowercase MAC address.
pub fn format_mac(bytes: &[u8; 6]) -> (r: String)
    ensures
        r@ == mac_text(bytes@),
{
    let mut s = String::new();
    let mut i: usize = 0;
    while i < 6
        invariant
            i <= 6,
            i == 0 ==> s@ == Seq::<char>::empty(),
            i > 0 ==> s@ == mac_prefix(bytes@, i as int),
        decreases 6 - i,
    {
        if i > 0 {
            proof {
                reveal_strlit(":");
            }
            s.append(":");
        }
        append_hex_byte(&mut s, bytes[i]);
        proof {
            if i == 0 {
                assert(s@ =~= mac_prefix(bytes@, 1));
            } else {
                assert(s@ =~= mac_prefix(bytes@, i + 1));
            }
        }
        i = i + 1;
    }
    proof {
        reveal_with_fuel(mac_prefix, 6);
        assert(mac_prefix(bytes@, 6) =~= mac_text(bytes@));
    }
    s
}

/// The first `n` bytes of a MAC address, written as in `mac_text`.
pub open spec fn mac_prefix(b: Seq<u8>, n: int) -> Seq<char>
    decreases n,
{
    if n <= 1 {
        hex_byte(b[0])
    } else {
        mac_prefix(b, n - 1) + seq![':'] + hex_byte(b[n - 1])
    }
}

/// The backend's decision for `state`, from what was observed of the VM:
/// whether the pid in its pidfile is alive, the QMP `status` if QMP answered,
/// and whether the work directory exists.
pub open spec fn state_of(pid_alive: bool, qmp_status: Option<Seq<char>>, work_dir_exists: bool) -> VmState {
    if pid_alive {
        match qmp_status {
            Some(st) => if st == "running"@ {
                VmState::Running
            } else if st == "paused"@ || st == "suspended"@ {
                VmState::Stopped
            } else {
                VmState::Running
            },
            None => VmState::Running,
        }
    } else if work_dir_exists {
        VmState::Stopped
    } else {
        VmState::Destroyed
    }
}

/// Maps observations of a VM to its state.
pub fn decide_state(pid_alive: bool, qmp_status: Option<String>, work_dir_exists: bool) -> (r: VmState)
    ensures
        r == state_of(pid_alive, opt_view(qmp_status), work_dir_exists),
{
    if pid_alive {
        match qmp_status {
            Some(st) => {
                if st == String::from_str("running") {
                    VmState::Running
                } else if st == String::from_str("paused") || st == String::from_str("suspended") {
                    VmState::Stopped
                } else {
                    VmState::Running
                }
            },
            None => VmState::Running,
        }
    } else if work_dir_exists {
        VmState::Stopped
    } else {
        VmState::Destroyed
    }
}

/// `state` reports `Destroyed` exactly when the work directory is gone. The
/// pidfile lives in the work directory, so a live pid is only ever read from
/// an existing one.
pub proof fn lemma_destroyed_iff_no_work_dir(
    pid_alive: bool,
    qmp_status: Option<Seq<char>>,
    work_dir_exists: bool,
)
    requires
        pid_alive ==> work_dir_exists,
    ensures
        (state_of(pid_alive, qmp_status, work_dir_exists) == VmState::Destroyed) <==> !work_dir_exists,
{
}

/// The status that a `query-status` exchange gives `state`: the returned
/// status, if the command succeeded with one.
pub open spec fn status_from_outcome(o: Option<Result<Option<Seq<char>>, Seq<char>>>) -> Option<Seq<char>> {
    match o {
        Some(Ok(Some(s))) => Some(s),
        _ => None,
    }
}

/// Events interleaved in the QMP stream do not change the state reported:
/// the state from the messages `rs` equals that from `rs` without events.
pub proof fn lemma_state_ignores_events(pid_alive: bool, rs: Seq<QmpReply>, work_dir_exists: bool)
    ensures
        state_of(pid_alive, status_from_outcome(command_outcome(rs)), work_dir_exists) == state_of(
            pid_alive,
            status_from_outcome(command_outcome(strip_events(rs))),
            work_dir_exists,
        ),
{
    lemma_events_ignored(rs);
}

/// The seed files of a VM: its user-data, and its meta-data, synthesized from
/// the instance id and hostname (both defaulting to the VM name) when absent.
pub open spec fn seed_of(spec: VmSpec) -> Option<(Seq<u8>, Seq<u8>)> {
    match spec.cloud_init {
        Some(ci) => Some(
            (
                ci.user_data@,
                match ci.meta_data {
                    Some(m) => m@,
                    None => encode_utf8(
                        meta_data_text(
                            match ci.instance_id {
                                Some(i) => i@,
                                None => spec.name@,
                            },
                            match ci.hostname {
                                Some(h) => h@,
                                None => spec.name@,
                            },
                        ),
                    ),
                },
            ),
        ),
        None => None,
    }
}

/// The contents of the cloud-init seed of `spec`, `(user_data, meta_data)`, if
/// it asks for one.
pub fn seed_files(spec: &VmSpec) -> (r: Option<(Vec<u8>, Vec<u8>)>)
    ensures
        match (r, seed_of(*spec)) {
            (Some(f), Some(g)) => f.0@ == g.0 && f.1@ == g.1,
            (None, None) => true,
            _ => false,
        },
{
    match &spec.cloud_init {
        Some(ci) => {
            let meta = match &ci.meta_data {
                Some(m) => m.clone(),
                None => {
                    let iid = match &ci.instance_id {
                        Some(i) => i.as_str(),
                        None => spec.name.as_str(),
                    };
                    let host = match &ci.hostname {
                        Some(h) => h.as_str(),
                        None => spec.name.as_str(),
                    };
                    meta_data_bytes(iid, host)
                },
            };
            Some((ci.user_data.clone(), meta))
        },
        None => None,
    }
}

impl QemuBackend {
    /// A backend with the given binary (default `qemu-system-x86_64`), data
    /// directory (default `<user data dir or /tmp>/vmctl/vms`) and bridge.
    pub fn new(qemu_binary: Option<String>, data_dir: Option<String>, default_bridge: Option<String>) -> (r: Self)
        ensures
            r.qemu_binary@ == match qemu_binary {
                Some(b) => b@,
                None => default_qemu_binary(),
            },
            data_dir is Some ==> r.data_dir@ == data_dir.unwrap()@,
            data_dir is None ==> exists|base: Option<Seq<char>>| r.data_dir@ == app_data_path(base, "vms"@),
            opt_view(r.default_bridge) == opt_view(default_bridge),
    {
        let data_dir = match data_dir {
            Some(d) => d,
            None => {
                let base = host_data_dir();
                let d = app_data_dir(base, "vms");
                d
            },
        };
        let qemu_binary = match qemu_binary {
            Some(b) => b,
            None => String::from_str("qemu-system-x86_64"),
        };
        QemuBackend { qemu_binary, data_dir, default_bridge }
    }

    /// The work directory of the VM called `name`.
    pub fn work_dir(&self, name: &str) -> (r: String)
        ensures
            r@ == path_join(self.data_dir@, name@),
    {
        join_path(self.data_dir.as_str(), name)
    }

    /// Generates a random locally administered MAC address, `52:54:xx:xx:xx:xx`.
    pub fn generate_mac() -> (r: String)
        ensures
            exists|v: u64| r@ == mac_text(mac_of_seed(v)),
    {
        let bytes = rand_mac();
        format_mac(&bytes)
    }

    /// The handle of a VM prepared from `spec` under this backend's data
    /// directory, identified by `uuid`.
    pub fn handle_for(&self, spec: &VmSpec, uuid: &str) -> (r: VmHandle)
        ensures
            r.id@ == "qemu-"@ + uuid@,
            prepared_by(self.data_dir@, *spec, r),
    {
        let work_dir = self.work_dir(spec.name.as_str());
        let overlay = join_path(work_dir.as_str(), "overlay.qcow2");
        let seed = match &spec.cloud_init {
            Some(_) => Some(join_path(work_dir.as_str(), "seed.iso")),
            None => None,
        };
        let qmp = join_path(work_dir.as_str(), "qmp.sock");
        let console = join_path(work_dir.as_str(), "console.sock");
        let mut id = String::from_str("qemu-");
        id.append(uuid);
        VmHandle {
            id,
            name: spec.name.clone(),
            backend: BackendTag::Qemu,
            vcpus: spec.vcpus,
            memory_mb: spec.memory_mb,
            work_dir,
            overlay_path: Some(overlay),
            seed_iso_path: seed,
            pid: None,
            qmp_socket: Some(qmp),
            console_socket: Some(console),
            vnc_addr: None,
        }
    }

    /// The handle of a VM prepared from `spec`, with a fresh random id.
    pub fn prepare_handle(&self, spec: &VmSpec) -> (r: VmHandle)
        ensures
            exists|u: Seq<char>| r.id@ == "qemu-"@ + u,
            prepared_by(self.data_dir@, *spec, r),
    {
        let uuid = fresh_uuid();
        self.handle_for(spec, uuid.as_str())
    }

    /// The console of a QEMU VM: its serial socket, when the handle has one.
    pub fn console_endpoint(&self, vm: &VmHandle) -> (r: Result<ConsoleEndpoint, VmError>)
        ensures
            match (r, vm.console_socket) {
                (Ok(ConsoleEndpoint::UnixSocket(p)), Some(c)) => p@ == c@,
                (Ok(ConsoleEndpoint::Unavailable), None) => true,
                _ => false,
            },
    {
        match &vm.console_socket {
            Some(p) => Ok(ConsoleEndpoint::UnixSocket(p.clone())),
            None => Ok(ConsoleEndpoint::Unavailable),
        }
    }
}

/// The overlay that `prepare` creates for a handle it returned is a QCOW2
/// file at `<work_dir>/overlay.qcow2` whose backing file is the spec's image:
/// `qemu-img create -f qcow2 -F <format> -b <image_path> <overlay>`.
pub proof fn lemma_overlay_backed_by_image(data_dir: Seq<char>, spec: VmSpec, h: VmHandle, format: Seq<char>)
    requires
        prepared_by(data_dir, spec, h),
    ensures
        ({
            let a = overlay_argv(spec.image_path@, h.overlay_path.unwrap()@, format, spec.disk_gb);
            &&& a[0] == "create"@
            &&& a[1] == "-f"@ && a[2] == "qcow2"@
            &&& a[3] == "-F"@ && a[4] == format
            &&& a[5] == "-b"@ && a[6] == spec.image_path@
            &&& a[7] == path_join(h.work_dir@, "overlay.qcow2"@)
            &&& h.work_dir@ == path_join(data_dir, spec.name@)
        }),
{
}

/// `h` is the handle that `prepare` gives for `spec` under `data_dir`: the
/// per-VM paths all lie in `<data_dir>/<name>`, the seed only with cloud-init.
pub open spec fn prepared_by(data_dir: Seq<char>, spec: VmSpec, h: VmHandle) -> bool {
    let wd = path_join(data_dir, spec.name@);
    &&& h.name@ == spec.name@
    &&& h.backend == BackendTag::Qemu
    &&& h.vcpus == spec.vcpus
    &&& h.memory_mb == spec.memory_mb
    &&& h.work_dir@ == wd
    &&& opt_view(h.overlay_path) == Some(path_join(wd, "overlay.qcow2"@))
    &&& opt_view(h.seed_iso_path) == if spec.cloud_init is Some {
        Some(path_join(wd, "seed.iso"@))
    } else {
        None
    }
    &&& h.pid is None
    &&& opt_view(h.qmp_socket) == Some(path_join(wd, "qmp.sock"@))
    &&& opt_view(h.console_socket) == Some(path_join(wd, "console.sock"@))
    &&& h.vnc_addr is None
}

/// Pause between two looks at the pidfile while waiting for an ACPI shutdown.
pub const POLL_INTERVAL_MS: u64 = 500;

/// Time given to QEMU to exit after `SIGTERM` before `SIGKILL`.
pub const TERM_GRACE_MS: u64 = 3000;

/// Connect timeout for the best-effort QMP commands of `stop` and `destroy`.
pub const PROBE_QMP_TIMEOUT_MS: u64 = 2000;

/// Connect timeout for QMP after spawning QEMU.
pub const START_QMP_TIMEOUT_MS: u64 = 10000;

/// Connect timeout for `suspend` and `resume`.
pub const CONTROL_QMP_TIMEOUT_MS: u64 = 5000;

/// Timeout of the `stop` that `destroy` runs first.
pub const DESTROY_STOP_TIMEOUT_MS: u64 = 5000;

/// What was seen of the QEMU process through its pidfile.
#[derive(Debug, Clone, Copy, PartialEq, Eq, Structural)]
pub enum PidStatus {
    /// There is no readable pid in the pidfile.
    NoPidfile,
    /// The pid is read and no such process exists.
    Exited { pid: u32 },
    /// The pid is read and the process exists.
    Alive { pid: u32 },
}

/// Where the shutdown of a VM stands.
#[derive(Debug, Clone, Copy, PartialEq, Eq, Structural)]
pub enum StopPhase {
    /// The ACPI powerdown was requested; waiting for the process to exit.
    Polling,
    /// `SIGTERM` was sent to `pid` and its grace time has passed.
    Terminated { pid: u32 },
    /// Nothing more is to be done.
    Finished,
}

/// What the caller does next while stopping a VM.
#[derive(Debug, Clone, Copy, PartialEq, Eq, Structural)]
pub enum StopAction {
    /// Stop has succeeded.
    Done,
    /// Look at the pidfile again after this many milliseconds.
    Sleep { ms: u64 },
    /// Send `SIGTERM` to `pid`, wait `TERM_GRACE_MS`, then report whether it lives.
    Terminate { pid: u32 },
    /// Send `SIGKILL` to `pid`; stop has then succeeded.
    Kill { pid: u32 },
}

/// The shutdown state machine: ACPI, then polling until `timeout_ms`, then
/// `SIGTERM`, then `SIGKILL`. An absent pidfile or a dead pid ends it.
pub open spec fn stop_next(phase: StopPhase, seen: PidStatus, elapsed_ms: u64, timeout_ms: u64) -> (
    StopPhase,
    StopAction,
) {
    match phase {
        StopPhase::Polling => match seen {
            PidStatus::Alive { pid } => if elapsed_ms >= timeout_ms {
                (StopPhase::Terminated { pid }, StopAction::Terminate { pid })
            } else {
                (StopPhase::Polling, StopAction::Sleep { ms: POLL_INTERVAL_MS })
            },
            _ => (StopPhase::Finished, StopAction::Done),
        },
        StopPhase::Terminated { pid } => match seen {
            PidStatus::Alive { pid: p } => (StopPhase::Finished, StopAction::Kill { pid: p }),
            _ => (StopPhase::Finished, StopAction::Done),
        },
        StopPhase::Finished => (StopPhase::Finished, StopAction::Done),
    }
}

/// One step of `stop`: from the phase, what the pidfile showed and the time
/// spent since the ACPI request, the next phase and what to do.
pub fn stop_step(phase: StopPhase, seen: PidStatus, elapsed_ms: u64, timeout_ms: u64) -> (r: (
    StopPhase,
    StopAction,
))
    ensures
        r == stop_next(phase, seen, elapsed_ms, timeout_ms),
{
    match phase {
        StopPhase::Polling => match seen {
            PidStatus::Alive { pid } => {
                if elapsed_ms >= timeout_ms {
                    (StopPhase::Terminated { pid }, StopAction::Terminate { pid })
                } else {
                    (StopPhase::Polling, StopAction::Sleep { ms: POLL_INTERVAL_MS })
                }
            },
            _ => (StopPhase::Finished, StopAction::Done),
        },
        StopPhase::Terminated { pid } => match seen {
            PidStatus::Alive { pid: p } => (StopPhase::Finished, StopAction::Kill { pid: p }),
            _ => (StopPhase::Finished, StopAction::Done),
        },
        StopPhase::Finished => (StopPhase::Finished, StopAction::Done),
    }
}

/// Escalation is ordered: `SIGKILL` is only sent from the phase that follows
/// a `SIGTERM`, and that phase is only entered by sending `SIGTERM` once the
/// timeout has passed with the process alive.
pub proof fn lemma_kill_only_after_terminate(phase: StopPhase, seen: PidStatus, elapsed_ms: u64, timeout_ms: u64)
    ensures
        ({
            let (next, act) = stop_next(phase, seen, elapsed_ms, timeout_ms);
            &&& act is Kill ==> phase is Terminated
            &&& (next is Terminated && phase !is Terminated) ==> (act is Terminate && phase is Polling
                && seen is Alive && elapsed_ms >= timeout_ms)
            &&& act is Terminate ==> next == (StopPhase::Terminated { pid: act->Terminate_pid })
        }),
{
}

/// `stop` never leaves a process behind that it last saw alive: it reports
/// success only after seeing no live pid, or together with a `SIGKILL` of the
/// live pid it saw; and every step that does not finish waits for something.
pub proof fn lemma_stop_ends_dead(phase: StopPhase, seen: PidStatus, elapsed_ms: u64, timeout_ms: u64)
    ensures
        ({
            let (next, act) = stop_next(phase, seen, elapsed_ms, timeout_ms);
            &&& act is Done ==> !(seen is Alive) || phase is Finished
            &&& (next is Finished && phase !is Finished) ==> (act is Done && !(seen is Alive)) || act
                == (StopAction::Kill { pid: seen->Alive_pid })
            &&& next !is Finished ==> act is Sleep || act is Terminate
        }),
{
}

/// The guest IP that one line of `ip neigh show` offers: on a `REACHABLE` or
/// `STALE` entry, its first token, when it holds a `.` and does not start
/// with `127.`.
pub open spec fn neigh_candidate(line: Seq<char>) -> Option<Seq<char>> {
    if contains(line, "REACHABLE"@) || contains(line, "STALE"@) {
        match nth_token(line, 0, 0) {
            Some(t) => if contains(t, seq!['.']) && !starts_with(t, "127."@) {
                Some(t)
            } else {
                None
            },
            None => None,
        }
    } else {
        None
    }
}

/// The candidate of the first line that offers one.
pub open spec fn first_neigh_ip(lines: Seq<Seq<char>>) -> Option<Seq<char>>
    decreases lines.len(),
{
    if lines.len() == 0 {
        None
    } else {
        match neigh_candidate(lines[0]) {
            Some(t) => Some(t),
            None => first_neigh_ip(lines.drop_first()),
        }
    }
}

/// The guest IP found in the output of `ip neigh show`.
pub open spec fn neigh_ip(text: Seq<char>) -> Option<Seq<char>> {
    first_neigh_ip(lines_of(text))
}

/// The IP of the newest lease in a dnsmasq leases file: the third field of
/// its last line (`<epoch> <mac> <ip> <hostname> <clientid>`).
pub open spec fn lease_ip(text: Seq<char>) -> Option<Seq<char>> {
    let ls = lines_of(text);
    if ls.len() == 0 {
        None
    } else {
        nth_token(ls.last(), 0, 2)
    }
}

/// What `guest_ip` finds: first in the neighbour table, then, with a default
/// bridge configured, in the dnsmasq leases.
pub open spec fn guest_ip_of(neigh: Option<Seq<char>>, has_bridge: bool, leases: Option<Seq<char>>) -> Option<
    Seq<char>,
> {
    let from_neigh = match neigh {
        Some(t) => neigh_ip(t),
        None => None,
    };
    if from_neigh is Some {
        from_neigh
    } else if has_bridge && leases is Some {
        lease_ip(leases.unwrap())
    } else {
        None
    }
}

fn line_candidate(line: &str) -> (r: Option<String>)
    ensures
        opt_view(r) == neigh_candidate(line@),
{
    if str_contains(line, "REACHABLE") || str_contains(line, "STALE") {
        match token(line, 0) {
            Some(t) => {
                let dot = str_contains(t.as_str(), ".");
                proof {
                    reveal_strlit(".");
                    assert("."@ =~= seq!['.']);
                }
                if dot && !str_starts_with(t.as_str(), "127.") {
                    Some(t)
                } else {
                    None
                }
            },
            None => None,
        }
    } else {
        None
    }
}

/// Scans the output of `ip neigh show` for the guest's IP.
pub fn parse_neigh_ip(text: &str) -> (r: Option<String>)
    ensures
        opt_view(r) == neigh_ip(text@),
{
    let n = text.unicode_len();
    let mut pos: usize = 0;
    proof {
        assert(text@.subrange(0, n as int) =~= text@);
    }
    loop
        invariant
            n == text@.len(),
            pos <= n,
            neigh_ip(text@) == first_neigh_ip(lines_of(text@.subrange(pos as int, n as int))),
        decreases n - pos,
    {
        if pos >= n {
            proof {
                assert(text@.subrange(pos as int, n as int).len() == 0);
            }
            return None;
        }
        let (line, next) = line_at(text, pos);
        let c = line_candidate(line.as_str());
        proof {
            let ls = lines_of(text@.subrange(pos as int, n as int));
            assert(ls.drop_first() =~= lines_of(text@.subrange(next as int, n as int)));
        }
        if c.is_some() {
            return c;
        }
        pos = next;
    }
}

/// The IP of the newest lease in the contents of a dnsmasq leases file.
pub fn parse_lease_ip(text: &str) -> (r: Option<String>)
    ensures
        opt_view(r) == lease_ip(text@),
{
    let n = text.unicode_len();
    let mut pos: usize = 0;
    let mut last: Option<String> = None;
    let ghost mut done: Seq<Seq<char>> = Seq::empty();
    proof {
        assert(text@.subrange(0, n as int) =~= text@);
    }
    while pos < n
        invariant
            n == text@.len(),
            pos <= n,
            lines_of(text@) == done + lines_of(text@.subrange(pos as int, n as int)),
            done.len() == 0 <==> last is None,
            done.len() > 0 ==> last.unwrap()@ == done.last(),
        decreases n - pos,
    {
        let (line, next) = line_at(text, pos);
        proof {
            done = done.push(line@);
            assert(done.last() == line@);
            assert(lines_of(text@) =~= done + lines_of(text@.subrange(next as int, n as int)));
        }
        last = Some(line);
        pos = next;
    }
    proof {
        assert(text@.subrange(pos as int, n as int).len() == 0);
        assert(lines_of(text@) =~= done);
    }
    match last {
        Some(l) => token(l.as_str(), 2),
        None => None,
    }
}

/// Picks the guest IP from the neighbour table output, then, with a default
/// bridge, from the dnsmasq leases; fails with `IpDiscoveryTimeout` naming
/// the VM when neither gives one. `None` stands for a source that could not
/// be read.
pub fn select_guest_ip(name: &str, neigh: Option<&str>, has_bridge: bool, leases: Option<&str>) -> (r: Result<
    String,
    VmError,
>)
    ensures
        match (r, guest_ip_of(opt_str_view(neigh), has_bridge, opt_str_view(leases))) {
            (Ok(ip), Some(want)) => ip@ == want,
            (Err(VmError::IpDiscoveryTimeout { name: n }), None) => n@ == name@,
            _ => false,
        },
{
    let from_neigh = match neigh {
        Some(t) => parse_neigh_ip(t),
        None => None,
    };
    match from_neigh {
        Some(ip) => {
            return Ok(ip);
        },
        None => {},
    }
    if has_bridge {
        match leases {
            Some(l) => match parse_lease_ip(l) {
                Some(ip) => {
                    return Ok(ip);
                },
                None => {},
            },
            None => {},
        }
    }
    Err(VmError::IpDiscoveryTimeout { name: name.to_owned() })
}

} // verus!
