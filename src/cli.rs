use vstd::prelude::*;

use crate::paths::{join_path, path_join};
use crate::text::{append_decimal, decimal, line_at, lines_of, strings_view};

verus! {

/// Arguments of `vmctl console`.
#[derive(Debug, Clone)]
pub struct ConsoleArgs {
    /// VM name
    pub name: String,
}

/// Arguments of `vmctl destroy`.
#[derive(Debug, Clone)]
pub struct DestroyArgs {
    /// VM name
    pub name: String,
}

/// Arguments of `vmctl status`.
#[derive(Debug, Clone)]
pub struct StatusArgs {
    /// VM name
    pub name: String,
}

/// Arguments of `vmctl list`.
#[derive(Debug, Clone, Copy)]
pub struct ListArgs;

/// Arguments of `vmctl start`.
#[derive(Debug, Clone)]
pub struct StartArgs {
    /// VM name
    pub name: String,
}

/// Arguments of `vmctl stop`.
#[derive(Debug, Clone)]
pub struct StopArgs {
    /// VM name
    pub name: String,
    /// Seconds to wait for an ACPI shutdown before signalling QEMU
    pub timeout: u64,
}

/// Arguments of `vmctl suspend`.
#[derive(Debug, Clone)]
pub struct SuspendArgs {
    /// VM name
    pub name: String,
}

/// Arguments of `vmctl resume`.
#[derive(Debug, Clone)]
pub struct ResumeArgs {
    /// VM name
    pub name: String,
}

/// Arguments of `vmctl create`.
#[derive(Debug, Clone)]
pub struct CreateArgs {
    /// VM name
    pub name: String,
    /// Path to the base disk image
    pub image: String,
    /// Number of virtual CPUs
    pub vcpus: u16,
    /// Memory in MiB
    pub memory_mb: u64,
    /// Resize the overlay to this many GiB
    pub disk_gb: Option<u32>,
    /// Cloud-init user-data file
    pub user_data: Option<String>,
    /// Use the noop backend
    pub noop: bool,
    /// Start the VM once created
    pub start: bool,
}

/// Arguments of `vmctl log`.
#[derive(Debug, Clone)]
pub struct LogArgs {
    /// VM name
    pub name: String,
    /// Show only console log (boot / cloud-init)
    pub console: bool,
    /// Show only provision log
    pub provision: bool,
    /// Show the last N lines (0 = all)
    pub tail: usize,
}

impl LogArgs {
    /// Which logs to show, `(console, provision)`: both when neither flag is set.
    pub fn sections(&self) -> (r: (bool, bool))
        ensures
            r == (self.console || !self.provision, self.provision || !self.console),
    {
        (self.console || !self.provision, self.provision || !self.console)
    }
}

/// Arguments of `vmctl ssh`.
#[derive(Debug, Clone)]
pub struct SshArgs {
    /// VM name (inferred when only one VM is defined)
    pub name: Option<String>,
    /// SSH user
    pub user: Option<String>,
    /// Path to SSH private key
    pub key: Option<String>,
    /// Path to the VM file (for reading the ssh user)
    pub file: Option<String>,
}

/// Arguments of `vmctl image pull`.
#[derive(Debug, Clone)]
pub struct PullArgs {
    /// URL to download
    pub url: String,
    /// Name to save as in the cache
    pub name: Option<String>,
}

/// Arguments of `vmctl image inspect`.
#[derive(Debug, Clone)]
pub struct InspectArgs {
    /// Path to the image file
    pub path: String,
}

/// What `vmctl image` does.
#[derive(Debug, Clone)]
pub enum ImageAction {
    /// Download an image to the local cache
    Pull(PullArgs),
    /// List cached images
    List,
    /// Show image format and details
    Inspect(InspectArgs),
}

/// Arguments of `vmctl image`.
#[derive(Debug, Clone)]
pub struct ImageCommand {
    pub action: ImageAction,
}

/// The subcommands of `vmctl`.
#[derive(Debug, Clone)]
pub enum Command {
    /// Create a new VM (and optionally start it)
    Create(CreateArgs),
    /// Start an existing VM
    Start(StartArgs),
    /// Stop a running VM
    Stop(StopArgs),
    /// Destroy a VM and clean up all resources
    Destroy(DestroyArgs),
    /// List all VMs
    List(ListArgs),
    /// Show VM status
    Status(StatusArgs),
    /// Attach to a VM's serial console
    Console(ConsoleArgs),
    /// SSH into a VM
    Ssh(SshArgs),
    /// Suspend a running VM (pause vCPUs)
    Suspend(SuspendArgs),
    /// Resume a suspended VM
    Resume(ResumeArgs),
    /// Manage VM images
    Image(ImageCommand),
    /// Show a VM's console and provision logs
    Log(LogArgs),
}

/// The `vmctl` command line.
#[derive(Debug, Clone)]
pub struct Cli {
    pub command: Command,
}

/// The byte (Ctrl+]) that detaches from a console.
pub const DETACH_BYTE: u8 = 0x1d;

/// Whether console input holds the detach byte.
pub fn has_detach(input: &[u8]) -> (r: bool)
    ensures
        r == input@.contains(DETACH_BYTE),
{
    let mut i: usize = 0;
    while i < input.len()
        invariant
            i <= input@.len(),
            forall|k: int| 0 <= k < i ==> input@[k] != DETACH_BYTE,
        decreases input@.len() - i,
    {
        if input[i] == DETACH_BYTE {
            return true;
        }
        i = i + 1;
    }
    false
}

/// The VM a command means when none is named: the only one defined.
pub fn default_vm_name(defined: &Vec<String>) -> (r: Option<String>)
    ensures
        defined@.len() == 1 ==> (r matches Some(n) && n@ == defined@[0]@),
        defined@.len() != 1 ==> r is None,
{
    if defined.len() == 1 {
        Some(defined[0].clone())
    } else {
        None
    }
}

/// The key files tried for `vmctl ssh`, in order of preference.
pub open spec fn ssh_key_paths(home: Seq<char>) -> Seq<Seq<char>> {
    let dir = path_join(home, ".ssh"@);
    seq![path_join(dir, "id_ed25519"@), path_join(dir, "id_ecdsa"@), path_join(dir, "id_rsa"@)]
}

/// The SSH key files to look for under `home` (`/root` when unknown).
pub fn ssh_key_candidates(home: Option<String>) -> (r: Vec<String>)
    ensures
        strings_view(r@) == ssh_key_paths(
            match home {
                Some(h) => h@,
                None => "/root"@,
            },
        ),
{
    let h = match home {
        Some(h) => h,
        None => String::from_str("/root"),
    };
    let dir = join_path(h.as_str(), ".ssh");
    let r = vec![
        join_path(dir.as_str(), "id_ed25519"),
        join_path(dir.as_str(), "id_ecdsa"),
        join_path(dir.as_str(), "id_rsa"),
    ];
    assert(strings_view(r@) =~= ssh_key_paths(h@));
    r
}

/// The arguments of the system `ssh` for an interactive session.
pub open spec fn ssh_argv(user: Seq<char>, ip: Seq<char>, port: u16, key: Option<Seq<char>>) -> Seq<Seq<char>> {
    let base = seq!["-o"@, "StrictHostKeyChecking=no"@, "-o"@, "UserKnownHostsFile=/dev/null"@];
    let with_port = if port != 22 {
        base + seq!["-p"@, decimal(port as nat)]
    } else {
        base
    };
    let with_key = match key {
        Some(k) => with_port + seq!["-i"@, k],
        None => with_port,
    };
    with_key.push(user + "@"@ + ip)
}

/// Arguments for the system `ssh` to log in as `user` at `ip`.
pub fn ssh_command_args(user: &str, ip: &str, port: u16, key: Option<&str>) -> (r: Vec<String>)
    ensures
        strings_view(r@) == ssh_argv(
            user@,
            ip@,
            port,
            match key {
                Some(k) => Some(k@),
                None => None,
            },
        ),
{
    let mut r = vec![
        String::from_str("-o"),
        String::from_str("StrictHostKeyChecking=no"),
        String::from_str("-o"),
        String::from_str("UserKnownHostsFile=/dev/null"),
    ];
    let ghost base = strings_view(r@);
    if port != 22 {
        r.push(String::from_str("-p"));
        let mut p = String::new();
        append_decimal(&mut p, port as u64);
        r.push(p);
    }
    let ghost with_port = strings_view(r@);
    match key {
        Some(k) => {
            r.push(String::from_str("-i"));
            r.push(k.to_owned());
        },
        None => {},
    }
    let ghost with_key = strings_view(r@);
    let mut target = user.to_owned();
    target.append("@");
    target.append(ip);
    r.push(target);
    proof {
        let k = match key {
            Some(k) => Some(k@),
            None => None,
        };
        let wp = if port != 22 {
            base + seq!["-p"@, decimal(port as nat)]
        } else {
            base
        };
        assert(with_port =~= wp);
        let wk = match k {
            Some(kk) => wp + seq!["-i"@, kk],
            None => wp,
        };
        assert(with_key =~= wk);
        assert(strings_view(r@) =~= ssh_argv(user@, ip@, port, k));
    }
    r
}

/// The last `n` of the lines `ls` (all of them when there are fewer).
pub open spec fn tail_of(ls: Seq<Seq<char>>, n: nat) -> Seq<Seq<char>> {
    if n >= ls.len() {
        ls
    } else {
        ls.subrange(ls.len() - n, ls.len() as int)
    }
}

/// All the lines of `content`.
pub fn all_lines(content: &str) -> (r: Vec<String>)
    ensures
        strings_view(r@) == lines_of(content@),
{
    let n = content.unicode_len();
    let mut pos: usize = 0;
    let mut out: Vec<String> = Vec::new();
    proof {
        assert(content@.subrange(0, n as int) =~= content@);
    }
    while pos < n
        invariant
            n == content@.len(),
            pos <= n,
            lines_of(content@) == strings_view(out@) + lines_of(content@.subrange(pos as int, n as int)),
        decreases n - pos,
    {
        let (line, next) = line_at(content, pos);
        let ghost before = strings_view(out@);
        out.push(line);
        proof {
            assert(strings_view(out@) =~= before.push(line@));
            assert(lines_of(content@) =~= strings_view(out@) + lines_of(content@.subrange(next as int, n as int)));
        }
        pos = next;
    }
    proof {
        assert(content@.subrange(pos as int, n as int).len() == 0);
        assert(strings_view(out@) =~= lines_of(content@));
    }
    out
}

/// The last `tail` lines of a log's `content`.
pub fn log_tail(content: &str, tail: usize) -> (r: Vec<String>)
    ensures
        strings_view(r@) == tail_of(lines_of(content@), tail as nat),
{
    let all = all_lines(content);
    let len = all.len();
    let start: usize = if tail >= len {
        0
    } else {
        len - tail
    };
    let mut out: Vec<String> = Vec::new();
    let mut i = start;
    while i < len
        invariant
            len == all@.len(),
            start <= i <= len,
            strings_view(out@) == strings_view(all@).subrange(start as int, i as int),
        decreases len - i,
    {
        let ghost before = strings_view(out@);
        let c = all[i].clone();
        out.push(c);
        assert(strings_view(out@) =~= before.push(all@[i as int]@));
        i = i + 1;
        assert(strings_view(out@) =~= strings_view(all@).subrange(start as int, i as int));
    }
    assert(strings_view(out@) =~= tail_of(lines_of(content@), tail as nat));
    out
}

} // verus!
