use vstd::prelude::*;

use crate::paths::{join_path, path_join};
use crate::text::{append_decimal, decimal};

verus! {

/// A shell provision step: an inline command or a local script.
#[derive(Debug, Clone)]
pub struct ShellProvision {
    pub inline: Option<String>,
    pub script: Option<String>,
}

/// A file provision step: copy `source` to `destination` on the guest.
#[derive(Debug, Clone)]
pub struct FileProvision {
    pub source: String,
    pub destination: String,
}

/// One provision step.
#[derive(Debug, Clone)]
pub enum ProvisionDef {
    Shell(ShellProvision),
    File(FileProvision),
}

/// A path of the VM file: absolute as written, else relative to `base_dir`.
pub open spec fn resolved_path(raw: Seq<char>, base_dir: Seq<char>) -> Seq<char> {
    if raw.len() > 0 && raw[0] == '/' {
        raw
    } else {
        path_join(base_dir, raw)
    }
}

/// Resolves `raw` against the directory of the VM file.
pub fn resolve_path(raw: &str, base_dir: &str) -> (r: String)
    ensures
        r@ == resolved_path(raw@, base_dir@),
{
    if raw.unicode_len() > 0 && raw.get_char(0) == '/' {
        raw.to_owned()
    } else {
        join_path(base_dir, raw)
    }
}

/// Where the script of step `step` is uploaded on the guest.
pub open spec fn script_remote(step: u64) -> Seq<char> {
    "/tmp/vmctl-provision-"@ + decimal(step as nat) + ".sh"@
}

/// The guest path of the script of step `step`.
pub fn script_remote_path(step: u64) -> (r: String)
    ensures
        r@ == script_remote(step),
{
    let mut s = String::from_str("/tmp/vmctl-provision-");
    append_decimal(&mut s, step);
    s.append(".sh");
    s
}

/// The command that makes an uploaded script executable and runs it.
pub open spec fn script_command(remote: Seq<char>) -> Seq<char> {
    "chmod +x "@ + remote + " && "@ + remote
}

/// The shell command that runs the script at `remote`.
pub fn script_run_command(remote: &str) -> (r: String)
    ensures
        r@ == script_command(remote@),
{
    let mut s = String::from_str("chmod +x ");
    s.append(remote);
    s.append(" && ");
    s.append(remote);
    s
}

/// One stream of a step's output in the provision log, when not empty: a
/// header, the text, and a newline if the text lacks a final one.
pub open spec fn log_stream(header: Seq<char>, text: Seq<char>) -> Seq<char> {
    if text.len() == 0 {
        Seq::empty()
    } else {
        header + text + if text.last() == '\n' {
            Seq::<char>::empty()
        } else {
            seq!['\n']
        }
    }
}

/// The entry appended to `provision.log` for a step.
pub open spec fn log_entry(step: u64, label: Seq<char>, stdout: Seq<char>, stderr: Seq<char>) -> Seq<char> {
    "=== Step "@ + decimal(step as nat) + ": "@ + label + " ===\n"@ + log_stream("--- stdout ---\n"@, stdout)
        + log_stream("--- stderr ---\n"@, stderr) + seq!['\n']
}

fn append_stream(s: &mut String, header: &str, text: &str)
    ensures
        final(s)@ == old(s)@ + log_stream(header@, text@),
{
    let n = text.unicode_len();
    if n == 0 {
        assert(final(s)@ =~= old(s)@ + log_stream(header@, text@));
        return;
    }
    s.append(header);
    s.append(text);
    if text.get_char(n - 1) != '\n' {
        proof {
            reveal_strlit("\n");
        }
        s.append("\n");
    }
    assert(final(s)@ =~= old(s)@ + log_stream(header@, text@));
}

/// The text appended to the provision log for step `step`.
pub fn provision_log_entry(step: u64, label: &str, stdout: &str, stderr: &str) -> (r: String)
    ensures
        r@ == log_entry(step, label@, stdout@, stderr@),
{
    let mut s = String::from_str("=== Step ");
    append_decimal(&mut s, step);
    s.append(": ");
    s.append(label);
    s.append(" ===\n");
    append_stream(&mut s, "--- stdout ---\n", stdout);
    append_stream(&mut s, "--- stderr ---\n", stderr);
    proof {
        reveal_strlit("\n");
    }
    s.append("\n");
    s
}

} // verus!
