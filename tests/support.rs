use vm_manager::cli::{default_vm_name, has_detach, log_tail, ssh_command_args, ssh_key_candidates, LogArgs};
use vm_manager::error::VmError;
use vm_manager::oci::{auth_for_registry, first_layer, resolve_auth, RegistryCredentials};
use vm_manager::provision::{provision_log_entry, resolve_path, script_remote_path, script_run_command};

#[test]
fn test_resolve_auth_ghcr_without_token() {
    // No GITHUB_TOKEN: ghcr.io is accessed anonymously.
    let reference: oci_client::Reference = "ghcr.io/test/image:latest".parse().unwrap();
    let auth = resolve_auth(&reference, None);
    assert!(matches!(auth, RegistryCredentials::Anonymous));
}

#[test]
fn test_resolve_auth_other_registry() {
    let reference: oci_client::Reference = "docker.io/library/ubuntu:latest".parse().unwrap();
    let auth = resolve_auth(&reference, None);
    assert!(matches!(auth, RegistryCredentials::Anonymous));
}

#[test]
fn resolve_auth_ghcr_with_token() {
    let reference: oci_client::Reference = "ghcr.io/test/image:latest".parse().unwrap();
    match resolve_auth(&reference, Some("tok".into())) {
        RegistryCredentials::Basic { username, password } => {
            assert_eq!(username, "_token");
            assert_eq!(password, "tok");
        }
        other => panic!("unexpected {other:?}"),
    }
    let reference: oci_client::Reference = "quay.io/a/b:1".parse().unwrap();
    assert!(matches!(resolve_auth(&reference, Some("tok".into())), RegistryCredentials::Anonymous));
    assert!(matches!(auth_for_registry("ghcr.io", Some("t".into())), RegistryCredentials::Basic { .. }));
}

#[test]
fn oci_layers() {
    assert_eq!(first_layer("r", vec![vec![1, 2], vec![3]]).unwrap(), vec![1, 2]);
    assert!(matches!(first_layer("r", vec![]), Err(VmError::OciPullFailed { reference, .. }) if reference == "r"));
}

#[test]
fn provision_log_format() {
    assert_eq!(
        provision_log_entry(3, "echo hi", "hi", ""),
        "=== Step 3: echo hi ===\n--- stdout ---\nhi\n\n"
    );
    assert_eq!(
        provision_log_entry(12, "x", "a\n", "err"),
        "=== Step 12: x ===\n--- stdout ---\na\n--- stderr ---\nerr\n\n"
    );
    assert_eq!(provision_log_entry(1, "file-upload", "", ""), "=== Step 1: file-upload ===\n\n");
}

#[test]
fn provision_script_paths() {
    assert_eq!(script_remote_path(7), "/tmp/vmctl-provision-7.sh");
    assert_eq!(script_run_command("/tmp/s.sh"), "chmod +x /tmp/s.sh && /tmp/s.sh");
    assert_eq!(resolve_path("/abs/x.sh", "/base"), "/abs/x.sh");
    assert_eq!(resolve_path("rel/x.sh", "/base"), "/base/rel/x.sh");
}

#[test]
fn log_sections_and_tail() {
    let a = LogArgs { name: "v".into(), console: false, provision: false, tail: 0 };
    assert_eq!(a.sections(), (true, true));
    let a = LogArgs { name: "v".into(), console: true, provision: false, tail: 0 };
    assert_eq!(a.sections(), (true, false));
    assert_eq!(log_tail("a\nb\nc\n", 2), vec!["b", "c"]);
    assert_eq!(log_tail("a\nb", 5), vec!["a", "b"]);
    assert!(log_tail("", 3).is_empty());
}

#[test]
fn ssh_helpers() {
    assert_eq!(
        ssh_command_args("vm", "10.0.0.2", 2222, Some("/k")),
        vec!["-o", "StrictHostKeyChecking=no", "-o", "UserKnownHostsFile=/dev/null", "-p", "2222", "-i", "/k", "vm@10.0.0.2"]
    );
    assert_eq!(
        ssh_command_args("u", "h", 22, None),
        vec!["-o", "StrictHostKeyChecking=no", "-o", "UserKnownHostsFile=/dev/null", "u@h"]
    );
    assert_eq!(
        ssh_key_candidates(Some("/home/a".into())),
        vec!["/home/a/.ssh/id_ed25519", "/home/a/.ssh/id_ecdsa", "/home/a/.ssh/id_rsa"]
    );
    assert_eq!(ssh_key_candidates(None)[0], "/root/.ssh/id_ed25519");
    assert_eq!(default_vm_name(&vec!["only".to_string()]).as_deref(), Some("only"));
    assert_eq!(default_vm_name(&vec!["a".to_string(), "b".to_string()]), None);
    assert!(has_detach(&[1, 2, 0x1d]));
    assert!(!has_detach(b"abc"));
}
