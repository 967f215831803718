use vm_manager::cloudinit::{build_cloud_config, cidata_volume_id, iso_tool_args, patch_volume_id};
use vm_manager::error::VmError;
use vm_manager::noop::NoopBackend;
use vm_manager::qemu::{
    decide_state, parse_lease_ip, parse_neigh_ip, qemu_args, select_guest_ip, stop_step, PidStatus, QemuBackend,
    StopAction, StopPhase,
};
use vm_manager::router::RouterHypervisor;
use vm_manager::types::{BackendTag, CloudInitConfig, ConsoleEndpoint, NetworkConfig, VmSpec, VmState};

fn test_spec() -> VmSpec {
    VmSpec {
        name: "test-vm".into(),
        image_path: "/tmp/test.qcow2".into(),
        vcpus: 1,
        memory_mb: 512,
        disk_gb: None,
        network: NetworkConfig::Disabled,
        cloud_init: None,
        ssh: None,
    }
}

#[test]
fn noop_lifecycle() {
    let backend = NoopBackend;
    let spec = test_spec();

    let handle = backend.prepare(&spec, "/tmp");
    assert_eq!(handle.backend, BackendTag::Noop);
    assert!(handle.id.starts_with("noop-"));

    backend.start(&handle).unwrap();
    assert_eq!(backend.state(&handle).unwrap(), VmState::Prepared);

    backend.suspend(&handle).unwrap();
    backend.resume(&handle).unwrap();

    let ip = backend.guest_ip(&handle).unwrap();
    assert_eq!(ip, "127.0.0.1");

    let endpoint = backend.console_endpoint(&handle).unwrap();
    assert!(matches!(endpoint, ConsoleEndpoint::Unavailable));

    backend.stop(&handle, 5000).unwrap();
    backend.destroy(handle).unwrap();
}

#[test]
fn noop_handle_layout() {
    let h = NoopBackend.handle_for(&test_spec(), "/var/tmp", "abc");
    assert_eq!(h.id, "noop-abc");
    assert_eq!(h.work_dir, "/var/tmp/vmctl-noop/noop-abc");
    assert_eq!(h.name, "test-vm");
    assert_eq!((h.vcpus, h.memory_mb), (1, 512));
    assert!(h.overlay_path.is_none() && h.qmp_socket.is_none());
}

#[test]
fn iso_pvd_patch() {
    let (user, meta) = (b"#cloud-config\n".to_vec(), b"instance-id: x\nlocal-hostname: x\n".to_vec());
    assert_eq!(user.len(), 14);
    assert_eq!(meta, vm_manager::cloudinit::meta_data_bytes("x", "x"));
    let mut image = vec![0u8; 40 * 2048];
    image[32808 - 1] = 1;
    image[32840] = 7;
    patch_volume_id(&mut image).unwrap();
    assert_eq!(&image[32808..32814], b"CIDATA");
    assert!(image[32814..32840].iter().all(|&b| b == 0x20));
    assert_eq!(image[32807], 1);
    assert_eq!(image[32840], 7);
    assert_eq!(image.len(), 40 * 2048);
}

#[test]
fn iso_pvd_patch_too_short() {
    let mut image = vec![0u8; 32839];
    let r = patch_volume_id(&mut image);
    assert!(matches!(r, Err(VmError::IsoWriteFailed { .. })));
    assert!(image.iter().all(|&b| b == 0));
}

#[test]
fn cidata_field_bytes() {
    let f = cidata_volume_id();
    assert_eq!(f.len(), 32);
    assert_eq!(&f[..6], b"CIDATA");
    assert!(f[6..].iter().all(|&b| b == b' '));
}

#[test]
fn cloud_config_documents() {
    let (user, meta) = build_cloud_config("alice", "ssh-ed25519 AAAA key", "vm-1", "host-1");
    let expected_user = "#cloud-config\nusers:\n  - name: alice\n    groups: [sudo]\n    sudo: ALL=(ALL) NOPASSWD:ALL\n    shell: /bin/bash\n    ssh_authorized_keys:\n      - ssh-ed25519 AAAA key\nssh_pwauth: false\ndisable_root: true\nchpasswd:\n  expire: false\n";
    assert_eq!(String::from_utf8(user).unwrap(), expected_user);
    assert_eq!(String::from_utf8(meta).unwrap(), "instance-id: vm-1\nlocal-hostname: host-1\n");
}

#[test]
fn iso_tool_argv() {
    let a = iso_tool_args("/w/seed.iso", "/t/user-data", "/t/meta-data");
    assert_eq!(
        a,
        vec!["-quiet", "-output", "/w/seed.iso", "-volid", "cidata", "-joliet", "-rock", "/t/user-data", "/t/meta-data"]
    );
}

fn backend() -> QemuBackend {
    QemuBackend::new(None, Some("/data/vms".into()), None)
}

#[test]
fn qemu_prepare_handle_paths() {
    let mut spec = test_spec();
    let h = backend().handle_for(&spec, "1234");
    assert_eq!(h.id, "qemu-1234");
    assert_eq!(h.work_dir, "/data/vms/test-vm");
    assert_eq!(h.overlay_path.as_deref(), Some("/data/vms/test-vm/overlay.qcow2"));
    assert_eq!(h.seed_iso_path, None);
    assert_eq!(h.qmp_socket.as_deref(), Some("/data/vms/test-vm/qmp.sock"));
    assert_eq!(h.console_socket.as_deref(), Some("/data/vms/test-vm/console.sock"));
    spec.cloud_init = Some(CloudInitConfig { user_data: vec![1], meta_data: None, instance_id: None, hostname: None });
    let h = backend().handle_for(&spec, "1234");
    assert_eq!(h.seed_iso_path.as_deref(), Some("/data/vms/test-vm/seed.iso"));
}

#[test]
fn qemu_prepare_fresh_id() {
    let h = backend().prepare_handle(&test_spec());
    assert!(h.id.starts_with("qemu-"));
    assert_eq!(h.id.len(), "qemu-".len() + 36);
}

#[test]
fn seed_meta_data_defaults_to_name() {
    let mut spec = test_spec();
    spec.cloud_init = Some(CloudInitConfig {
        user_data: b"#cloud-config\n".to_vec(),
        meta_data: None,
        instance_id: None,
        hostname: Some("h".into()),
    });
    let (u, m) = vm_manager::qemu::seed_files(&spec).unwrap();
    assert_eq!(u, b"#cloud-config\n".to_vec());
    assert_eq!(m, b"instance-id: test-vm\nlocal-hostname: h\n".to_vec());
    assert!(vm_manager::qemu::seed_files(&test_spec()).is_none());
}

#[test]
fn qemu_argv_exact() {
    let mut spec = test_spec();
    spec.cloud_init = Some(CloudInitConfig { user_data: vec![], meta_data: None, instance_id: None, hostname: None });
    let h = backend().handle_for(&spec, "u");
    let args = qemu_args(&h).unwrap();
    let want = vec![
        "-enable-kvm",
        "-machine",
        "q35,accel=kvm",
        "-cpu",
        "host",
        "-smp",
        "1",
        "-m",
        "512",
        "-nodefaults",
        "-qmp",
        "unix:/data/vms/test-vm/qmp.sock,server,nowait",
        "-serial",
        "unix:/data/vms/test-vm/console.sock,server,nowait",
        "-vnc",
        "127.0.0.1:0",
        "-device",
        "virtio-rng-pci",
        "-drive",
        "file=/data/vms/test-vm/overlay.qcow2,format=qcow2,if=none,id=drive0,discard=unmap",
        "-device",
        "virtio-blk-pci,drive=drive0",
        "-drive",
        "file=/data/vms/test-vm/seed.iso,format=raw,if=none,id=seed,readonly=on",
        "-device",
        "virtio-blk-pci,drive=seed",
        "-daemonize",
        "-pidfile",
        "/data/vms/test-vm/qemu.pid",
    ];
    assert_eq!(args, want);
}

#[test]
fn qemu_argv_requires_overlay() {
    let mut h = backend().handle_for(&test_spec(), "u");
    h.overlay_path = None;
    assert!(matches!(qemu_args(&h), Err(VmError::InvalidState { name, .. }) if name == "test-vm"));
}

#[test]
fn qemu_default_paths() {
    let b = QemuBackend::new(None, None, Some("virbr0".into()));
    assert_eq!(b.qemu_binary, "qemu-system-x86_64");
    assert!(b.data_dir.ends_with("/vmctl/vms"));
    assert_eq!(b.work_dir("x"), format!("{}/x", b.data_dir));
}

#[test]
fn stop_escalation() {
    let (p, a) = stop_step(StopPhase::Polling, PidStatus::Alive { pid: 42 }, 0, 1000);
    assert_eq!((p, a), (StopPhase::Polling, StopAction::Sleep { ms: 500 }));
    let (p, a) = stop_step(p, PidStatus::Alive { pid: 42 }, 1000, 1000);
    assert_eq!((p, a), (StopPhase::Terminated { pid: 42 }, StopAction::Terminate { pid: 42 }));
    let (p, a) = stop_step(p, PidStatus::Alive { pid: 42 }, 4000, 1000);
    assert_eq!((p, a), (StopPhase::Finished, StopAction::Kill { pid: 42 }));
    assert_eq!(stop_step(p, PidStatus::Alive { pid: 42 }, 4000, 1000).1, StopAction::Done);
}

#[test]
fn stop_ends_when_pid_gone() {
    assert_eq!(stop_step(StopPhase::Polling, PidStatus::NoPidfile, 0, 1000), (StopPhase::Finished, StopAction::Done));
    assert_eq!(
        stop_step(StopPhase::Polling, PidStatus::Exited { pid: 5 }, 0, 1000),
        (StopPhase::Finished, StopAction::Done)
    );
    assert_eq!(
        stop_step(StopPhase::Terminated { pid: 5 }, PidStatus::Exited { pid: 5 }, 0, 1000),
        (StopPhase::Finished, StopAction::Done)
    );
}

#[test]
fn state_mapping() {
    assert_eq!(decide_state(true, Some("running".into()), true), VmState::Running);
    assert_eq!(decide_state(true, Some("paused".into()), true), VmState::Stopped);
    assert_eq!(decide_state(true, Some("suspended".into()), true), VmState::Stopped);
    assert_eq!(decide_state(true, Some("inmigrate".into()), true), VmState::Running);
    assert_eq!(decide_state(true, None, true), VmState::Running);
    assert_eq!(decide_state(false, None, true), VmState::Stopped);
    assert_eq!(decide_state(false, None, false), VmState::Destroyed);
}

#[test]
fn guest_ip_from_neigh() {
    let text = "192.168.122.10 dev virbr0 lladdr 52:54:00:ab:cd:ef REACHABLE\n127.0.0.1 dev lo REACHABLE\n";
    assert_eq!(parse_neigh_ip(text).as_deref(), Some("192.168.122.10"));
}

#[test]
fn guest_ip_skips_loopback_and_failed() {
    let text = "127.0.0.1 dev lo REACHABLE\r\n10.0.0.9 dev eth0 FAILED\n  10.0.0.7 dev eth0 lladdr aa STALE";
    assert_eq!(parse_neigh_ip(text).as_deref(), Some("10.0.0.7"));
    assert_eq!(parse_neigh_ip("fe80::1 dev eth0 REACHABLE\n"), None);
    assert_eq!(parse_neigh_ip(""), None);
}

#[test]
fn guest_ip_from_leases() {
    let leases = "1700000000 52:54:00:00:00:01 192.168.122.20 a *\n1700000001 52:54:00:00:00:02 192.168.122.21 b *\n";
    assert_eq!(parse_lease_ip(leases).as_deref(), Some("192.168.122.21"));
    assert_eq!(parse_lease_ip("1 2\n"), None);
    assert_eq!(parse_lease_ip(""), None);
}

#[test]
fn guest_ip_selection() {
    assert_eq!(select_guest_ip("vm", Some("nothing\n"), true, Some("1 m 10.1.1.1 h c\n")).unwrap(), "10.1.1.1");
    assert!(matches!(
        select_guest_ip("vm", Some("nothing\n"), false, Some("1 m 10.1.1.1 h c\n")),
        Err(VmError::IpDiscoveryTimeout { name }) if name == "vm"
    ));
    assert_eq!(select_guest_ip("vm", None, true, Some("1 m 10.1.1.2 h c")).unwrap(), "10.1.1.2");
}

#[test]
fn router_dispatch() {
    let r = RouterHypervisor::new(None, Some("/d".into()));
    let q = r.qemu.handle_for(&test_spec(), "u");
    let n = r.noop.handle_for(&test_spec(), "/t", "u");
    assert_eq!(r.state_from(&n, false, None, false), VmState::Prepared);
    assert_eq!(r.state_from(&q, false, None, false), VmState::Destroyed);
    assert_eq!(r.guest_ip_from(&n, None, None).unwrap(), "127.0.0.1");
    assert!(matches!(r.console_endpoint(&q).unwrap(), ConsoleEndpoint::UnixSocket(p) if p == "/d/test-vm/console.sock"));
    assert!(matches!(r.console_endpoint(&n).unwrap(), ConsoleEndpoint::Unavailable));
}

#[test]
fn mac_address_format() {
    assert_eq!(vm_manager::qemu::format_mac(&[0x52, 0x54, 0x00, 0xab, 0xcd, 0xef]), "52:54:00:ab:cd:ef");
    assert_eq!(vm_manager::qemu::mac_from_seed(0x1122_3344_5566_7788), [0x52, 0x54, 0x55, 0x66, 0x77, 0x88]);
    let m = QemuBackend::generate_mac();
    assert_eq!(m.len(), 17);
    assert!(m.starts_with("52:54:"));
}

#[test]
fn spec_validation() {
    assert!(test_spec().validate().is_ok());
    let mut s = test_spec();
    s.vcpus = 0;
    assert!(matches!(s.validate(), Err(VmError::InvalidState { name, .. }) if name == "test-vm"));
    let mut s = test_spec();
    s.memory_mb = 0;
    assert!(s.validate().is_err());
}
