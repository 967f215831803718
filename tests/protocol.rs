use vm_manager::error::VmError;
use vm_manager::image::{
    cache_file_name, convert_args, detect_format_result, download_progress, format_from_info, is_zstd_url,
    overlay_create_args, overlay_result,
};
use vm_manager::qmp::{
    connect_retry, first_reply_index, handshake_step, on_command_reply, parse_reply, status_of, Handshake, LineBuffer,
    QmpCommand, QmpReply,
};

#[test]
fn qmp_handshake() {
    let mut buf = LineBuffer::new();
    buf.push_bytes(b"{\"QMP\":{\"version\":{\"qemu\":{\"major\":8}},\"capabilities\":[]}}\n");
    let greeting = parse_reply(&buf.next_line().unwrap());
    assert!(matches!(greeting, QmpReply::Greeting));
    let (h, send) = handshake_step(Handshake::AwaitGreeting, &greeting).unwrap();
    assert_eq!(h, Handshake::AwaitCapabilities);
    assert_eq!(send, Some(QmpCommand::Capabilities));
    assert_eq!(QmpCommand::Capabilities.encode(), b"{\"execute\":\"qmp_capabilities\"}\n".to_vec());

    buf.push_bytes(b"{\"return\":{}}\n");
    let (h, send) = handshake_step(h, &parse_reply(&buf.next_line().unwrap())).unwrap();
    assert_eq!(h, Handshake::Ready);
    assert_eq!(send, None);

    assert_eq!(QmpCommand::QueryStatus.encode(), b"{\"execute\":\"query-status\"}\n".to_vec());
    buf.push_bytes(b"{\"return\":{\"status\":\"running\",\"singlestep\":false,\"running\":true}}\n");
    let reply = parse_reply(&buf.next_line().unwrap());
    let status = status_of(on_command_reply(reply).unwrap()).unwrap();
    assert_eq!(status, "running");
}

#[test]
fn qmp_handshake_rejects_missing_greeting() {
    let r = handshake_step(Handshake::AwaitGreeting, &parse_reply(b"{\"return\":{}}"));
    assert!(matches!(r, Err(VmError::QmpProtocol { .. })));
    let r = handshake_step(Handshake::AwaitCapabilities, &parse_reply(b"not json"));
    assert!(matches!(r, Err(VmError::QmpProtocol { .. })));
}

#[test]
fn qmp_events_are_skipped() {
    let lines: Vec<&[u8]> = vec![
        b"{\"event\":\"POWERDOWN\",\"timestamp\":{\"seconds\":1,\"microseconds\":2}}",
        b"{\"event\":\"SHUTDOWN\",\"data\":{}}",
        b"{\"return\":{\"status\":\"paused\",\"running\":false}}",
        b"{\"return\":{}}",
    ];
    let with_events: Vec<QmpReply> = lines.iter().map(|l| parse_reply(l)).collect();
    let without: Vec<QmpReply> = with_events.iter().filter(|r| !matches!(r, QmpReply::Event)).cloned().collect();
    assert_eq!(first_reply_index(&with_events), Some(2));
    assert_eq!(first_reply_index(&without), Some(0));
    assert!(on_command_reply(with_events[0].clone()).is_none());
    let a = status_of(on_command_reply(with_events[2].clone()).unwrap()).unwrap();
    let b = status_of(on_command_reply(without[0].clone()).unwrap()).unwrap();
    assert_eq!(a, "paused");
    assert_eq!(a, b);
    assert_eq!(first_reply_index(&vec![QmpReply::Event]), None);
}

#[test]
fn qmp_error_reply() {
    let r = parse_reply(b"{\"error\":{\"class\":\"GenericError\",\"desc\":\"boom\"}}");
    match on_command_reply(r) {
        Some(Err(VmError::QmpProtocol { detail })) => assert_eq!(detail, "boom"),
        other => panic!("unexpected {other:?}"),
    }
    match parse_reply(b"{\"error\":{\"class\":\"GenericError\"}}") {
        QmpReply::Error { desc } => assert_eq!(desc, "QMP error without description"),
        other => panic!("unexpected {other:?}"),
    }
    match parse_reply(b"{\"return\":{}}") {
        QmpReply::Return { status } => assert_eq!(status, None),
        other => panic!("unexpected {other:?}"),
    }
    assert!(matches!(parse_reply(b"{\"foo\":1}"), QmpReply::Malformed));
    assert!(matches!(parse_reply(b"[1,2]"), QmpReply::Malformed));
}

#[test]
fn qmp_line_framing() {
    let mut buf = LineBuffer::new();
    buf.push_bytes(b"{\"a\":");
    assert_eq!(buf.next_line(), None);
    buf.push_bytes(b"1}\n{\"b\":2}\n{\"c\"");
    assert_eq!(buf.next_line().unwrap(), b"{\"a\":1}".to_vec());
    assert_eq!(buf.next_line().unwrap(), b"{\"b\":2}".to_vec());
    assert_eq!(buf.next_line(), None);
    assert_eq!(buf.buf, b"{\"c\"".to_vec());
}

#[test]
fn qmp_commands_encoded() {
    assert_eq!(QmpCommand::SystemPowerdown.encode(), b"{\"execute\":\"system_powerdown\"}\n".to_vec());
    assert_eq!(QmpCommand::Stop.encode(), b"{\"execute\":\"stop\"}\n".to_vec());
    assert_eq!(QmpCommand::Cont.encode(), b"{\"execute\":\"cont\"}\n".to_vec());
    assert_eq!(QmpCommand::Quit.encode(), b"{\"execute\":\"quit\"}\n".to_vec());
}

#[test]
fn qmp_connect_retry() {
    assert_eq!(connect_retry("/s", 0, 1000).unwrap(), 100);
    assert!(matches!(connect_retry("/s", 1000, 1000), Err(VmError::QmpConnectTimeout { path }) if path == "/s"));
}

#[test]
fn overlay_format_detection() {
    let fmt = format_from_info("/img/base.raw", b"{\"virtual-size\": 1024, \"filename\": \"base.raw\", \"format\": \"raw\"}").unwrap();
    assert_eq!(fmt, "raw");
    let args = overlay_create_args("/img/base.raw", "/w/overlay.qcow2", &fmt, None);
    assert_eq!(args, vec!["create", "-f", "qcow2", "-F", "raw", "-b", "/img/base.raw", "/w/overlay.qcow2"]);
    let args = overlay_create_args("/img/b", "/w/o", "qcow2", Some(20));
    assert_eq!(args.last().unwrap(), "20G");
}

#[test]
fn format_detection_cases() {
    assert_eq!(format_from_info("/p", b"{\"format\":\"qcow2\"}").unwrap(), "qcow2");
    assert_eq!(format_from_info("/p", b"{\"filename\":\"x\"}").unwrap(), "raw");
    assert_eq!(format_from_info("/p", b"{\"format\":7}").unwrap(), "raw");
    assert_eq!(format_from_info("/p", b"[1]").unwrap(), "raw");
    assert_eq!(detect_format_result("/p", true, b"{\"format\":\"vmdk\"}", "").unwrap(), "vmdk");
    assert!(matches!(format_from_info("/p", b"oops"), Err(VmError::FormatDetectionFailed { path, .. }) if path == "/p"));
    assert!(matches!(
        detect_format_result("/p", false, b"", "no such file"),
        Err(VmError::FormatDetectionFailed { detail, .. }) if detail == "no such file"
    ));
    assert!(matches!(overlay_result("/b", false, "bad"), Err(VmError::OverlayCreationFailed { base, detail }) if base == "/b" && detail == "bad"));
    assert!(overlay_result("/b", true, "").is_ok());
}

#[test]
fn convert_argv() {
    assert_eq!(convert_args("/a.raw", "/b.qcow2", "qcow2"), vec!["convert", "-O", "qcow2", "/a.raw", "/b.qcow2"]);
}

#[test]
fn image_names() {
    assert_eq!(cache_file_name("https://x.org/imgs/debian.qcow2.zst", None), "debian.qcow2");
    assert_eq!(cache_file_name("https://x.org/imgs/debian.qcow2.zstd", None), "debian.qcow2");
    assert_eq!(cache_file_name("https://x.org/a.zst.zst", None), "a");
    assert_eq!(cache_file_name("https://x.org/a.img", Some("mine")), "mine");
    assert!(is_zstd_url("http://h/a.zst"));
    assert!(is_zstd_url("http://h/a.zstd"));
    assert!(!is_zstd_url("http://h/a.qcow2"));
}

#[test]
fn progress_accounting() {
    assert_eq!(download_progress(0, 50, 1000, 0), (50, 5, true));
    assert_eq!(download_progress(50, 10, 1000, 5), (60, 6, false));
    assert_eq!(download_progress(990, 100, 1000, 95), (1000, 100, true));
    assert_eq!(download_progress(0, 100, 0, 0), (0, 0, false));
}
