use stoker::control::{boot_requests, check_response};
use stoker::error::VmError;
use stoker::orchestrator::{plan_vm, RunAction, RunEvent, RunPhase, RunSession};

fn started() -> RunSession {
    let plan = plan_vm(0, &"internet".to_string(), None, None);
    let (session, action) = RunSession::start(plan);
    match action {
        RunAction::SetupNetwork { tap_device, host_ip, prefix_len } => {
            assert_eq!(tap_device, "tap-inet-0");
            assert_eq!(host_ip, "172.16.0.1");
            assert_eq!(prefix_len, 30);
        }
        _ => panic!("expected network setup first"),
    }
    session
}

fn to_first_call(session: &mut RunSession) -> RunAction {
    match session.step(RunEvent::Done) {
        RunAction::PrepareRootfs { image_path, rootfs_path } => {
            assert_eq!(image_path, "/home/reprah007.linux/firecracker-assets/ubuntu-rootfs.ext4");
            assert_eq!(rootfs_path, "/tmp/rootfs-fc-00.ext4");
        }
        _ => panic!("expected root image preparation"),
    }
    match session.step(RunEvent::Done) {
        RunAction::Spawn { binary, socket_path, log_path } => {
            assert_eq!(binary, "/home/reprah007.linux/firecracker-assets/firecracker");
            assert_eq!(socket_path, "/tmp/firecracker-fc-00.socket");
            assert_eq!(log_path, "/tmp/firecracker-fc-00.log");
        }
        _ => panic!("expected spawn"),
    }
    match session.step(RunEvent::Spawned { pid: 4242 }) {
        RunAction::Wait { millis } => assert_eq!(millis, 500),
        _ => panic!("expected grace wait"),
    }
    session.step(RunEvent::Done)
}

fn put_path(action: &RunAction) -> String {
    match action {
        RunAction::Put { request, .. } => request.path.clone(),
        _ => panic!("expected a control call"),
    }
}

#[test]
fn run_succeeds_end_to_end() {
    let mut session = started();
    let mut action = to_first_call(&mut session);
    let expected = ["/logger", "/boot-source", "/drives/rootfs", "/network-interfaces/net1", "/actions"];
    for (i, path) in expected.iter().enumerate() {
        assert_eq!(put_path(&action), *path);
        let status = if i % 2 == 0 { 204 } else { 200 };
        action = session.step(RunEvent::Response { status, body: String::new() });
    }
    match action {
        RunAction::BootstrapGuest { guest_ip, host_ip, command } => {
            assert_eq!(guest_ip, "172.16.0.2");
            assert_eq!(host_ip, "172.16.0.1");
            assert!(command.starts_with("ip addr replace 172.16.0.2/30 dev eth0"));
        }
        _ => panic!("expected guest bootstrap"),
    }
    match session.step(RunEvent::GuestExited { exit_status: 0, stdout: String::new(), stderr: String::new() }) {
        RunAction::Persist { record } => {
            assert_eq!(record.id, 0);
            assert_eq!(record.name, "fc-00");
            assert_eq!(record.mode, "internet");
            assert_eq!(record.host_ip, "172.16.0.1");
            assert_eq!(record.guest_ip, "172.16.0.2");
            assert_eq!(record.mac_address, "06:00:AC:10:00:02");
            assert_eq!(record.tap_device, "tap-inet-0");
            assert_eq!(record.pid, 4242);
        }
        _ => panic!("expected the record to be persisted"),
    }
    match session.step(RunEvent::Done) {
        RunAction::Finished { pid } => assert_eq!(pid, 4242),
        _ => panic!("expected the run to finish"),
    }
    assert_eq!(session.phase, RunPhase::Finished);
}

#[test]
fn boot_source_rejection_aborts_without_record() {
    let mut session = started();
    let action = to_first_call(&mut session);
    assert_eq!(put_path(&action), "/logger");
    let action = session.step(RunEvent::Response { status: 204, body: String::new() });
    assert_eq!(put_path(&action), "/boot-source");
    let action = session.step(RunEvent::Response { status: 400, body: "{\"fault_message\":\"bad kernel\"}".to_string() });
    match action {
        RunAction::Abort { error: VmError::ApiError { status, body } } => {
            assert_eq!(status, 400);
            assert_eq!(body, "{\"fault_message\":\"bad kernel\"}");
        }
        _ => panic!("expected an api error"),
    }
    assert_eq!(session.phase, RunPhase::Failed);
}

#[test]
fn guest_failure_aborts_with_output() {
    let mut session = started();
    let mut action = to_first_call(&mut session);
    for _ in 0..5 {
        assert!(matches!(action, RunAction::Put { .. }));
        action = session.step(RunEvent::Response { status: 204, body: String::new() });
    }
    let action = session.step(RunEvent::GuestExited {
        exit_status: 2,
        stdout: "out".to_string(),
        stderr: "RTNETLINK answers: File exists".to_string(),
    });
    match action {
        RunAction::Abort { error: VmError::GuestConfigError { stdout, stderr } } => {
            assert_eq!(stdout, "out");
            assert_eq!(stderr, "RTNETLINK answers: File exists");
        }
        _ => panic!("expected a guest configuration error"),
    }
}

#[test]
fn failure_and_unexpected_events_abort() {
    let mut session = started();
    let action = session.step(RunEvent::Failed { error: VmError::NetworkSetupError { message: "no tun".to_string() } });
    assert!(matches!(action, RunAction::Abort { error: VmError::NetworkSetupError { .. } }));

    let mut session = started();
    let action = session.step(RunEvent::Spawned { pid: 1 });
    assert!(matches!(action, RunAction::Abort { error: VmError::ProcessError { .. } }));
    assert_eq!(session.phase, RunPhase::Failed);
}

#[test]
fn boot_request_bodies_are_json() {
    let reqs = boot_requests(
        &"/tmp/firecracker-a.log".to_string(),
        &"/assets/vmlinux.bin".to_string(),
        &"/tmp/rootfs-a.ext4".to_string(),
        &"06:00:AC:10:00:02".to_string(),
        &"tap-inet-0".to_string(),
    );
    assert_eq!(reqs.len(), 5);
    assert_eq!(
        reqs[0].body,
        "{\"log_path\":\"/tmp/firecracker-a.log\",\"level\":\"Debug\",\"show_level\":true,\"show_log_origin\":true}"
    );
    assert_eq!(
        reqs[1].body,
        "{\"kernel_image_path\":\"/assets/vmlinux.bin\",\"boot_args\":\"console=ttyS0 reboot=k panic=1 pci=off keep_bootcon\"}"
    );
    assert_eq!(
        reqs[2].body,
        "{\"drive_id\":\"rootfs\",\"path_on_host\":\"/tmp/rootfs-a.ext4\",\"is_root_device\":true,\"is_read_only\":false}"
    );
    assert_eq!(
        reqs[3].body,
        "{\"iface_id\":\"net1\",\"guest_mac\":\"06:00:AC:10:00:02\",\"host_dev_name\":\"tap-inet-0\"}"
    );
    assert_eq!(reqs[4].path, "/actions");
    assert_eq!(reqs[4].body, "{\"action_type\":\"InstanceStart\"}");
}

#[test]
fn boot_request_bodies_escape_text() {
    let reqs = boot_requests(
        &"/tmp/a \"b\".log".to_string(),
        &"k".to_string(),
        &"r".to_string(),
        &"m".to_string(),
        &"t".to_string(),
    );
    assert!(reqs[0].body.starts_with("{\"log_path\":\"/tmp/a \\\"b\\\".log\","));
    for r in &reqs {
        let v: serde_json::Value = serde_json::from_str(&r.body).unwrap();
        assert!(v.is_object());
    }
}

#[test]
fn response_status_check() {
    assert!(check_response(200, String::new()).is_ok());
    assert!(check_response(204, String::new()).is_ok());
    assert!(check_response(299, String::new()).is_ok());
    assert!(matches!(check_response(199, String::new()), Err(VmError::ApiError { status: 199, .. })));
    match check_response(400, "bad".to_string()) {
        Err(VmError::ApiError { status, body }) => {
            assert_eq!(status, 400);
            assert_eq!(body, "bad");
        }
        _ => panic!("expected an api error"),
    }
    assert!(check_response(300, String::new()).is_err());
}
