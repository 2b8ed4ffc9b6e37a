use stoker::error::VmError;
use stoker::guest::{check_guest_exit, guest_network_command, PollDecision, ReachabilityWait};
use stoker::network::{ifreq_name, masquerade_rule, nat_install_ops, tap_reset_steps, RuleOp, TapStep, TAP_FLAGS};

#[test]
fn ifreq_name_is_padded() {
    let buf = ifreq_name(b"tap-inet-0");
    assert_eq!(buf.len(), 16);
    assert_eq!(&buf[..10], b"tap-inet-0");
    assert!(buf[10..].iter().all(|b| *b == 0));
}

#[test]
fn ifreq_name_is_truncated() {
    let buf = ifreq_name(b"a-very-long-interface-name");
    assert_eq!(buf.len(), 16);
    assert_eq!(&buf[..15], b"a-very-long-int");
    assert_eq!(buf[15], 0);
    assert_eq!(TAP_FLAGS, 0x1002);
}

#[test]
fn nat_install_deletes_then_appends() {
    assert_eq!(masquerade_rule("eth0"), "-o eth0 -j MASQUERADE");
    let ops = nat_install_ops("eth0");
    assert_eq!(ops.len(), 2);
    assert!(matches!(&ops[0], RuleOp::Delete { rule } if rule == "-o eth0 -j MASQUERADE"));
    assert!(matches!(&ops[1], RuleOp::Append { rule } if rule == "-o eth0 -j MASQUERADE"));
}

#[test]
fn nat_install_twice_keeps_one_rule() {
    let mut chain: Vec<String> = vec!["-o wlan0 -j MASQUERADE".to_string()];
    for _ in 0..2 {
        for op in nat_install_ops("eth0") {
            match op {
                RuleOp::Delete { rule } => {
                    if let Some(i) = chain.iter().position(|r| *r == rule) {
                        chain.remove(i);
                    }
                }
                RuleOp::Append { rule } => chain.push(rule),
            }
        }
    }
    assert_eq!(chain.iter().filter(|r| *r == "-o eth0 -j MASQUERADE").count(), 1);
    assert_eq!(chain.len(), 2);
}

#[test]
fn tap_reset_steps_delete_only_existing() {
    assert_eq!(tap_reset_steps(false), vec![TapStep::Create, TapStep::MakePersistent]);
    assert_eq!(
        tap_reset_steps(true),
        vec![TapStep::DeleteExisting, TapStep::Create, TapStep::MakePersistent]
    );
}

#[test]
fn guest_command_text() {
    assert_eq!(
        guest_network_command(&"172.16.0.2".to_string(), &"172.16.0.1".to_string()),
        "ip addr replace 172.16.0.2/30 dev eth0 && ip link set eth0 up && ip route replace default via 172.16.0.1 && echo 'nameserver 8.8.8.8' > /etc/resolv.conf"
    );
}

#[test]
fn guest_exit_check() {
    assert!(check_guest_exit(0, "x".to_string(), String::new()).is_ok());
    match check_guest_exit(1, "o".to_string(), "e".to_string()) {
        Err(VmError::GuestConfigError { stdout, stderr }) => {
            assert_eq!(stdout, "o");
            assert_eq!(stderr, "e");
        }
        _ => panic!("expected a guest configuration error"),
    }
}

#[test]
fn reachability_wait_backs_off_and_gives_up() {
    let mut w = ReachabilityWait::new(4000);
    assert!(matches!(w.on_attempt(false), PollDecision::RetryAfter { millis: 500 }));
    assert!(matches!(w.on_attempt(false), PollDecision::RetryAfter { millis: 1000 }));
    assert!(matches!(w.on_attempt(false), PollDecision::RetryAfter { millis: 2000 }));
    assert_eq!(w.waited_ms, 3500);
    assert!(matches!(w.on_attempt(false), PollDecision::GiveUp));
    assert_eq!(w.waited_ms, 3500);
    assert!(matches!(w.on_attempt(true), PollDecision::Reached));
}

#[test]
fn reachability_wait_caps_backoff() {
    let mut w = ReachabilityWait::new(100_000);
    let mut delays = Vec::new();
    for _ in 0..5 {
        match w.on_attempt(false) {
            PollDecision::RetryAfter { millis } => delays.push(millis),
            _ => panic!("expected a retry"),
        }
    }
    assert_eq!(delays, vec![500, 1000, 2000, 4000, 4000]);
}
