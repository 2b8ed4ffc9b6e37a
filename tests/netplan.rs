use stoker::assets::{get_asset_path, image_path};
use stoker::netplan::{default_name, guest_address, host_address, mac_address, tap_name};
use stoker::orchestrator::{is_state_file_name, plan_vm, vm_label};

#[test]
fn addresses_of_id_zero() {
    assert_eq!(host_address(0), "172.16.0.1");
    assert_eq!(guest_address(0), "172.16.0.2");
    assert_eq!(mac_address(0), "06:00:AC:10:00:02");
    assert_eq!(tap_name(0), "tap-inet-0");
}

#[test]
fn addresses_of_larger_ids() {
    assert_eq!(host_address(9), "172.16.9.1");
    assert_eq!(host_address(10), "172.16.10.1");
    assert_eq!(guest_address(254), "172.16.254.2");
    assert_eq!(mac_address(171), "06:00:AC:10:ab:02");
    assert_eq!(mac_address(254), "06:00:AC:10:fe:02");
    assert_eq!(tap_name(123), "tap-inet-123");
    assert_eq!(default_name(26), "fc-1a");
    assert_eq!(vm_label(26), "fc_1a");
}

#[test]
fn distinct_ids_give_distinct_plans() {
    let mut hosts = std::collections::HashSet::new();
    let mut guests = std::collections::HashSet::new();
    let mut macs = std::collections::HashSet::new();
    for id in 0..=254u8 {
        assert!(hosts.insert(host_address(id)));
        assert!(guests.insert(guest_address(id)));
        assert!(macs.insert(mac_address(id)));
        assert_eq!(mac_address(id).len(), 17);
    }
}

#[test]
fn plan_for_first_vm() {
    let plan = plan_vm(0, &"internet".to_string(), None, None);
    assert_eq!(plan.id, 0);
    assert_eq!(plan.name, "fc-00");
    assert_eq!(plan.image, "ubuntu-rootfs");
    assert_eq!(plan.host_ip, "172.16.0.1");
    assert_eq!(plan.guest_ip, "172.16.0.2");
    assert_eq!(plan.mac_address, "06:00:AC:10:00:02");
    assert_eq!(plan.tap_device, "tap-inet-0");
    assert_eq!(plan.socket_path, "/tmp/firecracker-fc-00.socket");
    assert_eq!(plan.log_path, "/tmp/firecracker-fc-00.log");
    assert_eq!(plan.rootfs_path, "/tmp/rootfs-fc-00.ext4");
    assert_eq!(plan.state_path, "/tmp/stoker-fc-00.json");
}

#[test]
fn plan_with_chosen_name_and_image() {
    let plan = plan_vm(3, &"local".to_string(), Some("web".to_string()), Some("nginx".to_string()));
    assert_eq!(plan.name, "web");
    assert_eq!(plan.mode, "local");
    assert_eq!(plan.image, "nginx");
    assert_eq!(plan.state_path, "/tmp/stoker-web.json");
}

#[test]
fn asset_paths() {
    assert_eq!(get_asset_path("vmlinux.bin"), "/home/reprah007.linux/firecracker-assets/vmlinux.bin");
    assert_eq!(image_path("ubuntu-rootfs"), "/home/reprah007.linux/firecracker-assets/ubuntu-rootfs.ext4");
}

#[test]
fn state_file_names() {
    assert!(is_state_file_name("stoker-web.json"));
    assert!(!is_state_file_name("stoker-web.json.tmp"));
    assert!(!is_state_file_name("firecracker-web.log"));
    assert!(!is_state_file_name("stoker.json"));
}
