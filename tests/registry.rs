use stoker::error::VmError;
use stoker::orchestrator::begin_removal;
use stoker::registry::{InstanceMetadata, Registry};

fn record(id: u8, name: &str) -> InstanceMetadata {
    InstanceMetadata {
        id,
        name: name.to_string(),
        mode: "internet".to_string(),
        guest_ip: format!("172.16.{}.2", id),
        host_ip: format!("172.16.{}.1", id),
        mac_address: format!("06:00:AC:10:{:02x}:02", id),
        tap_device: format!("tap-inet-{}", id),
        pid: 1000 + id as u32,
    }
}

fn registry_with(ids: &[u8]) -> Registry {
    let mut reg = Registry::new();
    for id in ids {
        reg.save(record(*id, &format!("vm{}", id)));
    }
    reg
}

#[test]
fn allocate_id_on_empty_registry_is_zero() {
    assert_eq!(Registry::new().allocate_id().unwrap(), 0);
}

#[test]
fn allocate_id_after_contiguous_ids() {
    assert_eq!(registry_with(&[0, 1, 2]).allocate_id().unwrap(), 3);
}

#[test]
fn allocate_id_fills_lowest_gap() {
    assert_eq!(registry_with(&[0, 2]).allocate_id().unwrap(), 1);
    assert_eq!(registry_with(&[2, 0, 5]).allocate_id().unwrap(), 1);
}

#[test]
fn allocate_id_exhausted() {
    let ids: Vec<u8> = (0..=254).collect();
    let reg = registry_with(&ids);
    assert_eq!(reg.len(), 255);
    assert!(matches!(reg.allocate_id(), Err(VmError::ResourceExhausted)));
}

#[test]
fn allocate_id_last_free_slot() {
    let ids: Vec<u8> = (0..254).collect();
    assert_eq!(registry_with(&ids).allocate_id().unwrap(), 254);
}

#[test]
fn save_then_load_round_trip() {
    let mut reg = registry_with(&[3]);
    let rec = record(7, "web");
    reg.save(rec.duplicate());
    let back = reg.load(&"web".to_string()).unwrap();
    assert_eq!(back.id, rec.id);
    assert_eq!(back.name, rec.name);
    assert_eq!(back.mode, rec.mode);
    assert_eq!(back.guest_ip, rec.guest_ip);
    assert_eq!(back.host_ip, rec.host_ip);
    assert_eq!(back.mac_address, rec.mac_address);
    assert_eq!(back.tap_device, rec.tap_device);
    assert_eq!(back.pid, rec.pid);
}

#[test]
fn save_replaces_record_of_same_name() {
    let mut reg = Registry::new();
    reg.save(record(1, "web"));
    reg.save(record(4, "web"));
    assert_eq!(reg.len(), 1);
    assert_eq!(reg.load(&"web".to_string()).unwrap().id, 4);
}

#[test]
fn load_missing_is_not_found() {
    let reg = registry_with(&[0]);
    assert!(matches!(reg.load(&"ghost".to_string()), Err(VmError::NotFound { .. })));
}

#[test]
fn delete_missing_is_noop() {
    let mut reg = registry_with(&[0, 1]);
    reg.delete(&"ghost".to_string());
    assert_eq!(reg.len(), 2);
    assert!(reg.contains(&"vm0".to_string()));
    assert!(reg.contains(&"vm1".to_string()));
}

#[test]
fn delete_frees_the_id() {
    let mut reg = registry_with(&[0, 1, 2]);
    reg.delete(&"vm1".to_string());
    assert!(!reg.contains(&"vm1".to_string()));
    assert_eq!(reg.allocate_id().unwrap(), 1);
}

#[test]
fn list_all_returns_every_record() {
    let reg = registry_with(&[4, 2]);
    let all = reg.list_all();
    assert_eq!(all.len(), 2);
    assert_eq!(all[0].name, "vm4");
    assert_eq!(all[1].name, "vm2");
}

#[test]
fn from_entries_skips_unreadable() {
    let reg = Registry::from_entries(vec![Some(record(0, "a")), None, Some(record(2, "b")), None]);
    assert_eq!(reg.len(), 2);
    assert_eq!(reg.allocate_id().unwrap(), 1);
}

#[test]
fn rm_missing_is_not_found_and_changes_nothing() {
    let mut reg = registry_with(&[0, 1]);
    let r = begin_removal(&mut reg, &"ghost".to_string());
    assert!(matches!(r, Err(VmError::NotFound { .. })));
    assert_eq!(reg.len(), 2);
}

#[test]
fn rm_deletes_record_before_teardown() {
    let mut reg = registry_with(&[0, 5]);
    let plan = begin_removal(&mut reg, &"vm5".to_string()).unwrap();
    // the record is gone whatever killing the process or deleting the interface gives
    assert!(!reg.contains(&"vm5".to_string()));
    assert_eq!(reg.len(), 1);
    assert_eq!(plan.pid, 1005);
    assert_eq!(plan.tap_device, "tap-inet-5");
    assert_eq!(plan.state_path, "/tmp/stoker-vm5.json");
    assert_eq!(plan.socket_path, "/tmp/firecracker-vm5.socket");
    assert_eq!(plan.log_path, "/tmp/firecracker-vm5.log");
    assert_eq!(plan.rootfs_path, "/tmp/rootfs-vm5.ext4");
    assert_eq!(reg.allocate_id().unwrap(), 1);
}
