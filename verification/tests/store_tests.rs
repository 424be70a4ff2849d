use ble_discovery::device::Device;
use ble_discovery::store::SnapshotStore;

fn device(name: Option<&str>, address: &str) -> Device {
    Device::new(name.map(|n| n.to_string()), address.to_string())
}

#[test]
fn empty_before_first_replace() {
    let store = SnapshotStore::new();
    let devices = store.read();
    assert_eq!(devices.len(), 0);
}

#[test]
fn replace_then_read_returns_whole_list() {
    let mut store = SnapshotStore::new();
    store.replace(vec![
        device(Some("Sensor-A"), "AA:BB:CC:DD:EE:01"),
        device(None, "AA:BB:CC:DD:EE:02"),
    ]);
    let devices = store.read();
    assert_eq!(devices.len(), 2);
    assert_eq!(devices[0].name, Some("Sensor-A".to_string()));
    assert_eq!(devices[0].address, "AA:BB:CC:DD:EE:01");
    assert_eq!(devices[1].name, None);
    assert_eq!(devices[1].address, "AA:BB:CC:DD:EE:02");
}

#[test]
fn reads_around_a_replace_see_full_lists() {
    let mut store = SnapshotStore::new();
    store.replace(vec![device(Some("Old-1"), "00:00:00:00:00:01"), device(
        Some("Old-2"),
        "00:00:00:00:00:02",
    )]);
    let before = store.read();
    store.replace(vec![device(Some("New-1"), "00:00:00:00:00:03")]);
    let after = store.read();

    assert_eq!(before.len(), 2);
    assert_eq!(before[0].name, Some("Old-1".to_string()));
    assert_eq!(before[1].name, Some("Old-2".to_string()));
    assert_eq!(after.len(), 1);
    assert_eq!(after[0].name, Some("New-1".to_string()));
    assert_eq!(after[0].address, "00:00:00:00:00:03");
}

#[test]
fn repeated_reads_are_consistent() {
    let mut store = SnapshotStore::new();
    store.replace(vec![device(None, "11:22:33:44:55:66")]);
    let first = store.read();
    let second = store.read();
    assert_eq!(first.len(), second.len());
    assert_eq!(first[0].name, second[0].name);
    assert_eq!(first[0].address, second[0].address);
}
