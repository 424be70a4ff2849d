use ble_discovery::device::Device;
use ble_discovery::scan::{
    apply_tick, build_snapshot, require_scan_started, select_adapter, Enumeration,
    PropsReadOutcome, StartupError, TICK_INTERVAL_SECS,
};
use ble_discovery::store::SnapshotStore;

fn read(name: Option<&str>, address: &str) -> PropsReadOutcome {
    PropsReadOutcome::Read(Device::new(name.map(|n| n.to_string()), address.to_string()))
}

#[test]
fn no_adapter_is_fatal() {
    let r = select_adapter(0);
    assert!(matches!(r, Err(StartupError::NoAdapterFound)));
}

#[test]
fn first_adapter_is_selected() {
    assert!(matches!(select_adapter(1), Ok(0)));
    assert!(matches!(select_adapter(3), Ok(0)));
}

#[test]
fn scan_start_failure_is_fatal() {
    assert!(matches!(require_scan_started(false), Err(StartupError::ScanStartFailed)));
    assert!(matches!(require_scan_started(true), Ok(())));
}

#[test]
fn default_tick_interval_is_two_seconds() {
    assert_eq!(TICK_INTERVAL_SECS, 2);
}

#[test]
fn build_snapshot_keeps_scan_order() {
    let snapshot = build_snapshot(vec![
        read(Some("One"), "00:00:00:00:00:01"),
        read(None, "00:00:00:00:00:02"),
        read(Some("Three"), "00:00:00:00:00:03"),
    ]);
    assert_eq!(snapshot.len(), 3);
    assert_eq!(snapshot[0].name, Some("One".to_string()));
    assert_eq!(snapshot[1].name, None);
    assert_eq!(snapshot[2].name, Some("Three".to_string()));
    assert_eq!(snapshot[2].address, "00:00:00:00:00:03");
}

#[test]
fn missing_properties_are_skipped() {
    let snapshot = build_snapshot(vec![
        read(Some("Seen"), "00:00:00:00:00:01"),
        PropsReadOutcome::Missing,
    ]);
    assert_eq!(snapshot.len(), 1);
    assert_eq!(snapshot[0].name, Some("Seen".to_string()));
}

#[test]
fn failed_enumeration_keeps_previous_snapshot() {
    let mut store = SnapshotStore::new();
    apply_tick(
        &mut store,
        Enumeration::Listed(vec![read(Some("Kept"), "AA:BB:CC:DD:EE:01")]),
    );
    apply_tick(&mut store, Enumeration::Failed);
    let devices = store.read();
    assert_eq!(devices.len(), 1);
    assert_eq!(devices[0].name, Some("Kept".to_string()));
    assert_eq!(devices[0].address, "AA:BB:CC:DD:EE:01");
}

#[test]
fn failed_enumeration_before_first_tick_keeps_empty_snapshot() {
    let mut store = SnapshotStore::new();
    apply_tick(&mut store, Enumeration::Failed);
    assert_eq!(store.read().len(), 0);
}

#[test]
fn single_peripheral_fault_keeps_the_others() {
    let mut store = SnapshotStore::new();
    apply_tick(
        &mut store,
        Enumeration::Listed(vec![
            read(Some("One"), "00:00:00:00:00:01"),
            PropsReadOutcome::Failed,
            read(Some("Three"), "00:00:00:00:00:03"),
        ]),
    );
    let devices = store.read();
    assert_eq!(devices.len(), 2);
    assert_eq!(devices[0].name, Some("One".to_string()));
    assert_eq!(devices[1].name, Some("Three".to_string()));

    apply_tick(
        &mut store,
        Enumeration::Listed(vec![read(Some("Next"), "00:00:00:00:00:04")]),
    );
    let next = store.read();
    assert_eq!(next.len(), 1);
    assert_eq!(next[0].name, Some("Next".to_string()));
}
