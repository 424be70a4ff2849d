//! Periodic discovery of nearby Bluetooth Low Energy peripherals, republished
//! as a JSON device list.
//!
//! The library holds the verified core: the snapshot store that a background
//! scan loop refreshes and concurrent readers poll, the per-tick rules that
//! turn what the adapter reported into a fresh snapshot, and the JSON encoding
//! of a snapshot. The radio and the HTTP listener live outside, and hand the
//! library plain values.

pub mod device;
pub mod json;
pub mod scan;
pub mod store;
