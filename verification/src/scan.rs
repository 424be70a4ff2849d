//! The scan loop's decisions: which adapter to scan with, and how one tick
//! turns what the adapter reported into the next snapshot.
//!
//! The radio itself is driven outside the library; each tick it hands in what
//! it saw, and the functions here decide what the snapshot becomes. A failed
//! enumeration skips the tick and keeps the prior snapshot; a peripheral whose
//! properties cannot be read is skipped for the tick without disturbing the
//! rest.

use vstd::prelude::*;

use crate::device::{devices_view, Device, DeviceView};
use crate::store::SnapshotStore;

verus! {

/// Seconds between two scan ticks.
pub const TICK_INTERVAL_SECS: u64 = 2;

/// Why startup cannot proceed. Both conditions are fatal: the service is not
/// to serve requests without a scanning radio.
pub enum StartupError {
    /// The platform listed no Bluetooth adapter.
    NoAdapterFound,
    /// The chosen adapter refused to start scanning.
    ScanStartFailed,
}

/// What reading one peripheral's properties during a tick yielded.
pub enum PropsReadOutcome {
    /// The driver returned advertised properties, already shaped as a device
    /// record.
    Read(Device),
    /// The driver answered, but had no cached properties for this peripheral.
    Missing,
    /// The properties read itself failed.
    Failed,
}

/// What the adapter reported for one tick.
pub enum Enumeration {
    /// The peripherals the adapter listed, in scan order, each with the
    /// outcome of its properties read.
    Listed(Vec<PropsReadOutcome>),
    /// The enumeration call itself failed; the whole tick is skipped.
    Failed,
}

impl PropsReadOutcome {
    /// Whether the peripheral yielded a device record this tick.
    pub open spec fn is_read(&self) -> bool {
        self matches PropsReadOutcome::Read(_)
    }

    /// The device record the peripheral yielded.
    pub open spec fn device(&self) -> DeviceView
        recommends
            self.is_read(),
    {
        match self {
            PropsReadOutcome::Read(d) => d@,
            _ => arbitrary(),
        }
    }
}

/// The devices one tick keeps: one per peripheral whose properties were read,
/// in scan order; peripherals that yielded nothing are skipped.
pub open spec fn devices_of_reads(reads: Seq<PropsReadOutcome>) -> Seq<DeviceView>
    decreases reads.len(),
{
    if reads.len() == 0 {
        Seq::<DeviceView>::empty()
    } else {
        devices_of_reads(reads.drop_last()) + (if reads.last().is_read() {
            seq![reads.last().device()]
        } else {
            Seq::<DeviceView>::empty()
        })
    }
}

/// Selects the adapter the scan will use: the first one the platform listed.
/// An empty adapter list is the fatal startup condition.
pub fn select_adapter(adapter_count: usize) -> (r: Result<usize, StartupError>)
    ensures
        adapter_count > 0 ==> r == Ok::<usize, StartupError>(0usize),
        adapter_count == 0 ==> r == Err::<usize, StartupError>(StartupError::NoAdapterFound),
{
    if adapter_count == 0 {
        Err(StartupError::NoAdapterFound)
    } else {
        Ok(0)
    }
}

/// Decides whether startup may proceed once the scan request has been made:
/// a scan that did not start is the second fatal startup condition.
pub fn require_scan_started(started: bool) -> (r: Result<(), StartupError>)
    ensures
        started ==> r == Ok::<(), StartupError>(()),
        !started ==> r == Err::<(), StartupError>(StartupError::ScanStartFailed),
{
    if started {
        Ok(())
    } else {
        Err(StartupError::ScanStartFailed)
    }
}

/// Builds the fresh snapshot for one tick: every peripheral whose properties
/// were read contributes its device record, in scan order; the others are
/// skipped for this tick.
pub fn build_snapshot(reads: Vec<PropsReadOutcome>) -> (r: Vec<Device>)
    ensures
        devices_view(r@) == devices_of_reads(reads@),
{
    let mut out: Vec<Device> = Vec::new();
    let n = reads.len();
    let mut i: usize = 0;
    while i < n
        invariant
            n == reads.len(),
            i <= n,
            devices_view(out@) == devices_of_reads(reads@.take(i as int)),
        decreases n - i,
    {
        match &reads[i] {
            PropsReadOutcome::Read(d) => {
                let ghost pre = out@;
                out.push(d.clone());
                proof {
                    assert(devices_view(out@) =~= devices_view(pre).push(reads@[i as int].device()));
                }
            },
            PropsReadOutcome::Missing => {},
            PropsReadOutcome::Failed => {},
        }
        proof {
            assert(reads@.take(i + 1 as int).drop_last() =~= reads@.take(i as int));
            assert(reads@.take(i + 1 as int).last() == reads@[i as int]);
            assert(devices_view(out@) =~= devices_of_reads(reads@.take(i + 1 as int)));
        }
        i = i + 1;
    }
    proof {
        assert(reads@.take(n as int) =~= reads@);
    }
    out
}

/// A tick in which every listed peripheral yields a device record keeps all
/// of them, in scan order.
pub proof fn lemma_all_read_kept(reads: Seq<PropsReadOutcome>)
    requires
        forall|j: int| 0 <= j < reads.len() ==> reads[j].is_read(),
    ensures
        devices_of_reads(reads) == reads.map(|j: int, o: PropsReadOutcome| o.device()),
    decreases reads.len(),
{
    let f = |j: int, o: PropsReadOutcome| o.device();
    if reads.len() == 0 {
        assert(devices_of_reads(reads) =~= reads.map(f));
    } else {
        lemma_all_read_kept(reads.drop_last());
        assert(devices_of_reads(reads) =~= reads.map(f));
    }
}

/// Single-peripheral fault isolation: when every listed peripheral but the
/// one at `i` yields a device record, the tick keeps exactly the records of
/// the others, in scan order — one fewer than were listed.
pub proof fn lemma_single_fault_isolation(reads: Seq<PropsReadOutcome>, i: int)
    requires
        0 <= i < reads.len(),
        !reads[i].is_read(),
        forall|j: int| 0 <= j < reads.len() && j != i ==> reads[j].is_read(),
    ensures
        devices_of_reads(reads) == reads.remove(i).map(
            |j: int, o: PropsReadOutcome| o.device(),
        ),
        devices_of_reads(reads).len() == reads.len() - 1,
    decreases reads.len(),
{
    let f = |j: int, o: PropsReadOutcome| o.device();
    if i == reads.len() - 1 {
        lemma_all_read_kept(reads.drop_last());
        assert(reads.remove(i) =~= reads.drop_last());
        assert(devices_of_reads(reads) =~= reads.remove(i).map(f));
    } else {
        lemma_single_fault_isolation(reads.drop_last(), i);
        assert(reads.remove(i) =~= reads.drop_last().remove(i).push(reads.last()));
        assert(devices_of_reads(reads) =~= reads.remove(i).map(f));
    }
}

/// Applies one tick to the store: a failed enumeration leaves the snapshot
/// exactly as it was; a successful one replaces it wholesale with the devices
/// the tick kept.
pub fn apply_tick(store: &mut SnapshotStore, report: Enumeration)
    ensures
        old(store).complete() ==> final(store).complete(),
        report is Failed ==> final(store)@ == old(store)@ && final(store).installed()
            == old(store).installed(),
        report matches Enumeration::Listed(reads) ==> final(store).complete() && final(store)@
            == devices_of_reads(reads@) && final(store).installed() == Some(
            devices_of_reads(reads@),
        ),
{
    match report {
        Enumeration::Failed => {},
        Enumeration::Listed(reads) => {
            let fresh = build_snapshot(reads);
            store.replace(fresh);
        },
    }
}

} // verus!
