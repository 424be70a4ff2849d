//! The device snapshot store: the one piece of state that the scan loop
//! writes and the query service reads.
//!
//! The store's value is always a complete snapshot: the whole list installed
//! by the most recent `replace`, or the empty list before the first one.
//! Readers get a value-consistent copy of that whole list, so a read can never
//! observe a splice of two ticks. The surrounding program keeps one store and
//! brokers concurrent access to it with a readers/writer lock; the store
//! itself is that lock's content.

use vstd::prelude::*;

use crate::device::{devices_view, Device, DeviceView};

verus! {

/// Holds the most recent complete device snapshot.
pub struct SnapshotStore {
    devices: Vec<Device>,
    installed: Ghost<Option<Seq<DeviceView>>>,
}

impl View for SnapshotStore {
    type V = Seq<DeviceView>;

    closed spec fn view(&self) -> Seq<DeviceView> {
        devices_view(self.devices@)
    }
}

impl SnapshotStore {
    /// The full list that the most recent `replace` installed, or `None`
    /// before any `replace` has happened.
    pub closed spec fn installed(&self) -> Option<Seq<DeviceView>> {
        self.installed@
    }

    /// The store holds nothing but complete snapshots: its value is exactly
    /// what the most recent `replace` installed, or empty before the first.
    /// Every constructor establishes this and every method preserves it.
    pub closed spec fn complete(&self) -> bool {
        match self.installed@ {
            None => devices_view(self.devices@) == Seq::<DeviceView>::empty(),
            Some(l) => devices_view(self.devices@) == l,
        }
    }

    /// A store starts out holding the empty snapshot.
    pub fn new() -> (s: SnapshotStore)
        ensures
            s.complete(),
            s@ == Seq::<DeviceView>::empty(),
            s.installed() is None,
    {
        let s = SnapshotStore { devices: Vec::new(), installed: Ghost(None) };
        proof {
            assert(devices_view(s.devices@) =~= Seq::<DeviceView>::empty());
        }
        s
    }

    /// Discards the prior snapshot and installs `new_list` whole.
    pub fn replace(&mut self, new_list: Vec<Device>)
        ensures
            final(self).complete(),
            final(self)@ == devices_view(new_list@),
            final(self).installed() == Some(devices_view(new_list@)),
    {
        let ghost l = devices_view(new_list@);
        *self = SnapshotStore { devices: new_list, installed: Ghost(Some(l)) };
    }

    /// Returns a value-consistent copy of the whole current snapshot.
    pub fn read(&self) -> (r: Vec<Device>)
        ensures
            devices_view(r@) == self@,
            self.complete() && self.installed() is None ==> devices_view(r@)
                == Seq::<DeviceView>::empty(),
    {
        let r = self.devices.clone();
        proof {
            assert forall|i: int| 0 <= i < r@.len() implies r@[i]@ == self.devices@[i]@ by {
                assert(cloned::<Device>(self.devices@[i], r@[i]));
            }
            assert(devices_view(r@) =~= devices_view(self.devices@));
        }
        r
    }

    /// Atomic replacement, all or nothing: whatever moment a reader catches
    /// the store at, its value is exactly the complete list that the most
    /// recent `replace` installed — never a partial mixture of two lists —
    /// and the empty list if no `replace` has happened yet.
    pub proof fn lemma_all_or_nothing(&self)
        requires
            self.complete(),
        ensures
            match self.installed() {
                Some(l) => self@ == l,
                None => self@ == Seq::<DeviceView>::empty(),
            },
    {
    }
}

} // verus!
