//! The device records a scan tick produces and a snapshot holds.

use vstd::prelude::*;

verus! {

/// One discovered peripheral, as the platform driver reported it: an optional
/// advertised name and the text form of its address.
pub struct Device {
    pub name: Option<String>,
    pub address: String,
}

/// The mathematical value of a [`Device`].
pub ghost struct DeviceView {
    pub name: Option<Seq<char>>,
    pub address: Seq<char>,
}

impl View for Device {
    type V = DeviceView;

    open spec fn view(&self) -> DeviceView {
        DeviceView {
            name: match self.name {
                Some(n) => Some(n@),
                None => None,
            },
            address: self.address@,
        }
    }
}

impl Clone for Device {
    fn clone(&self) -> (r: Self)
        ensures
            r@ == self@,
    {
        Device {
            name: match &self.name {
                Some(n) => Some(n.clone()),
                None => None,
            },
            address: self.address.clone(),
        }
    }
}

impl Device {
    pub fn new(name: Option<String>, address: String) -> (r: Device)
        ensures
            r@ == (DeviceView {
                name: match name {
                    Some(n) => Some(n@),
                    None => None,
                },
                address: address@,
            }),
    {
        Device { name, address }
    }
}

/// The sequence of device values that a sequence of devices holds.
pub open spec fn devices_view(v: Seq<Device>) -> Seq<DeviceView> {
    v.map(|i: int, d: Device| d@)
}

} // verus!
