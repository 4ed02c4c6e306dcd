//! Who this stick is: the advertised name, the firmware version, the address, the owner label.
//!
//! Set once by the composition root, which is the only party that knows any of it. The owner
//! label is the one field the host may change, over the wire.
use vstd::prelude::*;
use crate::display::view::DeviceView;
use vstd::string::StringExecFns;

verus! {

/// The board's own facts, as the info screen reports them.
#[derive(Clone, PartialEq, Eq, Debug)]
pub struct Identity {
    /// The advertised name, e.g. `Buddy-4F2A`.
    pub name: String,
    /// The firmware version.
    pub firmware: String,
    /// The Bluetooth address.
    pub address: String,
    /// The owner label, as set from the host.
    pub owner: String,
}

impl Identity {
    /// The identity the composition root knows at boot. The owner label starts empty — nobody
    /// has claimed the stick until a host says so.
    pub fn new(name: &str, firmware: &str, address: &str) -> (r: Self)
        ensures
            r.name@ == name@,
            r.firmware@ == firmware@,
            r.address@ == address@,
            r.owner@ == Seq::<char>::empty(),
    {
        Identity {
            name: String::from_str(name),
            firmware: String::from_str(firmware),
            address: String::from_str(address),
            owner: String::new(),
        }
    }

    /// The view the info screen draws, with the two live link facts — which change while the
    /// stick runs, and so are not identity — folded in.
    pub fn view(&self, bonded: bool, linked: bool) -> (r: DeviceView)
        ensures
            r.name@ == self.name@,
            r.firmware@ == self.firmware@,
            r.address@ == self.address@,
            r.owner@ == self.owner@,
            r.bonded == bonded,
            r.linked == linked,
    {
        DeviceView {
            name: self.name.clone(),
            firmware: self.firmware.clone(),
            address: self.address.clone(),
            owner: self.owner.clone(),
            bonded,
            linked,
        }
    }
}

} // verus!
