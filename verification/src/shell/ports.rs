//! The driven ports the shell needs and refuses to implement, each one method wide: put a
//! line on the wire, forget the bond, persist the species. The composition root implements
//! them over the radio and flash; a test implements them over a `Vec`.
//!
//! Each port keeps a log of the calls made on it, as a specification: an implementation
//! promises that every call extends its log by exactly that call, so a caller can state which
//! calls it made.
use vstd::prelude::*;
use vstd::std_specs::convert::IntoSpec;
use vstd::string::StringExecFns;

verus! {

/// Somewhere to put a device→central line. The transport frames and fragments; the shell
/// hands over one complete line and is told whether it left. A refusal is reported, not
/// retried.
pub trait Notifier {
    /// Every line handed over so far, in order, with what the transport answered.
    spec fn sent(&self) -> Seq<(Seq<char>, Result<(), NotifyError>)>;

    /// Send one line. `Err` means it did not go.
    fn notify(&mut self, line: &str) -> (r: Result<(), NotifyError>)
        ensures
            final(self).sent() == old(self).sent().push((line@, r)),
    ;
}

/// Why a line did not leave the device.
#[derive(Clone, PartialEq, Eq, Debug)]
pub struct NotifyError {
    /// What the transport said, for the log.
    pub reason: String,
}

impl NotifyError {
    /// A refusal carrying `reason`.
    pub fn new<R: Into<String>>(reason: R) -> (r: Self)
        ensures
            R::obeys_into_spec() ==> r.reason == reason.into_spec(),
    {
        NotifyError { reason: reason.into() }
    }

    /// The log line for this refusal: `the line was not sent: <reason>`.
    pub fn describe(&self) -> (r: String)
        ensures
            r@ == "the line was not sent: "@ + self.reason@,
    {
        let mut out: String = String::from_str("the line was not sent: ");
        out.append(self.reason.as_str());
        out
    }
}

/// The BLE bond, as far as the shell is concerned: something that can be forgotten.
pub trait Bond {
    /// How many times the bond has been forgotten.
    spec fn forgotten(&self) -> nat;

    /// Forget every bonded central; the device becomes pairable again.
    fn forget(&mut self)
        ensures
            final(self).forgotten() == old(self).forgotten() + 1,
    ;
}

/// Somewhere to persist the selected species across a reboot.
pub trait SpeciesStore {
    /// Every index persisted so far, in order.
    spec fn stored(&self) -> Seq<u8>;

    /// Persist the selected registry index.
    fn store(&mut self, index: u8)
        ensures
            final(self).stored() == old(self).stored().push(index),
    ;
}

} // verus!
