//! What can go wrong in the picker.
use vstd::prelude::*;

verus! {

/// The ways an operation of the picker fails. That the user declines to choose
/// a window is no failure and has no variant here.
#[derive(Clone, Copy, Debug, PartialEq, Eq, Structural)]
pub enum Error {
    /// A round trip to the host failed, or the host answered a request with
    /// the reply to another.
    HostQueryFailure,
    /// The window that the host reports as current is not among the windows
    /// it lists.
    StateInconsistency,
    /// A pick was asked for while another was in flight.
    SessionInFlight,
    /// A reply was handed in although no pick is in flight.
    NoSession,
}

} // verus!
