use vstd::prelude::*;

verus! {

/// The ways a device operation can fail.  The first two come from the
/// connection state machine itself; the last one is reported by an I/O
/// driver when the underlying transport fails, and carries the
/// driver's description of the failure.
#[derive(Debug, PartialEq, Eq)]
pub enum ConnectionError {
    /// `connect` was attempted while a connection is already present.
    AlreadyConnected,
    /// An operation that needs a live connection found none.
    NotConnected,
    /// The underlying transport failed during connect, write, flush or
    /// read.
    NetworkFailure(String),
}

} // verus!
