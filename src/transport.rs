//! Decisions of the transports' per-connection sinks.

use vstd::prelude::*;

verus! {

/// The kind of a failed write to a subscriber.
#[derive(Debug, Clone, Copy, PartialEq, Eq, Structural)]
pub enum WriteFailure {
    BrokenPipe,
    ConnectionReset,
    ConnectionAborted,
    Other,
}

/// Whether a failed write means that the subscriber went away, which ends
/// its session quietly; any other failure is surfaced.
pub fn is_disconnect(failure: WriteFailure) -> (r: bool)
    ensures
        r == (failure != WriteFailure::Other),
{
    match failure {
        WriteFailure::BrokenPipe | WriteFailure::ConnectionReset | WriteFailure::ConnectionAborted => true,
        WriteFailure::Other => false,
    }
}

} // verus!
