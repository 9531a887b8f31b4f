//! The connection probe outcome: a liveness check must never interrupt
//! the caller with an error, only yield a boolean signal.

use vstd::prelude::*;
use crate::models::ConnectionStatus;

verus! {

/// Wraps an open attempt's outcome as the probe result: `can_open` is set
/// exactly when the attempt succeeded, and no failure propagates.
pub fn probe_status(open_succeeded: bool) -> (r: ConnectionStatus)
    ensures
        r.can_open == open_succeeded,
{
    ConnectionStatus { can_open: open_succeeded }
}

} // verus!
