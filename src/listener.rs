//! The listener's bookkeeping over the connections it accepts.
//!
//! Every connection is served on its own; whatever goes wrong with one is
//! recorded here and the listener goes on accepting. Failures are thus
//! counted rather than dropped unseen.

use vstd::prelude::*;
use crate::exchange::ExchangeError;

verus! {

/// What became of one accepted connection, or of one accept call.
#[derive(Clone, Copy, Debug, PartialEq, Eq, Structural)]
pub enum ConnectionEvent {
    /// The accept call failed.
    AcceptFailed,
    /// Reading the request or sending the response failed at the socket.
    TransferFailed,
    /// The bytes read carried no request, or the reply did not fit.
    Abandoned(ExchangeError),
    /// The response was sent.
    Served,
}

/// Counts of what became of accepted connections.
#[derive(Clone, Copy, Debug, PartialEq, Eq, Structural)]
pub struct ListenerStats {
    pub served: u64,
    pub abandoned: u64,
    pub transfer_failures: u64,
    pub accept_failures: u64,
}

/// `n + 1`, held at the largest `u64`.
pub open spec fn bumped(n: u64) -> u64 {
    if n < u64::MAX {
        (n + 1) as u64
    } else {
        n
    }
}

fn bump(n: u64) -> (r: u64)
    ensures
        r == bumped(n),
{
    if n < u64::MAX {
        n + 1
    } else {
        n
    }
}

impl ListenerStats {
    /// Nothing accepted yet.
    pub fn new() -> (r: ListenerStats)
        ensures
            r == (ListenerStats { served: 0, abandoned: 0, transfer_failures: 0, accept_failures: 0 }),
    {
        ListenerStats { served: 0, abandoned: 0, transfer_failures: 0, accept_failures: 0 }
    }

    /// Count one event in its own counter (saturating); the others stay.
    pub fn record(&mut self, event: ConnectionEvent)
        ensures
            final(self).served == if event == ConnectionEvent::Served {
                bumped(old(self).served)
            } else {
                old(self).served
            },
            final(self).abandoned == if event is Abandoned {
                bumped(old(self).abandoned)
            } else {
                old(self).abandoned
            },
            final(self).transfer_failures == if event == ConnectionEvent::TransferFailed {
                bumped(old(self).transfer_failures)
            } else {
                old(self).transfer_failures
            },
            final(self).accept_failures == if event == ConnectionEvent::AcceptFailed {
                bumped(old(self).accept_failures)
            } else {
                old(self).accept_failures
            },
    {
        match event {
            ConnectionEvent::AcceptFailed => self.accept_failures = bump(self.accept_failures),
            ConnectionEvent::TransferFailed => self.transfer_failures = bump(self.transfer_failures),
            ConnectionEvent::Abandoned(_) => self.abandoned = bump(self.abandoned),
            ConnectionEvent::Served => self.served = bump(self.served),
        }
    }
}

} // verus!
