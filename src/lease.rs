//! Leasing discipline for the pooled store connections: a request holds at
//! most one connection of each pool, and gives it back exactly once.
use vstd::prelude::*;

use crate::status::Status;

verus! {

/// Where a request stands with one pool.
#[derive(Clone, Copy, Debug, PartialEq, Eq, Structural)]
pub enum Lease {
    /// No connection has been lent to the request.
    Unleased,
    /// The request holds a connection.
    Held,
    /// The request has given its connection back.
    Released,
}

/// Why a pool did not lend a connection.
#[derive(Clone, Copy, Debug, PartialEq, Eq, Structural)]
pub enum PoolFailure {
    /// No connection became free in time.
    Exhausted,
    /// The backend refused or failed a new connection.
    BackendUnavailable,
}

/// The state of a lease after the request finishes: a held connection is given back.
pub open spec fn after_release(l: Lease) -> Lease {
    if l == Lease::Held { Lease::Released } else { l }
}

impl Lease {
    /// Whether the request must give a connection back now.
    pub fn must_release(&self) -> (r: bool)
        ensures
            r == (*self == Lease::Held),
    {
        match self {
            Lease::Held => true,
            _ => false,
        }
    }

    /// The state once the request has finished with the pool.
    pub fn finished(&self) -> (r: Lease)
        ensures
            r == after_release(*self),
    {
        match self {
            Lease::Held => Lease::Released,
            Lease::Unleased => Lease::Unleased,
            Lease::Released => Lease::Released,
        }
    }
}

/// A failed acquisition is never a client error: whatever the pool reports,
/// the caller sees the backend as unavailable.
pub fn pool_failure_status(f: PoolFailure) -> (r: Status)
    ensures
        r == Status::BadGateway,
{
    match f {
        PoolFailure::Exhausted => Status::BadGateway,
        PoolFailure::BackendUnavailable => Status::BadGateway,
    }
}

} // verus!
