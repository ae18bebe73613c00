//! The server's REST API surface, as capabilities a router can carry.

use vstd::prelude::*;

use crate::ctest::RouterCtest;

verus! {

/// Marks a router as carrying the whole REST API; the network layer
/// implements it for its router type.
pub trait RouterApi: RouterCtest {
    /// Registers every route of the REST API.
    fn with_api(self) -> Self;
}

} // verus!
