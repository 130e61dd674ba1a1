//! Administrative control-plane endpoint.
//!
//! The administrative operations (rebuilding an index, purging storage,
//! recording an external ledger event) are a thin pass-through with no
//! algorithmic content; none depend on or affect discovery state. The
//! embedding application implements the remote-procedure-call transport
//! around this type.

use vstd::prelude::*;

verus! {

/// The administrative service endpoint.
#[derive(Clone, Copy, Debug, PartialEq, Eq, Structural)]
pub struct AdminServer {}

impl Default for AdminServer {
    fn default() -> (r: AdminServer)
        ensures
            r == (AdminServer {  }),
    {
        AdminServer {  }
    }
}

} // verus!
