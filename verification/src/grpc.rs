//! The gRPC side of the player: what a client asks the server, and how the
//! server answers. The transport itself (tonic) runs in the program.

use vstd::prelude::*;

pub mod client;
pub mod server;

verus! {

/// How an attempt to bind a TCP listener to the server's address ended.
#[derive(Debug, Clone, Copy, PartialEq, Eq, Structural)]
pub enum BindOutcome {
    /// The address was free and got bound.
    Bound,
    /// Another socket already holds the address.
    AddrInUse,
    /// The bind failed for another reason.
    Failed,
}

/// Whether the address is already in use, from how binding to it ended.
pub fn is_socket_in_use(bind: BindOutcome) -> (in_use: bool)
    ensures
        in_use == (bind == BindOutcome::AddrInUse),
{
    match bind {
        BindOutcome::AddrInUse => true,
        _ => false,
    }
}

} // verus!
