//! Shared pieces of the protocol-upgrade peers.

use vstd::prelude::*;

verus! {

/// Framing mode of outgoing messages on an upgraded connection.
#[derive(Clone, Copy, Debug, PartialEq, Eq, Structural)]
pub enum Mode1 {
    Text,
    Binary,
}

} // verus!
