//! Delivery of wire bytes toward the network.

use vstd::prelude::*;

verus! {

/// A single send attempt did not go through. The relay does not act on it:
/// the record is sent again when it is next due.
#[derive(Clone, Copy, Debug, PartialEq, Eq, Structural)]
pub struct TransientForwardFailure;

/// Best-effort delivery of opaque wire bytes. Nothing is assumed about the
/// result of an attempt.
pub trait Forwarder {
    fn forward(&self, wire_payload: &Vec<u8>) -> Result<(), TransientForwardFailure>;
}

} // verus!
