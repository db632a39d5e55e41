//! Failures of the client station's operations.
//!
//! None of these is fatal: a malformed frame is dropped, a failed
//! transmission is reported to the caller, and the station carries on.

use vstd::prelude::*;

verus! {

#[derive(Clone, Copy, PartialEq, Eq, Structural, Debug)]
pub enum Error {
    /// The scratch buffer cannot hold the frame being written.
    BufferTooSmall,
    /// The buffer gateway could not provide a buffer.
    NoResources,
    /// The lower layer refused the completed frame.
    CouldNotDeliverWlanFrame,
    /// The network stack refused the reconstructed Ethernet frame.
    CouldNotDeliverEthFrame,
    /// The upper-layer channel refused an indication or confirmation.
    CouldNotDeliverSmeMessage,
    /// An EAPOL payload above the fixed maximum was rejected.
    EapolFrameTooLarge,
}

} // verus!
