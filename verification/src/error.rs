//! What can go wrong while an advertisement is decoded or a subscription is set up.

use vstd::prelude::*;

verus! {

/// Why one advertisement could not be decoded. The advertisement is skipped; the
/// stream goes on.
#[derive(Debug, Clone, Copy, PartialEq, Eq, Structural)]
pub enum DecodeError {
    /// The manufacturer data does not have the shape of a company key followed
    /// by a variant that wraps one list of bytes.
    MalformedEnvelope,
    /// The payload does not hold exactly the number of bytes of the format.
    InvalidPayloadLength { expected: usize, actual: usize },
}

/// Why a subscription could not be set up or had to end.
#[derive(Debug, Clone, Copy, PartialEq, Eq, Structural)]
pub enum GatewayError {
    /// The connection to the Bluetooth stack could not be established or was lost.
    GatewayConnectionFailure,
    /// The device identifier is none by which D-Bus can address a device.
    InvalidDeviceIdentifier,
}

} // verus!
