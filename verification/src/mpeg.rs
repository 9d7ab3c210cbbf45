//! Readers for the transport-stream packets and packetized elementary
//! streams that the data packets of a session carry.

pub mod adaptation_field;
pub mod adaptation_field_control;
pub mod adaptation_field_extension;
pub mod descriptor;
pub mod pes;
pub mod transport_packet;

use vstd::prelude::*;

verus! {

/// Errors of the transport-stream readers.
#[derive(Clone, Copy, Debug, PartialEq, Eq, Structural)]
pub enum ParseError {
    /// The buffer ends before a field that its flags announce.
    TooShort,
    /// A field holds a value outside its range.
    InvalidValue,
}

} // verus!
