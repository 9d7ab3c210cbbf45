//! Serialization of wire values: a type that can be read from and written
//! to its raw bytes.

use crate::packet::{DecodeError, Packet};
use vstd::prelude::*;

verus! {

/// A value with a raw wire form.
pub trait Serial where Self: Sized {
    /// Reads a value out of its raw bytes.
    fn from_raw(raw: &[u8]) -> Result<Self, DecodeError>;

    /// Writes a value into its raw bytes.
    fn to_raw(&self) -> Vec<u8>;
}

impl Serial for Packet {
    fn from_raw(raw: &[u8]) -> Result<Packet, DecodeError> {
        Packet::from_raw(raw)
    }

    fn to_raw(&self) -> Vec<u8> {
        Packet::to_raw(self)
    }
}

} // verus!
