//! A verified engine for a reliable UDP media-ingest transport: the wire
//! packet codec, the induction/conversion handshake, and the per-session
//! reliability controller (loss detection, acknowledgment cadence,
//! round-trip-time capture), together with readers for the transport-stream
//! payloads the sessions carry.
//!
//! The codec is proved to round-trip every well-formed packet, the session
//! handlers are proved to follow their spec-level state transitions
//! exactly, and the cadence and round-trip laws are proved of those
//! transitions.  Sockets, clocks and threads stay with the caller: every
//! operation here is a function from plain values to plain values.

pub mod bits;
pub mod codec;
pub mod connection;
pub mod control;
pub mod handshake;
pub mod hls;
pub mod mpeg;
pub mod packet;
pub mod serial;
