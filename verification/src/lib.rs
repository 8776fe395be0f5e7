//! A client library for the VICI protocol spoken by the strongSwan IKE
//! daemon `charon`.
//!
//! The protocol is a framed request/response and event-subscription protocol
//! carried over a full-duplex byte stream.  This crate holds the verified
//! core: the packet codec, the error taxonomy, the session multiplexer's
//! routing state, and the per-exchange protocol state machines.  The
//! surrounding async transport glue lives outside the verified library.

pub mod client;
pub mod error;
pub mod listener;
pub mod packet;
pub mod packet_type;
