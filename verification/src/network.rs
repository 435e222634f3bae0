//! Session negotiation and the wire transports.

pub mod session;
pub mod transport;
