//! Sender-side engine of the AuRelay streaming protocol, without its sockets.
//!
//! The crate holds the rules of the protocol: how a receiver is found, how a
//! session is negotiated, how a payload is cut into wire units, and which
//! step the streaming engine takes next. Every function computes on plain
//! values; the caller moves the bytes and reports what the network did.

pub mod audio;
pub mod bridge;
pub mod discovery;
pub mod engine;
pub mod ffmpeg;
pub mod logs;
pub mod models;
pub mod network;
pub mod text;

pub use logs::push_log;
pub use models::{DeviceInfo, SessionState, StreamConfig, TransportMode};
