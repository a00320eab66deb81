//! Handshake and secure-channel state of an encrypted, message-framed session.

pub mod error;
pub mod laws;
pub mod outside;
pub mod session;
pub mod wire;
