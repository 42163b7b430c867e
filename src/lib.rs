//! A Noise `XX` secure channel: handshake state machine and transport phase,
//! with the cryptography carried out by the `snow` crate.

mod engine;
pub mod error;
pub mod initiator;
pub mod keys;
pub mod laws;
pub mod pattern;
pub mod responder;
pub mod session;
