//! Framed transport layer: length-prefixed frames over a byte stream, a
//! byte-buffer codec, channel composition and the decisions of one-shot
//! request exchanges.

pub mod common;
pub mod error;
pub mod wire;
pub mod frame;
pub mod timeout;
pub mod transport;
pub mod codec;
pub mod channel;
pub mod listener;
pub mod request;
