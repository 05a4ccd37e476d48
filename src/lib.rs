//! Client side of the datastream protocol: a big-endian wire codec for the
//! frames a sequencer sends, and the session state machines (command
//! exchange, streaming read loop, connect-and-resume) that drive a socket
//! owned by the caller.

pub mod bytes;
pub mod types;
pub mod codec;
pub mod stream_client;
pub mod stream_server;
