//! A runtime scaffold for nodes that speak a line-oriented JSON protocol over
//! one inbound and one outbound stream.
//!
//! The crate holds the decisions of such a runtime and performs no I/O: the
//! wire format of an envelope, the handshake, the table of pending replies and
//! the routing of every inbound line. A host reads the lines, hands them in,
//! and writes out what the runtime queued.

pub mod json;
pub mod message;
pub mod wire;
pub mod handshake;
pub mod writers;
pub mod runtime;
pub mod gcounter;

pub use handshake::{run_init, InitError, InitPayload};
pub use json::Json;
pub use message::{Body, Event, Init, Message};
pub use runtime::{Error, Node, Phase, Runtime};
pub use wire::{decode_line, encode_line, DecodeError, Fields};
pub use writers::{MessageWriter, StdoutWriter, WriteError};
