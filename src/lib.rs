//! Random access to a byte stream held by a server, over a small binary
//! request/response protocol.
//!
//! * [`wire`]: the fixed-layout encoding of requests and replies.
//! * [`source`]: an in-memory seekable byte source with a positioned read.
//! * [`server`]: what the server does with one message from a connection.
//! * [`client`]: how a client reads the server's replies.
//! * [`laws`]: properties that tie the pieces together.
use vstd::prelude::*;

pub mod client;
pub mod laws;
pub mod server;
pub mod source;
pub mod wire;

verus! {

} // verus!
