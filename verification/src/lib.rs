//! The remote side of an actor library: the frames and messages that an actor
//! server and its clients exchange over a byte stream, and the decisions each
//! side takes on what it reads.
pub mod le;
pub mod wire;
pub mod protocol;
pub mod frame;
pub mod client;
pub mod server;
