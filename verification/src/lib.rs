//! The session layer of a node cluster, for one connection.
//!
//! A session owns one bidirectional byte stream to a peer. Outbound messages are
//! framed as an eight-byte big-endian length followed by the encoded message; inbound
//! bytes are cut back into payloads by a reader with two states. The session
//! supervises its reader and its writer, and the three stop together.
//!
//! Nothing here performs I/O, spawns a task or encodes a message. Every decision of
//! the session, of its reader and of its writer is a function from a state and an
//! event to the next state and an action; a driver performs the reads and writes,
//! runs the codec and carries the messages between the units.
//!
//! - [`wire`]: the frame and its length prefix.
//! - [`exact`]: the read of an exact number of bytes from a stream that hands them
//!   out in chunks.
//! - [`reader`]: the reader, which takes frames off the stream.
//! - [`writer`]: the writer, which puts frames on the stream.
//! - [`session`]: the session, which routes messages and supervises the two.
//! - [`lifecycle`]: the reasons with which a unit stops.
//! - [`stream`]: what a writer and a reader make of a whole stream.

pub mod exact;
pub mod lifecycle;
pub mod reader;
pub mod session;
pub mod stream;
pub mod wire;
pub mod writer;
