//! The driver of a threshold ECDSA protocol (GG18) on the side of one party:
//! the sessions that take the relay's framed messages round by round, say
//! which round function to run on what, and turn its outcome into the next
//! state and the envelope to ship.
//!
//! The cryptography is not in here. A session asks for a round (`request`),
//! the caller runs it, and the session takes the outcome (`advance`).

pub mod bytes;
pub mod context;
pub mod error;
pub mod fanout;
pub mod framing;
pub mod group;
pub mod init;
pub mod keygen;
pub mod persist;
pub mod protocol;
pub mod session;
pub mod sign;
pub mod varint;
pub mod wire;
pub mod wrapper;
