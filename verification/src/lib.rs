//! Endpoint core for Media-over-QUIC Transport: the control-message wire
//! codec, the session state machine and the track manager.
//!
//! * [`codec`] writes and reads variable-length integers, the fields that
//!   payloads are made of, and framed control messages. What is written and
//!   what is read are stated over byte sequences, and it is proved that each
//!   message comes back unchanged from its own bytes.
//! * [`message`] holds the control messages, each with its payload grammar.
//! * [`model`] holds the values that payloads share.
//! * [`session`] is the life cycle of a session.
//! * [`track`] is the book-keeping of tracks, aliases and requests.
//! * [`buffer`] says what is taken for granted of the byte buffer.
//!
//! The core does no I/O: bytes come in and go out through a
//! `bytes::BytesMut` that the caller owns.

pub mod buffer;
pub mod codec;
pub mod error;
pub mod message;
pub mod model;
pub mod session;
pub mod track;

pub use session::Session;
pub use track::{Object, ObjectMetadata, TrackManager};
