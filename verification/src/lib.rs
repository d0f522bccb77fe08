//! Streaming transcript hashing for a self-describing binary encoding.
//!
//! A decoder walks a message and reports each step as an [`decoder::Event`].
//! The [`decoder::hasher::Hasher`] folds those events, in order, into a hash
//! context: every value is bound to its field tag, its wire type and its
//! declared length before any of its content is absorbed. An event that is
//! not legal where it arrives fails the whole transcript.
//!
//! ```
//! use sha2::Sha256;
//! use verihash::decoder::hasher::Hasher;
//! use verihash::decoder::Event;
//! use verihash::field::{Header, WireType};
//!
//! let mut hasher = Hasher::<Sha256>::new();
//! hasher.hash_event(&Event::FieldHeader(Header { tag: 1, wire_type: WireType::UInt64 })).unwrap();
//! hasher.hash_event(&Event::UInt64(42)).unwrap();
//! // An integer without a header before it ends the transcript.
//! assert!(hasher.hash_event(&Event::UInt64(43)).is_err());
//! assert!(hasher.into_digest().is_err());
//! ```
//!
//! What the hasher absorbs is stated byte for byte in [`encoding`], which
//! event is legal in which state in [`decoder::hasher::State::step`], and
//! what follows from the two in [`decoder::laws`]. What is asked of a hash
//! context is in [`context`], with SHA-256 as the context that the library
//! brings along.

pub mod context;
pub mod decoder;
pub mod encoding;
pub mod error;
pub mod field;
