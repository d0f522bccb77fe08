//! What a decoder reports while it walks a message.

use vstd::prelude::*;

use crate::field::{Header, WireType};

pub mod hasher;
pub mod laws;

verus! {

/// One step of decoding a message.
#[derive(Clone, Copy, Debug)]
pub enum Event<'a> {
    /// The header of a field was read.
    FieldHeader(Header),
    /// The length of a length-delimited value was read.
    LengthDelimiter {
        /// The wire type of the value.
        wire_type: WireType,
        /// How many bytes of content the value has.
        length: usize,
    },
    /// A boolean was read.
    Bool(bool),
    /// An unsigned integer was read.
    UInt64(u64),
    /// A signed integer was read.
    SInt64(i64),
    /// Some of the content of a length-delimited value was read.
    ValueChunk {
        /// The wire type of the value.
        wire_type: WireType,
        /// The content that was read.
        bytes: &'a [u8],
        /// How many bytes of the value's content are still to come.
        remaining: usize,
    },
    /// The header of a sequence was read.
    SequenceHeader {
        /// The wire type of the sequence's items.
        wire_type: WireType,
        /// How many bytes the sequence's items take.
        length: usize,
    },
}

impl<'a> Event<'a> {
    /// The content that a chunk carries; nothing for any other event.
    pub open spec fn content(self) -> Seq<u8> {
        match self {
            Event::ValueChunk { bytes, .. } => bytes@,
            _ => Seq::empty(),
        }
    }

    /// Whether the event is a boolean or an integer.
    pub open spec fn is_fixed_sized_value(self) -> bool {
        self is Bool || self is UInt64 || self is SInt64
    }

    /// The wire type under which the event's value enters the transcript,
    /// for an event that brings a value or the length of one.
    pub open spec fn value_wire_type(self) -> WireType
        recommends
            self.is_fixed_sized_value() || self is LengthDelimiter,
    {
        match self {
            Event::Bool(value) => WireType::of_bool(value),
            Event::UInt64(_) => WireType::UInt64,
            Event::SInt64(_) => WireType::SInt64,
            Event::LengthDelimiter { wire_type, .. } => wire_type,
            Event::ValueChunk { wire_type, .. } => wire_type,
            Event::SequenceHeader { wire_type, .. } => wire_type,
            Event::FieldHeader(header) => header.wire_type,
        }
    }
}

} // verus!
