//! Field tags and wire types.

use vstd::prelude::*;

verus! {

/// The identifier of a field within its message.
pub type Tag = u64;

/// The kinds of value that the encoding knows. Each has a code of one byte.
#[derive(Clone, Copy, Debug, PartialEq, Eq, Structural)]
pub enum WireType {
    /// The boolean `false`; the code is the whole value.
    False,
    /// The boolean `true`; the code is the whole value.
    True,
    /// An unsigned 64-bit integer.
    UInt64,
    /// A signed 64-bit integer.
    SInt64,
    /// A run of bytes.
    Bytes,
    /// A run of bytes that holds text.
    String,
    /// A nested message.
    Message,
    /// A sequence of values of one kind.
    Sequence,
}

impl WireType {
    /// The code of this wire type.
    pub open spec fn code(self) -> u8 {
        match self {
            WireType::False => 0,
            WireType::True => 1,
            WireType::UInt64 => 2,
            WireType::SInt64 => 3,
            WireType::Bytes => 4,
            WireType::String => 5,
            WireType::Message => 6,
            WireType::Sequence => 7,
        }
    }

    /// Whether a value of this wire type is a length followed by that many
    /// bytes of content.
    pub open spec fn is_length_delimited(self) -> bool {
        self is Bytes || self is String || self is Message || self is Sequence
    }

    /// The wire type that the rest of a value of this wire type goes on
    /// under, once a chunk of it has been taken. A string stays a string.
    /// A nested message or a sequence is not descended into: what remains of
    /// it is a plain run of bytes.
    pub open spec fn continued(self) -> WireType {
        if self is String {
            WireType::String
        } else {
            WireType::Bytes
        }
    }

    /// The wire type that stands for the boolean `value`.
    pub open spec fn of_bool(value: bool) -> WireType {
        if value {
            WireType::True
        } else {
            WireType::False
        }
    }

    /// The code of this wire type.
    pub fn to_u8(self) -> (code: u8)
        ensures
            code == self.code(),
    {
        match self {
            WireType::False => 0,
            WireType::True => 1,
            WireType::UInt64 => 2,
            WireType::SInt64 => 3,
            WireType::Bytes => 4,
            WireType::String => 5,
            WireType::Message => 6,
            WireType::Sequence => 7,
        }
    }
}

/// No two wire types share a code.
pub proof fn lemma_code_is_injective(a: WireType, b: WireType)
    ensures
        a.code() == b.code() <==> a == b,
{
}

/// What introduces a field: its tag and the kind of value that follows.
#[derive(Clone, Copy, Debug, PartialEq, Eq, Structural)]
pub struct Header {
    /// The field's tag.
    pub tag: Tag,
    /// The wire type of the field's value.
    pub wire_type: WireType,
}

} // verus!
