//! The canonical byte layouts.
//!
//! Every value enters the transcript behind the same frame: the prefix byte,
//! the field's tag as eight little-endian bytes, and the code of the value's
//! wire type. A fixed-width value follows its frame directly. A
//! length-delimited value has its length behind the frame, as eight
//! little-endian bytes, and its content after that, unframed.

use vstd::prelude::*;

use vstd::bytes::{spec_u64_to_le_bytes, spec_u64_to_le_bytes_to_open, u64_to_le_bytes};

use crate::field::{lemma_code_is_injective, Tag, WireType};

verus! {

/// The byte that opens every frame: the code of [`WireType::UInt64`], the
/// wire type that a tag itself would have.
pub const TAG_PREFIX: u8 = 2;

/// How many bytes a frame has: the prefix, the tag and the wire type's code.
pub const FRAME_LEN: usize = 10;

/// The least significant byte of `x`.
pub open spec fn low_byte(x: u64) -> u8 {
    (x % 0x100) as u8
}

/// What is left of `x` above its least significant byte.
pub open spec fn high_bytes(x: u64) -> u64 {
    x / 0x100
}

/// The eight bytes of `x`, least significant first: its digits to the base
/// 256.
pub open spec fn le_bytes(x: u64) -> Seq<u8> {
    let x1 = high_bytes(x);
    let x2 = high_bytes(x1);
    let x3 = high_bytes(x2);
    let x4 = high_bytes(x3);
    let x5 = high_bytes(x4);
    let x6 = high_bytes(x5);
    let x7 = high_bytes(x6);
    seq![
        low_byte(x),
        low_byte(x1),
        low_byte(x2),
        low_byte(x3),
        low_byte(x4),
        low_byte(x5),
        low_byte(x6),
        low_byte(x7),
    ]
}

/// The frame of a value: [`TAG_PREFIX`], the tag, the wire type's code.
pub open spec fn frame(tag: Tag, wire_type: WireType) -> Seq<u8> {
    seq![TAG_PREFIX] + le_bytes(tag) + seq![wire_type.code()]
}

/// A fixed-width value: its frame, then its body.
pub open spec fn fixed_bytes(tag: Tag, wire_type: WireType, body: Seq<u8>) -> Seq<u8> {
    frame(tag, wire_type) + body
}

/// The one byte that is the body of a boolean.
pub open spec fn bool_body(value: bool) -> u8 {
    if value {
        1
    } else {
        0
    }
}

/// A boolean. Its wire type already says which one it is; the body says it
/// once more.
pub open spec fn boolean_bytes(tag: Tag, value: bool) -> Seq<u8> {
    fixed_bytes(tag, WireType::of_bool(value), seq![bool_body(value)])
}

/// An unsigned integer: its frame, then its eight little-endian bytes.
pub open spec fn uint64_bytes(tag: Tag, value: u64) -> Seq<u8> {
    fixed_bytes(tag, WireType::UInt64, le_bytes(value))
}

/// The two's complement of a signed integer in 64 bits: the integer itself if
/// it is not negative, and 2^64 more than it if it is.
pub open spec fn twos_complement(value: i64) -> u64 {
    if value >= 0 {
        value as u64
    } else {
        (value + 0x1_0000_0000_0000_0000) as u64
    }
}

/// A signed integer: its frame, then the eight little-endian bytes of its
/// two's complement.
pub open spec fn sint64_bytes(tag: Tag, value: i64) -> Seq<u8> {
    fixed_bytes(tag, WireType::SInt64, le_bytes(twos_complement(value)))
}

/// What opens a length-delimited value: its frame, then the length of its
/// content as eight little-endian bytes.
pub open spec fn dynamically_sized_bytes(
    tag: Tag,
    wire_type: WireType,
    length: usize,
) -> Seq<u8> {
    frame(tag, wire_type) + le_bytes(length as u64)
}

/// The bytes of [`le_bytes`] are those that shifting and masking give.
pub proof fn lemma_le_bytes_by_shifts(x: u64)
    ensures
        le_bytes(x) == spec_u64_to_le_bytes(x),
{
    spec_u64_to_le_bytes_to_open(x);
    assert(forall|y: u64| #[trigger] (y & 0xff) == y % 0x100) by (bit_vector);
    assert(x >> 8 == x / 0x100) by (bit_vector);
    assert(x >> 16 == x / 0x100 / 0x100) by (bit_vector);
    assert(x >> 24 == x / 0x100 / 0x100 / 0x100) by (bit_vector);
    assert(x >> 32 == x / 0x100 / 0x100 / 0x100 / 0x100) by (bit_vector);
    assert(x >> 40 == x / 0x100 / 0x100 / 0x100 / 0x100 / 0x100) by (bit_vector);
    assert(x >> 48 == x / 0x100 / 0x100 / 0x100 / 0x100 / 0x100 / 0x100) by (bit_vector);
    assert(x >> 56 == x / 0x100 / 0x100 / 0x100 / 0x100 / 0x100 / 0x100 / 0x100) by (bit_vector);
}

/// The little-endian bytes of `x` are its digits to the base 256: weighted
/// by the powers of 256, least first, they add up to `x`.
pub proof fn lemma_le_bytes_are_digits(x: u64)
    ensures
        le_bytes(x).len() == 8,
        x == le_bytes(x)[0] + 0x100 * le_bytes(x)[1] + 0x1_0000 * le_bytes(x)[2] + 0x100_0000
            * le_bytes(x)[3] + 0x1_0000_0000 * le_bytes(x)[4] + 0x100_0000_0000 * le_bytes(x)[5]
            + 0x1_0000_0000_0000 * le_bytes(x)[6] + 0x100_0000_0000_0000 * le_bytes(x)[7],
{
}

/// Two integers with the same little-endian bytes are the same integer.
pub proof fn lemma_le_bytes_injective(x: u64, y: u64)
    ensures
        le_bytes(x) == le_bytes(y) <==> x == y,
{
    lemma_le_bytes_are_digits(x);
    lemma_le_bytes_are_digits(y);
}

/// Casting a signed integer to an unsigned one of the same width gives its
/// two's complement.
pub proof fn lemma_cast_is_twos_complement(value: i64)
    ensures
        value as u64 == twos_complement(value),
{
    assert(value >= 0 ==> (value as u64) == value) by (bit_vector);
    assert(value < 0 ==> (value as u64) == value + 0x1_0000_0000_0000_0000) by (bit_vector);
}

/// Two signed integers with the same two's complement are the same integer.
pub proof fn lemma_twos_complement_injective(x: i64, y: i64)
    ensures
        twos_complement(x) == twos_complement(y) <==> x == y,
{
}

/// A frame names one tag and one wire type: two frames are the same only if
/// both are.
pub proof fn lemma_frame_is_injective(
    first_tag: Tag,
    first_type: WireType,
    second_tag: Tag,
    second_type: WireType,
)
    ensures
        frame(first_tag, first_type).len() == FRAME_LEN,
        frame(first_tag, first_type) == frame(second_tag, second_type) <==> first_tag
            == second_tag && first_type == second_type,
{
    let first = frame(first_tag, first_type);
    let second = frame(second_tag, second_type);
    if first == second {
        assert(le_bytes(first_tag) =~= first.subrange(1, 9));
        assert(le_bytes(second_tag) =~= second.subrange(1, 9));
        lemma_le_bytes_injective(first_tag, second_tag);
        assert(first[9] == first_type.code());
        assert(second[9] == second_type.code());
        lemma_code_is_injective(first_type, second_type);
    }
}

/// The layout of a boolean, byte for byte: the prefix, the tag, and then the
/// two bytes that tell `true` from `false`, which are the wire type's code
/// and the body. The two booleans of one field differ in both and in nothing
/// else.
pub proof fn lemma_boolean_layout(tag: Tag)
    ensures
        boolean_bytes(tag, true) == seq![TAG_PREFIX] + le_bytes(tag) + seq![
            WireType::True.code(),
            1u8,
        ],
        boolean_bytes(tag, false) == seq![TAG_PREFIX] + le_bytes(tag) + seq![
            WireType::False.code(),
            0u8,
        ],
        boolean_bytes(tag, true).len() == 11,
        boolean_bytes(tag, false).len() == 11,
        forall|i: int| 0 <= i < 9 ==> boolean_bytes(tag, true)[i] == boolean_bytes(tag, false)[i],
        boolean_bytes(tag, true)[9] != boolean_bytes(tag, false)[9],
        boolean_bytes(tag, true)[10] != boolean_bytes(tag, false)[10],
{
}

/// The frame prefix is the code of the wire type of unsigned integers.
pub proof fn lemma_tag_prefix_is_uint64()
    ensures
        TAG_PREFIX == WireType::UInt64.code(),
{
}

/// The eight bytes of `x`, least significant first.
pub fn le_bytes_of(x: u64) -> (bytes: Vec<u8>)
    ensures
        bytes@ == le_bytes(x),
{
    let bytes = u64_to_le_bytes(x);
    proof {
        lemma_le_bytes_by_shifts(x);
    }
    bytes
}

} // verus!
