//! The transition table, one state and one event at a time.

use sha2::{Digest, Sha256};
use verihash::context::{Context, Transcript};
use verihash::decoder::hasher::State;
use verihash::decoder::Event;
use verihash::error::Error;
use verihash::field::{Header, WireType};

fn field(tag: u64, wire_type: WireType) -> Header {
    Header { tag, wire_type }
}

fn content(wire_type: WireType, bytes: &[u8], remaining: usize) -> Event<'_> {
    Event::ValueChunk { wire_type, bytes, remaining }
}

/// Takes `event` in `state` with a new context, and answers with the result
/// and with what was absorbed.
fn take(state: State, event: Event<'_>) -> (Result<State, Error>, Vec<u8>) {
    let mut context = Transcript::start();
    let result = state.transition(&event, &mut context);
    (result, context.into_bytes())
}

/// Checks that `event` fails in `state` and that nothing is absorbed.
fn refused(state: State, event: Event<'_>) {
    let (result, absorbed) = take(state, event);
    assert_eq!(result, Err(Error::Hashing));
    assert_eq!(absorbed, Vec::<u8>::new());
}

#[test]
fn default_state_is_initial() {
    assert_eq!(State::default(), State::Initial);
}

#[test]
fn field_header_is_latched_without_absorbing() {
    let (result, absorbed) =
        take(State::Initial, Event::FieldHeader(field(1, WireType::UInt64)));
    assert_eq!(result, Ok(State::Header(field(1, WireType::UInt64))));
    assert_eq!(absorbed, Vec::<u8>::new());
}

#[test]
fn handle_field_header_needs_initial_state() {
    let h = field(3, WireType::Bytes);
    assert_eq!(State::Initial.handle_field_header(&h), Ok(State::Header(h)));
    assert_eq!(State::Header(h).handle_field_header(&h), Err(Error::Hashing));
    assert_eq!(State::Bytes { remaining: 1 }.handle_field_header(&h), Err(Error::Hashing));
    assert_eq!(State::String { remaining: 1 }.handle_field_header(&h), Err(Error::Hashing));
    assert_eq!(State::Message { remaining: 1 }.handle_field_header(&h), Err(Error::Hashing));
    assert_eq!(State::Sequence { remaining: 0 }.handle_field_header(&h), Err(Error::Hashing));
}

#[test]
fn field_header_inside_a_value_fails() {
    let event = Event::FieldHeader(field(3, WireType::Bytes));
    refused(State::Header(field(2, WireType::Bytes)), event);
    refused(State::Bytes { remaining: 4 }, event);
    refused(State::Sequence { remaining: 4 }, event);
}

#[test]
fn length_delimiter_opens_the_state_of_its_wire_type() {
    let cases = [
        (WireType::Bytes, State::Bytes { remaining: 3 }),
        (WireType::String, State::String { remaining: 3 }),
        (WireType::Message, State::Message { remaining: 3 }),
        (WireType::Sequence, State::Sequence { remaining: 3 }),
    ];
    for (wire_type, expected) in cases {
        let (result, absorbed) = take(
            State::Header(field(2, wire_type)),
            Event::LengthDelimiter { wire_type, length: 3 },
        );
        assert_eq!(result, Ok(expected));
        assert_eq!(
            absorbed,
            vec![2, 2, 0, 0, 0, 0, 0, 0, 0, wire_type.to_u8(), 3, 0, 0, 0, 0, 0, 0, 0]
        );
    }
}

#[test]
fn length_delimiter_of_length_zero_opens_an_empty_value() {
    let (result, absorbed) = take(
        State::Header(field(2, WireType::Bytes)),
        Event::LengthDelimiter { wire_type: WireType::Bytes, length: 0 },
    );
    assert_eq!(result, Ok(State::Bytes { remaining: 0 }));
    assert_eq!(absorbed, vec![2, 2, 0, 0, 0, 0, 0, 0, 0, 4, 0, 0, 0, 0, 0, 0, 0, 0]);

    let (result, absorbed) = take(State::Bytes { remaining: 0 }, content(WireType::Bytes, &[], 0));
    assert_eq!(result, Ok(State::Initial));
    assert_eq!(absorbed, Vec::<u8>::new());
}

#[test]
fn length_delimiter_of_the_greatest_length() {
    let (result, absorbed) = take(
        State::Header(field(u64::MAX, WireType::String)),
        Event::LengthDelimiter { wire_type: WireType::String, length: usize::MAX },
    );
    assert_eq!(result, Ok(State::String { remaining: usize::MAX }));
    let mut expected = vec![2, 255, 255, 255, 255, 255, 255, 255, 255, 5];
    expected.extend_from_slice(&(usize::MAX as u64).to_le_bytes());
    assert_eq!(absorbed, expected);
}

#[test]
fn length_delimiter_must_name_the_wire_type_of_the_header() {
    refused(
        State::Header(field(2, WireType::Bytes)),
        Event::LengthDelimiter { wire_type: WireType::String, length: 3 },
    );
    refused(
        State::Header(field(2, WireType::UInt64)),
        Event::LengthDelimiter { wire_type: WireType::Bytes, length: 8 },
    );
}

#[test]
fn length_delimiter_of_a_fixed_width_wire_type_fails() {
    for wire_type in [WireType::False, WireType::True, WireType::UInt64, WireType::SInt64] {
        refused(
            State::Header(field(2, wire_type)),
            Event::LengthDelimiter { wire_type, length: 8 },
        );
    }
}

#[test]
fn length_delimiter_needs_a_header() {
    let event = Event::LengthDelimiter { wire_type: WireType::Bytes, length: 3 };
    refused(State::Initial, event);
    refused(State::Bytes { remaining: 3 }, event);
    refused(State::Message { remaining: 3 }, event);
}

#[test]
fn fixed_width_values_close_the_field() {
    let (result, absorbed) = take(State::Header(field(5, WireType::True)), Event::Bool(true));
    assert_eq!(result, Ok(State::Initial));
    assert_eq!(absorbed, vec![2, 5, 0, 0, 0, 0, 0, 0, 0, 1, 1]);

    let (result, absorbed) = take(State::Header(field(5, WireType::False)), Event::Bool(false));
    assert_eq!(result, Ok(State::Initial));
    assert_eq!(absorbed, vec![2, 5, 0, 0, 0, 0, 0, 0, 0, 0, 0]);

    let (result, absorbed) = take(State::Header(field(1, WireType::UInt64)), Event::UInt64(42));
    assert_eq!(result, Ok(State::Initial));
    assert_eq!(absorbed, vec![2, 1, 0, 0, 0, 0, 0, 0, 0, 2, 42, 0, 0, 0, 0, 0, 0, 0]);

    let (result, absorbed) = take(State::Header(field(1, WireType::SInt64)), Event::SInt64(-1));
    assert_eq!(result, Ok(State::Initial));
    assert_eq!(
        absorbed,
        vec![2, 1, 0, 0, 0, 0, 0, 0, 0, 3, 255, 255, 255, 255, 255, 255, 255, 255]
    );
}

#[test]
fn fixed_width_value_goes_by_its_own_wire_type() {
    // The header gives the tag; the wire type in the transcript is the
    // value's own.
    let (result, absorbed) = take(State::Header(field(5, WireType::Bytes)), Event::Bool(true));
    assert_eq!(result, Ok(State::Initial));
    assert_eq!(absorbed, vec![2, 5, 0, 0, 0, 0, 0, 0, 0, 1, 1]);
}

#[test]
fn fixed_width_value_needs_a_header() {
    for event in [Event::Bool(true), Event::UInt64(1), Event::SInt64(-1)] {
        refused(State::Initial, event);
        refused(State::Bytes { remaining: 8 }, event);
        refused(State::String { remaining: 8 }, event);
        refused(State::Message { remaining: 8 }, event);
        refused(State::Sequence { remaining: 8 }, event);
    }
}

#[test]
fn chunk_is_absorbed_as_it_is() {
    let (result, absorbed) =
        take(State::Bytes { remaining: 3 }, content(WireType::Bytes, b"abc", 0));
    assert_eq!(result, Ok(State::Initial));
    assert_eq!(absorbed, b"abc".to_vec());

    let (result, absorbed) =
        take(State::String { remaining: 5 }, content(WireType::String, b"ab", 3));
    assert_eq!(result, Ok(State::String { remaining: 3 }));
    assert_eq!(absorbed, b"ab".to_vec());

    let (result, absorbed) =
        take(State::Bytes { remaining: 5 }, content(WireType::Bytes, b"ab", 3));
    assert_eq!(result, Ok(State::Bytes { remaining: 3 }));
    assert_eq!(absorbed, b"ab".to_vec());
}

#[test]
fn empty_chunk_inside_a_value_changes_nothing() {
    let (result, absorbed) = take(State::Bytes { remaining: 3 }, content(WireType::Bytes, &[], 3));
    assert_eq!(result, Ok(State::Bytes { remaining: 3 }));
    assert_eq!(absorbed, Vec::<u8>::new());
}

#[test]
fn message_and_sequence_chunks_are_absorbed_and_go_on_as_bytes() {
    let (result, absorbed) =
        take(State::Message { remaining: 3 }, content(WireType::Message, b"abc", 0));
    assert_eq!(result, Ok(State::Initial));
    assert_eq!(absorbed, b"abc".to_vec());

    let (result, absorbed) =
        take(State::Message { remaining: 5 }, content(WireType::Message, b"ab", 3));
    assert_eq!(result, Ok(State::Bytes { remaining: 3 }));
    assert_eq!(absorbed, b"ab".to_vec());

    let (result, absorbed) =
        take(State::Sequence { remaining: 3 }, content(WireType::Sequence, b"abc", 0));
    assert_eq!(result, Ok(State::Initial));
    assert_eq!(absorbed, b"abc".to_vec());

    let (result, absorbed) =
        take(State::Sequence { remaining: 5 }, content(WireType::Sequence, b"ab", 3));
    assert_eq!(result, Ok(State::Bytes { remaining: 3 }));
    assert_eq!(absorbed, b"ab".to_vec());
}

#[test]
fn chunk_must_name_the_open_wire_type() {
    refused(State::Bytes { remaining: 3 }, content(WireType::String, b"abc", 0));
    refused(State::String { remaining: 3 }, content(WireType::Bytes, b"abc", 0));
    refused(State::Message { remaining: 3 }, content(WireType::Bytes, b"abc", 0));
    refused(State::Sequence { remaining: 3 }, content(WireType::Message, b"abc", 0));
}

#[test]
fn chunk_needs_an_open_value() {
    refused(State::Initial, content(WireType::Bytes, b"abc", 0));
    // Behind a header the length has to come first.
    refused(State::Header(field(2, WireType::Bytes)), content(WireType::Bytes, b"abc", 0));
}

#[test]
fn chunk_that_claims_more_remaining_fails() {
    // Three were expected and three came: none remains, not one.
    refused(State::Bytes { remaining: 3 }, content(WireType::Bytes, b"abc", 1));
    // Nor can as many remain as before.
    refused(State::Bytes { remaining: 3 }, content(WireType::Bytes, b"a", 3));
    // Nor fewer than are left.
    refused(State::Bytes { remaining: 3 }, content(WireType::Bytes, b"a", 1));
}

#[test]
fn chunk_longer_than_what_remains_fails() {
    refused(State::Bytes { remaining: 2 }, content(WireType::Bytes, b"abc", 0));
    // The count that wrapping subtraction would give is refused as well.
    refused(State::String { remaining: 2 }, content(WireType::String, b"abc", usize::MAX));
    refused(State::Message { remaining: 0 }, content(WireType::Message, b"a", usize::MAX));
}

#[test]
fn handle_sequence_header_passes_through() {
    assert_eq!(State::Initial.handle_sequence_header(WireType::UInt64, 4), Ok(State::Initial));
    assert_eq!(
        State::Sequence { remaining: 9 }.handle_sequence_header(WireType::UInt64, 4),
        Ok(State::Sequence { remaining: 9 })
    );
    assert_eq!(
        State::Bytes { remaining: 9 }.handle_sequence_header(WireType::Bytes, 0),
        Ok(State::Bytes { remaining: 9 })
    );
    assert_eq!(
        State::String { remaining: 0 }.handle_sequence_header(WireType::Bytes, 0),
        Ok(State::String { remaining: 0 })
    );
    assert_eq!(
        State::Message { remaining: 1 }.handle_sequence_header(WireType::Bytes, 0),
        Ok(State::Message { remaining: 1 })
    );
}

#[test]
fn sequence_header_cannot_follow_a_field_header() {
    let h = field(4, WireType::Sequence);
    assert_eq!(
        State::Header(h).handle_sequence_header(WireType::UInt64, 4),
        Err(Error::Hashing)
    );
    refused(State::Header(h), Event::SequenceHeader { wire_type: WireType::UInt64, length: 4 });
}

#[test]
fn sequence_header_absorbs_nothing() {
    let (result, absorbed) = take(
        State::Sequence { remaining: 9 },
        Event::SequenceHeader { wire_type: WireType::UInt64, length: 4 },
    );
    assert_eq!(result, Ok(State::Sequence { remaining: 9 }));
    assert_eq!(absorbed, Vec::<u8>::new());
}

#[test]
fn end_to_end_scenario_leaves_initial_state() {
    let mut context = Transcript::start();
    let state = State::default();
    let state = state
        .transition(&Event::FieldHeader(field(1, WireType::UInt64)), &mut context)
        .unwrap();
    let state = state.transition(&Event::UInt64(42), &mut context).unwrap();
    let state = state
        .transition(&Event::FieldHeader(field(2, WireType::Bytes)), &mut context)
        .unwrap();
    let state = state
        .transition(&Event::LengthDelimiter { wire_type: WireType::Bytes, length: 3 }, &mut context)
        .unwrap();
    assert_eq!(state, State::Bytes { remaining: 3 });
    let state = state
        .transition(&content(WireType::Bytes, &[0x61, 0x62, 0x63], 0), &mut context)
        .unwrap();
    assert_eq!(state, State::Initial);
    assert_eq!(
        context.into_bytes(),
        vec![
            2, 1, 0, 0, 0, 0, 0, 0, 0, 2, 42, 0, 0, 0, 0, 0, 0, 0, 2, 2, 0, 0, 0, 0, 0, 0, 0, 4,
            3, 0, 0, 0, 0, 0, 0, 0, 0x61, 0x62, 0x63
        ]
    );
}

#[test]
fn transition_absorbs_into_a_sha256_context() {
    let mut context = Sha256::new();
    let state = State::Header(field(5, WireType::True));
    assert_eq!(state.transition(&Event::Bool(true), &mut context), Ok(State::Initial));
    assert_eq!(
        context.result().to_vec(),
        vec![
            157, 19, 170, 129, 103, 106, 95, 61, 1, 143, 229, 165, 40, 84, 144, 195, 100, 143,
            206, 0, 79, 209, 121, 117, 59, 155, 253, 95, 39, 146, 178, 137
        ]
    );
}
