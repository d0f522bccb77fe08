//! The transcript hasher.
//!
//! [`State`] is the finite machine that decides which event may come next;
//! [`Hasher`] joins it to a hash context. The hasher never sees a whole
//! message: from the flat stream of events it keeps only whether a header is
//! pending and how many bytes the open value still expects.

use vstd::prelude::*;

use crate::context::{has_room, Context};
use crate::decoder::Event;
use crate::encoding::{
    boolean_bytes, dynamically_sized_bytes, fixed_bytes, frame, le_bytes_of,
    lemma_cast_is_twos_complement, sint64_bytes, uint64_bytes, FRAME_LEN, TAG_PREFIX,
};
use crate::error::Error;
use crate::field::{Header, Tag, WireType};

verus! {

/// Computes the transcript of how a message was decoded, driven by the
/// events of its decoding, into a hash context of the kind `D`.
///
/// The caller replays the decoder's events, each once and in order. The first
/// event that is not legal where it arrives poisons the hasher: that call
/// fails, and so does every call after it.
pub struct Hasher<D: Context> {
    /// The context that the transcript is absorbed into.
    digest: D,
    /// Where the transcript stands, or `None` once an event has failed.
    state: Option<State>,
}

/// What a [`Hasher`] stands for.
pub struct HasherView {
    /// Where the transcript stands, or `None` if the hasher is poisoned.
    pub state: Option<State>,
    /// The bytes absorbed so far.
    pub transcript: Seq<u8>,
}

impl HasherView {
    /// A hasher that has seen nothing yet.
    pub open spec fn fresh() -> HasherView {
        HasherView { state: Some(State::Initial), transcript: Seq::empty() }
    }

    /// Whether an event has failed.
    pub open spec fn is_poisoned(self) -> bool {
        self.state is None
    }

    /// What [`Hasher::hash_event`] answers to `event`.
    pub open spec fn answer(self, event: Event<'_>) -> Result<(), Error> {
        match self.state {
            None => Err(Error::Failed),
            Some(state) => match state.step(event) {
                Some(_) => Ok(()),
                None => Err(Error::Hashing),
            },
        }
    }

    /// The hasher after `event`. A legal event moves the state on and adds
    /// its bytes to the transcript. Any other leaves the transcript as it is
    /// and the hasher poisoned.
    pub open spec fn after(self, event: Event<'_>) -> HasherView {
        match self.state {
            None => self,
            Some(state) => match state.step(event) {
                Some(step) => HasherView {
                    state: Some(step.next),
                    transcript: self.transcript + step.bytes,
                },
                None => HasherView { state: None, transcript: self.transcript },
            },
        }
    }

    /// The hasher after all of `events`, in order.
    pub open spec fn after_all(self, events: Seq<Event<'_>>) -> HasherView
        decreases events.len(),
    {
        if events.len() == 0 {
            self
        } else {
            self.after_all(events.drop_last()).after(events.last())
        }
    }
}

impl<D: Context> View for Hasher<D> {
    type V = HasherView;

    closed spec fn view(&self) -> HasherView {
        HasherView { state: self.state, transcript: self.digest.absorbed() }
    }
}

impl<D: Context> Hasher<D> {
    /// Makes a hasher that has seen nothing yet.
    pub fn new() -> (hasher: Self)
        ensures
            hasher@ == HasherView::fresh(),
    {
        Self::default()
    }

    /// Takes the next event of the decoding.
    ///
    /// A poisoned hasher refuses it with [`Error::Failed`] and leaves the
    /// hash context alone. Otherwise the event is held against the state: if
    /// it is legal, its bytes are absorbed and the state moves on; if not,
    /// the call fails with [`Error::Hashing`], nothing is absorbed, and the
    /// hasher is poisoned from then on.
    pub fn hash_event(&mut self, event: &Event<'_>) -> (result: Result<(), Error>)
        requires
            old(self)@.after(*event).transcript.len() <= D::capacity(),
        ensures
            result == old(self)@.answer(*event),
            final(self)@ == old(self)@.after(*event),
    {
        if let Some(state) = self.state.take() {
            match state.transition(event, &mut self.digest) {
                Ok(new_state) => {
                    self.state = Some(new_state);
                    Ok(())
                },
                Err(error) => Err(error),
            }
        } else {
            Err(Error::Failed)
        }
    }

    /// Ends the transcript and hands out the hash context, for the caller to
    /// take the digest from. A poisoned hasher has no digest to give.
    pub fn into_digest(self) -> (result: Result<D, Error>)
        ensures
            match result {
                Ok(digest) => !self@.is_poisoned() && digest.absorbed() == self@.transcript,
                Err(error) => self@.is_poisoned() && error == Error::Failed,
            },
    {
        match self.state {
            Some(_) => Ok(self.digest),
            None => Err(Error::Failed),
        }
    }
}

impl<D: Context> Default for Hasher<D> {
    fn default() -> (hasher: Self)
        ensures
            hasher@ == HasherView::fresh(),
    {
        Hasher { digest: D::start(), state: Some(State::default()) }
    }
}

/// Where a transcript stands between two events.
#[derive(Debug, PartialEq, Eq, Structural)]
pub enum State {
    /// No field is open: the next event opens one.
    Initial,
    /// A field header has been read and its value is awaited.
    Header(Header),
    /// Inside a run of bytes.
    Bytes {
        /// How many bytes of it are still to come.
        remaining: usize,
    },
    /// Inside a string.
    String {
        /// How many bytes of it are still to come.
        remaining: usize,
    },
    /// Inside a nested message.
    Message {
        /// How many bytes of it are still to come.
        remaining: usize,
    },
    /// Inside a sequence.
    Sequence {
        /// How many bytes of it are still to come.
        remaining: usize,
    },
}

/// What a legal event does to a transcript.
pub struct Step {
    /// The state that the event leads to.
    pub next: State,
    /// The bytes that the event adds to the transcript.
    pub bytes: Seq<u8>,
}

impl Default for State {
    fn default() -> (state: Self)
        ensures
            state == State::Initial,
    {
        State::Initial
    }
}

impl State {
    /// The state right after the length of a value of `wire_type` was read.
    pub open spec fn opened(wire_type: WireType, length: usize) -> State
        recommends
            wire_type.is_length_delimited(),
    {
        match wire_type {
            WireType::Bytes => State::Bytes { remaining: length },
            WireType::String => State::String { remaining: length },
            WireType::Message => State::Message { remaining: length },
            _ => State::Sequence { remaining: length },
        }
    }

    /// The value that is open in this state, if one is: the wire type that
    /// its next chunk must name, and how many bytes of it are still to come.
    pub open spec fn open_value(self) -> Option<(WireType, usize)> {
        match self {
            State::Bytes { remaining } => Some((WireType::Bytes, remaining)),
            State::String { remaining } => Some((WireType::String, remaining)),
            State::Message { remaining } => Some((WireType::Message, remaining)),
            State::Sequence { remaining } => Some((WireType::Sequence, remaining)),
            _ => None,
        }
    }

    /// The state after a chunk of a value of `wire_type` that leaves
    /// `remaining` bytes to come. The value is closed when nothing remains;
    /// until then it goes on under [`WireType::continued`].
    pub open spec fn resumed(wire_type: WireType, remaining: usize) -> State {
        if remaining == 0 {
            State::Initial
        } else {
            State::opened(wire_type.continued(), remaining)
        }
    }

    /// The state of an open value after chunks have taken `taken` more bytes
    /// of it. A state in which no value is open stays as it is.
    pub open spec fn advanced(self, taken: nat) -> State {
        match self.open_value() {
            Some((wire_type, remaining)) => State::resumed(
                wire_type,
                (remaining - taken) as usize,
            ),
            None => self,
        }
    }

    /// The transition table: what `event` does in this state, or `None`
    /// where it is not legal there.
    ///
    /// - A field header is legal where no field is open, and is kept.
    /// - A length is legal behind a header that names the same
    ///   length-delimited wire type; it adds the frame and the length.
    /// - A boolean or an integer is legal behind any header; it adds its
    ///   frame and body, and closes the field.
    /// - A chunk is legal inside a value of its wire type, where it leaves
    ///   exactly as many bytes to come as it says; it adds its bytes and
    ///   nothing else.
    /// - A sequence header is legal anywhere but behind a field header, and
    ///   changes nothing.
    pub open spec fn step(self, event: Event<'_>) -> Option<Step> {
        match event {
            Event::FieldHeader(header) => if self is Initial {
                Some(Step { next: State::Header(header), bytes: Seq::empty() })
            } else {
                None
            },
            Event::LengthDelimiter { wire_type, length } => match self {
                State::Header(header) => if wire_type == header.wire_type
                    && wire_type.is_length_delimited() {
                    Some(
                        Step {
                            next: State::opened(wire_type, length),
                            bytes: dynamically_sized_bytes(header.tag, wire_type, length),
                        },
                    )
                } else {
                    None
                },
                _ => None,
            },
            Event::Bool(value) => match self {
                State::Header(header) => Some(
                    Step { next: State::Initial, bytes: boolean_bytes(header.tag, value) },
                ),
                _ => None,
            },
            Event::UInt64(value) => match self {
                State::Header(header) => Some(
                    Step { next: State::Initial, bytes: uint64_bytes(header.tag, value) },
                ),
                _ => None,
            },
            Event::SInt64(value) => match self {
                State::Header(header) => Some(
                    Step { next: State::Initial, bytes: sint64_bytes(header.tag, value) },
                ),
                _ => None,
            },
            Event::ValueChunk { wire_type, bytes, remaining } => match self.open_value() {
                Some((expected, expecting)) => if wire_type == expected && remaining + bytes@.len()
                    == expecting {
                    Some(Step { next: State::resumed(wire_type, remaining), bytes: bytes@ })
                } else {
                    None
                },
                None => None,
            },
            Event::SequenceHeader { .. } => if self is Header {
                None
            } else {
                Some(Step { next: self, bytes: Seq::empty() })
            },
        }
    }

    /// What [`State::transition`] answers to `event` in this state.
    pub open spec fn outcome(self, event: Event<'_>) -> Result<State, Error> {
        match self.step(event) {
            Some(step) => Ok(step.next),
            None => Err(Error::Hashing),
        }
    }

    /// The bytes that `event` adds to the transcript in this state: none
    /// where it is not legal.
    pub open spec fn absorbs(self, event: Event<'_>) -> Seq<u8> {
        match self.step(event) {
            Some(step) => step.bytes,
            None => Seq::empty(),
        }
    }

    /// Takes `event` in this state: absorbs what it adds to the transcript
    /// and answers with the next state, or fails, having absorbed nothing,
    /// where the event is not legal here.
    pub fn transition<D: Context>(
        self,
        event: &Event<'_>,
        digest: &mut D,
    ) -> (result: Result<State, Error>)
        requires
            has_room(old(digest), self.absorbs(*event).len()),
        ensures
            result == self.outcome(*event),
            final(digest).absorbed() == old(digest).absorbed() + self.absorbs(*event),
    {
        match event {
            Event::FieldHeader(header) => self.handle_field_header(header),
            Event::LengthDelimiter { wire_type, length } => {
                self.handle_length_delimiter(*wire_type, *length, digest)
            },
            Event::Bool(_) | Event::UInt64(_) | Event::SInt64(_) => {
                self.handle_fixed_sized_value(event, digest)
            },
            Event::ValueChunk { wire_type, bytes, remaining } => {
                self.handle_value_chunk(*wire_type, bytes, *remaining, digest)
            },
            Event::SequenceHeader { wire_type, length } => {
                self.handle_sequence_header(*wire_type, *length)
            },
        }
    }

    /// Takes a field header: it is kept for the value that follows, and
    /// nothing is absorbed yet. Legal only where no field is open.
    pub fn handle_field_header(self, header: &Header) -> (result: Result<State, Error>)
        ensures
            result == self.outcome(Event::FieldHeader(*header)),
            self is Initial ==> result == Ok::<State, Error>(State::Header(*header)),
            !(self is Initial) ==> result == Err::<State, Error>(Error::Hashing),
    {
        match self {
            State::Initial => Ok(State::Header(*header)),
            _ => Err(Error::Hashing),
        }
    }

    /// Takes the length of a length-delimited value: absorbs the frame and
    /// the length, and opens the value.
    fn handle_length_delimiter<D: Context>(
        self,
        wire_type: WireType,
        length: usize,
        digest: &mut D,
    ) -> (result: Result<State, Error>)
        requires
            has_room(
                old(digest),
                self.absorbs(Event::LengthDelimiter { wire_type, length }).len(),
            ),
        ensures
            result == self.outcome(Event::LengthDelimiter { wire_type, length }),
            final(digest).absorbed() == old(digest).absorbed() + self.absorbs(
                Event::LengthDelimiter { wire_type, length },
            ),
    {
        if let State::Header(header) = self {
            if wire_type != header.wire_type {
                return Err(Error::Hashing);
            }
            let new_state = match wire_type {
                WireType::Bytes => State::Bytes { remaining: length },
                WireType::String => State::String { remaining: length },
                WireType::Message => State::Message { remaining: length },
                WireType::Sequence => State::Sequence { remaining: length },
                _ => {
                    return Err(Error::Hashing);
                },
            };
            hash_dynamically_sized_value(digest, header.tag, wire_type, length);
            Ok(new_state)
        } else {
            Err(Error::Hashing)
        }
    }

    /// Takes a boolean or an integer: absorbs it under the tag of the pending
    /// header, and closes the field.
    fn handle_fixed_sized_value<D: Context>(
        self,
        value: &Event<'_>,
        digest: &mut D,
    ) -> (result: Result<State, Error>)
        requires
            value.is_fixed_sized_value(),
            has_room(old(digest), self.absorbs(*value).len()),
        ensures
            result == self.outcome(*value),
            final(digest).absorbed() == old(digest).absorbed() + self.absorbs(*value),
    {
        if let State::Header(header) = self {
            match value {
                Event::Bool(value) => hash_boolean(digest, header.tag, *value),
                Event::UInt64(value) => hash_uint64(digest, header.tag, *value),
                Event::SInt64(value) => hash_sint64(digest, header.tag, *value),
                _ => {},
            }
            Ok(State::Initial)
        } else {
            Err(Error::Hashing)
        }
    }

    /// Takes a chunk of the open value: absorbs its bytes as they are, and
    /// closes the value when nothing remains of it.
    fn handle_value_chunk<D: Context>(
        self,
        wire_type: WireType,
        bytes: &[u8],
        new_remaining: usize,
        digest: &mut D,
    ) -> (result: Result<State, Error>)
        requires
            has_room(
                old(digest),
                self.absorbs(
                    Event::ValueChunk { wire_type, bytes, remaining: new_remaining },
                ).len(),
            ),
        ensures
            result == self.outcome(
                Event::ValueChunk { wire_type, bytes, remaining: new_remaining },
            ),
            final(digest).absorbed() == old(digest).absorbed() + self.absorbs(
                Event::ValueChunk { wire_type, bytes, remaining: new_remaining },
            ),
    {
        let (expected, remaining) = match self {
            State::Bytes { remaining } => (WireType::Bytes, remaining),
            State::String { remaining } => (WireType::String, remaining),
            State::Message { remaining } => (WireType::Message, remaining),
            State::Sequence { remaining } => (WireType::Sequence, remaining),
            _ => {
                return Err(Error::Hashing);
            },
        };
        if wire_type != expected {
            return Err(Error::Hashing);
        }
        match remaining.checked_sub(bytes.len()) {
            Some(left) => {
                if left != new_remaining {
                    return Err(Error::Hashing);
                }
            },
            None => {
                return Err(Error::Hashing);
            },
        }
        let new_state = if new_remaining == 0 {
            State::Initial
        } else {
            match wire_type {
                WireType::String => State::String { remaining: new_remaining },
                _ => State::Bytes { remaining: new_remaining },
            }
        };
        digest.absorb(bytes);
        Ok(new_state)
    }

    /// Takes a sequence header, which so far stands for nothing in the
    /// transcript: the state stays as it is. Not legal behind a field header,
    /// which only its value can follow.
    pub fn handle_sequence_header(
        self,
        wire_type: WireType,
        length: usize,
    ) -> (result: Result<State, Error>)
        ensures
            result == self.outcome(Event::SequenceHeader { wire_type, length }),
            self is Header ==> result == Err::<State, Error>(Error::Hashing),
            !(self is Header) ==> result == Ok::<State, Error>(self),
    {
        match self {
            State::Header(_) => Err(Error::Hashing),
            _ => Ok(self),
        }
    }
}

/// Absorbs the boolean `value` of the field `tag`.
pub fn hash_boolean<D: Context>(digest: &mut D, tag: Tag, value: bool)
    requires
        has_room(old(digest), boolean_bytes(tag, value).len()),
    ensures
        final(digest).absorbed() == old(digest).absorbed() + boolean_bytes(tag, value),
{
    if value {
        let body: [u8; 1] = [1];
        hash_fixed(digest, tag, WireType::True, body.as_slice());
    } else {
        let body: [u8; 1] = [0];
        hash_fixed(digest, tag, WireType::False, body.as_slice());
    }
}

/// Absorbs the unsigned integer `value` of the field `tag`.
pub fn hash_uint64<D: Context>(digest: &mut D, tag: Tag, value: u64)
    requires
        has_room(old(digest), uint64_bytes(tag, value).len()),
    ensures
        final(digest).absorbed() == old(digest).absorbed() + uint64_bytes(tag, value),
{
    let body = le_bytes_of(value);
    hash_fixed(digest, tag, WireType::UInt64, body.as_slice());
}

/// Absorbs the signed integer `value` of the field `tag`.
pub fn hash_sint64<D: Context>(digest: &mut D, tag: Tag, value: i64)
    requires
        has_room(old(digest), sint64_bytes(tag, value).len()),
    ensures
        final(digest).absorbed() == old(digest).absorbed() + sint64_bytes(tag, value),
{
    proof {
        lemma_cast_is_twos_complement(value);
    }
    let body = le_bytes_of(value as u64);
    hash_fixed(digest, tag, WireType::SInt64, body.as_slice());
}

/// Absorbs what opens a length-delimited value of the field `tag`: its frame
/// and the length of its content. The content follows in chunks of its own.
pub fn hash_dynamically_sized_value<D: Context>(
    digest: &mut D,
    tag: Tag,
    wire_type: WireType,
    length: usize,
)
    requires
        has_room(old(digest), dynamically_sized_bytes(tag, wire_type, length).len()),
    ensures
        final(digest).absorbed() == old(digest).absorbed() + dynamically_sized_bytes(
            tag,
            wire_type,
            length,
        ),
{
    hash_frame(digest, tag, wire_type);
    let length_bytes = le_bytes_of(length as u64);
    digest.absorb(length_bytes.as_slice());
}

/// Absorbs a fixed-width value of the field `tag`: its frame and its body.
fn hash_fixed<D: Context>(digest: &mut D, tag: Tag, wire_type: WireType, body: &[u8])
    requires
        has_room(old(digest), fixed_bytes(tag, wire_type, body@).len()),
    ensures
        final(digest).absorbed() == old(digest).absorbed() + fixed_bytes(tag, wire_type, body@),
{
    hash_frame(digest, tag, wire_type);
    digest.absorb(body);
}

/// Absorbs the frame that every value begins with.
fn hash_frame<D: Context>(digest: &mut D, tag: Tag, wire_type: WireType)
    requires
        has_room(old(digest), FRAME_LEN as nat),
    ensures
        final(digest).absorbed() == old(digest).absorbed() + frame(tag, wire_type),
        frame(tag, wire_type).len() == FRAME_LEN,
{
    let prefix: [u8; 1] = [TAG_PREFIX];
    digest.absorb(prefix.as_slice());
    let tag_bytes = le_bytes_of(tag);
    digest.absorb(tag_bytes.as_slice());
    let code: [u8; 1] = [wire_type.to_u8()];
    digest.absorb(code.as_slice());
}

} // verus!
