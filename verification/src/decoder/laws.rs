//! What holds of every transcript.
//!
//! The laws are stated over [`State::step`] and [`HasherView`], the same
//! functions that the contracts of [`State::transition`] and
//! [`Hasher::hash_event`](crate::decoder::hasher::Hasher::hash_event) are
//! stated over.

use vstd::prelude::*;

use crate::decoder::hasher::{HasherView, State};
use crate::decoder::Event;
use crate::encoding::{
    frame, le_bytes, lemma_frame_is_injective, lemma_le_bytes_injective,
    lemma_twos_complement_injective, twos_complement, FRAME_LEN,
};
use crate::error::Error;
use crate::field::{Header, WireType};

verus! {

/// Whether `trace` holds the hashers that successive calls of `hash_event`
/// go through when `events` are replayed from `start`: `trace[i]` is the
/// hasher before the event `i`, and the last entry is the hasher in the end.
pub open spec fn is_replay(
    start: HasherView,
    events: Seq<Event<'_>>,
    trace: Seq<HasherView>,
) -> bool {
    &&& trace.len() == events.len() + 1
    &&& trace[0] == start
    &&& forall|i: int|
        0 <= i < events.len() ==> trace[i + 1] == (#[trigger] trace[i]).after(events[i])
}

/// Whether each of `events` is a chunk of content.
pub open spec fn all_chunks(events: Seq<Event<'_>>) -> bool {
    forall|i: int| 0 <= i < events.len() ==> (#[trigger] events[i]) is ValueChunk
}

/// The content that `events` carry, taken together.
pub open spec fn content(events: Seq<Event<'_>>) -> Seq<u8>
    decreases events.len(),
{
    if events.len() == 0 {
        Seq::empty()
    } else {
        content(events.drop_last()) + events.last().content()
    }
}

/// Determinism: a transcript is a function of its events. Two replays of the
/// same events, each from a fresh hasher, go through the same hashers, and
/// end with the same state and the same absorbed bytes.
pub proof fn lemma_replay_is_determined(
    events: Seq<Event<'_>>,
    first: Seq<HasherView>,
    second: Seq<HasherView>,
)
    requires
        is_replay(HasherView::fresh(), events, first),
        is_replay(HasherView::fresh(), events, second),
    ensures
        first == second,
        first.last() == HasherView::fresh().after_all(events),
{
    lemma_replay_follows_events(HasherView::fresh(), events, first);
    lemma_replay_follows_events(HasherView::fresh(), events, second);
    assert forall|i: int| 0 <= i < first.len() implies first[i] == second[i] by {
        lemma_replay_follows_events(
            HasherView::fresh(),
            events.take(i),
            first.take(i + 1),
        );
        lemma_replay_follows_events(
            HasherView::fresh(),
            events.take(i),
            second.take(i + 1),
        );
    }
}

/// A replay ends where [`HasherView::after_all`] says.
pub proof fn lemma_replay_follows_events(
    start: HasherView,
    events: Seq<Event<'_>>,
    trace: Seq<HasherView>,
)
    requires
        is_replay(start, events, trace),
    ensures
        trace.last() == start.after_all(events),
    decreases events.len(),
{
    if events.len() > 0 {
        lemma_replay_follows_events(start, events.drop_last(), trace.drop_last());
    }
}

/// The transcript only grows: whatever events come, legal or not, what was
/// absorbed before them stays where it is, at the beginning.
pub proof fn lemma_transcript_only_grows(hasher: HasherView, events: Seq<Event<'_>>)
    ensures
        hasher.transcript.is_prefix_of(hasher.after_all(events).transcript),
    decreases events.len(),
{
    if events.len() > 0 {
        lemma_transcript_only_grows(hasher, events.drop_last());
    }
}

/// A poisoned hasher stays as it is, whatever comes.
pub proof fn lemma_poison_is_final(hasher: HasherView, events: Seq<Event<'_>>)
    requires
        hasher.is_poisoned(),
    ensures
        hasher.after_all(events) == hasher,
    decreases events.len(),
{
    if events.len() > 0 {
        lemma_poison_is_final(hasher, events.drop_last());
    }
}

/// A failed event poisons the hasher: the transcript stays as it was, and
/// the next event, whatever it is, is refused with [`Error::Failed`] and
/// changes nothing.
pub proof fn lemma_failure_poisons(hasher: HasherView, event: Event<'_>, next: Event<'_>)
    requires
        hasher.answer(event) is Err,
    ensures
        hasher.after(event).is_poisoned(),
        hasher.after(event).transcript == hasher.transcript,
        hasher.after(event).answer(next) == Err::<(), Error>(Error::Failed),
        hasher.after(event).after(next) == hasher.after(event),
{
}

/// A chunk is refused where no value is open: before any header, and right
/// behind a header whose length has not come yet.
pub proof fn lemma_chunk_needs_open_value(state: State, chunk: Event<'_>)
    requires
        chunk is ValueChunk,
        state is Initial || state is Header,
    ensures
        state.step(chunk) is None,
        state.outcome(chunk) == Err::<State, Error>(Error::Hashing),
        state.absorbs(chunk) == Seq::<u8>::empty(),
{
}

/// A boolean or an integer is refused where no header is pending.
pub proof fn lemma_value_needs_header(state: State, value: Event<'_>)
    requires
        value.is_fixed_sized_value(),
        !(state is Header),
    ensures
        state.step(value) is None,
        state.outcome(value) == Err::<State, Error>(Error::Hashing),
        state.absorbs(value) == Seq::<u8>::empty(),
{
}

/// A length is refused where it names another wire type than the pending
/// header, where that wire type has no length, and where no header is
/// pending.
pub proof fn lemma_length_must_match_header(state: State, length: Event<'_>)
    requires
        length is LengthDelimiter,
        match state {
            State::Header(header) => length.value_wire_type() != header.wire_type
                || !header.wire_type.is_length_delimited(),
            _ => true,
        },
    ensures
        state.step(length) is None,
        state.outcome(length) == Err::<State, Error>(Error::Hashing),
        state.absorbs(length) == Seq::<u8>::empty(),
{
}

/// A chunk is refused unless it leaves exactly as many bytes to come as the
/// open value expected less the bytes that the chunk brings. One that brings
/// more than was expected, or claims that more remains, fails.
pub proof fn lemma_chunk_must_account(state: State, chunk: Event<'_>)
    requires
        state.open_value() matches Some((_, expecting)) && chunk matches Event::ValueChunk {
            bytes,
            remaining,
            ..
        } && remaining != expecting - bytes@.len(),
    ensures
        state.step(chunk) is None,
        state.outcome(chunk) == Err::<State, Error>(Error::Hashing),
        state.absorbs(chunk) == Seq::<u8>::empty(),
{
}

/// A header is used up by the event that follows it, and an open value is
/// closed exactly when nothing remains of it.
pub proof fn lemma_lifecycle(state: State, event: Event<'_>)
    requires
        state.step(event) is Some,
    ensures
        state is Header ==> !(state.step(event)->0.next is Header),
        event matches Event::ValueChunk { remaining, .. } ==> (state.step(event)->0.next is Initial
            <==> remaining == 0),
        event matches Event::ValueChunk { remaining, .. } ==> remaining > 0 ==> (state.step(
            event,
        )->0.next.open_value() matches Some((_, expecting)) && expecting == remaining),
{
}

/// Tag and wire type binding: whatever follows a header enters the
/// transcript behind the frame of the header's tag and of its own wire type,
/// and two frames are the same only if both the tags and the wire types are.
/// So two values under different tags, or of different wire types, differ
/// within the first [`FRAME_LEN`] bytes that they add.
pub proof fn lemma_values_are_bound(
    first_header: Header,
    first: Event<'_>,
    second_header: Header,
    second: Event<'_>,
)
    requires
        State::Header(first_header).step(first) is Some,
        State::Header(second_header).step(second) is Some,
        first_header.tag != second_header.tag || first.value_wire_type()
            != second.value_wire_type(),
    ensures
        State::Header(first_header).absorbs(first).subrange(0, FRAME_LEN as int) == frame(
            first_header.tag,
            first.value_wire_type(),
        ),
        State::Header(second_header).absorbs(second).subrange(0, FRAME_LEN as int) == frame(
            second_header.tag,
            second.value_wire_type(),
        ),
        State::Header(first_header).absorbs(first).subrange(0, FRAME_LEN as int) != State::Header(
            second_header,
        ).absorbs(second).subrange(0, FRAME_LEN as int),
{
    lemma_opens_with_frame(first_header, first);
    lemma_opens_with_frame(second_header, second);
    lemma_frame_is_injective(
        first_header.tag,
        first.value_wire_type(),
        second_header.tag,
        second.value_wire_type(),
    );
}

/// What follows a header can be read back from the bytes it adds: two values
/// that add the same bytes stand under the same tag and are the same event,
/// be it a boolean, an integer or the length of a value.
pub proof fn lemma_values_are_told_apart(
    first_header: Header,
    first: Event<'_>,
    second_header: Header,
    second: Event<'_>,
)
    requires
        State::Header(first_header).step(first) is Some,
        State::Header(second_header).step(second) is Some,
        State::Header(first_header).absorbs(first) == State::Header(second_header).absorbs(second),
    ensures
        first_header.tag == second_header.tag,
        first == second,
{
    let first_bytes = State::Header(first_header).absorbs(first);
    let second_bytes = State::Header(second_header).absorbs(second);
    lemma_opens_with_frame(first_header, first);
    lemma_opens_with_frame(second_header, second);
    lemma_frame_is_injective(
        first_header.tag,
        first.value_wire_type(),
        second_header.tag,
        second.value_wire_type(),
    );
    match (first, second) {
        (Event::UInt64(x), Event::UInt64(y)) => {
            assert(le_bytes(x) =~= first_bytes.skip(FRAME_LEN as int));
            assert(le_bytes(y) =~= second_bytes.skip(FRAME_LEN as int));
            lemma_le_bytes_injective(x, y);
        },
        (Event::SInt64(x), Event::SInt64(y)) => {
            assert(le_bytes(twos_complement(x)) =~= first_bytes.skip(FRAME_LEN as int));
            assert(le_bytes(twos_complement(y)) =~= second_bytes.skip(FRAME_LEN as int));
            lemma_le_bytes_injective(twos_complement(x), twos_complement(y));
            lemma_twos_complement_injective(x, y);
        },
        (
            Event::LengthDelimiter { length: x, .. },
            Event::LengthDelimiter { length: y, .. },
        ) => {
            assert(le_bytes(x as u64) =~= first_bytes.skip(FRAME_LEN as int));
            assert(le_bytes(y as u64) =~= second_bytes.skip(FRAME_LEN as int));
            lemma_le_bytes_injective(x as u64, y as u64);
        },
        _ => {},
    }
}

/// Whatever follows a header adds its frame first.
pub proof fn lemma_opens_with_frame(header: Header, event: Event<'_>)
    requires
        State::Header(header).step(event) is Some,
    ensures
        State::Header(header).absorbs(event).len() >= FRAME_LEN,
        State::Header(header).absorbs(event).subrange(0, FRAME_LEN as int) == frame(
            header.tag,
            event.value_wire_type(),
        ),
{
}

/// An accepted run of chunks adds its content to the transcript and nothing
/// else, and leaves the open value with that much less to come.
pub proof fn lemma_chunks_absorb_their_content(hasher: HasherView, chunks: Seq<Event<'_>>)
    requires
        all_chunks(chunks),
        !hasher.after_all(chunks).is_poisoned(),
    ensures
        hasher.after_all(chunks).transcript == hasher.transcript + content(chunks),
        chunks.len() > 0 ==> (hasher.state->0.open_value() matches Some((_, expecting))
            && content(chunks).len() <= expecting),
        chunks.len() > 0 ==> hasher.after_all(chunks).state == Some(
            hasher.state->0.advanced(content(chunks).len()),
        ),
    decreases chunks.len(),
{
    if chunks.len() > 0 {
        lemma_chunks_absorb_their_content(hasher, chunks.drop_last());
    }
}

/// Chunk-boundary invariance: how the content of a value is cut into chunks
/// does not show in the transcript. Two accepted runs of chunks that carry
/// the same content, taken from the same hasher, leave the same absorbed
/// bytes, and, unless one of the runs is empty, the same state.
pub proof fn lemma_chunk_boundaries_do_not_show(
    hasher: HasherView,
    first: Seq<Event<'_>>,
    second: Seq<Event<'_>>,
)
    requires
        all_chunks(first),
        all_chunks(second),
        content(first) == content(second),
        !hasher.after_all(first).is_poisoned(),
        !hasher.after_all(second).is_poisoned(),
    ensures
        hasher.after_all(first).transcript == hasher.after_all(second).transcript,
        first.len() > 0 && second.len() > 0 ==> hasher.after_all(first) == hasher.after_all(
            second,
        ),
{
    lemma_chunks_absorb_their_content(hasher, first);
    lemma_chunks_absorb_their_content(hasher, second);
}

/// A chunk can be cut in two anywhere: where the whole chunk is accepted and
/// the cut leaves something to come, its two parts are accepted one after
/// the other, the second under the wire type that the value goes on under,
/// and they leave the hasher as the whole chunk does.
pub proof fn lemma_chunk_can_be_cut(
    hasher: HasherView,
    wire_type: WireType,
    whole: &[u8],
    head: &[u8],
    tail: &[u8],
    remaining: usize,
)
    requires
        whole@ == head@ + tail@,
        remaining + tail@.len() > 0,
        hasher.answer(Event::ValueChunk { wire_type, bytes: whole, remaining }) is Ok,
    ensures
        remaining + tail@.len() <= usize::MAX,
        hasher.answer(
            Event::ValueChunk {
                wire_type,
                bytes: head,
                remaining: (remaining + tail@.len()) as usize,
            },
        ) is Ok,
        hasher.after(
            Event::ValueChunk {
                wire_type,
                bytes: head,
                remaining: (remaining + tail@.len()) as usize,
            },
        ).after(Event::ValueChunk { wire_type: wire_type.continued(), bytes: tail, remaining })
            == hasher.after(Event::ValueChunk { wire_type, bytes: whole, remaining }),
{
    assert(hasher.transcript + head@ + tail@ =~= hasher.transcript + whole@);
}

} // verus!
