//! What the two ends of a connection make of a stream: the bytes that a writer puts
//! on it, and the messages that a reader takes from it.
//!
//! The functions here follow the writer and the reader step by step over a whole
//! stream. What is proved of them holds of every driver that performs the steps in
//! order.

use crate::exact::{content, lemma_read_from_plain_stream, plain, read_exact, read_from, Answers};
use crate::lifecycle::StopReason;
use crate::reader::{notification, verdict, ReaderVerdict, SessionReaderMessage};
use crate::session::SessionAction;
use crate::wire::{frame, frames, lemma_frame_parts};
use crate::writer::{FrameWrite, WriteStage};
use vstd::prelude::*;

verus! {

/// The bytes that reach the stream while one frame around `payload` is written from
/// `stage` on, where `results` tells of each step in turn whether it went well. Of a
/// write that failed nothing is counted.
pub open spec fn written(stage: WriteStage, payload: Seq<u8>, results: Seq<bool>) -> Seq<u8>
    decreases results.len(),
{
    if results.len() == 0 || stage.is_final() {
        Seq::empty()
    } else {
        let now = match FrameWrite::output(stage, payload) {
            Some(bytes) => if results.first() {
                bytes
            } else {
                Seq::empty()
            },
            None => Seq::empty(),
        };
        now + written(stage.after(results.first()), payload, results.drop_first())
    }
}

/// The stage that the writing of a frame reaches from `stage` after steps that went
/// as `results` tells.
pub open spec fn reached(stage: WriteStage, results: Seq<bool>) -> WriteStage
    decreases results.len(),
{
    if results.len() == 0 || stage.is_final() {
        stage
    } else {
        reached(stage.after(results.first()), results.drop_first())
    }
}

/// The steps of a write in which nothing fails: wait, prefix, payload, flush.
pub open spec fn smooth() -> Seq<bool> {
    seq![true, true, true, true]
}

/// The bytes that a writer puts on the stream for the encoded messages `payloads`,
/// taken one after the other, when no step fails.
pub open spec fn sent(payloads: Seq<Seq<u8>>) -> Seq<u8>
    decreases payloads.len(),
{
    if payloads.len() == 0 {
        Seq::empty()
    } else {
        written(WriteStage::Waiting, payloads.first(), smooth()) + sent(payloads.drop_first())
    }
}

/// The payloads that a reader in state `message` hands to the decoder, in order, when
/// `wire` is all that arrives before the peer closes the stream. Each state reads its
/// bytes off the front of the stream; [`lemma_reader_ignores_chunking`] shows that the
/// chunks in which the bytes arrive make no difference.
pub open spec fn received(wire: Seq<u8>, message: SessionReaderMessage) -> Seq<Seq<u8>>
    decreases wire.len(), (if message is ReadObject { 1nat } else { 0nat }),
{
    let count = message.count() as int;
    match verdict(true, message, read_exact(wire, message.count())) {
        ReaderVerdict::Schedule(next) => received(wire.skip(count), next),
        ReaderVerdict::Decode(payload) => seq![payload] + received(
            wire.skip(count),
            SessionReaderMessage::WaitForObject,
        ),
        ReaderVerdict::Stop(_) => Seq::empty(),
    }
}

/// The payloads that a reader in state `message` hands to the decoder, in order, when
/// it reads a stream that hands out its bytes in chunks and then ends. Each state is
/// one exact-count read by [`read_from`], and the next state reads what that read has
/// left.
pub open spec fn received_from(answers: Answers, message: SessionReaderMessage) -> Seq<Seq<u8>>
    decreases content(answers).len(), (if message is ReadObject { 1nat } else { 0nat }),
    when plain(answers)
    via received_from_ends
{
    let (outcome, left) = read_from(answers, message.count(), Seq::empty());
    match verdict(true, message, outcome) {
        ReaderVerdict::Schedule(next) => received_from(left, next),
        ReaderVerdict::Decode(payload) => seq![payload] + received_from(
            left,
            SessionReaderMessage::WaitForObject,
        ),
        ReaderVerdict::Stop(_) => Seq::empty(),
    }
}

#[via_fn]
proof fn received_from_ends(answers: Answers, message: SessionReaderMessage) {
    lemma_read_from_plain_stream(answers, message.count());
}

/// What the handler receives for one payload that went through `decode`.
pub open spec fn handed_up<M>(decode: spec_fn(Seq<u8>) -> Option<M>, payload: Seq<u8>) -> Option<
    M,
> {
    match notification(decode(payload)) {
        Some(message) => match message.action() {
            SessionAction::Notify(msg) => Some(msg),
            SessionAction::Write(_) => None,
        },
        None => None,
    }
}

/// The messages that the handler receives, in order, when `wire` is all that arrives
/// before the peer closes the stream and payloads are decoded by `decode`.
pub open spec fn delivered<M>(wire: Seq<u8>, decode: spec_fn(Seq<u8>) -> Option<M>) -> Seq<M> {
    received(wire, SessionReaderMessage::WaitForObject).filter_map(
        |payload: Seq<u8>| handed_up(decode, payload),
    )
}

/// Every payload can be announced by a length prefix.
pub open spec fn all_framable(payloads: Seq<Seq<u8>>) -> bool {
    forall|i: int| 0 <= i < payloads.len() ==> (#[trigger] payloads[i]).len() <= u64::MAX
}

/// A write in which no step fails puts exactly one frame on the stream and ends as
/// sent, without a reason to stop.
pub proof fn lemma_smooth_write(payload: Seq<u8>)
    ensures
        written(WriteStage::Waiting, payload, smooth()) == frame(payload),
        reached(WriteStage::Waiting, smooth()) == WriteStage::Sent,
        reached(WriteStage::Waiting, smooth()).stop() is None,
{
    reveal_with_fuel(written, 5);
    reveal_with_fuel(reached, 5);
}

/// A length prefix that cannot be written gives the message up: the payload is never
/// written, whatever would have come of it, and the writer has no reason to stop.
pub proof fn lemma_failed_prefix_skips_payload(payload: Seq<u8>, later: Seq<bool>)
    ensures
        written(WriteStage::Waiting, payload, seq![true, false] + later) == Seq::<u8>::empty(),
        reached(WriteStage::Waiting, seq![true, false] + later) == WriteStage::Skipped,
        reached(WriteStage::Waiting, seq![true, false] + later).stop() is None,
{
    reveal_with_fuel(written, 3);
    reveal_with_fuel(reached, 3);
}

/// A payload that cannot be written breaks the channel: only the length prefix is on
/// the stream, nothing is flushed, and the writer stops because the channel is
/// closed.
pub proof fn lemma_failed_payload_breaks_channel(payload: Seq<u8>, later: Seq<bool>)
    ensures
        written(WriteStage::Waiting, payload, seq![true, true, false] + later) == frame(
            payload,
        ).take(8),
        reached(WriteStage::Waiting, seq![true, true, false] + later) == WriteStage::Broken,
        reached(WriteStage::Waiting, seq![true, true, false] + later).stop() == Some(
            StopReason::ChannelClosed,
        ),
{
    reveal_with_fuel(written, 4);
    reveal_with_fuel(reached, 4);
}

/// Write ordering: messages written one after the other put their frames on the
/// stream whole, in the same order and with nothing in between.
pub proof fn lemma_sent_in_order(payloads: Seq<Seq<u8>>)
    ensures
        sent(payloads) == frames(payloads),
    decreases payloads.len(),
{
    if payloads.len() > 0 {
        lemma_smooth_write(payloads.first());
        lemma_sent_in_order(payloads.drop_first());
    }
}

/// Two messages written in the order `first`, `second` give the whole frame of
/// `first` and directly behind it the whole frame of `second`.
pub proof fn lemma_two_sent_in_order(first: Seq<u8>, second: Seq<u8>)
    ensures
        sent(seq![first, second]) == frame(first) + frame(second),
{
    lemma_sent_in_order(seq![first, second]);
    reveal_with_fuel(frames, 3);
}

/// A reader that waits at the start of a frame hands that frame's payload to the
/// decoder and then waits at the start of what follows the frame.
pub proof fn lemma_received_frame(payload: Seq<u8>, rest: Seq<u8>)
    requires
        payload.len() <= u64::MAX,
    ensures
        received(frame(payload) + rest, SessionReaderMessage::WaitForObject) == seq![payload]
            + received(rest, SessionReaderMessage::WaitForObject),
{
    let wire = frame(payload) + rest;
    let body = wire.skip(8);
    lemma_frame_parts(payload);
    assert(body.take(payload.len() as int) =~= payload);
    assert(body.skip(payload.len() as int) =~= rest);
    let length = SessionReaderMessage::ReadObject(payload.len() as u64);
    assert(received(body, length) == seq![payload] + received(
        rest,
        SessionReaderMessage::WaitForObject,
    ));
}

/// Frames are received in the order in which they stand on the stream, each exactly
/// once, and what follows them is read as if it stood at the start.
pub proof fn lemma_received_frames(payloads: Seq<Seq<u8>>, rest: Seq<u8>)
    requires
        all_framable(payloads),
    ensures
        received(frames(payloads) + rest, SessionReaderMessage::WaitForObject) == payloads
            + received(rest, SessionReaderMessage::WaitForObject),
    decreases payloads.len(),
{
    if payloads.len() > 0 {
        let head = payloads.first();
        let tail = payloads.drop_first();
        assert(frames(payloads) + rest =~= frame(head) + (frames(tail) + rest));
        lemma_received_frame(head, frames(tail) + rest);
        lemma_received_frames(tail, rest);
    }
}

/// A stream that is closed before a frame is whole gives nothing for that frame.
pub proof fn lemma_received_partial_frame(payload: Seq<u8>, cut: int)
    requires
        payload.len() <= u64::MAX,
        0 <= cut < 8 + payload.len(),
    ensures
        received(frame(payload).take(cut), SessionReaderMessage::WaitForObject) == Seq::<
            Seq<u8>,
        >::empty(),
{
    let wire = frame(payload).take(cut);
    lemma_frame_parts(payload);
    if cut >= 8 {
        let length = SessionReaderMessage::ReadObject(payload.len() as u64);
        assert(received(wire, SessionReaderMessage::WaitForObject) == received(
            wire.skip(8),
            length,
        ));
    }
}

/// What was sent whole is received, and nothing else: a stream that carries the
/// frames of `payloads` and is closed somewhere inside one further frame gives
/// exactly `payloads`.
pub proof fn lemma_received_until_close(payloads: Seq<Seq<u8>>, partial: Seq<u8>, cut: int)
    requires
        all_framable(payloads),
        partial.len() <= u64::MAX,
        0 <= cut < 8 + partial.len(),
    ensures
        received(frames(payloads) + frame(partial).take(cut), SessionReaderMessage::WaitForObject)
            == payloads,
{
    lemma_received_frames(payloads, frame(partial).take(cut));
    lemma_received_partial_frame(partial, cut);
}

/// The reader does not see the chunks: over a stream that hands out its bytes in
/// chunks of any sizes it does what it does over the bytes themselves. A stream that
/// trickles in one byte at a time gives the payloads of a stream that hands out
/// everything at once.
pub proof fn lemma_reader_ignores_chunking(answers: Answers, message: SessionReaderMessage)
    requires
        plain(answers),
    ensures
        received_from(answers, message) == received(content(answers), message),
    decreases content(answers).len(), (if message is ReadObject { 1nat } else { 0nat }),
{
    let (outcome, left) = read_from(answers, message.count(), Seq::empty());
    lemma_read_from_plain_stream(answers, message.count());
    match verdict(true, message, outcome) {
        ReaderVerdict::Schedule(next) => {
            lemma_reader_ignores_chunking(left, next);
        },
        ReaderVerdict::Decode(payload) => {
            lemma_reader_ignores_chunking(left, SessionReaderMessage::WaitForObject);
        },
        ReaderVerdict::Stop(_) => {},
    }
}

/// The handler receives what the decoder makes of each payload, in order; payloads
/// that cannot be decoded leave no trace.
pub proof fn lemma_delivered_frames<M>(
    payloads: Seq<Seq<u8>>,
    decode: spec_fn(Seq<u8>) -> Option<M>,
)
    requires
        all_framable(payloads),
    ensures
        delivered(frames(payloads), decode) == payloads.filter_map(decode),
{
    lemma_received_frames(payloads, Seq::empty());
    let up = |payload: Seq<u8>| handed_up(decode, payload);
    assert(up =~= decode);
}

/// A malformed frame does not end the connection: a frame whose payload cannot be
/// decoded is dropped, and the well-formed frame directly behind it is delivered to
/// the handler, once.
pub proof fn lemma_malformed_frame_is_skipped<M>(
    bad: Seq<u8>,
    good: Seq<u8>,
    decode: spec_fn(Seq<u8>) -> Option<M>,
)
    requires
        bad.len() <= u64::MAX,
        good.len() <= u64::MAX,
        decode(bad) is None,
        decode(good) is Some,
    ensures
        delivered(frame(bad) + frame(good), decode) == seq![decode(good)->Some_0],
{
    lemma_delivered_frames(seq![bad, good], decode);
    reveal_with_fuel(frames, 3);
    reveal_with_fuel(Seq::filter_map, 3);
}

/// What a writer frames, a reader takes out of its frame again: a payload that is
/// written without a failure is what the reader hands to the decoder, whatever it
/// holds and also where it holds nothing.
pub proof fn lemma_written_is_received(payload: Seq<u8>)
    requires
        payload.len() <= u64::MAX,
    ensures
        received(
            written(WriteStage::Waiting, payload, smooth()),
            SessionReaderMessage::WaitForObject,
        ) == seq![payload],
{
    lemma_smooth_write(payload);
    lemma_received_frame(payload, Seq::empty());
}

/// From one end to the other: with a codec that gives every message back from its
/// own encoding, the handler of the peer receives the messages that were sent, in
/// the order in which they were sent, each exactly once.
pub proof fn lemma_sent_is_delivered<M>(
    messages: Seq<M>,
    encode: spec_fn(M) -> Seq<u8>,
    decode: spec_fn(Seq<u8>) -> Option<M>,
)
    requires
        forall|i: int|
            0 <= i < messages.len() ==> decode(#[trigger] encode(messages[i])) == Some(
                messages[i],
            ),
        forall|i: int|
            0 <= i < messages.len() ==> (#[trigger] encode(messages[i])).len() <= u64::MAX,
    ensures
        delivered(sent(messages.map_values(encode)), decode) == messages,
{
    let payloads = messages.map_values(encode);
    lemma_sent_in_order(payloads);
    lemma_delivered_frames(payloads, decode);
    lemma_decoded_encodings(messages, encode, decode);
}

proof fn lemma_decoded_encodings<M>(
    messages: Seq<M>,
    encode: spec_fn(M) -> Seq<u8>,
    decode: spec_fn(Seq<u8>) -> Option<M>,
)
    requires
        forall|i: int|
            0 <= i < messages.len() ==> decode(#[trigger] encode(messages[i])) == Some(
                messages[i],
            ),
    ensures
        messages.map_values(encode).filter_map(decode) == messages,
    decreases messages.len(),
{
    let payloads = messages.map_values(encode);
    if messages.len() > 0 {
        let front = messages.drop_last();
        assert(payloads.drop_last() =~= front.map_values(encode));
        lemma_decoded_encodings(front, encode, decode);
    }
}

} // verus!
