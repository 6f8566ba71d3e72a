//! The reader of a session: it owns the inbound half of the stream and cuts the bytes
//! that arrive into payloads.
//!
//! The reader has two states, which it keeps as the message it sends itself: it waits
//! for the eight bytes of a length prefix, then reads a payload of that length, then
//! waits again. Each state is one exact-count read, and [`SessionReader::handle`]
//! decides from the result of that read what comes next.

use crate::exact::{ExactRead, ReadError};
use crate::lifecycle::StopReason;
use crate::session::SessionMessage;
use crate::wire::{be_value, payload_length, LENGTH_PREFIX_LEN};
use vstd::prelude::*;

verus! {

/// The state of the reader, as the message it sends itself.
#[derive(Clone, Copy, Debug, PartialEq, Eq, Structural)]
pub enum SessionReaderMessage {
    /// Wait for an object from the stream.
    WaitForObject,
    /// Read the next object off the stream; it has this many bytes.
    ReadObject(u64),
}

impl SessionReaderMessage {
    /// The number of bytes that the reader reads in this state.
    pub open spec fn count(self) -> nat {
        match self {
            SessionReaderMessage::WaitForObject => LENGTH_PREFIX_LEN as nat,
            SessionReaderMessage::ReadObject(length) => length as nat,
        }
    }
}

/// The state of the reader: the read half of the stream while the reader is open,
/// nothing once it is closed.
pub struct SessionReaderState<R> {
    /// The read half of the stream.
    pub reader: Option<R>,
}

/// What the reader does after a read.
#[derive(Debug, PartialEq, Eq)]
pub enum ReaderStep {
    /// Send this message to itself.
    Schedule(SessionReaderMessage),
    /// A whole payload is there: decode it, and hand the result to
    /// [`SessionReader::decoded`].
    Decode(Vec<u8>),
    /// The read half has been let go; stop with this reason.
    Stop(StopReason),
}

/// What the reader does after a read, with the payload as a sequence.
pub enum ReaderVerdict {
    /// Send this message to itself.
    Schedule(SessionReaderMessage),
    /// Decode this payload.
    Decode(Seq<u8>),
    /// Stop with this reason.
    Stop(StopReason),
}

impl View for ReaderStep {
    type V = ReaderVerdict;

    open spec fn view(&self) -> ReaderVerdict {
        match self {
            ReaderStep::Schedule(message) => ReaderVerdict::Schedule(*message),
            ReaderStep::Decode(payload) => ReaderVerdict::Decode(payload@),
            ReaderStep::Stop(reason) => ReaderVerdict::Stop(*reason),
        }
    }
}

/// What the reader does once a payload has gone through the decoder.
#[derive(Debug, PartialEq, Eq)]
pub struct Delivery<M> {
    /// The message for the session, where the payload could be decoded.
    pub notify: Option<SessionMessage<M>>,
    /// The message that the reader sends itself.
    pub next: SessionReaderMessage,
}

/// The result of a read, with the bytes as a sequence.
pub open spec fn outcome_view(outcome: Result<Vec<u8>, ReadError>) -> Result<Seq<u8>, ReadError> {
    match outcome {
        Ok(bytes) => Ok(bytes@),
        Err(e) => Err(e),
    }
}

/// What the reader does in state `message` when its read ended with `outcome`.
///
/// A closed reader only waits. An open one stops at the end of the stream, and waits
/// for the next object after any other failure, whatever it was reading. Eight bytes
/// read while waiting are the length of the payload to read next; the bytes read as
/// a payload go to the decoder.
pub open spec fn verdict(
    open: bool,
    message: SessionReaderMessage,
    outcome: Result<Seq<u8>, ReadError>,
) -> ReaderVerdict {
    if !open {
        ReaderVerdict::Schedule(SessionReaderMessage::WaitForObject)
    } else {
        match outcome {
            Err(ReadError::UnexpectedEof) => ReaderVerdict::Stop(StopReason::ChannelClosed),
            Err(ReadError::Io) => ReaderVerdict::Schedule(SessionReaderMessage::WaitForObject),
            Ok(bytes) => match message {
                SessionReaderMessage::WaitForObject => ReaderVerdict::Schedule(
                    SessionReaderMessage::ReadObject(be_value(bytes) as u64),
                ),
                SessionReaderMessage::ReadObject(_) => ReaderVerdict::Decode(bytes),
            },
        }
    }
}

/// The reader only ever stops at the end of the stream, and an open reader always
/// stops there. Short of that it goes from waiting to reading and, by way of the
/// decoder, from reading back to waiting; a failed read sends it back to waiting.
pub proof fn lemma_only_end_of_stream_stops(
    open: bool,
    message: SessionReaderMessage,
    outcome: Result<Seq<u8>, ReadError>,
)
    ensures
        verdict(open, message, outcome) is Stop <==> open && outcome == Err::<Seq<u8>, ReadError>(
            ReadError::UnexpectedEof,
        ),
        verdict(open, message, outcome) is Stop ==> verdict(open, message, outcome)
            == ReaderVerdict::Stop(StopReason::ChannelClosed),
        open && outcome is Ok && message is WaitForObject ==> verdict(open, message, outcome)
            == ReaderVerdict::Schedule(
            SessionReaderMessage::ReadObject(be_value(outcome->Ok_0) as u64),
        ),
        open && outcome is Ok && message is ReadObject ==> verdict(open, message, outcome)
            == ReaderVerdict::Decode(outcome->Ok_0),
        outcome == Err::<Seq<u8>, ReadError>(ReadError::Io) ==> verdict(open, message, outcome)
            == ReaderVerdict::Schedule(SessionReaderMessage::WaitForObject),
{
}

/// The message for the session that a decoded payload gives: a message that could be
/// decoded is an object that has become available, a payload that could not be
/// decoded gives nothing.
pub open spec fn notification<M>(decoded: Option<M>) -> Option<SessionMessage<M>> {
    match decoded {
        Some(msg) => Some(SessionMessage::ObjectAvailable(msg)),
        None => None,
    }
}

/// The reader of a session.
pub struct SessionReader;

impl SessionReader {
    /// Starts the reader on the read half of the stream: it waits for the first
    /// object.
    pub fn pre_start<R>(&self, reader: R) -> (start: (
        SessionReaderState<R>,
        SessionReaderMessage,
    ))
        ensures
            start.0.reader == Some(reader),
            start.1 == SessionReaderMessage::WaitForObject,
    {
        (SessionReaderState { reader: Some(reader) }, SessionReaderMessage::WaitForObject)
    }

    /// Closes the reader: the read half is let go.
    pub fn post_stop<R>(&self, state: &mut SessionReaderState<R>)
        ensures
            final(state).reader is None,
    {
        state.reader = None;
    }

    /// The read that state `message` asks for: eight bytes while waiting, the
    /// announced length for a payload. A closed reader reads nothing.
    pub fn begin<R>(
        &self,
        state: &SessionReaderState<R>,
        message: SessionReaderMessage,
    ) -> (read: Option<ExactRead>)
        ensures
            read is Some <==> state.reader is Some,
            read matches Some(r) ==> r.wanted() == message.count() && r.collected()
                == Seq::<u8>::empty(),
    {
        if state.reader.is_some() {
            match message {
                SessionReaderMessage::WaitForObject => Some(ExactRead::new(LENGTH_PREFIX_LEN)),
                SessionReaderMessage::ReadObject(length) => Some(ExactRead::new(length)),
            }
        } else {
            None
        }
    }

    /// Takes the result of the read that `message` asked for and decides what comes
    /// next. At the end of the stream the read half is let go. A read that succeeded
    /// while the reader waited holds the eight bytes of a length prefix.
    pub fn handle<R>(
        &self,
        state: &mut SessionReaderState<R>,
        message: SessionReaderMessage,
        outcome: Result<Vec<u8>, ReadError>,
    ) -> (step: ReaderStep)
        requires
            old(state).reader is Some && message is WaitForObject ==> (outcome matches Ok(bytes)
                ==> bytes@.len() == LENGTH_PREFIX_LEN),
        ensures
            step@ == verdict(old(state).reader is Some, message, outcome_view(outcome)),
            final(state).reader == if step is Stop {
                None
            } else {
                old(state).reader
            },
    {
        if state.reader.is_none() {
            return ReaderStep::Schedule(SessionReaderMessage::WaitForObject);
        }
        match outcome {
            Err(ReadError::UnexpectedEof) => {
                state.reader = None;
                ReaderStep::Stop(StopReason::ChannelClosed)
            },
            Err(ReadError::Io) => ReaderStep::Schedule(SessionReaderMessage::WaitForObject),
            Ok(bytes) => match message {
                SessionReaderMessage::WaitForObject => {
                    let length = payload_length(bytes.as_slice());
                    ReaderStep::Schedule(SessionReaderMessage::ReadObject(length))
                },
                SessionReaderMessage::ReadObject(_) => ReaderStep::Decode(bytes),
            },
        }
    }

    /// Takes what the decoder made of a payload: a message goes to the session, a
    /// payload that could not be decoded is dropped. Either way the reader waits for
    /// the next object.
    pub fn decoded<M>(&self, decoded: Option<M>) -> (delivery: Delivery<M>)
        ensures
            delivery.notify == notification(decoded),
            delivery.next == SessionReaderMessage::WaitForObject,
    {
        let notify = match decoded {
            Some(msg) => Some(SessionMessage::ObjectAvailable(msg)),
            None => None,
        };
        Delivery { notify, next: SessionReaderMessage::WaitForObject }
    }
}

} // verus!
