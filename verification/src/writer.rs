//! The writer of a session: it owns the outbound half of the stream and puts one
//! frame on the wire at a time.
//!
//! Writing a frame takes several steps of I/O. [`FrameWrite`] says which step is
//! next and decides, from how each step went, what follows: a failed write of the
//! length prefix gives the message up and leaves the writer open, a failed write of
//! the payload breaks the channel.

use crate::lifecycle::StopReason;
use crate::wire::{be_bytes, length_prefix};
use vstd::prelude::*;

verus! {

/// A request to the writer.
#[derive(Debug, PartialEq, Eq)]
pub enum SessionWriterMessage<M> {
    /// Write this message over the wire.
    WriteObject(M),
}

/// The state of the writer: the write half of the stream while the writer is open,
/// nothing once it is closed.
pub struct SessionWriterState<W> {
    /// The write half of the stream.
    pub writer: Option<W>,
}

/// The writer of a session.
pub struct SessionWriter;

impl SessionWriter {
    /// Starts the writer on the write half of the stream.
    pub fn pre_start<W>(&self, writer: W) -> (state: SessionWriterState<W>)
        ensures
            state.writer == Some(writer),
    {
        SessionWriterState { writer: Some(writer) }
    }

    /// Closes the writer: the write half is let go, and every later request is
    /// passed over.
    pub fn post_stop<W>(&self, state: &mut SessionWriterState<W>)
        ensures
            final(state).writer is None,
    {
        state.writer = None;
    }

    /// Takes a request: hands back the message to write while the writer is open,
    /// and nothing once it is closed.
    pub fn handle<W, M>(
        &self,
        state: &SessionWriterState<W>,
        message: SessionWriterMessage<M>,
    ) -> (accepted: Option<M>)
        ensures
            accepted == match message {
                SessionWriterMessage::WriteObject(msg) => if state.writer is Some {
                    Some(msg)
                } else {
                    None
                },
            },
    {
        match message {
            SessionWriterMessage::WriteObject(msg) => {
                if state.writer.is_some() {
                    Some(msg)
                } else {
                    None
                }
            },
        }
    }
}

/// Where the writing of one frame stands.
#[derive(Clone, Copy, Debug, PartialEq, Eq, Structural)]
pub enum WriteStage {
    /// Wait until the stream can be written to.
    Waiting,
    /// Write the length prefix.
    Prefix,
    /// Write the payload.
    Payload,
    /// Flush the stream.
    Flush,
    /// The frame is on the wire.
    Sent,
    /// The length prefix could not be written; the payload is never sent and the
    /// writer stays open.
    Skipped,
    /// The payload could not be written; the writer has to stop.
    Broken,
}

impl WriteStage {
    /// Whether nothing is left to do.
    pub open spec fn is_final(self) -> bool {
        self is Sent || self is Skipped || self is Broken
    }

    /// The stage that follows when the step of this stage went well (`ok`) or failed.
    /// Waiting and flushing have no failure to report here: a driver treats one as
    /// fatal before it comes back.
    pub open spec fn after(self, ok: bool) -> WriteStage {
        match self {
            WriteStage::Waiting => WriteStage::Prefix,
            WriteStage::Prefix => if ok {
                WriteStage::Payload
            } else {
                WriteStage::Skipped
            },
            WriteStage::Payload => if ok {
                WriteStage::Flush
            } else {
                WriteStage::Broken
            },
            WriteStage::Flush => WriteStage::Sent,
            last => last,
        }
    }

    /// The reason with which the writer stops at this stage, if it has to.
    pub open spec fn stop(self) -> Option<StopReason> {
        if self is Broken {
            Some(StopReason::ChannelClosed)
        } else {
            None
        }
    }

    /// Whether nothing is left to do.
    pub fn is_done(&self) -> (done: bool)
        ensures
            done == self.is_final(),
    {
        match self {
            WriteStage::Sent | WriteStage::Skipped | WriteStage::Broken => true,
            _ => false,
        }
    }

    /// The reason with which the writer has to stop, if the frame broke the channel.
    pub fn stop_reason(&self) -> (reason: Option<StopReason>)
        ensures
            reason == self.stop(),
    {
        match self {
            WriteStage::Broken => Some(StopReason::ChannelClosed),
            _ => None,
        }
    }
}

/// The writing of one frame.
pub struct FrameWrite {
    stage: WriteStage,
    prefix: [u8; 8],
    payload: Vec<u8>,
}

impl FrameWrite {
    #[verifier::type_invariant]
    spec fn prefix_fits_payload(self) -> bool {
        self.prefix@ == be_bytes(self.payload@.len() as u64)
    }

    /// The stage at which the write stands.
    pub closed spec fn stage(&self) -> WriteStage {
        self.stage
    }

    /// The encoded message that the frame carries.
    pub closed spec fn payload(&self) -> Seq<u8> {
        self.payload@
    }

    /// The bytes that the step of `stage` writes for a frame around `payload`.
    pub open spec fn output(stage: WriteStage, payload: Seq<u8>) -> Option<Seq<u8>> {
        match stage {
            WriteStage::Prefix => Some(be_bytes(payload.len() as u64)),
            WriteStage::Payload => Some(payload),
            _ => None,
        }
    }

    /// Starts the writing of a frame around an encoded message. Nothing is written
    /// before the stream is ready for it, and the message is kept until then.
    pub fn new(payload: Vec<u8>) -> (write: Self)
        ensures
            write.stage() == WriteStage::Waiting,
            write.payload() == payload@,
    {
        let prefix = length_prefix(payload.len() as u64);
        FrameWrite { stage: WriteStage::Waiting, prefix, payload }
    }

    /// The stage at which the write stands.
    pub fn current(&self) -> (stage: WriteStage)
        ensures
            stage == self.stage(),
    {
        self.stage
    }

    /// The bytes to write at this stage: the length prefix, then the payload; nothing
    /// at the other stages.
    pub fn pending(&self) -> (bytes: Option<&[u8]>)
        ensures
            match bytes {
                Some(b) => Self::output(self.stage(), self.payload()) == Some(b@),
                None => Self::output(self.stage(), self.payload()) is None,
            },
    {
        proof {
            use_type_invariant(self);
        }
        match self.stage {
            WriteStage::Prefix => Some(self.prefix.as_slice()),
            WriteStage::Payload => Some(self.payload.as_slice()),
            _ => None,
        }
    }

    /// Moves on after the step of the current stage, which went well (`ok`) or
    /// failed. That the stream is ready, and that it is flushed, is only reported
    /// once it is so.
    pub fn advance(&mut self, ok: bool)
        requires
            old(self).stage() is Waiting || old(self).stage() is Flush ==> ok,
        ensures
            final(self).stage() == old(self).stage().after(ok),
            final(self).payload() == old(self).payload(),
    {
        proof {
            use_type_invariant(&*self);
        }
        let next = match self.stage {
            WriteStage::Waiting => WriteStage::Prefix,
            WriteStage::Prefix => if ok {
                WriteStage::Payload
            } else {
                WriteStage::Skipped
            },
            WriteStage::Payload => if ok {
                WriteStage::Flush
            } else {
                WriteStage::Broken
            },
            WriteStage::Flush => WriteStage::Sent,
            WriteStage::Sent => WriteStage::Sent,
            WriteStage::Skipped => WriteStage::Skipped,
            WriteStage::Broken => WriteStage::Broken,
        };
        self.stage = next;
    }
}

} // verus!
