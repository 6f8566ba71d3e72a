//! The session: the supervisor of one connection. It passes outbound messages to its
//! writer and inbound messages to the handler above it, and it stops as soon as
//! either of its two children ends, so that the three never outlive each other.

use crate::lifecycle::StopReason;
use crate::writer::SessionWriterMessage;
use vstd::prelude::*;

verus! {

/// A message to the session.
#[derive(Debug, PartialEq, Eq)]
pub enum SessionMessage<M> {
    /// Send a message over the channel.
    Send(M),
    /// An object was received on the channel.
    ObjectAvailable(M),
}

/// What the session does with a message.
#[derive(Debug, PartialEq, Eq)]
pub enum SessionAction<M> {
    /// Pass this request to the writer, without waiting for it.
    Write(SessionWriterMessage<M>),
    /// Tell the handler that this message was received, without waiting for it.
    Notify(M),
}

impl<M> SessionMessage<M> {
    /// What the session does with this message: one to send goes to the writer, one
    /// that was received goes to the handler. The message itself is passed on as it
    /// is.
    pub open spec fn action(self) -> SessionAction<M> {
        match self {
            SessionMessage::Send(msg) => SessionAction::Write(
                SessionWriterMessage::WriteObject(msg),
            ),
            SessionMessage::ObjectAvailable(msg) => SessionAction::Notify(msg),
        }
    }
}

/// The identifier of a unit: local to this node, or on another node.
#[derive(Clone, Copy, Debug, PartialEq, Eq, Hash, Structural)]
pub enum ActorId {
    /// A unit of this node.
    Local(u64),
    /// A unit of another node.
    Remote {
        /// The node.
        node_id: u64,
        /// The unit's identifier on that node.
        pid: u64,
    },
}

/// What a supervisor is told about the units it is linked to.
#[derive(Clone, Copy, Debug, PartialEq, Eq, Structural)]
pub enum SupervisionEvent {
    /// A unit was started.
    ActorStarted(ActorId),
    /// A unit ended, cleanly or not.
    ActorTerminated(ActorId),
    /// A unit panicked.
    ActorPanicked(ActorId),
    /// A group of units that the supervisor follows changed.
    ProcessGroupChanged,
}

/// Which child of the session an event is about.
#[derive(Clone, Copy, Debug, PartialEq, Eq, Structural)]
pub enum Child {
    /// The reader.
    Reader,
    /// The writer.
    Writer,
    /// Neither of the two.
    Unknown,
}

/// What the session does about a supervision event.
#[derive(Clone, Copy, Debug, PartialEq, Eq, Structural)]
pub enum Supervision {
    /// Nothing: all is well.
    Continue,
    /// Stop the session, and with it both children.
    Stop {
        /// The child that the event is about.
        child: Child,
        /// The reason with which the session stops.
        reason: StopReason,
    },
}

/// The identity of a connection: the handler above the session and the two
/// addresses. It is fixed when the session is made.
pub struct Session<H, A> {
    handler: H,
    peer_addr: A,
    local_addr: A,
}

/// The state of the session: its two children.
pub struct SessionState {
    writer: ActorId,
    reader: ActorId,
}

impl SessionState {
    /// The state of a session with these two children.
    pub fn new(writer: ActorId, reader: ActorId) -> (state: Self)
        ensures
            state.writer() == writer,
            state.reader() == reader,
    {
        SessionState { writer, reader }
    }

    /// The writer of the session.
    pub closed spec fn writer(&self) -> ActorId {
        self.writer
    }

    /// The reader of the session.
    pub closed spec fn reader(&self) -> ActorId {
        self.reader
    }

    /// Which child `actor` is. The reader is looked for first.
    pub open spec fn child(&self, actor: ActorId) -> Child {
        if actor == self.reader() {
            Child::Reader
        } else if actor == self.writer() {
            Child::Writer
        } else {
            Child::Unknown
        }
    }

    /// What the session does about `event`: a child that panicked or ended stops the
    /// session, whichever child it is and also where it is neither of the two; any
    /// other event changes nothing.
    pub open spec fn supervision(&self, event: SupervisionEvent) -> Supervision {
        match event {
            SupervisionEvent::ActorPanicked(actor) => Supervision::Stop {
                child: self.child(actor),
                reason: StopReason::ChildPanic,
            },
            SupervisionEvent::ActorTerminated(actor) => Supervision::Stop {
                child: self.child(actor),
                reason: StopReason::ChildTerminate,
            },
            _ => Supervision::Continue,
        }
    }

    /// Which child `actor` is.
    pub fn identify(&self, actor: ActorId) -> (child: Child)
        ensures
            child == self.child(actor),
    {
        if actor == self.reader {
            Child::Reader
        } else if actor == self.writer {
            Child::Writer
        } else {
            Child::Unknown
        }
    }
}

/// The three units fail together: a child that panics stops the session with
/// `child_panic` and a child that ends stops it with `child_terminate`, whether the
/// child is the reader, the writer or neither. No event about such a child lets
/// the session go on with the other half.
pub proof fn lemma_child_end_stops_session(state: SessionState, actor: ActorId)
    ensures
        state.supervision(SupervisionEvent::ActorPanicked(actor)) == (Supervision::Stop {
            child: state.child(actor),
            reason: StopReason::ChildPanic,
        }),
        state.supervision(SupervisionEvent::ActorTerminated(actor)) == (Supervision::Stop {
            child: state.child(actor),
            reason: StopReason::ChildTerminate,
        }),
        state.child(state.reader()) == Child::Reader,
        state.writer() != state.reader() ==> state.child(state.writer()) == Child::Writer,
{
}

impl<H, A> Session<H, A> {
    /// The handler above the session.
    pub closed spec fn handler_of(&self) -> H {
        self.handler
    }

    /// The address of the peer.
    pub closed spec fn peer_of(&self) -> A {
        self.peer_addr
    }

    /// The address of this end.
    pub closed spec fn local_of(&self) -> A {
        self.local_addr
    }

    /// The session of a connection between `local_addr` and `peer_addr`, below
    /// `handler`.
    pub fn new(handler: H, peer_addr: A, local_addr: A) -> (session: Self)
        ensures
            session.handler_of() == handler,
            session.peer_of() == peer_addr,
            session.local_of() == local_addr,
    {
        Session { handler, peer_addr, local_addr }
    }

    /// The handler above the session.
    pub fn handler(&self) -> (handler: &H)
        ensures
            *handler == self.handler_of(),
    {
        &self.handler
    }

    /// The address of the peer.
    pub fn peer_addr(&self) -> (addr: &A)
        ensures
            *addr == self.peer_of(),
    {
        &self.peer_addr
    }

    /// The address of this end.
    pub fn local_addr(&self) -> (addr: &A)
        ensures
            *addr == self.local_of(),
    {
        &self.local_addr
    }

    /// Takes a message and says where it goes.
    pub fn handle<M>(&self, message: SessionMessage<M>) -> (action: SessionAction<M>)
        ensures
            action == message.action(),
    {
        match message {
            SessionMessage::Send(msg) => SessionAction::Write(
                SessionWriterMessage::WriteObject(msg),
            ),
            SessionMessage::ObjectAvailable(msg) => SessionAction::Notify(msg),
        }
    }

    /// Takes a supervision event and says whether the session goes on or stops.
    pub fn handle_supervisor_evt(
        &self,
        message: SupervisionEvent,
        state: &SessionState,
    ) -> (verdict: Supervision)
        ensures
            verdict == state.supervision(message),
    {
        match message {
            SupervisionEvent::ActorPanicked(actor) => Supervision::Stop {
                child: state.identify(actor),
                reason: StopReason::ChildPanic,
            },
            SupervisionEvent::ActorTerminated(actor) => Supervision::Stop {
                child: state.identify(actor),
                reason: StopReason::ChildTerminate,
            },
            _ => Supervision::Continue,
        }
    }
}

} // verus!
