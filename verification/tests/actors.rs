use std::future::Future;
use std::pin::Pin;
use std::time::Duration;

use bytes::Bytes;
use prost::Message;
use ractor::{Actor, ActorProcessingErr, ActorRef, ActorStatus};
use ractor_cluster::exact::{ExactRead, ReadError};
use ractor_cluster::reader::{ReaderStep, SessionReader, SessionReaderMessage, SessionReaderState};
use ractor_cluster::session::{
    ActorId, Session, SessionAction, SessionMessage, SessionState, Supervision, SupervisionEvent,
};
use ractor_cluster::writer::{
    FrameWrite, SessionWriter, SessionWriterMessage, SessionWriterState, WriteStage,
};
use tokio::io::{AsyncReadExt, AsyncWriteExt, DuplexStream, ReadHalf, WriteHalf};
use tokio::sync::mpsc::{unbounded_channel, UnboundedReceiver, UnboundedSender};

type Step<'a, T> = Pin<Box<dyn Future<Output = Result<T, ActorProcessingErr>> + Send + 'a>>;

const PATIENCE: Duration = Duration::from_secs(10);

fn actor_id(id: ractor::ActorId) -> ActorId {
    match id {
        ractor::ActorId::Local(pid) => ActorId::Local(pid),
        ractor::ActorId::Remote { node_id, pid } => ActorId::Remote { node_id, pid },
    }
}

async fn read_n_bytes(
    stream: &mut ReadHalf<DuplexStream>,
    mut read: ExactRead,
) -> Result<Vec<u8>, ReadError> {
    while !read.is_complete() {
        let mut chunk = vec![0u8; read.room(4096)];
        let outcome = match stream.read(&mut chunk).await {
            Ok(n) => Ok(&chunk[..n]),
            Err(_) => Err(ReadError::Io),
        };
        read.absorb(outcome)?;
    }
    Ok(read.into_bytes())
}

/// The actor that owns the read half of the stream.
struct ReaderActor {
    session: ActorRef<SessionMessage<String>>,
}

impl Actor for ReaderActor {
    type Msg = SessionReaderMessage;
    type State = SessionReaderState<ReadHalf<DuplexStream>>;
    type Arguments = ReadHalf<DuplexStream>;

    fn pre_start<'life0, 'async_trait>(
        &'life0 self,
        myself: ActorRef<Self::Msg>,
        reader: Self::Arguments,
    ) -> Step<'async_trait, Self::State>
    where
        'life0: 'async_trait,
        Self: 'async_trait,
    {
        Box::pin(async move {
            let (state, first) = SessionReader.pre_start(reader);
            let _ = myself.cast(first);
            Ok(state)
        })
    }

    fn post_stop<'life0, 'life1, 'async_trait>(
        &'life0 self,
        _myself: ActorRef<Self::Msg>,
        state: &'life1 mut Self::State,
    ) -> Step<'async_trait, ()>
    where
        'life0: 'async_trait,
        'life1: 'async_trait,
        Self: 'async_trait,
    {
        Box::pin(async move {
            SessionReader.post_stop(state);
            Ok(())
        })
    }

    fn handle<'life0, 'life1, 'async_trait>(
        &'life0 self,
        myself: ActorRef<Self::Msg>,
        message: Self::Msg,
        state: &'life1 mut Self::State,
    ) -> Step<'async_trait, ()>
    where
        'life0: 'async_trait,
        'life1: 'async_trait,
        Self: 'async_trait,
    {
        Box::pin(async move {
            let outcome = match (SessionReader.begin(state, message), state.reader.as_mut()) {
                (Some(read), Some(stream)) => read_n_bytes(stream, read).await,
                _ => Err(ReadError::Io),
            };
            match SessionReader.handle(state, message, outcome) {
                ReaderStep::Schedule(next) => {
                    let _ = myself.cast(next);
                }
                ReaderStep::Decode(payload) => {
                    let decoded = String::decode_length_delimited(Bytes::from(payload)).ok();
                    let delivery = SessionReader.decoded(decoded);
                    if let Some(msg) = delivery.notify {
                        let _ = self.session.cast(msg);
                    }
                    let _ = myself.cast(delivery.next);
                }
                ReaderStep::Stop(reason) => myself.stop(Some(reason.as_str().to_string())),
            }
            Ok(())
        })
    }
}

/// The actor that owns the write half of the stream.
struct WriterActor;

impl Actor for WriterActor {
    type Msg = SessionWriterMessage<String>;
    type State = SessionWriterState<WriteHalf<DuplexStream>>;
    type Arguments = WriteHalf<DuplexStream>;

    fn pre_start<'life0, 'async_trait>(
        &'life0 self,
        _myself: ActorRef<Self::Msg>,
        writer: Self::Arguments,
    ) -> Step<'async_trait, Self::State>
    where
        'life0: 'async_trait,
        Self: 'async_trait,
    {
        Box::pin(async move { Ok(SessionWriter.pre_start(writer)) })
    }

    fn post_stop<'life0, 'life1, 'async_trait>(
        &'life0 self,
        _myself: ActorRef<Self::Msg>,
        state: &'life1 mut Self::State,
    ) -> Step<'async_trait, ()>
    where
        'life0: 'async_trait,
        'life1: 'async_trait,
        Self: 'async_trait,
    {
        Box::pin(async move {
            SessionWriter.post_stop(state);
            Ok(())
        })
    }

    fn handle<'life0, 'life1, 'async_trait>(
        &'life0 self,
        myself: ActorRef<Self::Msg>,
        message: Self::Msg,
        state: &'life1 mut Self::State,
    ) -> Step<'async_trait, ()>
    where
        'life0: 'async_trait,
        'life1: 'async_trait,
        Self: 'async_trait,
    {
        Box::pin(async move {
            let accepted = SessionWriter.handle(state, message);
            if let (Some(msg), Some(stream)) = (accepted, state.writer.as_mut()) {
                let mut write = FrameWrite::new(msg.encode_length_delimited_to_vec());
                while !write.current().is_done() {
                    let ok = match write.pending() {
                        Some(bytes) => stream.write_all(bytes).await.is_ok(),
                        None => {
                            if write.current() == WriteStage::Flush {
                                stream.flush().await.unwrap();
                            }
                            true
                        }
                    };
                    write.advance(ok);
                }
                if let Some(reason) = write.current().stop_reason() {
                    myself.stop(Some(reason.as_str().to_string()));
                }
            }
            Ok(())
        })
    }
}

/// The session: it starts the two children on the halves of the stream.
struct SessionActor {
    identity: Session<UnboundedSender<String>, &'static str>,
}

struct Children {
    ids: SessionState,
    writer: ActorRef<SessionWriterMessage<String>>,
}

impl Actor for SessionActor {
    type Msg = SessionMessage<String>;
    type State = Children;
    type Arguments = (DuplexStream, UnboundedSender<(ractor::ActorCell, ractor::ActorCell)>);

    fn pre_start<'life0, 'async_trait>(
        &'life0 self,
        myself: ActorRef<Self::Msg>,
        args: Self::Arguments,
    ) -> Step<'async_trait, Self::State>
    where
        'life0: 'async_trait,
        Self: 'async_trait,
    {
        Box::pin(async move {
            let (stream, started) = args;
            let (read, write) = tokio::io::split(stream);
            let (writer, _) =
                Actor::spawn_linked(None, WriterActor, write, myself.get_cell()).await?;
            let session = myself.clone();
            let (reader, _) =
                Actor::spawn_linked(None, ReaderActor { session }, read, myself.get_cell()).await?;
            let ids = SessionState::new(actor_id(writer.get_id()), actor_id(reader.get_id()));
            let _ = started.send((writer.get_cell(), reader.get_cell()));
            Ok(Children { ids, writer })
        })
    }

    fn handle<'life0, 'life1, 'async_trait>(
        &'life0 self,
        _myself: ActorRef<Self::Msg>,
        message: Self::Msg,
        state: &'life1 mut Self::State,
    ) -> Step<'async_trait, ()>
    where
        'life0: 'async_trait,
        'life1: 'async_trait,
        Self: 'async_trait,
    {
        Box::pin(async move {
            match self.identity.handle(message) {
                SessionAction::Write(request) => {
                    let _ = state.writer.cast(request);
                }
                SessionAction::Notify(msg) => {
                    let _ = self.identity.handler().send(msg);
                }
            }
            Ok(())
        })
    }

    fn handle_supervisor_evt<'life0, 'life1, 'async_trait>(
        &'life0 self,
        myself: ActorRef<Self::Msg>,
        message: ractor::SupervisionEvent,
        state: &'life1 mut Self::State,
    ) -> Step<'async_trait, ()>
    where
        'life0: 'async_trait,
        'life1: 'async_trait,
        Self: 'async_trait,
    {
        Box::pin(async move {
            let event = match &message {
                ractor::SupervisionEvent::ActorStarted(actor) => {
                    SupervisionEvent::ActorStarted(actor_id(actor.get_id()))
                }
                ractor::SupervisionEvent::ActorTerminated(actor, _, _) => {
                    SupervisionEvent::ActorTerminated(actor_id(actor.get_id()))
                }
                ractor::SupervisionEvent::ActorPanicked(actor, _) => {
                    SupervisionEvent::ActorPanicked(actor_id(actor.get_id()))
                }
                _ => SupervisionEvent::ProcessGroupChanged,
            };
            let verdict = self.identity.handle_supervisor_evt(event, &state.ids);
            if let Supervision::Stop { reason, .. } = verdict {
                myself.stop(Some(reason.as_str().to_string()));
            }
            Ok(())
        })
    }
}

/// Watches the session from above and reports the reason with which it ends.
struct Observer {
    seen: UnboundedSender<Option<String>>,
}

impl Actor for Observer {
    type Msg = ();
    type State = ();
    type Arguments = ();

    fn pre_start<'life0, 'async_trait>(
        &'life0 self,
        _myself: ActorRef<Self::Msg>,
        _args: Self::Arguments,
    ) -> Step<'async_trait, Self::State>
    where
        'life0: 'async_trait,
        Self: 'async_trait,
    {
        Box::pin(async move { Ok(()) })
    }

    fn handle_supervisor_evt<'life0, 'life1, 'async_trait>(
        &'life0 self,
        _myself: ActorRef<Self::Msg>,
        message: ractor::SupervisionEvent,
        _state: &'life1 mut Self::State,
    ) -> Step<'async_trait, ()>
    where
        'life0: 'async_trait,
        'life1: 'async_trait,
        Self: 'async_trait,
    {
        Box::pin(async move {
            match message {
                ractor::SupervisionEvent::ActorTerminated(_, _, reason) => {
                    let _ = self.seen.send(reason);
                }
                ractor::SupervisionEvent::ActorPanicked(_, _) => {
                    let _ = self.seen.send(Some(String::from("the session panicked")));
                }
                _ => {}
            }
            Ok(())
        })
    }
}

/// A running session and the ends that a test holds of it.
struct Connection {
    /// The peer's end of the stream.
    peer: DuplexStream,
    /// The session.
    session: ActorRef<SessionMessage<String>>,
    /// The writer and the reader of the session.
    children: (ractor::ActorCell, ractor::ActorCell),
    /// What the handler above the session receives.
    handled: UnboundedReceiver<String>,
    /// The reason with which the session stops.
    stopped: UnboundedReceiver<Option<String>>,
    observer: ActorRef<()>,
}

async fn connect() -> Connection {
    let (near, peer) = tokio::io::duplex(16);
    let (seen, stopped) = unbounded_channel();
    let (observer, _) = Actor::spawn(None, Observer { seen }, ()).await.unwrap();
    let (handler, handled) = unbounded_channel();
    let (started, mut children) = unbounded_channel();
    let identity = Session::new(handler, "peer", "local");
    let (session, _) = Actor::spawn_linked(
        None,
        SessionActor { identity },
        (near, started),
        observer.get_cell(),
    )
    .await
    .unwrap();
    let children = children.recv().await.unwrap();
    Connection { peer, session, children, handled, stopped, observer }
}

async fn is_stopped(unit: &ractor::ActorCell) -> bool {
    for _ in 0..500 {
        if unit.get_status() == ActorStatus::Stopped {
            return true;
        }
        tokio::time::sleep(Duration::from_millis(10)).await;
    }
    false
}

async fn soon<T>(what: impl Future<Output = T>) -> T {
    tokio::time::timeout(PATIENCE, what).await.expect("nothing happened in time")
}

fn runtime() -> tokio::runtime::Runtime {
    tokio::runtime::Builder::new_current_thread().enable_all().build().unwrap()
}

fn frame(message: &str) -> Vec<u8> {
    let payload = message.to_string().encode_length_delimited_to_vec();
    let mut bytes = (payload.len() as u64).to_be_bytes().to_vec();
    bytes.extend_from_slice(&payload);
    bytes
}

#[test]
fn the_handler_receives_a_frame_once_and_the_session_goes_on() {
    runtime().block_on(async {
        let mut connection = connect().await;
        let payload = String::from("ab").encode_length_delimited_to_vec();
        assert_eq!(payload.len(), 5);
        connection.peer.write_all(&[0, 0, 0, 0, 0, 0, 0, 5]).await.unwrap();
        connection.peer.write_all(&payload).await.unwrap();

        assert_eq!(soon(connection.handled.recv()).await, Some(String::from("ab")));
        tokio::time::sleep(Duration::from_millis(100)).await;
        assert!(connection.handled.try_recv().is_err());
        assert!(connection.stopped.try_recv().is_err());
        assert_eq!(connection.session.get_status(), ActorStatus::Running);
        assert_eq!(connection.children.0.get_status(), ActorStatus::Running);
        assert_eq!(connection.children.1.get_status(), ActorStatus::Running);

        // the session still works in both directions
        connection.peer.write_all(&frame("again")).await.unwrap();
        assert_eq!(soon(connection.handled.recv()).await, Some(String::from("again")));
        connection.observer.stop(None);
    });
}

#[test]
fn a_peer_that_closes_inside_a_payload_stops_the_whole_session() {
    runtime().block_on(async {
        let mut connection = connect().await;
        connection.peer.write_all(&[0, 0, 0, 0, 0, 0, 0, 10]).await.unwrap();
        connection.peer.write_all(&[1, 2, 3]).await.unwrap();
        drop(connection.peer);

        let reason = soon(connection.stopped.recv()).await.unwrap();
        assert_eq!(reason, Some(String::from("child_terminate")));
        assert!(is_stopped(&connection.children.1).await);
        assert!(is_stopped(&connection.children.0).await);
        assert!(is_stopped(&connection.session.get_cell()).await);
        assert!(connection.handled.try_recv().is_err());
        connection.observer.stop(None);
    });
}

#[test]
fn a_message_that_is_sent_arrives_as_one_frame() {
    runtime().block_on(async {
        let mut connection = connect().await;
        connection.session.cast(SessionMessage::Send(String::from("hello peer"))).unwrap();
        let expected = frame("hello peer");
        assert!(expected.len() > 16);
        let mut wire = vec![0u8; expected.len()];
        soon(connection.peer.read_exact(&mut wire)).await.unwrap();
        assert_eq!(wire, expected);
        connection.observer.stop(None);
    });
}

#[test]
fn messages_that_are_sent_arrive_in_order() {
    runtime().block_on(async {
        let mut connection = connect().await;
        let messages = ["first", "the second one", "", "fourth"];
        let mut expected = Vec::new();
        for message in messages {
            connection.session.cast(SessionMessage::Send(message.to_string())).unwrap();
            expected.extend_from_slice(&frame(message));
        }
        let mut wire = vec![0u8; expected.len()];
        soon(connection.peer.read_exact(&mut wire)).await.unwrap();
        assert_eq!(wire, expected);
        connection.observer.stop(None);
    });
}

#[test]
fn a_malformed_frame_is_dropped_by_a_running_session() {
    runtime().block_on(async {
        let mut connection = connect().await;
        connection.peer.write_all(&[0, 0, 0, 0, 0, 0, 0, 3, 0xff, 0xff, 0xff]).await.unwrap();
        connection.peer.write_all(&frame("well formed")).await.unwrap();
        assert_eq!(soon(connection.handled.recv()).await, Some(String::from("well formed")));
        tokio::time::sleep(Duration::from_millis(100)).await;
        assert!(connection.handled.try_recv().is_err());
        assert!(connection.stopped.try_recv().is_err());
        assert_eq!(connection.session.get_status(), ActorStatus::Running);
        connection.observer.stop(None);
    });
}

#[test]
fn two_sessions_talk_to_each_other() {
    runtime().block_on(async {
        let (near, far) = tokio::io::duplex(16);
        let (seen, _stopped) = unbounded_channel();
        let (observer, _) = Actor::spawn(None, Observer { seen }, ()).await.unwrap();
        let mut ends = Vec::new();
        for stream in [near, far] {
            let (handler, handled) = unbounded_channel();
            let (started, _children) = unbounded_channel();
            let identity = Session::new(handler, "peer", "local");
            let (session, _) = Actor::spawn_linked(
                None,
                SessionActor { identity },
                (stream, started),
                observer.get_cell(),
            )
            .await
            .unwrap();
            ends.push((session, handled));
        }
        let (right, mut right_handled) = ends.pop().unwrap();
        let (left, mut left_handled) = ends.pop().unwrap();
        for i in 0..20 {
            left.cast(SessionMessage::Send(format!("to the right {}", i))).unwrap();
            right.cast(SessionMessage::Send(format!("to the left {}", i))).unwrap();
        }
        for i in 0..20 {
            assert_eq!(soon(right_handled.recv()).await, Some(format!("to the right {}", i)));
            assert_eq!(soon(left_handled.recv()).await, Some(format!("to the left {}", i)));
        }
        observer.stop(None);
    });
}
