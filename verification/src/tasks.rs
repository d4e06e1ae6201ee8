//! The tasks of a server: the one that accepts clients, and one for each client.
use crate::message::{Message, Request};
use crate::refined_tcp_stream::RefinedTcpStream;
use crate::server::ServerState;
use async_channel::{Receiver, Sender};
use openssl::error::ErrorStack;
use openssl::ssl::{Ssl, SslContext};
use std::io::Error as IoError;
use vstd::prelude::*;

verus! {

/// Where the task that accepts clients stands.
#[derive(Clone, Copy, PartialEq, Eq, Debug, Structural)]
pub enum RunnerPhase {
    /// It looks whether the server is still there before it accepts the next client.
    Idle,
    /// It waits for a client.
    Accepting,
    /// It waits for the client with this key to set up the encryption.
    Handshaking(usize),
    /// It is over.
    Stopped,
}

/// The task that accepts clients.
pub struct RunnerTask {
    /// With what connections are encrypted, if they are.
    pub ssl: Option<SslContext>,
    pub phase: RunnerPhase,
}

/// What happened to the task that accepts clients. `T` is a handle on a TCP connection, `S` an SSL
/// stream over one.
pub enum RunnerEvent<T, S> {
    /// It may go on.
    Resume,
    /// A client has connected.
    Accepted(T),
    /// No client could be accepted.
    AcceptFailed(IoError),
    /// The client has set up the encryption.
    HandshakeDone(S),
    /// The client has not set up the encryption; its connection is closed.
    HandshakeFailed,
}

/// What the task that accepts clients has to do next.
#[verifier::reject_recursive_types(S)]
pub enum RunnerAction<T, S> {
    /// Accept a client.
    Accept,
    /// Set up the encryption with this client in this session.
    Handshake { session: Ssl, sock: T },
    /// Start a task, which is `client`, for the client on the other end of the connection, then go
    /// on.
    Serve { client: ClientTask, read: RefinedTcpStream<T, S>, write: RefinedTcpStream<T, S> },
    /// Nothing: the task is over.
    Stop,
    /// Panic: there is no session in which to set up the encryption, for this reason.
    Fail(ErrorStack),
}

impl RunnerTask {
    /// A task that has not started yet.
    pub fn new(ssl: Option<SslContext>) -> (r: RunnerTask)
        ensures
            r == (RunnerTask { ssl, phase: RunnerPhase::Idle }),
    {
        RunnerTask { ssl, phase: RunnerPhase::Idle }
    }

    /// Whether `event` can happen to the task.
    pub open spec fn expects<T, S>(self, event: RunnerEvent<T, S>) -> bool {
        match event {
            RunnerEvent::Resume => self.phase is Idle,
            RunnerEvent::Accepted(_) => self.phase is Accepting,
            RunnerEvent::AcceptFailed(_) => self.phase is Accepting,
            RunnerEvent::HandshakeDone(_) => self.phase is Handshaking,
            RunnerEvent::HandshakeFailed => self.phase is Handshaking,
        }
    }

    /// `session` came of making the session that a client needs which has just connected, if it
    /// needs one.
    pub open spec fn session_for<T, S>(
        self,
        event: RunnerEvent<T, S>,
        session: Result<Ssl, ErrorStack>,
    ) -> bool {
        event is Accepted && self.ssl is Some ==> crate::ssl::new_session_gave(
            self.ssl->0,
            session,
        )
    }

    /// `handle` is a second handle on the connection of a client that has just connected.
    pub open spec fn handle_for<T: Clone, S>(self, event: RunnerEvent<T, S>, handle: T) -> bool {
        event matches RunnerEvent::Accepted(sock) ==> cloned(sock, handle)
    }

    /// Where the task stands after `event` on this server.
    pub open spec fn phase_after<P, T, S>(
        self,
        server: ServerState<P, T>,
        event: RunnerEvent<T, S>,
        session: Result<Ssl, ErrorStack>,
    ) -> RunnerPhase {
        match event {
            RunnerEvent::Resume | RunnerEvent::HandshakeFailed => if server.closed {
                RunnerPhase::Stopped
            } else {
                RunnerPhase::Accepting
            },
            RunnerEvent::Accepted(_) => if self.ssl is None {
                RunnerPhase::Idle
            } else if session is Ok {
                RunnerPhase::Handshaking(server.free_key())
            } else {
                RunnerPhase::Stopped
            },
            RunnerEvent::HandshakeDone(_) => RunnerPhase::Idle,
            RunnerEvent::AcceptFailed(_) => RunnerPhase::Stopped,
        }
    }

    /// `action` is what the task has to do after `event` on this server. The client that is served
    /// has a new task, which is one for a secure connection if and only if the connection is
    /// encrypted.
    pub open spec fn answers<P, T: Clone, S>(
        self,
        server: ServerState<P, T>,
        event: RunnerEvent<T, S>,
        session: Result<Ssl, ErrorStack>,
        action: RunnerAction<T, S>,
    ) -> bool {
        match event {
            RunnerEvent::Resume | RunnerEvent::HandshakeFailed => if server.closed {
                action is Stop
            } else {
                action is Accept
            },
            RunnerEvent::Accepted(sock) => match (self.ssl, session) {
                (None, _) => {
                    &&& action is Serve
                    &&& action->client.fresh(false, server.free_key())
                    &&& action->write.stream == crate::refined_tcp_stream::Stream::<T, S>::Http(
                        sock,
                    )
                    &&& action->write.stream.splits_into(action->read, action->write)
                },
                (Some(_), Ok(session)) => action == (RunnerAction::<T, S>::Handshake {
                    session,
                    sock,
                }),
                (Some(_), Err(e)) => action == RunnerAction::<T, S>::Fail(e),
            },
            RunnerEvent::HandshakeDone(ssl) => {
                &&& action is Serve
                &&& action->client.fresh(true, self.phase->Handshaking_0)
                &&& action->write.stream is Https
                &&& crate::outside::guards(*action->write.stream->Https_0, ssl)
                &&& action->write.stream.splits_into(action->read, action->write)
            },
            RunnerEvent::AcceptFailed(_) => action is Stop,
        }
    }
}

/// Where the task for a client stands.
#[derive(Clone, Copy, PartialEq, Eq, Debug, Structural)]
pub enum ClientPhase {
    /// It reads the next request.
    Reading,
    /// It waits until the last request has been responded to.
    AwaitingNotification,
    /// It is over.
    Finished,
}

/// The task for a client.
pub struct ClientTask {
    /// Where the task learns that a request has been responded to. A client on a secure connection
    /// has it: synchronization is needed for HTTPS requests to avoid a deadlock.
    pub notify: Option<(Sender<()>, Receiver<()>)>,
    pub phase: ClientPhase,
    /// By which the server knows the client.
    pub key: usize,
}

/// What happened to the task for a client.
pub enum ClientEvent<P> {
    /// It may go on.
    Resume,
    /// The client has sent this request.
    Request(P),
    /// The client sends no more requests.
    NoMoreRequests,
    /// The last request has been responded to.
    Notified,
}

/// What the task for a client has to do next.
#[derive(Clone, Copy, PartialEq, Eq, Debug, Structural)]
pub enum ClientAction {
    /// Read the next request.
    ReadRequest,
    /// Wait until the last request has been responded to.
    AwaitNotification,
    /// Nothing: the task is over.
    Stop,
}

impl ClientPhase {
    /// What a task that stands here has to do next.
    pub open spec fn action(self) -> ClientAction {
        match self {
            ClientPhase::Reading => ClientAction::ReadRequest,
            ClientPhase::AwaitingNotification => ClientAction::AwaitNotification,
            ClientPhase::Finished => ClientAction::Stop,
        }
    }
}

impl ClientTask {
    /// A task for the client with this key, on a connection that is `secure` or not, that has read
    /// nothing yet.
    pub open spec fn fresh(self, secure: bool, key: usize) -> bool {
        &&& self.phase is Reading
        &&& self.key == key
        &&& self.notify is Some <==> secure
        &&& self.notify matches Some((sender, receiver)) ==> crate::outside::unbounded_pair(
            sender,
            receiver,
        )
    }

    /// A task for a client that has sent nothing yet.
    pub fn new(secure: bool, key: usize) -> (r: ClientTask)
        ensures
            r.fresh(secure, key),
    {
        let notify = if secure {
            Some(async_channel::unbounded())
        } else {
            None
        };
        ClientTask { notify, phase: ClientPhase::Reading, key }
    }

    /// Whether `event` can happen to the task.
    pub open spec fn expects<P>(self, event: ClientEvent<P>) -> bool {
        match event {
            ClientEvent::Notified => self.phase is AwaitingNotification,
            _ => self.phase is Reading,
        }
    }

    /// Where the task stands after `event`, on a server that is `closed` or not. A closed server
    /// reads no further request.
    pub open spec fn phase_after<P>(self, closed: bool, event: ClientEvent<P>) -> ClientPhase {
        if event is NoMoreRequests {
            ClientPhase::Finished
        } else if event is Request && self.notify is Some {
            ClientPhase::AwaitingNotification
        } else if closed {
            ClientPhase::Finished
        } else {
            ClientPhase::Reading
        }
    }

    /// `message` is what the task passes on of a request of its client: the request, and with it,
    /// on a secure connection, whom to tell once it has been responded to.
    pub open spec fn passes_on<P>(self, payload: P, message: Message<P>) -> bool {
        &&& message is NewRequest
        &&& message->NewRequest_0.payload == payload
        &&& match self.notify {
            Some((sender, _)) => {
                &&& message->NewRequest_0.notify_sender is Some
                &&& cloned(sender, message->NewRequest_0.notify_sender->0)
            },
            None => message->NewRequest_0.notify_sender is None,
        }
    }

    /// The message for a request of the client.
    pub(crate) fn message<P>(&self, payload: P) -> (r: Message<P>)
        ensures
            self.passes_on(payload, r),
    {
        let rq = Request { payload, notify_sender: None };
        match &self.notify {
            Some((sender, _)) => Message::from(rq.with_notify_sender(sender.clone())),
            None => Message::from(rq),
        }
    }
}

} // verus!
