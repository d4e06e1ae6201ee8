//! The server: what its tasks decide, and what it hands out.
use crate::message::{Message, MessagesQueue, Request};
use crate::poll::Poll;
use crate::refined_tcp_stream::{RefinedTcpStream, Stream};
use crate::ssl::{make_session, SslConfig, SslSetup};
use crate::tasks::{
    ClientAction, ClientEvent, ClientPhase, ClientTask, RunnerAction, RunnerEvent, RunnerPhase,
    RunnerTask,
};
use openssl::error::ErrorStack;
use openssl::ssl::{Ssl, SslContext};
use std::io::Error as IoError;
use vstd::prelude::*;

verus! {

/// An address of a network interface.
#[derive(Clone, Copy, PartialEq, Eq, Debug, Structural)]
pub enum IpAddr {
    /// The four octets of an IPv4 address, as a number.
    V4(u32),
    /// The sixteen octets of an IPv6 address, as a number.
    V6(u128),
}

/// An address to which a client can connect.
#[derive(Clone, Copy, PartialEq, Eq, Debug, Structural)]
pub struct SocketAddr {
    pub ip: IpAddr,
    pub port: u16,
    /// Zero for an IPv4 address.
    pub flowinfo: u32,
    /// Zero for an IPv4 address.
    pub scope_id: u32,
}

/// The main class of this library.
///
/// Destroying this object will immediately close the listening socket and the reading
///  part of all the client's connections. Requests that have already been returned by
///  the `recv()` function will not close and the responses will be transferred to the client.
///
/// `P` is a request as it was parsed, `T` a handle on a TCP connection.
pub struct Server<P, T> {
    // should be false as long as the server exists
    // when set to true, all the subtasks will close within a few hundreds ms
    close: bool,
    // queue for messages received by the tasks
    messages: MessagesQueue<Message<P>>,
    // the address to which the listener is bound
    listening_addr: SocketAddr,
    // counter of the number of open connections
    num_connections: usize,
    // set to false once the task that accepts clients is over
    accepting: bool,
    // the connections of the clients, each at the key of its client
    clients: Vec<Option<T>>,
}

/// What a server is, apart from how it is stored.
pub struct ServerState<P, T> {
    /// The server is being destroyed.
    pub closed: bool,
    /// The messages that nobody has received yet, the oldest first.
    pub messages: Seq<Message<P>>,
    pub addr: SocketAddr,
    /// The number of clients that are connected.
    pub connections: usize,
    /// The task that accepts clients is not over.
    pub accepting: bool,
    /// The connection of each client that is connected, at the key of the client; `None` at a key
    /// that is free.
    pub clients: Seq<Option<T>>,
}

/// The first key from `key` on that is free.
pub open spec fn free_from<T>(clients: Seq<Option<T>>, key: int) -> int
    decreases clients.len() - key,
{
    if 0 <= key < clients.len() && clients[key] is Some {
        free_from(clients, key + 1)
    } else {
        key
    }
}

/// The connections of the clients, in the order of their keys.
pub open spec fn connections_of<T>(clients: Seq<Option<T>>) -> Seq<T>
    decreases clients.len(),
{
    if clients.len() == 0 {
        Seq::empty()
    } else {
        match clients.last() {
            Some(connection) => connections_of(clients.drop_last()).push(connection),
            None => connections_of(clients.drop_last()),
        }
    }
}

impl<P, T> View for Server<P, T> {
    type V = ServerState<P, T>;

    closed spec fn view(&self) -> ServerState<P, T> {
        ServerState {
            closed: self.close,
            messages: self.messages@,
            addr: self.listening_addr,
            connections: self.num_connections,
            accepting: self.accepting,
            clients: self.clients@,
        }
    }
}

/// Represents the parameters required to create a server.
#[derive(Debug, Clone)]
pub struct ServerConfig<A> {
    /// The addresses to listen to.
    pub addr: A,
    /// If `Some`, then the server will use SSL to encode the communications.
    pub ssl: Option<SslConfig>,
}

/// Why a server was not created.
pub enum ServerError {
    /// There is no listener.
    Io(IoError),
    /// The server was to use SSL, and support for it is not built in.
    SslNotEnabled,
    /// The SSL context could not be built.
    Ssl(ErrorStack),
}

impl<P, T> ServerState<P, T> {
    /// A server that listens on `addr` and has no client yet.
    pub open spec fn listening_on(addr: SocketAddr) -> ServerState<P, T> {
        ServerState {
            closed: false,
            messages: Seq::empty(),
            addr,
            connections: 0,
            accepting: true,
            clients: Seq::empty(),
        }
    }

    /// The key of the next client.
    pub open spec fn free_key(self) -> usize {
        free_from(self.clients, 0) as usize
    }

    /// What `recv` returns: the oldest message, for which it waits if there is none.
    pub open spec fn recv_result(self) -> Poll<Result<Request<P>, IoError>> {
        if self.messages.len() == 0 {
            Poll::Pending
        } else {
            Poll::Ready(self.messages[0].delivered())
        }
    }

    /// What `try_recv` returns: the oldest message, if there is one.
    pub open spec fn try_recv_result(self) -> Result<Option<Request<P>>, IoError> {
        if self.messages.len() == 0 {
            Ok(None)
        } else {
            match self.messages[0].delivered() {
                Ok(rq) => Ok(Some(rq)),
                Err(err) => Err(err),
            }
        }
    }

    /// What `recv_timeout` returns: the oldest message, for which it waits until the time is out.
    pub open spec fn recv_timeout_result(self, timed_out: bool) -> Poll<
        Result<Option<Request<P>>, IoError>,
    > {
        if self.messages.len() == 0 && !timed_out {
            Poll::Pending
        } else {
            Poll::Ready(self.try_recv_result())
        }
    }

    /// No further message can come: no client is accepted any more, and none is connected.
    pub open spec fn exhausted(self) -> bool {
        !self.accepting && self.connections == 0
    }

    /// What an iterator over the incoming requests gives: the oldest message, or `None` where that
    /// message is an error. If there is no message it waits for one, or gives `None` where none can
    /// come any more.
    pub open spec fn incoming_result(self) -> Poll<Option<Request<P>>> {
        match self.recv_result() {
            Poll::Pending => if self.exhausted() {
                Poll::Ready(None)
            } else {
                Poll::Pending
            },
            Poll::Ready(Ok(rq)) => Poll::Ready(Some(rq)),
            Poll::Ready(Err(_)) => Poll::Ready(None),
        }
    }

    /// The server with one client more, on this connection. The counter wraps around.
    pub open spec fn joined(self, connection: T) -> ServerState<P, T> {
        ServerState {
            clients: if self.free_key() < self.clients.len() {
                self.clients.update(self.free_key() as int, Some(connection))
            } else {
                self.clients.push(Some(connection))
            },
            connections: if self.connections == usize::MAX {
                0
            } else {
                (self.connections + 1) as usize
            },
            ..self
        }
    }

    /// The server without the client with this key. The counter wraps around.
    pub open spec fn left(self, key: usize) -> ServerState<P, T> {
        ServerState {
            clients: if key < self.clients.len() {
                self.clients.update(key as int, None)
            } else {
                self.clients
            },
            connections: if self.connections == 0 {
                usize::MAX
            } else {
                (self.connections - 1) as usize
            },
            ..self
        }
    }

    /// The server after `event` happened to the task that accepts clients: a client that connects
    /// counts at once if it can be served, with a second `handle` on its connection, and no longer
    /// once it has failed to set up the encryption. That no client could be accepted is reported to
    /// whoever receives. Once the task is over, no client is accepted any more.
    pub open spec fn after_runner<S>(
        self,
        task: RunnerTask,
        event: RunnerEvent<T, S>,
        session: Result<Ssl, ErrorStack>,
        handle: T,
    ) -> ServerState<P, T> {
        let accepting = self.accepting && !(task.phase_after(self, event, session) is Stopped);
        match event {
            RunnerEvent::Accepted(_) => if task.ssl is None || session is Ok {
                self.joined(handle)
            } else {
                ServerState { accepting, ..self }
            },
            RunnerEvent::HandshakeFailed => ServerState {
                accepting,
                ..self.left(task.phase->Handshaking_0)
            },
            RunnerEvent::AcceptFailed(e) => ServerState {
                messages: self.messages.push(Message::Error(e)),
                accepting,
                ..self
            },
            _ => ServerState { accepting, ..self },
        }
    }

    /// `after` is the server after `event` happened to the task of a client: a request is passed
    /// on to whoever receives, and a client whose task is over counts no longer.
    pub open spec fn after_client(
        self,
        task: ClientTask,
        event: ClientEvent<P>,
        after: ServerState<P, T>,
    ) -> bool {
        let counted = if task.phase_after(self.closed, event) is Finished {
            self.left(task.key)
        } else {
            self
        };
        match event {
            ClientEvent::Request(payload) => {
                &&& after == (ServerState { messages: after.messages, ..counted })
                &&& after.messages == self.messages.push(after.messages.last())
                &&& task.passes_on(payload, after.messages.last())
            },
            _ => after == counted,
        }
    }

    /// The server after the oldest message, if there is one, was received.
    pub open spec fn received(self) -> ServerState<P, T> {
        if self.messages.len() == 0 {
            self
        } else {
            ServerState { messages: self.messages.drop_first(), ..self }
        }
    }
}

impl ServerError {
    /// The error in words, where it is not an outside one.
    pub fn message(&self) -> (r: Option<&'static str>)
        ensures
            r is Some <==> self is SslNotEnabled,
            r matches Some(text) ==> text@
                == "Building a server with SSL requires enabling the `ssl` feature in tiny-http"@,
    {
        match self {
            ServerError::SslNotEnabled => Some(
                "Building a server with SSL requires enabling the `ssl` feature in tiny-http",
            ),
            _ => None,
        }
    }
}

/// What making a server gives whose listener is bound as `bound` says; `setup` is what came of the
/// calls that build its context, where it needs one. An error of the listener comes before one of
/// the SSL configuration.
pub open spec fn server_outcome<P, T>(
    bound: Result<SocketAddr, IoError>,
    ssl: Option<SslConfig>,
    ssl_enabled: bool,
    setup: SslSetup,
) -> Result<(ServerState<P, T>, Option<SslContext>), ServerError> {
    match (bound, ssl) {
        (Err(e), _) => Err(ServerError::Io(e)),
        (Ok(addr), None) => Ok((ServerState::listening_on(addr), None)),
        (Ok(addr), Some(_)) => if !ssl_enabled {
            Err(ServerError::SslNotEnabled)
        } else {
            match setup.outcome() {
                Ok(context) => Ok((ServerState::listening_on(addr), Some(context))),
                Err(e) => Err(ServerError::Ssl(e)),
            }
        },
    }
}

/// `r` came of making a server for which `setup` came of the calls that build its context, where it
/// needs one.
pub open spec fn made_with<P, T>(
    bound: Result<SocketAddr, IoError>,
    ssl: Option<SslConfig>,
    ssl_enabled: bool,
    setup: SslSetup,
    r: Result<(Server<P, T>, Option<SslContext>), ServerError>,
) -> bool {
    &&& bound is Ok && ssl_enabled && ssl is Some ==> setup.of(ssl->0)
    &&& server_outcome::<P, T>(bound, ssl, ssl_enabled, setup) == (match r {
        Ok((server, context)) => Ok((server@, context)),
        Err(e) => Err(e),
    })
}

/// `r` came of making a server whose listener is bound as `bound` says.
pub open spec fn server_made<P, T>(
    bound: Result<SocketAddr, IoError>,
    ssl: Option<SslConfig>,
    ssl_enabled: bool,
    r: Result<(Server<P, T>, Option<SslContext>), ServerError>,
) -> bool {
    exists|setup: SslSetup| #[trigger] made_with(bound, ssl, ssl_enabled, setup, r)
}

impl<P, T> Server<P, T> {
    /// Shortcut for a simple server on a specific address. `bound` is the address to which its
    /// listener was bound, or why it was not.
    pub fn http<A>(addr: A, bound: Result<SocketAddr, IoError>) -> (r: Result<
        (Server<P, T>, Option<SslContext>),
        ServerError,
    >)
        ensures
            server_made(bound, None, false, r),
            call_ensures(
                Server::<P, T>::new::<A>,
                (ServerConfig { addr, ssl: None }, bound, false),
                r,
            ),
    {
        Server::new(ServerConfig { addr, ssl: None }, bound, false)
    }

    /// Shortcut for an HTTPS server on a specific address. `bound` is the address to which its
    /// listener was bound, or why it was not.
    pub fn https<A>(addr: A, config: SslConfig, bound: Result<SocketAddr, IoError>) -> (r: Result<
        (Server<P, T>, Option<SslContext>),
        ServerError,
    >)
        requires
            bound is Ok ==> config.certificate@.len() <= i32::MAX && config.private_key@.len()
                <= i32::MAX,
        ensures
            server_made(bound, Some(config), true, r),
            call_ensures(
                Server::<P, T>::new::<A>,
                (ServerConfig { addr, ssl: Some(config) }, bound, true),
                r,
            ),
    {
        Server::new(ServerConfig { addr, ssl: Some(config) }, bound, true)
    }

    /// Builds a new server that listens on the specified address. `bound` is the address to which
    /// its listener was bound, or why it was not; `ssl_enabled` says whether support for SSL is
    /// built in. With the server comes the context with which it encrypts its connections.
    pub fn new<A>(
        config: ServerConfig<A>,
        bound: Result<SocketAddr, IoError>,
        ssl_enabled: bool,
    ) -> (r: Result<(Server<P, T>, Option<SslContext>), ServerError>)
        requires
            bound is Ok && ssl_enabled ==> (config.ssl matches Some(ssl)
                ==> ssl.certificate@.len() <= i32::MAX && ssl.private_key@.len() <= i32::MAX),
        ensures
            server_made(bound, config.ssl, ssl_enabled, r),
    {
        let ghost ssl_config = config.ssl;
        let ghost mut setup: SslSetup = arbitrary();
        let listening_addr = match bound {
            Ok(addr) => addr,
            Err(e) => {
                let r = Err(ServerError::Io(e));
                assert(made_with(bound, ssl_config, ssl_enabled, setup, r));
                return r;
            },
        };
        let context = match config.ssl {
            None => None,
            Some(mut ssl) => {
                if !ssl_enabled {
                    let r = Err(ServerError::SslNotEnabled);
                    assert(made_with(bound, ssl_config, ssl_enabled, setup, r));
                    return r;
                }
                let built = ssl.build_context();
                proof {
                    setup = choose|setup: SslSetup| #[trigger]
                        setup.of(ssl_config->0) && built == setup.outcome();
                }
                match built {
                    Ok(context) => Some(context),
                    Err(e) => {
                        let r = Err(ServerError::Ssl(e));
                        assert(made_with(bound, ssl_config, ssl_enabled, setup, r));
                        return r;
                    },
                }
            },
        };
        let server = Server {
            close: false,
            messages: MessagesQueue::with_capacity(8),
            listening_addr,
            num_connections: 0,
            accepting: true,
            clients: Vec::new(),
        };
        let r = Ok((server, context));
        assert(made_with(bound, ssl_config, ssl_enabled, setup, r));
        r
    }

    /// Returns the address the server is listening to.
    pub fn server_addr(&self) -> (r: SocketAddr)
        ensures
            r == self@.addr,
    {
        self.listening_addr
    }

    /// Returns the number of clients currently connected to the server.
    pub fn num_connections(&self) -> (r: usize)
        ensures
            r == self@.connections,
    {
        self.num_connections
    }

    /// Returns the next message: a request that has been submitted, or an error. `Pending` says
    /// that there is none yet, so that the caller has to wait for it.
    pub fn recv(&mut self) -> (r: Poll<Result<Request<P>, IoError>>)
        ensures
            r == old(self)@.recv_result(),
            final(self)@ == old(self)@.received(),
    {
        match self.messages.try_pop() {
            Some(Message::Error(err)) => Poll::Ready(Err(err)),
            Some(Message::NewRequest(rq)) => Poll::Ready(Ok(rq)),
            None => Poll::Pending,
        }
    }

    /// Same as `recv()` but the caller doesn't wait any longer once `timed_out`.
    pub fn recv_timeout(&mut self, timed_out: bool) -> (r: Poll<
        Result<Option<Request<P>>, IoError>,
    >)
        ensures
            r == old(self)@.recv_timeout_result(timed_out),
            final(self)@ == old(self)@.received(),
    {
        match self.messages.try_pop() {
            Some(Message::Error(err)) => Poll::Ready(Err(err)),
            Some(Message::NewRequest(rq)) => Poll::Ready(Ok(Some(rq))),
            None => if timed_out {
                Poll::Ready(Ok(None))
            } else {
                Poll::Pending
            },
        }
    }

    /// Same as `recv()` but doesn't block.
    pub fn try_recv(&mut self) -> (r: Result<Option<Request<P>>, IoError>)
        ensures
            r == old(self)@.try_recv_result(),
            final(self)@ == old(self)@.received(),
    {
        match self.messages.try_pop() {
            Some(Message::Error(err)) => Err(err),
            Some(Message::NewRequest(rq)) => Ok(Some(rq)),
            None => Ok(None),
        }
    }

    /// Decides for the task that accepts clients what it has to do after `event`.
    pub fn runner_task<S>(
        &mut self,
        task: &mut RunnerTask,
        event: RunnerEvent<T, S>,
    ) -> (action: RunnerAction<T, S>) where T: Clone
        requires
            old(task).expects(event),
        ensures
            final(task).ssl == old(task).ssl,
            exists|session: Result<Ssl, ErrorStack>, handle: T|
                {
                    &&& #[trigger] old(task).session_for(event, session)
                    &&& #[trigger] old(task).handle_for(event, handle)
                    &&& final(self)@ == old(self)@.after_runner(*old(task), event, session, handle)
                    &&& final(task).phase == old(task).phase_after(old(self)@, event, session)
                    &&& old(task).answers(old(self)@, event, session, action)
                },
    {
        assert(task.ssl is None || event !is Accepted ==> task.session_for(event, arbitrary()));
        assert(event !is Accepted ==> task.handle_for(event, arbitrary()));
        let key: usize = match task.phase {
            RunnerPhase::Handshaking(key) => key,
            _ => 0,
        };
        match event {
            RunnerEvent::Accepted(sock) => {
                match &task.ssl {
                    None => {
                        let handle = sock.clone();
                        assert(old(task).handle_for(event, handle));
                        let key: usize = self.join(handle);
                        let (read, write) = RefinedTcpStream::new(Stream::from(sock));
                        task.phase = RunnerPhase::Idle;
                        RunnerAction::Serve { client: ClientTask::new(false, key), read, write }
                    },
                    Some(context) => {
                        let session = make_session(context);
                        assert(old(task).session_for(event, session));
                        let action = self.begin_handshake(task, sock, session);
                        proof {
                            let handle = if session is Ok {
                                choose|handle: T| #[trigger]
                                    cloned(sock, handle) && self@ == old(self)@.joined(handle)
                            } else {
                                sock
                            };
                            assert(old(task).handle_for(event, handle));
                        }
                        action
                    },
                }
            },
            RunnerEvent::HandshakeDone(ssl) => {
                let (read, write) = RefinedTcpStream::new(Stream::from_ssl(ssl));
                task.phase = RunnerPhase::Idle;
                RunnerAction::Serve { client: ClientTask::new(true, key), read, write }
            },
            RunnerEvent::AcceptFailed(e) => {
                self.messages.push(Message::from(e));
                self.accepting = false;
                task.phase = RunnerPhase::Stopped;
                RunnerAction::Stop
            },
            RunnerEvent::HandshakeFailed => {
                self.leave(key);
                self.accept_next(task)
            },
            RunnerEvent::Resume => self.accept_next(task),
        }
    }

    /// Decides for the task that accepts clients what it has to do with a client that has connected
    /// and needs encryption. `session` is the session in which to set it up, or why there is none.
    pub fn begin_handshake<S>(
        &mut self,
        task: &mut RunnerTask,
        sock: T,
        session: Result<Ssl, ErrorStack>,
    ) -> (action: RunnerAction<T, S>) where T: Clone
        requires
            old(task).phase is Accepting,
            old(task).ssl is Some,
        ensures
            final(task).ssl == old(task).ssl,
            session matches Ok(session) ==> {
                &&& exists|handle: T| #[trigger]
                    cloned(sock, handle) && final(self)@ == old(self)@.joined(handle)
                &&& final(task).phase == RunnerPhase::Handshaking(old(self)@.free_key())
                &&& action == (RunnerAction::<T, S>::Handshake { session, sock })
            },
            session matches Err(e) ==> {
                &&& final(self)@ == (ServerState { accepting: false, ..old(self)@ })
                &&& final(task).phase is Stopped
                &&& action == RunnerAction::<T, S>::Fail(e)
            },
    {
        match session {
            Ok(session) => {
                let handle = sock.clone();
                assert(cloned(sock, handle));
                let key: usize = self.join(handle);
                task.phase = RunnerPhase::Handshaking(key);
                RunnerAction::Handshake { session, sock }
            },
            Err(e) => {
                self.accepting = false;
                task.phase = RunnerPhase::Stopped;
                RunnerAction::Fail(e)
            },
        }
    }

    /// A client has connected. Returns its key.
    fn join(&mut self, connection: T) -> (key: usize)
        ensures
            final(self)@ == old(self)@.joined(connection),
            key == old(self)@.free_key(),
    {
        let mut key: usize = 0;
        while key < self.clients.len() && self.clients[key].is_some()
            invariant
                *self == *old(self),
                key <= self.clients@.len(),
                free_from(self.clients@, 0) == free_from(self.clients@, key as int),
            decreases self.clients@.len() - key,
        {
            key += 1;
        }
        if key < self.clients.len() {
            self.clients.set(key, Some(connection));
        } else {
            self.clients.push(Some(connection));
        }
        self.num_connections = self.num_connections.wrapping_add(1);
        key
    }

    /// The client with this key is gone.
    fn leave(&mut self, key: usize)
        ensures
            final(self)@ == old(self)@.left(key),
    {
        if key < self.clients.len() {
            self.clients.set(key, None);
        }
        self.num_connections = self.num_connections.wrapping_sub(1);
    }

    /// The task accepts the next client, unless the server is being destroyed.
    fn accept_next<S>(&mut self, task: &mut RunnerTask) -> (action: RunnerAction<T, S>)
        ensures
            final(self)@ == (ServerState {
                accepting: old(self)@.accepting && !old(self)@.closed,
                ..old(self)@
            }),
            final(task).ssl == old(task).ssl,
            final(task).phase == (if old(self)@.closed {
                RunnerPhase::Stopped
            } else {
                RunnerPhase::Accepting
            }),
            action is Stop <==> old(self)@.closed,
            action is Accept <==> !old(self)@.closed,
    {
        if self.close {
            self.accepting = false;
            task.phase = RunnerPhase::Stopped;
            RunnerAction::Stop
        } else {
            task.phase = RunnerPhase::Accepting;
            RunnerAction::Accept
        }
    }

    /// Decides for the task of a client what it has to do after `event`.
    pub fn run_client(&mut self, task: &mut ClientTask, event: ClientEvent<P>) -> (action:
        ClientAction)
        requires
            old(task).expects(event),
        ensures
            old(self)@.after_client(*old(task), event, final(self)@),
            final(task).notify == old(task).notify,
            final(task).key == old(task).key,
            final(task).phase == old(task).phase_after(old(self)@.closed, event),
            action == final(task).phase.action(),
    {
        match event {
            ClientEvent::Request(payload) => {
                let message = task.message(payload);
                self.messages.push(message);
                if task.notify.is_some() {
                    task.phase = ClientPhase::AwaitingNotification;
                    return ClientAction::AwaitNotification;
                }
            },
            ClientEvent::NoMoreRequests => {
                return self.finish_client(task);
            },
            ClientEvent::Resume | ClientEvent::Notified => {},
        }
        if self.close {
            self.finish_client(task)
        } else {
            task.phase = ClientPhase::Reading;
            ClientAction::ReadRequest
        }
    }

    /// The task of a client is over.
    fn finish_client(&mut self, task: &mut ClientTask) -> (action: ClientAction)
        ensures
            final(self)@ == old(self)@.left(old(task).key),
            final(task).notify == old(task).notify,
            final(task).key == old(task).key,
            final(task).phase is Finished,
            action is Stop,
    {
        self.leave(task.key);
        task.phase = ClientPhase::Finished;
        ClientAction::Stop
    }

    /// Closes the server. Returns the address to connect to, so that the task that accepts
    /// clients notices, and a handle on the connection of every client that is connected: the
    /// reading part of each is to be closed, and nothing else. What was received stays as it is.
    pub fn drop(&mut self) -> (r: (SocketAddr, Vec<T>)) where T: Clone
        ensures
            r.0 == old(self)@.addr,
            r.1@.len() == connections_of(old(self)@.clients).len(),
            forall|i: int|
                0 <= i < r.1@.len() ==> cloned(
                    connections_of(old(self)@.clients)[i],
                    #[trigger] r.1@[i],
                ),
            final(self)@ == (ServerState { closed: true, ..old(self)@ }),
    {
        self.close = true;
        let mut connections: Vec<T> = Vec::new();
        let n: usize = self.clients.len();
        let mut i: usize = 0;
        while i < n
            invariant
                i <= n == self.clients@.len(),
                connections@.len() == connections_of(self.clients@.take(i as int)).len(),
                forall|j: int|
                    0 <= j < connections@.len() ==> cloned(
                        connections_of(self.clients@.take(i as int))[j],
                        #[trigger] connections@[j],
                    ),
            decreases n - i,
        {
            assert(self.clients@.take(i + 1).drop_last() =~= self.clients@.take(i as int));
            if let Some(connection) = &self.clients[i] {
                connections.push(connection.clone());
            }
            i += 1;
        }
        assert(self.clients@.take(n as int) =~= self.clients@);
        (self.listening_addr, connections)
    }

    /// Returns an iterator for all the incoming requests.
    ///
    /// The iterator will return `None` if the server socket is shutdown.
    pub fn incoming_requests(&mut self) -> (r: IncomingRequests<'_, P, T>)
        ensures
            *r.server == *old(self),
            *final(r.server) == *final(self),
    {
        IncomingRequests { server: self }
    }
}

pub struct IncomingRequests<'a, P, T> {
    pub server: &'a mut Server<P, T>,
}

impl<'a, P, T> IncomingRequests<'a, P, T> {
    /// Returns the next request, or `None` where the server reports an error, and again and again
    /// once no client is accepted any more, none is connected and every message was received.
    /// `Pending` says that there is neither yet, so that the caller has to wait for it.
    pub fn next(&mut self) -> (r: Poll<Option<Request<P>>>)
        ensures
            r == old(self).server@.incoming_result(),
            final(self).server@ == old(self).server@.received(),
            *final(final(self).server) == *final(old(self).server),
    {
        match self.server.recv() {
            Poll::Pending => if !self.server.accepting && self.server.num_connections == 0 {
                Poll::Ready(None)
            } else {
                Poll::Pending
            },
            Poll::Ready(Ok(rq)) => Poll::Ready(Some(rq)),
            Poll::Ready(Err(_)) => Poll::Ready(None),
        }
    }
}

/// Every key of a client is a number that fits.
pub proof fn lemma_keys_fit<P, T>(server: Server<P, T>)
    ensures
        server@.clients.len() <= usize::MAX,
{
    assert(server.clients@.len() == server.clients.len());
}

} // verus!
