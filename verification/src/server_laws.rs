//! What holds of a server and its tasks together.
use crate::message::Message;
use crate::poll::Poll;
use crate::server::{Server, ServerConfig, ServerError, ServerState, SocketAddr};
use crate::ssl::{SslConfig, SslSetup};
use crate::tasks::{ClientEvent, ClientTask, RunnerEvent, RunnerPhase, RunnerTask};
use openssl::error::ErrorStack;
use openssl::ssl::{Ssl, SslContext};
use std::io::Error as IoError;
use vstd::prelude::*;

verus! {

/// `recv_timeout` gives what `recv` gives as long as there is a message, whether the time is out or
/// not; it gives up only where `recv` would wait on.
pub proof fn law_recv_timeout_is_recv<P, T>(server: ServerState<P, T>, timed_out: bool)
    ensures
        server.recv_timeout_result(timed_out) == (match server.recv_result() {
            Poll::Ready(Ok(rq)) => Poll::Ready(Ok(Some(rq))),
            Poll::Ready(Err(err)) => Poll::Ready(Err(err)),
            Poll::Pending => if timed_out {
                Poll::Ready(Ok(None))
            } else {
                Poll::Pending
            },
        }),
{
}

/// `try_recv` gives what `recv` gives as long as there is a message, and gives up at once where
/// `recv` would wait.
pub proof fn law_try_recv_is_recv<P, T>(server: ServerState<P, T>)
    ensures
        server.try_recv_result() == (match server.recv_result() {
            Poll::Ready(Ok(rq)) => Ok(Some(rq)),
            Poll::Ready(Err(err)) => Err(err),
            Poll::Pending => Ok(None),
        }),
{
}

/// Where no client could be accepted and everything before that was received, the iterator over the
/// incoming requests returns `None`, and from then on no client is accepted any more.
pub proof fn law_iteration_ends_when_accepting_fails<P, T, S>(
    server: ServerState<P, T>,
    task: RunnerTask,
    e: IoError,
    session: Result<Ssl, ErrorStack>,
    handle: T,
)
    requires
        server.messages.len() == 0,
    ensures
        ({
            let after = server.after_runner(
                task,
                RunnerEvent::<T, S>::AcceptFailed(e),
                session,
                handle,
            );
            &&& after.incoming_result() == Poll::<Option<crate::message::Request<P>>>::Ready(None)
            &&& after.received() == (ServerState { accepting: false, ..server })
        }),
{
    assert(seq![Message::<P>::Error(e)].drop_first() =~= server.messages);
    assert(server.messages.push(Message::Error(e)) =~= seq![Message::<P>::Error(e)]);
}

/// A server with its tasks.
pub struct ServerSystem<P, T> {
    pub server: ServerState<P, T>,
    pub runner: RunnerTask,
    /// The tasks of the clients, in the order in which the clients were served.
    pub clients: Seq<ClientTask>,
    /// The connection on which the client with the same index has connected.
    pub connections: Seq<T>,
    /// The connection of the client that sets up the encryption, if one does.
    pub handshaking: Option<T>,
}

/// Something that happens to a server with its tasks.
#[verifier::reject_recursive_types(T)]
#[verifier::reject_recursive_types(S)]
pub enum ServerStep<P, T, S> {
    /// The event of the task that accepts clients, what came of making a session if one was
    /// needed, a second handle on the connection of the client that has connected, if one has, and
    /// the task of the client that is served, if one is.
    Runner(RunnerEvent<T, S>, Result<Ssl, ErrorStack>, T, ClientTask),
    /// This happened to the task of the client with this index, and left the server so.
    Client(int, ClientEvent<P>, ServerState<P, T>),
    /// The oldest message was received.
    Receive,
    /// The server is destroyed.
    Close,
}

/// How many of the clients still have a task that is not over.
pub open spec fn connected(clients: Seq<ClientTask>) -> nat
    decreases clients.len(),
{
    if clients.len() == 0 {
        0
    } else if clients.last().phase is Finished {
        connected(clients.drop_last())
    } else {
        connected(clients.drop_last()) + 1
    }
}

impl<P, T: Clone> ServerSystem<P, T> {
    /// A server that was just made.
    pub open spec fn start(addr: SocketAddr, ssl: Option<SslContext>) -> ServerSystem<P, T> {
        ServerSystem {
            server: ServerState::listening_on(addr),
            runner: RunnerTask { ssl, phase: RunnerPhase::Idle },
            clients: Seq::empty(),
            connections: Seq::empty(),
            handshaking: None,
        }
    }

    /// Whether `event` makes the task that accepts clients serve one.
    pub open spec fn serves<S>(self, event: RunnerEvent<T, S>) -> bool {
        event is HandshakeDone || (event is Accepted && self.runner.ssl is None)
    }

    /// The key of the client that `event` makes the task that accepts clients serve.
    pub open spec fn served_key<S>(self, event: RunnerEvent<T, S>) -> usize {
        if event is HandshakeDone {
            self.runner.phase->Handshaking_0
        } else {
            self.server.free_key()
        }
    }

    /// Whether `step` can happen. There are fewer clients than the counter can count.
    pub open spec fn enabled<S>(self, step: ServerStep<P, T, S>) -> bool {
        match step {
            ServerStep::Runner(event, session, handle, task) => {
                &&& self.runner.expects(event)
                &&& self.runner.session_for(event, session)
                &&& self.runner.handle_for(event, handle)
                &&& event is Accepted ==> self.server.connections < usize::MAX
                &&& self.serves(event) ==> task.fresh(
                    event is HandshakeDone,
                    self.served_key(event),
                )
            },
            ServerStep::Client(i, event, after) => {
                &&& 0 <= i < self.clients.len()
                &&& self.clients[i].expects(event)
                &&& self.server.after_client(self.clients[i], event, after)
            },
            _ => true,
        }
    }

    /// The server with its tasks after `step`.
    pub open spec fn after<S>(self, step: ServerStep<P, T, S>) -> ServerSystem<P, T> {
        match step {
            ServerStep::Runner(event, session, handle, task) => ServerSystem {
                server: self.server.after_runner(self.runner, event, session, handle),
                runner: RunnerTask {
                    ssl: self.runner.ssl,
                    phase: self.runner.phase_after(self.server, event, session),
                },
                clients: if self.serves(event) {
                    self.clients.push(task)
                } else {
                    self.clients
                },
                connections: match event {
                    RunnerEvent::Accepted(sock) if self.runner.ssl is None =>
                        self.connections.push(sock),
                    RunnerEvent::HandshakeDone(_) => self.connections.push(self.handshaking->0),
                    _ => self.connections,
                },
                handshaking: match event {
                    RunnerEvent::Accepted(sock) if self.runner.ssl is Some && session is Ok =>
                        Some(sock),
                    _ => None,
                },
            },
            ServerStep::Client(i, event, after) => ServerSystem {
                server: after,
                clients: self.clients.update(
                    i,
                    ClientTask {
                        phase: self.clients[i].phase_after(self.server.closed, event),
                        ..self.clients[i]
                    },
                ),
                ..self
            },
            ServerStep::Receive => ServerSystem { server: self.server.received(), ..self },
            ServerStep::Close => ServerSystem {
                server: ServerState { closed: true, ..self.server },
                ..self
            },
        }
    }

    /// Whether the steps can happen one after the other.
    pub open spec fn can_run<S>(self, steps: Seq<ServerStep<P, T, S>>) -> bool
        decreases steps.len(),
    {
        steps.len() > 0 ==> self.can_run(steps.drop_last()) && self.run(steps.drop_last()).enabled(
            steps.last(),
        )
    }

    /// The server with its tasks after the steps.
    pub open spec fn run<S>(self, steps: Seq<ServerStep<P, T, S>>) -> ServerSystem<P, T>
        decreases steps.len(),
    {
        if steps.len() > 0 {
            self.run(steps.drop_last()).after(steps.last())
        } else {
            self
        }
    }

    /// What `step` gives to whoever receives.
    pub open spec fn sent_in<S>(self, step: ServerStep<P, T, S>) -> Seq<Message<P>> {
        match step {
            ServerStep::Runner(RunnerEvent::AcceptFailed(e), _, _, _) => seq![Message::Error(e)],
            ServerStep::Client(_, ClientEvent::Request(_), after) => seq![after.messages.last()],
            _ => Seq::empty(),
        }
    }

    /// What `step` receives.
    pub open spec fn received_in<S>(self, step: ServerStep<P, T, S>) -> Seq<Message<P>> {
        if step is Receive && self.server.messages.len() > 0 {
            seq![self.server.messages[0]]
        } else {
            Seq::empty()
        }
    }

    /// The errors of the task that accepts clients and the requests that the tasks of the clients
    /// passed on during the steps, in order.
    pub open spec fn sent<S>(self, steps: Seq<ServerStep<P, T, S>>) -> Seq<Message<P>>
        decreases steps.len(),
    {
        if steps.len() > 0 {
            self.sent(steps.drop_last()) + self.run(steps.drop_last()).sent_in(steps.last())
        } else {
            Seq::empty()
        }
    }

    /// The messages that were received during the steps, in order.
    pub open spec fn received<S>(self, steps: Seq<ServerStep<P, T, S>>) -> Seq<Message<P>>
        decreases steps.len(),
    {
        if steps.len() > 0 {
            self.received(steps.drop_last()) + self.run(steps.drop_last()).received_in(
                steps.last(),
            )
        } else {
            Seq::empty()
        }
    }

    /// The counter counts the clients whose task is not over, and the one that sets up the
    /// encryption.
    pub open spec fn counted(self) -> bool {
        self.server.connections == connected(self.clients) + (if self.runner.phase is Handshaking {
            1int
        } else {
            0
        })
    }

    /// No client is accepted any more, none is connected, and every message was received.
    pub open spec fn over(self) -> bool {
        &&& self.runner.phase is Stopped
        &&& connected(self.clients) == 0
        &&& self.server.messages.len() == 0
    }

    /// Client `i` is connected and has this key.
    pub open spec fn has_key(self, i: int, key: int) -> bool {
        &&& 0 <= i < self.clients.len()
        &&& !(self.clients[i].phase is Finished)
        &&& self.clients[i].key == key
    }

    /// The client that sets up the encryption has this key.
    pub open spec fn handshakes_with_key(self, key: int) -> bool {
        self.runner.phase is Handshaking && self.runner.phase->Handshaking_0 == key
    }

    /// At this key the server has a handle on this connection.
    pub open spec fn keeps(self, key: int, connection: T) -> bool {
        &&& 0 <= key < self.server.clients.len()
        &&& self.server.clients[key] is Some
        &&& cloned(connection, self.server.clients[key]->0)
    }

    /// The server has a handle on the connection of each client that is connected, at a key of its
    /// own, and no other.
    pub open spec fn keys_sound(self) -> bool {
        &&& forall|i: int, key: int| #[trigger]
            self.has_key(i, key) ==> self.keeps(key, self.connections[i])
        &&& forall|key: int| #[trigger]
            self.handshakes_with_key(key) ==> self.keeps(key, self.handshaking->0)
        &&& forall|i: int, j: int, key: int| #[trigger]
            self.has_key(i, key) && #[trigger] self.has_key(j, key) ==> i == j
        &&& forall|i: int, key: int| #[trigger]
            self.has_key(i, key) ==> !self.handshakes_with_key(key)
        &&& forall|key: int|
            0 <= key < self.server.clients.len() && (#[trigger] self.server.clients[key]) is Some
                ==> self.handshakes_with_key(key) || exists|i: int| self.has_key(i, key)
    }

    /// What holds of a server and its tasks whatever happened to them.
    spec fn sound(self) -> bool {
        &&& self.counted()
        &&& self.server.accepting <==> !(self.runner.phase is Stopped)
        &&& self.connections.len() == self.clients.len()
        &&& self.server.clients.len() <= usize::MAX
        &&& crate::server::connections_of(self.server.clients).len() == self.server.connections
        &&& self.keys_sound()
    }

    proof fn lemma_step<S>(self, step: ServerStep<P, T, S>)
        requires
            self.sound(),
            self.enabled(step),
        ensures
            self.after(step).sound(),
            self.over() ==> self.after(step).over(),
    {
        match step {
            ServerStep::Runner(event, session, handle, task) => {
                lemma_connected_push(self.clients, task);
                self.lemma_runner_step(event, session, handle, task);
            },
            ServerStep::Client(i, event, after) => {
                lemma_connected_update(
                    self.clients,
                    i,
                    ClientTask {
                        phase: self.clients[i].phase_after(self.server.closed, event),
                        ..self.clients[i]
                    },
                );
                self.lemma_client_step(step, i, event, after);
            },
            _ => {
                let next = self.after(step);
                assert(forall|i: int, key: int| #[trigger]
                    next.has_key(i, key) <==> self.has_key(i, key));
                assert(forall|key: int| #[trigger]
                    next.handshakes_with_key(key) <==> self.handshakes_with_key(key));
                assert(forall|key: int, connection: T| #[trigger]
                    next.keeps(key, connection) <==> self.keeps(key, connection));
                assert forall|key: int|
                    0 <= key < next.server.clients.len() && (
                    #[trigger] next.server.clients[key]) is Some
                        && !next.handshakes_with_key(key) implies exists|i: int|
                    next.has_key(i, key) by {
                    let i = choose|i: int| self.has_key(i, key);
                    assert(next.has_key(i, key));
                }
            },
        }
    }

    proof fn lemma_runner_step<S>(
        self,
        event: RunnerEvent<T, S>,
        session: Result<Ssl, ErrorStack>,
        handle: T,
        task: ClientTask,
    )
        requires
            self.sound(),
            self.enabled(ServerStep::Runner(event, session, handle, task)),
        ensures
            ({
                let next = self.after(ServerStep::Runner(event, session, handle, task));
                &&& next.keys_sound()
                &&& next.server.clients.len() <= usize::MAX
                &&& crate::server::connections_of(next.server.clients).len()
                    == next.server.connections
            }),
    {
        let next = self.after(ServerStep::Runner(event, session, handle, task));
        lemma_free(self.server.clients, 0);
        let free = crate::server::free_from(self.server.clients, 0);
        if event is Accepted && (self.runner.ssl is None || session is Ok) {
            if free < self.server.clients.len() {
                lemma_connections_update(self.server.clients, free, Some(handle));
            } else {
                lemma_connections_full(self.server.clients);
                assert(self.server.clients.push(Some(handle)).drop_last()
                    =~= self.server.clients);
            }
            assert(next.server.clients[free] == Some(handle));
            assert(forall|key: int|
                0 <= key < self.server.clients.len() && key != free ==> next.server.clients[key]
                    == self.server.clients[key]);
        }
        if event is HandshakeFailed {
            let key = self.runner.phase->Handshaking_0 as int;
            assert(self.handshakes_with_key(key));
            lemma_connections_update(self.server.clients, key, None);
        }
        assert forall|i: int, key: int| #[trigger] next.has_key(i, key) implies {
            &&& next.keeps(key, next.connections[i])
            &&& !next.handshakes_with_key(key)
            &&& forall|j: int| #[trigger] next.has_key(j, key) ==> i == j
        } by {
            if i < self.clients.len() {
                assert(self.has_key(i, key));
            } else if event is HandshakeDone {
                assert(self.handshakes_with_key(key));
            }
            assert forall|j: int| #[trigger] next.has_key(j, key) implies i == j by {
                if j < self.clients.len() {
                    assert(self.has_key(j, key));
                }
            }
        }
        assert forall|key: int|
            0 <= key < next.server.clients.len() && (
            #[trigger] next.server.clients[key]) is Some implies next.handshakes_with_key(key)
            || exists|i: int| next.has_key(i, key) by {
            if key < self.server.clients.len() && self.server.clients[key] is Some {
                if self.handshakes_with_key(key) {
                    if event is HandshakeDone {
                        assert(next.has_key(self.clients.len() as int, key));
                    }
                } else {
                    let i = choose|i: int| self.has_key(i, key);
                    assert(next.has_key(i, key));
                }
            } else if self.runner.ssl is None {
                assert(next.has_key(self.clients.len() as int, key));
            }
        }
    }

    proof fn lemma_client_step<S>(
        self,
        step: ServerStep<P, T, S>,
        i: int,
        event: ClientEvent<P>,
        after: ServerState<P, T>,
    )
        requires
            self.sound(),
            step == ServerStep::<P, T, S>::Client(i, event, after),
            self.enabled(step),
        ensures
            self.after(step).keys_sound(),
            after.clients.len() == self.server.clients.len(),
            crate::server::connections_of(after.clients).len() == after.connections,
    {
        let next = self.after(step);
        let own = self.clients[i].key as int;
        assert(self.has_key(i, own));
        assert(self.keeps(own, self.connections[i]));
        lemma_connections_update(self.server.clients, own, None);
        assert forall|j: int, key: int| #[trigger] next.has_key(j, key) implies {
            &&& self.has_key(j, key)
            &&& next.keeps(key, next.connections[j])
        } by {
            assert(self.has_key(j, key));
            assert(next.clients[i].phase is Finished ==> key != own);
        }
        assert forall|key: int|
            0 <= key < next.server.clients.len() && (
            #[trigger] next.server.clients[key]) is Some implies next.handshakes_with_key(key)
            || exists|j: int| next.has_key(j, key) by {
            assert(self.server.clients[key] is Some);
            if !self.handshakes_with_key(key) {
                let j = choose|j: int| self.has_key(j, key);
                assert(next.has_key(j, key));
            } else {
                assert(next.handshakes_with_key(key));
            }
        }
        assert forall|key: int| #[trigger]
            next.handshakes_with_key(key) implies next.keeps(key, next.handshaking->0) by {
            assert(self.handshakes_with_key(key));
            assert(self.keeps(key, self.handshaking->0));
            assert(key != own);
        }
    }

    proof fn lemma_run<S>(self, steps: Seq<ServerStep<P, T, S>>)
        requires
            self.sound(),
            self.can_run(steps),
        ensures
            self.run(steps).sound(),
            self.over() ==> self.run(steps).over(),
        decreases steps.len(),
    {
        if steps.len() > 0 {
            self.lemma_run(steps.drop_last());
            self.run(steps.drop_last()).lemma_step(steps.last());
        }
    }
}

proof fn lemma_connected_push(clients: Seq<ClientTask>, task: ClientTask)
    ensures
        connected(clients.push(task)) == connected(clients) + (if task.phase is Finished {
            0int
        } else {
            1
        }),
{
    assert(clients.push(task).drop_last() =~= clients);
}

proof fn lemma_connected_update(clients: Seq<ClientTask>, i: int, task: ClientTask)
    requires
        0 <= i < clients.len(),
        !(clients[i].phase is Finished),
    ensures
        connected(clients) > 0,
        connected(clients.update(i, task)) == connected(clients) - (if task.phase is Finished {
            1int
        } else {
            0
        }),
    decreases clients.len(),
{
    if i == clients.len() - 1 {
        assert(clients.update(i, task).drop_last() =~= clients.drop_last());
    } else {
        lemma_connected_update(clients.drop_last(), i, task);
        assert(clients.update(i, task).drop_last() =~= clients.drop_last().update(i, task));
    }
}

pub(crate) proof fn lemma_free<T>(clients: Seq<Option<T>>, key: int)
    requires
        0 <= key <= clients.len(),
    ensures
        key <= crate::server::free_from(clients, key) <= clients.len(),
        ({
            let free = crate::server::free_from(clients, key);
            free < clients.len() ==> clients[free] is None
        }),
        forall|k: int| key <= k < crate::server::free_from(clients, key) ==> clients[k] is Some,
    decreases clients.len() - key,
{
    if key < clients.len() && clients[key] is Some {
        lemma_free(clients, key + 1);
    }
}

proof fn lemma_connections_full<T>(clients: Seq<Option<T>>)
    requires
        forall|k: int| 0 <= k < clients.len() ==> clients[k] is Some,
    ensures
        crate::server::connections_of(clients).len() == clients.len(),
    decreases clients.len(),
{
    if clients.len() > 0 {
        lemma_connections_full(clients.drop_last());
    }
}

proof fn lemma_connections_update<T>(clients: Seq<Option<T>>, key: int, client: Option<T>)
    requires
        0 <= key < clients.len(),
    ensures
        crate::server::connections_of(clients).len() >= (if clients[key] is Some {
            1int
        } else {
            0
        }),
        crate::server::connections_of(clients.update(key, client)).len()
            == crate::server::connections_of(clients).len() + (if client is Some {
            1int
        } else {
            0
        }) - (if clients[key] is Some {
            1int
        } else {
            0
        }),
    decreases clients.len(),
{
    if key == clients.len() - 1 {
        assert(clients.update(key, client).drop_last() =~= clients.drop_last());
    } else {
        lemma_connections_update(clients.drop_last(), key, client);
        assert(clients.update(key, client).drop_last() =~= clients.drop_last().update(key, client));
    }
}

proof fn lemma_connections_contain<T>(clients: Seq<Option<T>>, key: int) -> (j: int)
    requires
        0 <= key < clients.len(),
        clients[key] is Some,
    ensures
        0 <= j < crate::server::connections_of(clients).len(),
        crate::server::connections_of(clients)[j] == clients[key]->0,
    decreases clients.len(),
{
    if key == clients.len() - 1 {
        crate::server::connections_of(clients).len() - 1
    } else {
        lemma_connections_contain(clients.drop_last(), key)
    }
}

proof fn lemma_connections_come<T>(clients: Seq<Option<T>>, j: int) -> (key: int)
    requires
        0 <= j < crate::server::connections_of(clients).len(),
    ensures
        0 <= key < clients.len(),
        clients[key] is Some,
        crate::server::connections_of(clients)[j] == clients[key]->0,
    decreases clients.len(),
{
    if clients.last() is Some && j == crate::server::connections_of(clients).len() - 1 {
        clients.len() - 1
    } else {
        lemma_connections_come(clients.drop_last(), j)
    }
}

/// Whatever happens to a server and its tasks, the number of connections that it gives is the
/// number of clients that are connected: those that set up the encryption and those whose task is
/// not over.
pub proof fn law_connections_are_counted<P, T: Clone, S>(
    addr: SocketAddr,
    ssl: Option<SslContext>,
    steps: Seq<ServerStep<P, T, S>>,
)
    requires
        ServerSystem::<P, T>::start(addr, ssl).can_run(steps),
    ensures
        ServerSystem::<P, T>::start(addr, ssl).run(steps).counted(),
{
    ServerSystem::<P, T>::start(addr, ssl).lemma_run(steps);
}

/// Whatever happens to a server and its tasks, the iterator over the incoming requests waits only
/// where there is no message and one can still come: the server accepts clients, or a client is
/// connected.
pub proof fn law_iteration_waits_only_for_somebody<P, T: Clone, S>(
    addr: SocketAddr,
    ssl: Option<SslContext>,
    steps: Seq<ServerStep<P, T, S>>,
)
    requires
        ServerSystem::<P, T>::start(addr, ssl).can_run(steps),
    ensures
        ({
            let system = ServerSystem::<P, T>::start(addr, ssl).run(steps);
            system.server.incoming_result() is Pending <==> {
                &&& system.server.messages.len() == 0
                &&& !(system.runner.phase is Stopped) || connected(system.clients) > 0
            }
        }),
{
    ServerSystem::<P, T>::start(addr, ssl).lemma_run(steps);
}

/// Once the task that accepts clients is over, whatever ended it, no client is connected and every
/// message was received, the iterator over the incoming requests returns `None`, and so it does
/// whatever happens afterwards: on every further call, and on those of other iterators.
pub proof fn law_iteration_stays_over<P, T: Clone, S>(
    addr: SocketAddr,
    ssl: Option<SslContext>,
    steps: Seq<ServerStep<P, T, S>>,
    more: Seq<ServerStep<P, T, S>>,
)
    requires
        ServerSystem::<P, T>::start(addr, ssl).can_run(steps),
        ServerSystem::<P, T>::start(addr, ssl).run(steps).over(),
        ServerSystem::<P, T>::start(addr, ssl).run(steps).can_run(more),
    ensures
        ({
            let system = ServerSystem::<P, T>::start(addr, ssl).run(steps);
            let none = Poll::<Option<crate::message::Request<P>>>::Ready(None);
            &&& system.server.incoming_result() == none
            &&& system.server.received().incoming_result() == none
            &&& system.run(more).over()
            &&& system.run(more).server.incoming_result() == none
        }),
{
    ServerSystem::<P, T>::start(addr, ssl).lemma_run(steps);
    ServerSystem::<P, T>::start(addr, ssl).run(steps).lemma_run(more);
}

/// Whatever happens to a server and its tasks, it has a handle on the connection of every client
/// that is connected, at a key of its own, and on no other; there are as many as it counts.
pub proof fn law_every_connection_is_kept<P, T: Clone, S>(
    addr: SocketAddr,
    ssl: Option<SslContext>,
    steps: Seq<ServerStep<P, T, S>>,
)
    requires
        ServerSystem::<P, T>::start(addr, ssl).can_run(steps),
    ensures
        ({
            let system = ServerSystem::<P, T>::start(addr, ssl).run(steps);
            &&& system.keys_sound()
            &&& crate::server::connections_of(system.server.clients).len()
                == system.server.connections
        }),
{
    ServerSystem::<P, T>::start(addr, ssl).lemma_run(steps);
}

/// Whenever a server is closed, the connections whose reading part is to be closed are those of the
/// clients that are connected: the connection of every client whose task is not over is among them,
/// and so is that of a client that sets up the encryption; each of them is one of those.
pub proof fn law_closing_reaches_every_client<P, T: Clone, S>(
    addr: SocketAddr,
    ssl: Option<SslContext>,
    steps: Seq<ServerStep<P, T, S>>,
    i: int,
    j: int,
)
    requires
        ServerSystem::<P, T>::start(addr, ssl).can_run(steps),
    ensures
        ({
            let system = ServerSystem::<P, T>::start(addr, ssl).run(steps);
            let closed = crate::server::connections_of(system.server.clients);
            &&& 0 <= i < system.clients.len() && !(system.clients[i].phase is Finished)
                ==> exists|k: int|
                0 <= k < closed.len() && cloned(system.connections[i], #[trigger] closed[k])
            &&& system.runner.phase is Handshaking ==> exists|k: int|
                0 <= k < closed.len() && cloned(system.handshaking->0, #[trigger] closed[k])
            &&& 0 <= j < closed.len() ==> {
                ||| system.runner.phase is Handshaking && cloned(system.handshaking->0, closed[j])
                ||| exists|k: int|
                    0 <= k < system.clients.len() && !(system.clients[k].phase is Finished)
                        && cloned(#[trigger] system.connections[k], closed[j])
            }
        }),
{
    ServerSystem::<P, T>::start(addr, ssl).lemma_run(steps);
    let system = ServerSystem::<P, T>::start(addr, ssl).run(steps);
    if 0 <= i < system.clients.len() && !(system.clients[i].phase is Finished) {
        let key = system.clients[i].key as int;
        assert(system.has_key(i, key));
        let k = lemma_connections_contain(system.server.clients, key);
    }
    if system.runner.phase is Handshaking {
        let key = system.runner.phase->Handshaking_0 as int;
        assert(system.handshakes_with_key(key));
        let k = lemma_connections_contain(system.server.clients, key);
    }
    if 0 <= j < crate::server::connections_of(system.server.clients).len() {
        let key = lemma_connections_come(system.server.clients, j);
        if !system.handshakes_with_key(key) {
            let k = choose|k: int| system.has_key(k, key);
            assert(system.has_key(k, key));
        }
    }
}

/// Whatever happens to a server and its tasks, every client of a server that encrypts is
/// synchronized, so that its task waits for the response to each request, and no other is.
pub proof fn law_clients_of_an_ssl_server_are_synchronized<P, T: Clone, S>(
    addr: SocketAddr,
    ssl: Option<SslContext>,
    steps: Seq<ServerStep<P, T, S>>,
    i: int,
)
    requires
        ServerSystem::<P, T>::start(addr, ssl).can_run(steps),
        0 <= i < ServerSystem::<P, T>::start(addr, ssl).run(steps).clients.len(),
    ensures
        ServerSystem::<P, T>::start(addr, ssl).run(steps).clients[i].notify is Some <==> ssl
            is Some,
{
    lemma_synchronized(addr, ssl, steps);
}

proof fn lemma_synchronized<P, T: Clone, S>(
    addr: SocketAddr,
    ssl: Option<SslContext>,
    steps: Seq<ServerStep<P, T, S>>,
)
    requires
        ServerSystem::<P, T>::start(addr, ssl).can_run(steps),
    ensures
        ({
            let system = ServerSystem::<P, T>::start(addr, ssl).run(steps);
            &&& system.runner.ssl == ssl
            &&& system.runner.phase is Handshaking ==> ssl is Some
            &&& forall|i: int|
                0 <= i < system.clients.len() ==> ((#[trigger] system.clients[i]).notify is Some
                    <==> ssl is Some)
        }),
    decreases steps.len(),
{
    if steps.len() > 0 {
        lemma_synchronized(addr, ssl, steps.drop_last());
    }
}

/// Two servers that are made with the same address or error of the listener, the same configuration
/// and the same outcomes of the calls that build the context are the same, or fail with the same
/// error.
pub proof fn law_the_same_outcomes_make_the_same_server<P, T>(
    bound: Result<SocketAddr, IoError>,
    ssl: Option<SslConfig>,
    ssl_enabled: bool,
    setup: SslSetup,
    a: Result<(Server<P, T>, Option<SslContext>), ServerError>,
    b: Result<(Server<P, T>, Option<SslContext>), ServerError>,
)
    requires
        crate::server::made_with(bound, ssl, ssl_enabled, setup, a),
        crate::server::made_with(bound, ssl, ssl_enabled, setup, b),
    ensures
        match (a, b) {
            (Ok(a), Ok(b)) => a.0@ == b.0@ && a.1 == b.1,
            (Err(a), Err(b)) => a == b,
            _ => false,
        },
{
}

/// What `https` gives is what `new` gives for a configuration with SSL: a server with the context
/// that was built, or the error; never a server without a context.
pub proof fn law_https_gives_what_new_gives<P, T, A>(
    addr: A,
    ssl: SslConfig,
    bound: Result<SocketAddr, IoError>,
    r: Result<(Server<P, T>, Option<SslContext>), ServerError>,
)
    requires
        call_ensures(Server::<P, T>::https::<A>, (addr, ssl, bound), r),
    ensures
        call_ensures(
            Server::<P, T>::new::<A>,
            (ServerConfig { addr, ssl: Some(ssl) }, bound, true),
            r,
        ),
        r is Ok ==> r->Ok_0.1 is Some,
        bound matches Ok(addr) ==> exists|setup: SslSetup| #[trigger]
            setup.of(ssl) && match setup.outcome() {
                Ok(context) => {
                    &&& r is Ok
                    &&& r->Ok_0.0@ == ServerState::<P, T>::listening_on(addr)
                    &&& r->Ok_0.1 == Some(context)
                },
                Err(e) => r is Err && r->Err_0 == ServerError::Ssl(e),
            },
{
    let setup = choose|setup: SslSetup| #[trigger]
        crate::server::made_with(bound, Some(ssl), true, setup, r);
    assert(crate::server::made_with(bound, Some(ssl), true, setup, r));
    assert(bound is Ok ==> setup.of(ssl));
}

/// Whatever happens to a server and its tasks, it gives the address that it was made with.
pub proof fn law_the_address_never_changes<P, T: Clone, S>(
    addr: SocketAddr,
    ssl: Option<SslContext>,
    steps: Seq<ServerStep<P, T, S>>,
)
    requires
        ServerSystem::<P, T>::start(addr, ssl).can_run(steps),
    ensures
        ServerSystem::<P, T>::start(addr, ssl).run(steps).server.addr == addr,
    decreases steps.len(),
{
    if steps.len() > 0 {
        law_the_address_never_changes(addr, ssl, steps.drop_last());
    }
}

/// Whatever happens to a server and its tasks, what was received and what still waits make up what
/// the tasks passed on: no request and no error is lost, none comes twice, and they come in order.
pub proof fn law_messages_come_in_order<P, T: Clone, S>(
    addr: SocketAddr,
    ssl: Option<SslContext>,
    steps: Seq<ServerStep<P, T, S>>,
)
    requires
        ServerSystem::<P, T>::start(addr, ssl).can_run(steps),
    ensures
        ({
            let start = ServerSystem::<P, T>::start(addr, ssl);
            start.received(steps) + start.run(steps).server.messages == start.sent(steps)
        }),
    decreases steps.len(),
{
    let start = ServerSystem::<P, T>::start(addr, ssl);
    if steps.len() > 0 {
        law_messages_come_in_order(addr, ssl, steps.drop_last());
        let before = start.run(steps.drop_last());
        let taken = start.received(steps.drop_last());
        let after = start.run(steps);
        assert(before.received_in(steps.last()) + after.server.messages
            =~= before.server.messages + before.sent_in(steps.last()));
        assert(start.received(steps) + after.server.messages =~= taken + (before.received_in(
            steps.last(),
        ) + after.server.messages));
        assert(start.sent(steps) =~= taken + (before.server.messages + before.sent_in(
            steps.last(),
        )));
    }
}

/// Whatever happens to a server and its tasks, the task that accepts clients is over only if the
/// server was closed, an accept has failed or no session could be made; until then it goes on.
pub proof fn law_accepting_goes_on_until_there_is_a_reason<P, T: Clone, S>(
    addr: SocketAddr,
    ssl: Option<SslContext>,
    steps: Seq<ServerStep<P, T, S>>,
)
    requires
        ServerSystem::<P, T>::start(addr, ssl).can_run(steps),
        forall|k: int|
            0 <= k < steps.len() ==> match #[trigger] steps[k] {
                ServerStep::Runner(RunnerEvent::AcceptFailed(_), _, _, _) => false,
                ServerStep::Runner(_, Err(_), _, _) => false,
                ServerStep::Close => false,
                _ => true,
            },
    ensures
        !(ServerSystem::<P, T>::start(addr, ssl).run(steps).runner.phase is Stopped),
        !ServerSystem::<P, T>::start(addr, ssl).run(steps).server.closed,
    decreases steps.len(),
{
    if steps.len() > 0 {
        let before = steps.drop_last();
        assert forall|k: int| 0 <= k < before.len() implies match #[trigger] before[k] {
            ServerStep::Runner(RunnerEvent::AcceptFailed(_), _, _, _) => false,
            ServerStep::Runner(_, Err(_), _, _) => false,
            ServerStep::Close => false,
            _ => true,
        } by {
            assert(before[k] == steps[k]);
        }
        law_accepting_goes_on_until_there_is_a_reason(addr, ssl, before);
        assert(steps[steps.len() - 1] == steps.last());
    }
}

/// Whatever happens to a server and its tasks, as long as the server is not closed the task of a
/// client that has more requests to send is not over, on a secure connection or not.
pub proof fn law_a_client_is_read_until_it_is_done<P, T: Clone, S>(
    addr: SocketAddr,
    ssl: Option<SslContext>,
    steps: Seq<ServerStep<P, T, S>>,
    i: int,
)
    requires
        ServerSystem::<P, T>::start(addr, ssl).can_run(steps),
        0 <= i < ServerSystem::<P, T>::start(addr, ssl).run(steps).clients.len(),
        !ServerSystem::<P, T>::start(addr, ssl).run(steps).server.closed,
        forall|k: int|
            0 <= k < steps.len() ==> !(#[trigger] steps[k] matches ServerStep::Client(j, event, _)
                && j == i && event is NoMoreRequests),
    ensures
        !(ServerSystem::<P, T>::start(addr, ssl).run(steps).clients[i].phase is Finished),
    decreases steps.len(),
{
    if steps.len() > 0 {
        let before = steps.drop_last();
        let system = ServerSystem::<P, T>::start(addr, ssl).run(before);
        assert forall|k: int| 0 <= k < before.len() implies !(
        #[trigger] before[k] matches ServerStep::Client(j, event, _) && j == i && event
            is NoMoreRequests) by {
            assert(before[k] == steps[k]);
        }
        assert(steps[steps.len() - 1] == steps.last());
        if i < system.clients.len() {
            law_a_client_is_read_until_it_is_done(addr, ssl, before, i);
        }
    }
}

/// Once a server is closed it stays closed, it starts to accept no further client, and no task of
/// a client goes on to read a request.
pub proof fn law_closing_is_final<P, T: Clone, S>(
    system: ServerSystem<P, T>,
    step: ServerStep<P, T, S>,
)
    requires
        system.server.closed,
        system.enabled(step),
    ensures
        system.after(step).server.closed,
        system.after(step).runner.phase is Accepting ==> system.runner.phase is Accepting,
        step matches ServerStep::Client(i, _, _) ==> !(system.after(step).clients[i].phase is Reading),
{
}

/// The events of the task of a client that say that it sent a request.
pub open spec fn requests<P>(events: Seq<ClientEvent<P>>) -> nat
    decreases events.len(),
{
    if events.len() == 0 {
        0
    } else if events.last() is Request {
        requests(events.drop_last()) + 1
    } else {
        requests(events.drop_last())
    }
}

/// The events of the task of a client that say that a request was responded to.
pub open spec fn responses<P>(events: Seq<ClientEvent<P>>) -> nat
    decreases events.len(),
{
    if events.len() == 0 {
        0
    } else if events.last() is Notified {
        responses(events.drop_last()) + 1
    } else {
        responses(events.drop_last())
    }
}

/// Where the task of a client stands after the events; `None` if one of them cannot happen. The
/// server may be closed at any time: `closed` says for each event whether it was.
pub open spec fn client_run<P>(
    task: ClientTask,
    events: Seq<ClientEvent<P>>,
    closed: Seq<bool>,
) -> Option<ClientTask>
    decreases events.len(),
{
    if events.len() == 0 {
        Some(task)
    } else {
        match client_run(task, events.drop_last(), closed) {
            Some(before) if before.expects(events.last()) => Some(
                ClientTask {
                    phase: before.phase_after(closed[events.len() - 1], events.last()),
                    ..before
                },
            ),
            _ => None,
        }
    }
}

/// On a secure connection there is never more than one request that was not responded to: while
/// there is one, the task waits for the response and reads no other. On a plain connection the task
/// never waits for a response.
pub proof fn law_one_secure_request_at_a_time<P>(
    task: ClientTask,
    events: Seq<ClientEvent<P>>,
    closed: Seq<bool>,
)
    requires
        task.phase is Reading,
        client_run(task, events, closed) is Some,
    ensures
        client_run(task, events, closed)->0.notify == task.notify,
        task.notify is Some ==> requests(events) == responses(events) + (if client_run(
            task,
            events,
            closed,
        )->0.phase is AwaitingNotification {
            1int
        } else {
            0
        }),
        task.notify is None ==> !(client_run(task, events, closed)->0.phase is AwaitingNotification),
    decreases events.len(),
{
    if events.len() > 0 {
        law_one_secure_request_at_a_time(task, events.drop_last(), closed);
    }
}

} // verus!
