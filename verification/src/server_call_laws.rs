//! What each call on a server and its tasks is for, in terms of what goes in and what comes out.
use crate::message::{Message, Request};
use crate::poll::Poll;
use crate::refined_tcp_stream::Stream;
use crate::server::{IncomingRequests, Server, ServerConfig, ServerError, ServerState, SocketAddr};
use crate::ssl::{SslConfig, SslSetup};
use crate::tasks::{
    ClientAction, ClientEvent, ClientTask, RunnerAction, RunnerEvent, RunnerTask,
};
use openssl::error::ErrorStack;
use openssl::ssl::{Ssl, SslContext};
use std::io::Error as IoError;
use vstd::prelude::*;

verus! {

/// A server that was just made: it listens on the address, runs, accepts clients, has none, and
/// nothing waits to be received.
pub open spec fn just_made<P, T>(server: ServerState<P, T>, addr: SocketAddr) -> bool {
    &&& server.addr == addr
    &&& !server.closed
    &&& server.accepting
    &&& server.connections == 0
    &&& server.messages.len() == 0
    &&& server.clients.len() == 0
}

/// The two states of a server differ at most in the messages, the clients and their number, and
/// whether clients are accepted.
pub open spec fn same_server<P, T>(before: ServerState<P, T>, after: ServerState<P, T>) -> bool {
    &&& after.addr == before.addr
    &&& after.closed == before.closed
}

/// The clients of a server and their number did not change.
pub open spec fn same_clients<P, T>(before: ServerState<P, T>, after: ServerState<P, T>) -> bool {
    &&& after.clients == before.clients
    &&& after.connections == before.connections
}

/// A server took a client in: it has one client more, at a key that was free, and there it has a
/// handle on the connection; all other clients are where they were. The counter wraps around.
pub open spec fn took_in<P, T: Clone>(
    before: ServerState<P, T>,
    after: ServerState<P, T>,
    key: usize,
    connection: T,
) -> bool {
    &&& key <= before.clients.len()
    &&& key < before.clients.len() ==> before.clients[key as int] is None
    &&& after.clients.len() == (if key < before.clients.len() {
        before.clients.len()
    } else {
        before.clients.len() + 1
    })
    &&& after.clients[key as int] is Some
    &&& cloned(connection, after.clients[key as int]->0)
    &&& forall|k: int|
        0 <= k < before.clients.len() && k != key ==> after.clients[k] == before.clients[k]
    &&& before.connections < usize::MAX ==> after.connections == before.connections + 1
    &&& before.connections == usize::MAX ==> after.connections == 0
}

/// A server let the client with this key go: it has one client less and no handle at the key any
/// more; all other clients are where they were. The counter wraps around.
pub open spec fn let_go<P, T>(
    before: ServerState<P, T>,
    after: ServerState<P, T>,
    key: usize,
) -> bool {
    &&& after.clients.len() == before.clients.len()
    &&& key < before.clients.len() ==> after.clients[key as int] is None
    &&& forall|k: int|
        0 <= k < before.clients.len() && k != key ==> after.clients[k] == before.clients[k]
    &&& before.connections > 0 ==> after.connections == before.connections - 1
    &&& before.connections == 0 ==> after.connections == usize::MAX
}

/// Making a server fails with the error of the listener if and only if there is no listener, and
/// because SSL is not built in if and only if there is a listener, the configuration asks for SSL
/// and SSL is not built in. With a listener and without SSL in the configuration a server is always
/// made, whether SSL is built in or not, and it has no context. A server that is made is on the
/// address of the listener, and has a context if and only if the configuration asks for SSL.
pub proof fn law_a_server_is_made_as_configured<P, T, A>(
    config: ServerConfig<A>,
    bound: Result<SocketAddr, IoError>,
    ssl_enabled: bool,
    r: Result<(Server<P, T>, Option<SslContext>), ServerError>,
)
    requires
        call_ensures(Server::<P, T>::new::<A>, (config, bound, ssl_enabled), r),
    ensures
        bound is Err <==> r is Err && r->Err_0 is Io,
        bound matches Err(e) ==> r is Err && r->Err_0 == ServerError::Io(e),
        bound is Ok && config.ssl is None ==> r is Ok,
        r is Err && r->Err_0 is SslNotEnabled <==> bound is Ok && config.ssl is Some
            && !ssl_enabled,
        r is Ok ==> bound is Ok && just_made(r->Ok_0.0@, bound->Ok_0),
        r is Ok ==> (r->Ok_0.1 is Some <==> config.ssl is Some),
{
    let setup = choose|setup: SslSetup| #[trigger]
        crate::server::made_with(bound, config.ssl, ssl_enabled, setup, r);
    assert(crate::server::made_with(bound, config.ssl, ssl_enabled, setup, r));
}

/// Where SSL is asked for and built in and there is a listener, a server is made if and only if its
/// context was built of its configuration, and with that context; otherwise making it fails with
/// the error of that.
pub proof fn law_a_server_with_ssl_needs_its_context<P, T, A>(
    config: ServerConfig<A>,
    bound: Result<SocketAddr, IoError>,
    r: Result<(Server<P, T>, Option<SslContext>), ServerError>,
)
    requires
        call_ensures(Server::<P, T>::new::<A>, (config, bound, true), r),
        bound is Ok,
        config.ssl is Some,
    ensures
        exists|setup: SslSetup| #[trigger]
            setup.of(config.ssl->0) && match setup.outcome() {
                Ok(context) => r is Ok && r->Ok_0.1 == Some(context),
                Err(e) => r is Err && r->Err_0 == ServerError::Ssl(e),
            },
{
    let setup = choose|setup: SslSetup| #[trigger]
        crate::server::made_with(bound, config.ssl, true, setup, r);
    assert(crate::server::made_with(bound, config.ssl, true, setup, r));
}

/// A plain server is made on every address to which a listener is bound, without a context; it
/// fails only with the error of the listener.
pub proof fn law_a_plain_server_needs_a_listener_alone<P, T, A>(
    addr: A,
    bound: Result<SocketAddr, IoError>,
    r: Result<(Server<P, T>, Option<SslContext>), ServerError>,
)
    requires
        call_ensures(Server::<P, T>::http::<A>, (addr, bound), r),
    ensures
        bound matches Ok(addr) ==> r is Ok && just_made(r->Ok_0.0@, addr) && r->Ok_0.1 is None,
        bound matches Err(e) ==> r is Err && r->Err_0 == ServerError::Io(e),
{
    law_a_server_is_made_as_configured(ServerConfig { addr, ssl: None }, bound, false, r);
}

/// An HTTPS server that is made always has a context. With a listener it fails only with an error
/// of building the context, and never for want of SSL.
pub proof fn law_an_https_server_is_never_plain<P, T, A>(
    addr: A,
    config: SslConfig,
    bound: Result<SocketAddr, IoError>,
    r: Result<(Server<P, T>, Option<SslContext>), ServerError>,
)
    requires
        call_ensures(Server::<P, T>::https::<A>, (addr, config, bound), r),
    ensures
        r is Ok ==> bound is Ok && just_made(r->Ok_0.0@, bound->Ok_0) && r->Ok_0.1 is Some,
        bound matches Err(e) ==> r is Err && r->Err_0 == ServerError::Io(e),
        bound is Ok && r is Err ==> r->Err_0 is Ssl,
        bound is Ok ==> exists|setup: SslSetup| #[trigger]
            setup.of(config) && match setup.outcome() {
                Ok(context) => r is Ok && r->Ok_0.1 == Some(context),
                Err(e) => r is Err && r->Err_0 == ServerError::Ssl(e),
            },
{
    let all = ServerConfig { addr, ssl: Some(config) };
    law_a_server_is_made_as_configured(all, bound, true, r);
    if bound is Ok {
        law_a_server_with_ssl_needs_its_context(all, bound, r);
    }
}

/// Only the error that SSL is not built in has words of its own, and it says so.
pub proof fn law_only_missing_ssl_has_words(error: ServerError, r: Option<&'static str>)
    requires
        call_ensures(ServerError::message, (&error,), r),
    ensures
        error is Io || error is Ssl ==> r is None,
        error is SslNotEnabled ==> r is Some && r->0@
            == "Building a server with SSL requires enabling the `ssl` feature in tiny-http"@,
{
}

/// A server gives its address and the number of its clients as they are.
pub proof fn law_a_server_tells_what_it_is<P, T>(
    server: Server<P, T>,
    addr: SocketAddr,
    connections: usize,
)
    requires
        call_ensures(Server::<P, T>::server_addr, (&server,), addr),
        call_ensures(Server::<P, T>::num_connections, (&server,), connections),
    ensures
        addr == server@.addr,
        connections == server@.connections,
{
}

/// Nothing of a server changes but that its oldest message, if there is one, is gone.
pub open spec fn oldest_taken<P, T>(before: ServerState<P, T>, after: ServerState<P, T>) -> bool {
    &&& same_server(before, after)
    &&& same_clients(before, after)
    &&& after.accepting == before.accepting
    &&& before.messages.len() > 0 ==> before.messages == seq![before.messages[0]] + after.messages
    &&& before.messages.len() == 0 ==> after.messages.len() == 0
}

/// Receiving gives the oldest message, be it a request or an error, whatever else holds of the
/// server, and takes it; without a message there is nothing to give yet.
pub proof fn law_the_oldest_message_is_received<P, T>(
    server: &mut Server<P, T>,
    r: Poll<Result<Request<P>, IoError>>,
)
    requires
        call_ensures(Server::<P, T>::recv, (server,), r),
    ensures
        oldest_taken(old(server)@, final(server)@),
        r is Pending <==> old(server)@.messages.len() == 0,
        r matches Poll::Ready(Ok(rq)) ==> old(server)@.messages[0] == Message::NewRequest(rq),
        r matches Poll::Ready(Err(e)) ==> old(server)@.messages[0] == Message::<P>::Error(e),
{
    assert(old(server)@.messages.len() > 0 ==> old(server)@.messages
        =~= seq![old(server)@.messages[0]] + old(server)@.messages.drop_first());
}

/// Receiving with a timeout gives the oldest message if there is one, even if the time is out, and
/// gives up if and only if there is none and the time is out.
pub proof fn law_a_timeout_never_hides_a_message<P, T>(
    server: &mut Server<P, T>,
    timed_out: bool,
    r: Poll<Result<Option<Request<P>>, IoError>>,
)
    requires
        call_ensures(Server::<P, T>::recv_timeout, (server, timed_out), r),
    ensures
        oldest_taken(old(server)@, final(server)@),
        r is Pending <==> old(server)@.messages.len() == 0 && !timed_out,
        r matches Poll::Ready(Ok(None)) ==> old(server)@.messages.len() == 0 && timed_out,
        r matches Poll::Ready(Ok(Some(rq))) ==> old(server)@.messages.len() > 0
            && old(server)@.messages[0] == Message::NewRequest(rq),
        r matches Poll::Ready(Err(e)) ==> old(server)@.messages.len() > 0
            && old(server)@.messages[0] == Message::<P>::Error(e),
{
    assert(old(server)@.messages.len() > 0 ==> old(server)@.messages
        =~= seq![old(server)@.messages[0]] + old(server)@.messages.drop_first());
}

/// Receiving without waiting gives the oldest message if there is one, and nothing if and only if
/// there is none.
pub proof fn law_trying_to_receive_misses_no_message<P, T>(
    server: &mut Server<P, T>,
    r: Result<Option<Request<P>>, IoError>,
)
    requires
        call_ensures(Server::<P, T>::try_recv, (server,), r),
    ensures
        oldest_taken(old(server)@, final(server)@),
        r matches Ok(None) ==> old(server)@.messages.len() == 0,
        r matches Ok(Some(rq)) ==> old(server)@.messages.len() > 0 && old(server)@.messages[0]
            == Message::NewRequest(rq),
        r matches Err(e) ==> old(server)@.messages.len() > 0 && old(server)@.messages[0]
            == Message::<P>::Error(e),
{
    assert(old(server)@.messages.len() > 0 ==> old(server)@.messages
        =~= seq![old(server)@.messages[0]] + old(server)@.messages.drop_first());
}

/// Whenever the oldest message is a request, the iterator gives exactly that request, whatever else
/// holds of the server. It gives `None` only if the oldest message is an error, or if there is no
/// message and none can come any more: nobody is accepted and nobody is connected. It waits if and
/// only if there is no message and one can still come.
pub proof fn law_the_iterator_gives_every_request<'a, P, T>(
    incoming: &mut IncomingRequests<'a, P, T>,
    r: Poll<Option<Request<P>>>,
)
    requires
        call_ensures(IncomingRequests::<'a, P, T>::next, (incoming,), r),
    ensures
        ({
            let before = old(incoming).server@;
            let some = before.messages.len() > 0;
            &&& oldest_taken(before, final(incoming).server@)
            &&& *final(final(incoming).server) == *final(old(incoming).server)
            &&& some && before.messages[0] is NewRequest ==> r == Poll::Ready(
                Some(before.messages[0]->NewRequest_0),
            )
            &&& some && before.messages[0] is Error ==> r == Poll::Ready(None::<Request<P>>)
            &&& !some && !before.accepting && before.connections == 0 ==> r == Poll::Ready(
                None::<Request<P>>,
            )
            &&& !some && (before.accepting || before.connections > 0) ==> r is Pending
        }),
{
    let messages = old(incoming).server@.messages;
    assert(messages.len() > 0 ==> messages =~= seq![messages[0]] + messages.drop_first());
}

/// The iterator gives what receiving would have given on the same server: the same request, or
/// `None` in place of an error; and it leaves the server in the same state.
pub proof fn law_the_iterator_receives<'a, P, T>(
    incoming: &mut IncomingRequests<'a, P, T>,
    given: Poll<Option<Request<P>>>,
    server: &mut Server<P, T>,
    received: Poll<Result<Request<P>, IoError>>,
)
    requires
        old(incoming).server@ == old(server)@,
        call_ensures(IncomingRequests::<'a, P, T>::next, (incoming,), given),
        call_ensures(Server::<P, T>::recv, (server,), received),
    ensures
        received matches Poll::Ready(Ok(rq)) ==> given == Poll::Ready(Some(rq)),
        received matches Poll::Ready(Err(_)) ==> given == Poll::Ready(None::<Request<P>>),
        given matches Poll::Ready(Some(rq)) ==> received == Poll::Ready(
            Ok::<Request<P>, IoError>(rq),
        ),
        final(incoming).server@ == final(server)@,
{
}

/// A task that accepts clients starts idle, with the context that it is given.
pub proof fn law_accepting_starts_idle(ssl: Option<SslContext>, task: RunnerTask)
    requires
        call_ensures(RunnerTask::new, (ssl,), task),
    ensures
        task.phase is Idle,
        task.ssl == ssl,
{
}

/// On a server that is not closed the next client is accepted whenever the task goes on, also after
/// a client has failed to set up the encryption, whoever is connected and whether the server
/// encrypts or not; on a closed server the task is over. Going on changes nothing of the clients,
/// but that the one that has failed is let go, and nothing of the messages.
pub proof fn law_a_running_server_accepts_the_next_client<P, T: Clone, S>(
    server: &mut Server<P, T>,
    task: &mut RunnerTask,
    event: RunnerEvent<T, S>,
    action: RunnerAction<T, S>,
)
    requires
        call_ensures(Server::<P, T>::runner_task::<S>, (server, task, event), action),
        event is Resume || event is HandshakeFailed,
    ensures
        !old(server)@.closed ==> {
            &&& action is Accept
            &&& final(task).phase is Accepting
            &&& final(server)@.accepting == old(server)@.accepting
        },
        old(server)@.closed ==> {
            &&& action is Stop
            &&& final(task).phase is Stopped
            &&& !final(server)@.accepting
        },
        event is Resume ==> same_clients(old(server)@, final(server)@),
        event is HandshakeFailed && old(task).phase is Handshaking ==> let_go(
            old(server)@,
            final(server)@,
            old(task).phase->Handshaking_0,
        ),
        final(server)@.messages == old(server)@.messages,
        same_server(old(server)@, final(server)@),
        final(task).ssl == old(task).ssl,
{
}

/// The task that accepts clients is over only if the server is closed, an accept has failed or no
/// session could be made for a client that needs one.
pub proof fn law_accepting_ends_for_a_reason<P, T: Clone, S>(
    server: &mut Server<P, T>,
    task: &mut RunnerTask,
    event: RunnerEvent<T, S>,
    action: RunnerAction<T, S>,
)
    requires
        call_ensures(Server::<P, T>::runner_task::<S>, (server, task, event), action),
        action is Stop || action is Fail || final(task).phase is Stopped || (
        old(server)@.accepting && !final(server)@.accepting),
    ensures
        ({
            ||| old(server)@.closed && (event is Resume || event is HandshakeFailed)
            ||| event is AcceptFailed
            ||| event is Accepted && old(task).ssl is Some && action is Fail
                && crate::ssl::new_session_gave(old(task).ssl->0, Err(action->Fail_0))
        }),
{
}

/// A client that connects to a server that does not encrypt is served at once, whoever else is
/// connected: the server takes it in, and its new task reads from one half of its connection and
/// answers on the other. The task goes on, and no message comes of that.
pub proof fn law_a_plain_client_is_served_at_once<P, T: Clone, S>(
    server: &mut Server<P, T>,
    task: &mut RunnerTask,
    sock: T,
    action: RunnerAction<T, S>,
)
    requires
        call_ensures(
            Server::<P, T>::runner_task::<S>,
            (server, task, RunnerEvent::Accepted(sock)),
            action,
        ),
        old(task).ssl is None,
    ensures
        action is Serve,
        took_in(old(server)@, final(server)@, action->client.key, sock),
        action->client.phase is Reading,
        action->client.notify is None,
        action->write.stream == Stream::<T, S>::Http(sock),
        action->read.stream matches Stream::Http(handle) && cloned(sock, handle),
        action->read.ssl_fut is Waiting && action->write.ssl_fut is Waiting,
        action->read.close_read && !action->read.close_write,
        !action->write.close_read && action->write.close_write,
        final(task).phase is Idle,
        final(task).ssl is None,
        final(server)@.messages == old(server)@.messages,
        final(server)@.accepting == old(server)@.accepting,
        same_server(old(server)@, final(server)@),
{
    crate::server::lemma_keys_fit(*old(server));
    crate::server_laws::lemma_free(old(server)@.clients, 0);
}

/// A client that connects to a server that encrypts gets a session within the context of the
/// server. With the session the server takes the client in and sets up the encryption with it on
/// its connection; without one the task is over and says why, and nothing else changes.
pub proof fn law_an_encrypted_client_gets_a_session<P, T: Clone, S>(
    server: &mut Server<P, T>,
    task: &mut RunnerTask,
    sock: T,
    action: RunnerAction<T, S>,
)
    requires
        call_ensures(
            Server::<P, T>::runner_task::<S>,
            (server, task, RunnerEvent::Accepted(sock)),
            action,
        ),
        old(task).ssl is Some,
    ensures
        exists|session: Result<Ssl, ErrorStack>| #[trigger]
            crate::ssl::new_session_gave(old(task).ssl->0, session) && match session {
                Ok(session) => {
                    &&& action == (RunnerAction::<T, S>::Handshake { session, sock })
                    &&& final(task).phase is Handshaking
                    &&& took_in(
                        old(server)@,
                        final(server)@,
                        final(task).phase->Handshaking_0,
                        sock,
                    )
                    &&& final(server)@.accepting == old(server)@.accepting
                },
                Err(e) => {
                    &&& action == RunnerAction::<T, S>::Fail(e)
                    &&& final(task).phase is Stopped
                    &&& same_clients(old(server)@, final(server)@)
                    &&& !final(server)@.accepting
                },
            },
        final(task).ssl == old(task).ssl,
        final(server)@.messages == old(server)@.messages,
        same_server(old(server)@, final(server)@),
{
    crate::server::lemma_keys_fit(*old(server));
    crate::server_laws::lemma_free(old(server)@.clients, 0);
}

/// The same of a session that was made elsewhere, or could not be.
pub proof fn law_a_handshake_needs_a_session<P, T: Clone, S>(
    server: &mut Server<P, T>,
    task: &mut RunnerTask,
    sock: T,
    session: Result<Ssl, ErrorStack>,
    action: RunnerAction<T, S>,
)
    requires
        call_ensures(
            Server::<P, T>::begin_handshake::<S>,
            (server, task, sock, session),
            action,
        ),
    ensures
        session matches Ok(session) ==> {
            &&& action == (RunnerAction::<T, S>::Handshake { session, sock })
            &&& final(task).phase is Handshaking
            &&& took_in(old(server)@, final(server)@, final(task).phase->Handshaking_0, sock)
            &&& final(server)@.accepting == old(server)@.accepting
        },
        session matches Err(e) ==> {
            &&& action == RunnerAction::<T, S>::Fail(e)
            &&& final(task).phase is Stopped
            &&& same_clients(old(server)@, final(server)@)
            &&& !final(server)@.accepting
        },
        final(task).ssl == old(task).ssl,
        final(server)@.messages == old(server)@.messages,
        same_server(old(server)@, final(server)@),
{
    crate::server::lemma_keys_fit(*old(server));
    crate::server_laws::lemma_free(old(server)@.clients, 0);
}

/// A client that has set up the encryption is served over two halves of the encrypted connection,
/// which share it behind one new lock; its new task has the key that the client has had since it
/// connected, and is told of every response over a channel without a limit. Nothing changes of the
/// server, and the task goes on.
pub proof fn law_an_encrypted_client_is_served_and_synchronized<P, T: Clone, S>(
    server: &mut Server<P, T>,
    task: &mut RunnerTask,
    ssl: S,
    action: RunnerAction<T, S>,
)
    requires
        call_ensures(
            Server::<P, T>::runner_task::<S>,
            (server, task, RunnerEvent::HandshakeDone(ssl)),
            action,
        ),
        old(task).phase is Handshaking,
    ensures
        action is Serve,
        action->client.key == old(task).phase->Handshaking_0,
        action->client.phase is Reading,
        action->client.notify matches Some((sender, receiver)) && call_ensures(
            async_channel::unbounded::<()>,
            (),
            (sender, receiver),
        ),
        action->read.stream == action->write.stream,
        action->write.stream matches Stream::Https(mutex) && call_ensures(
            async_lock::Mutex::<S>::new,
            (ssl,),
            *mutex,
        ),
        action->read.ssl_fut is Waiting && action->write.ssl_fut is Waiting,
        action->read.close_read && !action->read.close_write,
        !action->write.close_read && action->write.close_write,
        final(task).phase is Idle,
        final(task).ssl == old(task).ssl,
        same_clients(old(server)@, final(server)@),
        final(server)@.messages == old(server)@.messages,
        final(server)@.accepting == old(server)@.accepting,
        same_server(old(server)@, final(server)@),
{
}

/// That no client could be accepted is reported, with that very error and behind all that waits to
/// be received, and ends the task; nobody is connected or let go by that.
pub proof fn law_a_failed_accept_is_reported<P, T: Clone, S>(
    server: &mut Server<P, T>,
    task: &mut RunnerTask,
    e: IoError,
    action: RunnerAction<T, S>,
)
    requires
        call_ensures(
            Server::<P, T>::runner_task::<S>,
            (server, task, RunnerEvent::AcceptFailed(e)),
            action,
        ),
    ensures
        action is Stop,
        final(task).phase is Stopped,
        final(task).ssl == old(task).ssl,
        final(server)@.messages == old(server)@.messages + seq![Message::<P>::Error(e)],
        !final(server)@.accepting,
        same_clients(old(server)@, final(server)@),
        same_server(old(server)@, final(server)@),
{
    assert(old(server)@.messages.push(Message::Error(e)) =~= old(server)@.messages
        + seq![Message::<P>::Error(e)]);
}

/// A new task for a client reads. It is told of every response, over a channel without a limit, if
/// and only if the connection is secure.
pub proof fn law_a_client_starts_reading(secure: bool, key: usize, task: ClientTask)
    requires
        call_ensures(ClientTask::new, (secure, key), task),
    ensures
        task.phase is Reading,
        task.key == key,
        secure ==> task.notify is Some,
        !secure ==> task.notify is None,
        task.notify matches Some((sender, receiver)) ==> call_ensures(
            async_channel::unbounded::<()>,
            (),
            (sender, receiver),
        ),
{
}

/// On a server that is not closed, the task of a client, on a secure connection or not, goes on to
/// read the next request whenever it may: at its start, and after a response. Nothing changes of
/// the server by that. On a closed server it is over, and the client is let go.
pub proof fn law_a_running_server_reads_the_next_request<P, T>(
    server: &mut Server<P, T>,
    task: &mut ClientTask,
    event: ClientEvent<P>,
    action: ClientAction,
)
    requires
        call_ensures(Server::<P, T>::run_client, (server, task, event), action),
        event is Resume || event is Notified,
    ensures
        !old(server)@.closed ==> {
            &&& action is ReadRequest
            &&& final(task).phase is Reading
            &&& same_clients(old(server)@, final(server)@)
        },
        old(server)@.closed ==> {
            &&& action is Stop
            &&& final(task).phase is Finished
            &&& let_go(old(server)@, final(server)@, old(task).key)
        },
        final(server)@.messages == old(server)@.messages,
        final(server)@.accepting == old(server)@.accepting,
        same_server(old(server)@, final(server)@),
        final(task).notify == old(task).notify,
        final(task).key == old(task).key,
{
}

/// Every request of a client is passed on as it was sent, behind all that waits to be received,
/// whether the server is closed or not. On a secure connection it comes with a handle on where the
/// task is told of the response, for which the task then waits; on another it comes without, and
/// the task reads the next request at once, unless the server is closed.
pub proof fn law_every_request_is_passed_on<P, T>(
    server: &mut Server<P, T>,
    task: &mut ClientTask,
    payload: P,
    action: ClientAction,
)
    requires
        call_ensures(
            Server::<P, T>::run_client,
            (server, task, ClientEvent::Request(payload)),
            action,
        ),
    ensures
        ({
            let before = old(server)@;
            let after = final(server)@;
            let message = after.messages.last();
            &&& after.messages == before.messages + seq![message]
            &&& message is NewRequest && message->NewRequest_0.payload == payload
            &&& old(task).notify matches Some((sender, _)) ==> {
                &&& message->NewRequest_0.notify_sender matches Some(told) && cloned(sender, told)
                &&& action is AwaitNotification
                &&& final(task).phase is AwaitingNotification
                &&& same_clients(before, after)
            }
            &&& old(task).notify is None ==> message->NewRequest_0.notify_sender is None
            &&& old(task).notify is None && !before.closed ==> {
                &&& action is ReadRequest
                &&& final(task).phase is Reading
                &&& same_clients(before, after)
            }
            &&& old(task).notify is None && before.closed ==> {
                &&& action is Stop
                &&& final(task).phase is Finished
                &&& let_go(before, after, old(task).key)
            }
            &&& after.accepting == before.accepting
            &&& same_server(before, after)
        }),
        final(task).notify == old(task).notify,
        final(task).key == old(task).key,
{
    let before = old(server)@;
    let after = final(server)@;
    assert(before.messages.push(after.messages.last()) =~= before.messages
        + seq![after.messages.last()]);
}

/// The task of a client that sends no more requests is over, and the client is let go; what it has
/// sent stays to be received.
pub proof fn law_a_client_that_is_done_is_let_go<P, T>(
    server: &mut Server<P, T>,
    task: &mut ClientTask,
    action: ClientAction,
)
    requires
        call_ensures(
            Server::<P, T>::run_client,
            (server, task, ClientEvent::<P>::NoMoreRequests),
            action,
        ),
    ensures
        action is Stop,
        final(task).phase is Finished,
        let_go(old(server)@, final(server)@, old(task).key),
        final(server)@.messages == old(server)@.messages,
        final(server)@.accepting == old(server)@.accepting,
        same_server(old(server)@, final(server)@),
        final(task).notify == old(task).notify,
        final(task).key == old(task).key,
{
}

/// On a server that is not closed the task of a client is over only if the client sends no more
/// requests.
pub proof fn law_a_client_ends_for_a_reason<P, T>(
    server: &mut Server<P, T>,
    task: &mut ClientTask,
    event: ClientEvent<P>,
    action: ClientAction,
)
    requires
        call_ensures(Server::<P, T>::run_client, (server, task, event), action),
        action is Stop || final(task).phase is Finished || final(server)@.connections
            != old(server)@.connections,
    ensures
        event is NoMoreRequests || old(server)@.closed,
{
}

/// Closing a server gives its address, and a handle on every connection that it has, in order and
/// on no other; but that it is closed, nothing of it changes: no message is lost and no client let
/// go.
pub proof fn law_closing_hands_out_every_connection<P, T: Clone>(
    server: &mut Server<P, T>,
    r: (SocketAddr, Vec<T>),
)
    requires
        call_ensures(Server::<P, T>::drop, (server,), r),
    ensures
        r.0 == old(server)@.addr,
        ({
            let there = old(server)@.clients.filter(|client: Option<T>| client is Some);
            &&& r.1@.len() == there.len()
            &&& forall|i: int|
                0 <= i < there.len() ==> there[i] is Some && cloned(
                    there[i]->0,
                    #[trigger] r.1@[i],
                )
        }),
        final(server)@.closed,
        final(server)@.addr == old(server)@.addr,
        final(server)@.messages == old(server)@.messages,
        final(server)@.accepting == old(server)@.accepting,
        same_clients(old(server)@, final(server)@),
{
    lemma_connections_are_filtered(old(server)@.clients);
}

proof fn lemma_connections_are_filtered<T>(clients: Seq<Option<T>>)
    ensures
        ({
            let there = clients.filter(|client: Option<T>| client is Some);
            &&& there.len() == crate::server::connections_of(clients).len()
            &&& forall|i: int|
                0 <= i < there.len() ==> there[i] is Some && there[i]->0
                    == #[trigger] crate::server::connections_of(clients)[i]
        }),
    decreases clients.len(),
{
    reveal(Seq::filter);
    if clients.len() > 0 {
        lemma_connections_are_filtered(clients.drop_last());
    }
}

/// The iterator over the incoming requests is one over the server itself: what it takes is taken
/// from the server.
pub proof fn law_the_iterator_is_over_the_server<'a, P, T>(
    server: &'a mut Server<P, T>,
    r: IncomingRequests<'a, P, T>,
)
    requires
        call_ensures(Server::<P, T>::incoming_requests, (server,), r),
    ensures
        old(r.server)@ == old(server)@,
        final(r.server)@ == final(server)@,
{
}

} // verus!
