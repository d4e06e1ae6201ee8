//! The two halves of one connection.
use crate::poll::Poll;
use async_lock::futures::LockArc;
use async_lock::{Mutex, MutexGuardArc};
use std::io::Error as IoError;
use std::sync::Arc;
use vstd::prelude::*;

verus! {

/// A connection: plain, or encrypted and shared behind a lock. `T` is a handle on a TCP
/// connection, `S` an SSL stream over one.
#[verifier::reject_recursive_types(S)]
pub enum Stream<T, S> {
    Http(T),
    Https(Arc<Mutex<S>>),
}

/// How far an operation on an encrypted connection has come.
#[verifier::reject_recursive_types(S)]
pub enum RefinedTcpStreamReader<S> {
    /// It has the lock and is under way.
    WorkingSsl(MutexGuardArc<S>),
    /// It waits for the lock.
    LockingSsl(LockArc<S>),
    /// There is none.
    Waiting,
}

/// One half of a connection.
#[verifier::reject_recursive_types(S)]
pub struct RefinedTcpStream<T, S> {
    pub stream: Stream<T, S>,
    pub ssl_fut: RefinedTcpStreamReader<S>,
    /// Whether dropping this half closes the reading direction of the connection.
    pub close_read: bool,
    /// Whether dropping this half closes the writing direction of the connection.
    pub close_write: bool,
}

/// A direction of a connection.
#[derive(Clone, Copy, PartialEq, Eq, Debug, Structural)]
pub enum Shutdown {
    Read,
    Write,
}

/// The outside poll that an operation on a half makes.
pub enum StreamAction {
    /// Poll the plain connection.
    OperateHttp,
    /// Wait for the lock.
    AwaitLock,
    /// Poll the locked SSL stream.
    OperateSsl,
}

/// What came of the one outside poll that an operation on a half makes.
#[verifier::reject_recursive_types(S)]
pub enum StreamEvent<S, X> {
    /// It was not ready.
    Pending,
    /// The lock was acquired.
    Locked(MutexGuardArc<S>),
    /// The connection was ready with this result.
    Done(Result<X, IoError>),
}

impl<T, S> vstd::std_specs::convert::FromSpecImpl<T> for Stream<T, S> {
    open spec fn obeys_from_spec() -> bool {
        true
    }

    open spec fn from_spec(stream: T) -> Stream<T, S> {
        Stream::Http(stream)
    }
}

impl<T, S> From<T> for Stream<T, S> {
    fn from(stream: T) -> (r: Stream<T, S>) {
        Stream::Http(stream)
    }
}

impl<T, S> Stream<T, S> {
    /// An encrypted connection behind a new lock.
    pub fn from_ssl(stream: S) -> (r: Stream<T, S>)
        ensures
            r is Https,
            crate::outside::guards(*r->Https_0, stream),
    {
        Stream::Https(Arc::new(Mutex::new(stream)))
    }

    /// `other` is a second handle on this connection.
    pub open spec fn same_connection(self, other: Stream<T, S>) -> bool where T: Clone {
        match (self, other) {
            (Stream::Http(a), Stream::Http(b)) => cloned(a, b),
            (Stream::Https(a), Stream::Https(b)) => a == b,
            _ => false,
        }
    }

    /// `read` and `write` are the two halves of this connection, both idle.
    pub open spec fn splits_into(
        self,
        read: RefinedTcpStream<T, S>,
        write: RefinedTcpStream<T, S>,
    ) -> bool where T: Clone {
        &&& self.same_connection(read.stream)
        &&& write.stream == self
        &&& read.ssl_fut is Waiting && write.ssl_fut is Waiting
        &&& read.close_read && !read.close_write
        &&& !write.close_read && write.close_write
    }
}

impl<T: Clone, S> RefinedTcpStream<T, S> {
    /// The two halves of `stream`: the first for reading, the second for writing. Dropping either
    /// closes its own direction.
    pub fn new(stream: Stream<T, S>) -> (r: (RefinedTcpStream<T, S>, RefinedTcpStream<T, S>))
        ensures
            stream.splits_into(r.0, r.1),
    {
        let read = match &stream {
            Stream::Http(stream) => Stream::Http(stream.clone()),
            Stream::Https(stream) => Stream::Https(stream.clone()),
        };
        let read = RefinedTcpStream {
            stream: read,
            ssl_fut: RefinedTcpStreamReader::Waiting,
            close_read: true,
            close_write: false,
        };
        let write = RefinedTcpStream {
            stream,
            ssl_fut: RefinedTcpStreamReader::Waiting,
            close_read: false,
            close_write: true,
        };
        (read, write)
    }
}

impl<T, S> RefinedTcpStream<T, S> {
    /// Returns true if this struct wraps around a secure connection.
    pub fn secure(&self) -> (r: bool)
        ensures
            r == (self.stream is Https),
    {
        match &self.stream {
            Stream::Http(_) => false,
            Stream::Https(_) => true,
        }
    }

    /// The directions that dropping this half closes, in this order.
    pub open spec fn closes(self) -> Seq<Shutdown> {
        (if self.close_read {
            seq![Shutdown::Read]
        } else {
            seq![]
        }) + (if self.close_write {
            seq![Shutdown::Write]
        } else {
            seq![]
        })
    }

    /// The half once it is dropped: an operation that was under way is given up, and with it the
    /// lock that it had or waited for.
    pub open spec fn dropped(self) -> RefinedTcpStream<T, S> {
        RefinedTcpStream { ssl_fut: RefinedTcpStreamReader::Waiting, ..self }
    }

    /// Gives up what was under way and says which directions of the connection to close when this
    /// half is dropped, and in which order. To close one is an operation like any other: on an
    /// encrypted connection it takes the lock.
    pub fn drop(&mut self) -> (r: Vec<Shutdown>)
        ensures
            r@ == old(self).closes(),
            *final(self) == old(self).dropped(),
    {
        self.ssl_fut = RefinedTcpStreamReader::Waiting;
        let mut directions: Vec<Shutdown> = Vec::new();
        if self.close_read {
            directions.push(Shutdown::Read);
        }
        if self.close_write {
            directions.push(Shutdown::Write);
        }
        directions
    }

    /// The half is one of an encrypted connection, and no operation on it is under way that would
    /// keep the lock or wait for it. A plain half has no lock and is never idle in this sense.
    pub open spec fn idle(self) -> bool {
        self.stream is Https && self.ssl_fut is Waiting
    }

    /// The half once an operation has started: on an encrypted connection it at least waits for
    /// the lock; `lock` is what does so, where the operation has only just asked for it.
    pub open spec fn started(self, lock: LockArc<S>) -> RefinedTcpStream<T, S> {
        if self.idle() {
            RefinedTcpStream { ssl_fut: RefinedTcpStreamReader::LockingSsl(lock), ..self }
        } else {
            self
        }
    }

    /// The outside poll that an operation that has started makes.
    pub open spec fn action(self) -> StreamAction {
        match (self.stream, self.ssl_fut) {
            (Stream::Http(_), _) => StreamAction::OperateHttp,
            (Stream::Https(_), RefinedTcpStreamReader::WorkingSsl(_)) => StreamAction::OperateSsl,
            (Stream::Https(_), _) => StreamAction::AwaitLock,
        }
    }

    /// Starts a poll of an operation: says which outside poll to make.
    pub fn start_operation_ssl(&mut self) -> (action: StreamAction)
        ensures
            *final(self) == old(self).started(final(self).ssl_fut->LockingSsl_0),
            old(self).idle() ==> crate::outside::waits_for(
                final(self).ssl_fut->LockingSsl_0,
                old(self).stream->Https_0,
            ),
            action == final(self).action(),
    {
        match &self.stream {
            Stream::Http(_) => StreamAction::OperateHttp,
            Stream::Https(stream) => match &self.ssl_fut {
                RefinedTcpStreamReader::WorkingSsl(_) => StreamAction::OperateSsl,
                RefinedTcpStreamReader::LockingSsl(_) => StreamAction::AwaitLock,
                RefinedTcpStreamReader::Waiting => {
                    self.ssl_fut = RefinedTcpStreamReader::LockingSsl(Mutex::lock_arc(stream));
                    StreamAction::AwaitLock
                },
            },
        }
    }

    /// Whether `event` can come of the outside poll of an operation that has started.
    pub open spec fn answered_by<X>(self, event: StreamEvent<S, X>) -> bool {
        &&& !self.idle()
        &&& match event {
            StreamEvent::Pending => true,
            StreamEvent::Locked(_) => self.action() is AwaitLock,
            StreamEvent::Done(_) => self.action() !is AwaitLock,
        }
    }

    /// How far the operation has come after `event`. Only an encrypted connection keeps track: the
    /// lock is held from when it is acquired until the operation is over.
    pub open spec fn ssl_after<X>(self, event: StreamEvent<S, X>) -> RefinedTcpStreamReader<S> {
        match (self.stream, event) {
            (Stream::Http(_), _) => self.ssl_fut,
            (Stream::Https(_), StreamEvent::Pending) => self.ssl_fut,
            (Stream::Https(_), StreamEvent::Locked(guard)) => RefinedTcpStreamReader::WorkingSsl(
                guard,
            ),
            (Stream::Https(_), StreamEvent::Done(_)) => RefinedTcpStreamReader::Waiting,
        }
    }

    /// Ends a poll of an operation. `event` is what came of the outside poll that
    /// `start_operation_ssl` asked for.
    pub fn do_operation_ssl<X>(&mut self, event: StreamEvent<S, X>) -> (r: Poll<Result<X, IoError>>)
        requires
            old(self).answered_by(event),
        ensures
            final(self).ssl_fut == old(self).ssl_after(event),
            final(self).stream == old(self).stream,
            final(self).close_read == old(self).close_read,
            final(self).close_write == old(self).close_write,
            r == (match event {
                StreamEvent::Done(result) => Poll::Ready(result),
                _ => Poll::Pending,
            }),
    {
        match event {
            StreamEvent::Pending => Poll::Pending,
            StreamEvent::Locked(guard) => {
                self.ssl_fut = RefinedTcpStreamReader::WorkingSsl(guard);
                Poll::Pending
            },
            StreamEvent::Done(result) => {
                if let Stream::Https(_) = &self.stream {
                    self.ssl_fut = RefinedTcpStreamReader::Waiting;
                }
                Poll::Ready(result)
            },
        }
    }
}

/// The two halves of a connection close each direction once when both are dropped: the first half
/// the reading direction, the second the writing direction.
pub proof fn law_halves_close_each_direction_once<T: Clone, S>(
    stream: Stream<T, S>,
    read: RefinedTcpStream<T, S>,
    write: RefinedTcpStream<T, S>,
)
    requires
        stream.splits_into(read, write),
    ensures
        read.closes() == seq![Shutdown::Read],
        write.closes() == seq![Shutdown::Write],
{
}

/// One poll of an operation on one of the two halves, from its start to its end, with what came of
/// the outside poll and what waits for the lock, where the poll asked for it.
#[verifier::reject_recursive_types(S)]
pub enum HalfCall<S, X> {
    Read(StreamEvent<S, X>, LockArc<S>),
    Write(StreamEvent<S, X>, LockArc<S>),
}

impl<T, S> RefinedTcpStream<T, S> {
    /// The half has the lock on the encrypted connection.
    pub open spec fn has_lock(self) -> bool {
        self.stream is Https && self.ssl_fut is WorkingSsl
    }

    /// The half after a poll of which `event` came.
    pub open spec fn polled<X>(
        self,
        event: StreamEvent<S, X>,
        lock: LockArc<S>,
    ) -> RefinedTcpStream<T, S> {
        RefinedTcpStream { ssl_fut: self.started(lock).ssl_after(event), ..self.started(lock) }
    }
}

/// Whether the two halves can be polled like this. The lock is free when it is acquired.
pub open spec fn can_poll<T, S, X>(
    read: RefinedTcpStream<T, S>,
    write: RefinedTcpStream<T, S>,
    call: HalfCall<S, X>,
) -> bool {
    match call {
        HalfCall::Read(event, lock) => read.started(lock).answered_by(event) && (event is Locked
            ==> !write.has_lock()),
        HalfCall::Write(event, lock) => write.started(lock).answered_by(event) && (event is Locked
            ==> !read.has_lock()),
    }
}

/// The two halves after the calls; `None` if one of the calls cannot be made.
pub open spec fn polled_all<T, S, X>(
    read: RefinedTcpStream<T, S>,
    write: RefinedTcpStream<T, S>,
    calls: Seq<HalfCall<S, X>>,
) -> Option<(RefinedTcpStream<T, S>, RefinedTcpStream<T, S>)>
    decreases calls.len(),
{
    if calls.len() == 0 {
        Some((read, write))
    } else {
        match polled_all(read, write, calls.drop_last()) {
            Some((r, w)) if can_poll(r, w, calls.last()) => match calls.last() {
                HalfCall::Read(event, lock) => Some((r.polled(event, lock), w)),
                HalfCall::Write(event, lock) => Some((r, w.polled(event, lock))),
            },
            _ => None,
        }
    }
}

/// Whatever the two halves of a connection are polled for, they never have the lock on the
/// encrypted connection at once, a plain connection is never locked, and neither half changes what
/// it is a half of nor which direction it closes.
pub proof fn law_halves_exclude_each_other<T: Clone, S, X>(
    stream: Stream<T, S>,
    read: RefinedTcpStream<T, S>,
    write: RefinedTcpStream<T, S>,
    calls: Seq<HalfCall<S, X>>,
)
    requires
        stream.splits_into(read, write),
        polled_all(read, write, calls) is Some,
    ensures
        ({
            let (r, w) = polled_all(read, write, calls)->0;
            &&& !(r.has_lock() && w.has_lock())
            &&& stream is Http ==> r.ssl_fut is Waiting && w.ssl_fut is Waiting
            &&& r.stream == read.stream && w.stream == write.stream
            &&& r.closes() == read.closes() && w.closes() == write.closes()
        }),
    decreases calls.len(),
{
    if calls.len() > 0 {
        law_halves_exclude_each_other(stream, read, write, calls.drop_last());
    }
}

/// An operation on an encrypted connection takes the lock first, works under it, and gives it back
/// with its result; a plain connection is worked on at once.
pub proof fn law_an_operation_completes<T, S, X>(
    half: RefinedTcpStream<T, S>,
    lock: LockArc<S>,
    guard: MutexGuardArc<S>,
    result: Result<X, IoError>,
)
    requires
        half.ssl_fut is Waiting,
    ensures
        half.stream is Http ==> {
            &&& half.started(lock) == half
            &&& half.action() is OperateHttp
            &&& half.ssl_after(StreamEvent::<S, X>::Done(result)) is Waiting
        },
        half.stream is Https ==> {
            let locking = half.started(lock);
            let working = RefinedTcpStream {
                ssl_fut: locking.ssl_after(StreamEvent::<S, X>::Locked(guard)),
                ..locking
            };
            &&& locking.action() is AwaitLock
            &&& working.started(lock) == working
            &&& working.ssl_fut == RefinedTcpStreamReader::WorkingSsl(guard)
            &&& working.action() is OperateSsl
            &&& working.ssl_after(StreamEvent::<S, X>::Done(result)) is Waiting
        },
{
}

/// A half that is dropped has no lock, so that it never waits for its own; it stays a half of the
/// same connection. To close a direction of an encrypted connection it waits for the lock and
/// closes under it, and then it has no lock again; of a plain connection it closes a direction at
/// once.
pub proof fn law_a_dropped_half_closes_under_the_lock<T, S, X>(
    half: RefinedTcpStream<T, S>,
    lock: LockArc<S>,
    guard: MutexGuardArc<S>,
    result: Result<X, IoError>,
)
    ensures
        ({
            let dropped = half.dropped();
            let locking = dropped.started(lock);
            let working = dropped.polled(StreamEvent::<S, X>::Locked(guard), lock);
            &&& !dropped.has_lock()
            &&& dropped.stream == half.stream && dropped.closes() == half.closes()
            &&& half.stream is Http ==> locking.action() is OperateHttp
            &&& half.stream is Https ==> {
                &&& locking.action() is AwaitLock
                &&& working.has_lock() && working.action() is OperateSsl
                &&& working.polled(StreamEvent::<S, X>::Done(result), lock) == dropped
            }
        }),
{
}

/// A plain connection is split into two halves: the half for writing has the connection itself, the
/// half for reading a second handle on it. Neither is encrypted, and each closes its own direction.
pub proof fn law_a_plain_connection_is_split<T: Clone, S>(
    connection: T,
    stream: Stream<T, S>,
    r: (RefinedTcpStream<T, S>, RefinedTcpStream<T, S>),
    read_secure: bool,
    write_secure: bool,
)
    requires
        call_ensures(<Stream<T, S> as From<T>>::from, (connection,), stream),
        call_ensures(RefinedTcpStream::<T, S>::new, (stream,), r),
        call_ensures(RefinedTcpStream::<T, S>::secure, (&r.0,), read_secure),
        call_ensures(RefinedTcpStream::<T, S>::secure, (&r.1,), write_secure),
    ensures
        r.1.stream == Stream::<T, S>::Http(connection),
        r.0.stream matches Stream::Http(handle) && cloned(connection, handle),
        r.0.ssl_fut is Waiting && r.1.ssl_fut is Waiting,
        r.0.close_read && !r.0.close_write && !r.1.close_read && r.1.close_write,
        !read_secure && !write_secure,
{
}

/// An encrypted connection is split into two halves that share it behind one new lock. Both are
/// secure, neither has an operation under way, and each closes its own direction.
pub proof fn law_an_encrypted_connection_is_split<T: Clone, S>(
    ssl: S,
    stream: Stream<T, S>,
    r: (RefinedTcpStream<T, S>, RefinedTcpStream<T, S>),
    read_secure: bool,
    write_secure: bool,
)
    requires
        call_ensures(Stream::<T, S>::from_ssl, (ssl,), stream),
        call_ensures(RefinedTcpStream::<T, S>::new, (stream,), r),
        call_ensures(RefinedTcpStream::<T, S>::secure, (&r.0,), read_secure),
        call_ensures(RefinedTcpStream::<T, S>::secure, (&r.1,), write_secure),
    ensures
        r.0.stream == r.1.stream,
        r.0.stream matches Stream::Https(mutex) && call_ensures(Mutex::<S>::new, (ssl,), *mutex),
        r.0.ssl_fut is Waiting && r.1.ssl_fut is Waiting,
        r.0.close_read && !r.0.close_write && !r.1.close_read && r.1.close_write,
        read_secure && write_secure,
{
}

/// A half is secure if and only if its connection is encrypted.
pub proof fn law_secure_is_encrypted<T, S>(half: RefinedTcpStream<T, S>, r: bool)
    requires
        call_ensures(RefinedTcpStream::<T, S>::secure, (&half,), r),
    ensures
        half.stream is Https ==> r,
        half.stream is Http ==> !r,
{
}

/// A half that is dropped closes the directions that it is to close and no other, the reading
/// direction first, and it has no operation under way any more; nothing else of it changes.
pub proof fn law_a_half_closes_its_directions<T, S>(
    half: &mut RefinedTcpStream<T, S>,
    r: Vec<Shutdown>,
)
    requires
        call_ensures(RefinedTcpStream::<T, S>::drop, (half,), r),
    ensures
        r@.contains(Shutdown::Read) <==> old(half).close_read,
        r@.contains(Shutdown::Write) <==> old(half).close_write,
        r@.len() <= 2,
        r@.len() == 2 ==> r@[0] is Read && r@[1] is Write,
        final(half).ssl_fut is Waiting,
        final(half).stream == old(half).stream,
        final(half).close_read == old(half).close_read,
        final(half).close_write == old(half).close_write,
{
    if old(half).close_read {
        assert(r@[0] is Read);
    }
    if old(half).close_write {
        assert(r@[r@.len() - 1] is Write);
    }
}

/// An operation on a plain half is made on the connection at once and changes nothing of the half.
/// On an encrypted half it first waits for the lock, for which an idle half asks, that of its own
/// connection; once it has the lock it works under it.
pub proof fn law_an_operation_starts_with_the_lock<T, S>(
    half: &mut RefinedTcpStream<T, S>,
    action: StreamAction,
)
    requires
        call_ensures(RefinedTcpStream::<T, S>::start_operation_ssl, (half,), action),
    ensures
        old(half).stream is Http ==> action is OperateHttp && *final(half) == *old(half),
        old(half).stream matches Stream::Https(mutex) ==> {
            &&& old(half).ssl_fut is Waiting ==> {
                &&& action is AwaitLock
                &&& final(half).ssl_fut matches RefinedTcpStreamReader::LockingSsl(lock)
                    && call_ensures(Mutex::<S>::lock_arc, (&mutex,), lock)
            }
            &&& old(half).ssl_fut is LockingSsl ==> action is AwaitLock && *final(half)
                == *old(half)
            &&& old(half).ssl_fut is WorkingSsl ==> action is OperateSsl && *final(half)
                == *old(half)
        },
        final(half).stream == old(half).stream,
        final(half).close_read == old(half).close_read,
        final(half).close_write == old(half).close_write,
{
}

/// An operation returns what the connection gives, a result or an error, in the call in which it
/// gives it, and nothing before. On an encrypted half the lock is kept from when it was acquired
/// until then, and no longer; a plain half never has one.
pub proof fn law_an_operation_returns_what_the_connection_gives<T, S, X>(
    half: &mut RefinedTcpStream<T, S>,
    event: StreamEvent<S, X>,
    r: Poll<Result<X, IoError>>,
)
    requires
        call_ensures(RefinedTcpStream::<T, S>::do_operation_ssl::<X>, (half, event), r),
    ensures
        event matches StreamEvent::Done(result) ==> r == Poll::Ready(result),
        !(event is Done) ==> r is Pending,
        old(half).stream is Http ==> final(half).ssl_fut == old(half).ssl_fut,
        old(half).stream is Https ==> {
            &&& event matches StreamEvent::Locked(guard) ==> final(half).ssl_fut
                == RefinedTcpStreamReader::WorkingSsl(guard)
            &&& event is Pending ==> final(half).ssl_fut == old(half).ssl_fut
            &&& event is Done ==> final(half).ssl_fut is Waiting
        },
        final(half).stream == old(half).stream,
        final(half).close_read == old(half).close_read,
        final(half).close_write == old(half).close_write,
{
}

} // verus!
