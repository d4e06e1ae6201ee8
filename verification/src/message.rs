//! What the tasks of a server hand to whoever receives requests from it.
use async_channel::Sender;
use std::collections::VecDeque;
use std::io::Error as IoError;
use vstd::prelude::*;

verus! {

/// A request of a client. `P` is the request as it was parsed.
pub struct Request<P> {
    pub payload: P,
    /// Whom to tell once the request has been responded to.
    pub notify_sender: Option<Sender<()>>,
}

impl<P> Request<P> {
    /// The request, of which `sender` will be told when it has been responded to.
    pub fn with_notify_sender(self, sender: Sender<()>) -> (r: Request<P>)
        ensures
            r == (Request { payload: self.payload, notify_sender: Some(sender) }),
    {
        Request { payload: self.payload, notify_sender: Some(sender) }
    }
}

pub enum Message<P> {
    Error(IoError),
    NewRequest(Request<P>),
}

impl<P> Message<P> {
    /// What whoever receives this message gets.
    pub open spec fn delivered(self) -> Result<Request<P>, IoError> {
        match self {
            Message::Error(err) => Err(err),
            Message::NewRequest(rq) => Ok(rq),
        }
    }
}

impl<P> vstd::std_specs::convert::FromSpecImpl<IoError> for Message<P> {
    open spec fn obeys_from_spec() -> bool {
        true
    }

    open spec fn from_spec(e: IoError) -> Message<P> {
        Message::Error(e)
    }
}

impl<P> From<IoError> for Message<P> {
    fn from(e: IoError) -> (r: Message<P>) {
        Message::Error(e)
    }
}

impl<P> vstd::std_specs::convert::FromSpecImpl<Request<P>> for Message<P> {
    open spec fn obeys_from_spec() -> bool {
        true
    }

    open spec fn from_spec(rq: Request<P>) -> Message<P> {
        Message::NewRequest(rq)
    }
}

impl<P> From<Request<P>> for Message<P> {
    fn from(rq: Request<P>) -> (r: Message<P>) {
        Message::NewRequest(rq)
    }
}

/// Messages on their way, the oldest first.
pub struct MessagesQueue<T> {
    queue: VecDeque<T>,
}

impl<T> View for MessagesQueue<T> {
    type V = Seq<T>;

    closed spec fn view(&self) -> Seq<T> {
        self.queue@
    }
}

impl<T> MessagesQueue<T> {
    /// An empty queue that can take `capacity` messages before it has to grow.
    pub(crate) fn with_capacity(capacity: usize) -> (queue: MessagesQueue<T>)
        ensures
            queue@ == Seq::<T>::empty(),
    {
        MessagesQueue { queue: VecDeque::with_capacity(capacity) }
    }

    /// Adds a message behind all others.
    pub fn push(&mut self, value: T)
        ensures
            final(self)@ == old(self)@.push(value),
    {
        self.queue.push_back(value);
    }

    /// Takes the oldest message, if there is one.
    pub fn try_pop(&mut self) -> (r: Option<T>)
        ensures
            old(self)@.len() == 0 ==> r is None && final(self)@ == old(self)@,
            old(self)@.len() > 0 ==> r == Some(old(self)@[0]) && final(self)@
                == old(self)@.drop_first(),
    {
        self.queue.pop_front()
    }
}

/// A message that is added to a queue comes behind all that are there, which stay as they are.
pub proof fn law_a_message_is_added_behind_all_others<T>(
    queue: &mut MessagesQueue<T>,
    value: T,
    r: (),
)
    requires
        call_ensures(MessagesQueue::<T>::push, (queue, value), r),
    ensures
        final(queue)@ == old(queue)@ + seq![value],
{
}

/// Taking a message from a queue gives the oldest and leaves all others as they are; there is none
/// only if the queue is empty.
pub proof fn law_the_oldest_message_is_taken<T>(queue: &mut MessagesQueue<T>, r: Option<T>)
    requires
        call_ensures(MessagesQueue::<T>::try_pop, (queue,), r),
    ensures
        r is None <==> old(queue)@.len() == 0,
        r matches Some(value) ==> old(queue)@ == seq![value] + final(queue)@,
        r is None ==> final(queue)@ == old(queue)@,
{
}

/// A request that is to be told of keeps what the client has sent, and has the sender that it was
/// given.
pub proof fn law_a_request_keeps_its_payload<P>(
    request: Request<P>,
    sender: Sender<()>,
    r: Request<P>,
)
    requires
        call_ensures(Request::<P>::with_notify_sender, (request, sender), r),
    ensures
        r.payload == request.payload,
        r.notify_sender == Some(sender),
{
}

/// A message holds the very error or request of which it was made, and whoever receives it gets
/// that.
pub proof fn law_a_message_holds_what_it_was_made_of<P>(
    e: IoError,
    failed: Message<P>,
    request: Request<P>,
    asked: Message<P>,
)
    requires
        call_ensures(<Message<P> as From<IoError>>::from, (e,), failed),
        call_ensures(<Message<P> as From<Request<P>>>::from, (request,), asked),
    ensures
        failed == Message::<P>::Error(e),
        asked == Message::NewRequest(request),
        failed.delivered() == Err::<Request<P>, IoError>(e),
        asked.delivered() == Ok::<Request<P>, IoError>(request),
{
}

} // verus!
