//! Readers and writers that take turns on one stream.
use crate::poll::Poll;
use async_channel::{Receiver, Sender};
use async_lock::futures::LockArc;
use async_lock::{Mutex, MutexGuardArc};
use std::io::Error as IoError;
use std::mem;
use std::sync::Arc;
use vstd::prelude::*;

verus! {

/// Hands out readers that use one underlying reader in turn: each reader gets it when the reader
/// before it is dropped.
#[verifier::reject_recursive_types(R)]
pub struct SequentialReaderBuilder<R> {
    pub inner: SequentialReaderBuilderInner<R>,
}

#[verifier::reject_recursive_types(R)]
pub enum SequentialReaderBuilderInner<R> {
    /// No reader was handed out yet: the underlying reader is still here.
    First(R),
    /// The end at which the last reader that was handed out passes the underlying reader on.
    NotFirst(Receiver<R>),
}

/// One of the readers that take turns.
#[verifier::reject_recursive_types(R)]
pub struct SequentialReader<R> {
    pub inner: SequentialReaderInner<R>,
    /// Where the underlying reader goes when this reader is dropped.
    pub next: Sender<R>,
}

#[verifier::reject_recursive_types(R)]
pub enum SequentialReaderInner<R> {
    /// The underlying reader is here.
    MyTurn(R),
    /// The underlying reader arrives here once the reader before this one is dropped.
    Waiting(Receiver<R>),
    /// The underlying reader has been passed on.
    Empty,
}

/// What came of the one outside poll that a `poll_read` makes.
#[verifier::reject_recursive_types(R)]
pub enum ReadEvent<R> {
    /// It was not ready.
    Pending,
    /// The underlying reader, polled for reading, was ready with this result.
    Read(Result<usize, IoError>),
    /// The underlying reader arrived.
    Received(R),
}

/// What is left to do when a reader is dropped.
#[verifier::reject_recursive_types(R)]
pub enum Handover<R> {
    /// Send this underlying reader to `next`.
    Send(R),
    /// Wait for the underlying reader at this end, then send it to `next`.
    ReceiveThenSend(Receiver<R>),
    /// Nothing.
    Nothing,
}

impl<R> SequentialReaderBuilderInner<R> {
    /// The state in which the next reader is handed out.
    pub open spec fn next_inner(self) -> SequentialReaderInner<R> {
        match self {
            SequentialReaderBuilderInner::First(reader) => SequentialReaderInner::MyTurn(reader),
            SequentialReaderBuilderInner::NotFirst(rx) => SequentialReaderInner::Waiting(rx),
        }
    }

    /// From this state the builder hands out `reader` and is left in the state `after`: it keeps
    /// the receiving end of the new channel to which `reader` sends.
    pub open spec fn hands_out(
        self,
        reader: SequentialReader<R>,
        after: SequentialReaderBuilderInner<R>,
    ) -> bool {
        &&& reader.inner == self.next_inner()
        &&& after is NotFirst
        &&& crate::outside::linked(reader.next, after->NotFirst_0)
    }
}

impl<R> SequentialReaderBuilder<R> {
    pub fn new(reader: R) -> (builder: SequentialReaderBuilder<R>)
        ensures
            builder.inner == SequentialReaderBuilderInner::First(reader),
    {
        SequentialReaderBuilder { inner: SequentialReaderBuilderInner::First(reader) }
    }

    /// Hands out the next reader; there always is one. The first has the underlying reader, each
    /// later one waits at the end to which the reader before it sends.
    pub fn next(&mut self) -> (r: Option<SequentialReader<R>>)
        ensures
            r is Some,
            old(self).inner.hands_out(r->0, final(self).inner),
    {
        let (tx, rx) = async_channel::bounded(1);
        let mut inner = SequentialReaderBuilderInner::NotFirst(rx);
        mem::swap(&mut inner, &mut self.inner);
        match inner {
            SequentialReaderBuilderInner::First(reader) => Some(
                SequentialReader { inner: SequentialReaderInner::MyTurn(reader), next: tx },
            ),
            SequentialReaderBuilderInner::NotFirst(previous) => Some(
                SequentialReader { inner: SequentialReaderInner::Waiting(previous), next: tx },
            ),
        }
    }
}

impl<R> SequentialReaderInner<R> {
    /// Whether `event` can come of the poll that a reader in this state makes.
    pub open spec fn read_answer(self, event: ReadEvent<R>) -> bool {
        match event {
            ReadEvent::Pending => self !is Empty,
            ReadEvent::Read(_) => self is MyTurn,
            ReadEvent::Received(_) => self is Waiting,
        }
    }

    /// The state after a poll of which `event` came.
    pub open spec fn after_read(self, event: ReadEvent<R>) -> SequentialReaderInner<R> {
        match event {
            ReadEvent::Received(reader) => SequentialReaderInner::MyTurn(reader),
            _ => self,
        }
    }

    /// What dropping a reader in this state leaves to do.
    pub open spec fn handover(self) -> Handover<R> {
        match self {
            SequentialReaderInner::MyTurn(reader) => Handover::Send(reader),
            SequentialReaderInner::Waiting(rx) => Handover::ReceiveThenSend(rx),
            SequentialReaderInner::Empty => Handover::Nothing,
        }
    }
}

impl<R> SequentialReader<R> {
    /// Reads: polls the underlying reader if it is here, and waits for it if not. `event` is what
    /// came of that poll, which the caller makes in place: the underlying reader is then as the
    /// poll has left it. The call in which the underlying reader arrives does not read yet.
    pub fn poll_read(&mut self, event: ReadEvent<R>) -> (r: Poll<Result<usize, IoError>>)
        requires
            old(self).inner.read_answer(event),
        ensures
            final(self).inner == old(self).inner.after_read(event),
            final(self).next == old(self).next,
            r == (match event {
                ReadEvent::Read(result) => Poll::Ready(result),
                _ => Poll::Pending,
            }),
    {
        match event {
            ReadEvent::Pending => Poll::Pending,
            ReadEvent::Read(result) => Poll::Ready(result),
            ReadEvent::Received(reader) => {
                self.inner = SequentialReaderInner::MyTurn(reader);
                Poll::Pending
            },
        }
    }

    /// Empties the reader and says how the underlying reader gets to the next one.
    pub fn drop(&mut self) -> (r: Handover<R>)
        ensures
            r == old(self).inner.handover(),
            final(self).inner is Empty,
            final(self).next == old(self).next,
    {
        let mut inner = SequentialReaderInner::Empty;
        mem::swap(&mut inner, &mut self.inner);
        match inner {
            SequentialReaderInner::MyTurn(reader) => Handover::Send(reader),
            SequentialReaderInner::Waiting(rx) => Handover::ReceiveThenSend(rx),
            SequentialReaderInner::Empty => Handover::Nothing,
        }
    }
}

/// Hands out writers that use one underlying writer in turn.
#[verifier::reject_recursive_types(W)]
pub struct SequentialWriterBuilder<W> {
    pub writer: Arc<Mutex<W>>,
    /// Where the last writer that was handed out says that it is done.
    pub next_trigger: Option<Receiver<()>>,
}

/// One of the writers that take turns.
#[verifier::reject_recursive_types(W)]
pub struct SequentialWriter<W> {
    pub inner: SequentialWriterInner<W>,
    /// Where the writer before this one says that it is done, until this writer starts to wait
    /// for it. The first writer has none.
    pub trigger: Option<Receiver<()>>,
    pub writer: Arc<Mutex<W>>,
    /// Where this writer says that it is done.
    pub on_finish: Arc<Sender<()>>,
}

/// What a writer is about to do.
#[verifier::reject_recursive_types(W)]
pub enum SequentialWriterInner<W> {
    /// It has written, with this result, and tells the next writer so before it returns.
    FinishNotifying(Result<usize, IoError>),
    Closing(MutexGuardArc<W>),
    Flushing(MutexGuardArc<W>),
    Writing(MutexGuardArc<W>),
    /// It waits for the lock on the underlying writer.
    AcquiringLock(LockArc<W>),
    /// It waits for the writer before it.
    WaitingForTrigger(Receiver<()>),
    Empty,
}

/// The outside poll that a poll of a writer makes.
pub enum WriterAction {
    /// Wait at the trigger.
    AwaitTrigger,
    /// Wait for the lock.
    AwaitLock,
    /// Poll the locked underlying writer.
    Operate,
    /// Wait until `on_finish` has taken the message.
    AwaitNotification,
    /// None.
    Nothing,
}

/// What came of the one outside poll that a poll of a writer makes.
#[verifier::reject_recursive_types(W)]
pub enum WriterEvent<W, T> {
    /// It was not ready, or there was none to make.
    Pending,
    /// The writer before this one is done, or is gone.
    Triggered,
    /// The lock was acquired.
    Locked(MutexGuardArc<W>),
    /// The underlying writer was ready with this result.
    Done(Result<T, IoError>),
    /// `on_finish` took the message, or nobody listens there any more.
    Notified,
}

impl<W, T> WriterEvent<W, T> {
    /// Whether this can come of `action`.
    pub open spec fn answers(self, action: WriterAction) -> bool {
        match self {
            WriterEvent::Pending => true,
            WriterEvent::Triggered => action is AwaitTrigger,
            WriterEvent::Locked(_) => action is AwaitLock,
            WriterEvent::Done(_) => action is Operate,
            WriterEvent::Notified => action is AwaitNotification,
        }
    }
}

impl<W> SequentialWriterBuilder<W> {
    /// From this state the builder hands out `writer` and is left in the state `after`: it keeps
    /// the receiving end of the new channel to which `writer` reports, and `writer` gets the one
    /// of the writer before it. All writers share the lock on the underlying writer.
    pub open spec fn hands_out(
        self,
        writer: SequentialWriter<W>,
        after: SequentialWriterBuilder<W>,
    ) -> bool {
        &&& writer.inner is Empty
        &&& writer.trigger == self.next_trigger
        &&& writer.writer == self.writer
        &&& after.writer == self.writer
        &&& after.next_trigger is Some
        &&& crate::outside::linked(*writer.on_finish, after.next_trigger->0)
    }

    pub fn new(writer: W) -> (builder: SequentialWriterBuilder<W>)
        ensures
            crate::outside::guards(*builder.writer, writer),
            builder.next_trigger is None,
    {
        SequentialWriterBuilder { writer: Arc::new(Mutex::new(writer)), next_trigger: None }
    }

    /// Hands out the next writer; there always is one. The first may write at once, each later
    /// one waits for the end at which the writer before it reports.
    pub fn next(&mut self) -> (r: Option<SequentialWriter<W>>)
        ensures
            r is Some,
            old(self).hands_out(r->0, *final(self)),
    {
        let (tx, rx) = async_channel::bounded(1);
        let mut next_next_trigger = Some(rx);
        mem::swap(&mut next_next_trigger, &mut self.next_trigger);
        Some(
            SequentialWriter {
                inner: SequentialWriterInner::Empty,
                trigger: next_next_trigger,
                writer: self.writer.clone(),
                on_finish: Arc::new(tx),
            },
        )
    }
}

impl<W> SequentialWriterInner<W> {
    /// The outside poll that a write makes in this state; `None` where a write must not be polled
    /// because a flush or a close is under way.
    pub open spec fn write_action(self) -> Option<WriterAction> {
        match self {
            SequentialWriterInner::FinishNotifying(_) => Some(WriterAction::AwaitNotification),
            SequentialWriterInner::Writing(_) => Some(WriterAction::Operate),
            SequentialWriterInner::AcquiringLock(_) => Some(WriterAction::AwaitLock),
            SequentialWriterInner::WaitingForTrigger(_) => Some(WriterAction::AwaitTrigger),
            SequentialWriterInner::Empty => Some(WriterAction::Nothing),
            _ => None,
        }
    }

    /// The outside poll that a flush makes in this state; `None` where a flush must not be polled
    /// because a write or a close is under way.
    pub open spec fn flush_action(self) -> Option<WriterAction> {
        match self {
            SequentialWriterInner::Flushing(_) => Some(WriterAction::Operate),
            SequentialWriterInner::AcquiringLock(_) => Some(WriterAction::AwaitLock),
            SequentialWriterInner::WaitingForTrigger(_) => Some(WriterAction::AwaitTrigger),
            SequentialWriterInner::Empty => Some(WriterAction::Nothing),
            _ => None,
        }
    }

    /// The outside poll that a close makes in this state; `None` where a close must not be polled
    /// because a write or a flush is under way or waits for its turn.
    pub open spec fn close_action(self) -> Option<WriterAction> {
        match self {
            SequentialWriterInner::Closing(_) => Some(WriterAction::Operate),
            SequentialWriterInner::AcquiringLock(_) => Some(WriterAction::AwaitLock),
            SequentialWriterInner::Empty => Some(WriterAction::Nothing),
            _ => None,
        }
    }

    /// The state after a poll for writing of which `event` came; `lock` is what waits for the lock,
    /// where the poll asked for it.
    pub open spec fn after_write(
        self,
        event: WriterEvent<W, usize>,
        lock: LockArc<W>,
    ) -> SequentialWriterInner<W> {
        match (self, event) {
            (_, WriterEvent::Notified) => SequentialWriterInner::Empty,
            (_, WriterEvent::Done(result)) => SequentialWriterInner::FinishNotifying(result),
            (_, WriterEvent::Locked(guard)) => SequentialWriterInner::Writing(guard),
            (_, WriterEvent::Triggered) => SequentialWriterInner::AcquiringLock(lock),
            (SequentialWriterInner::Empty, WriterEvent::Pending) =>
                SequentialWriterInner::AcquiringLock(lock),
            (_, WriterEvent::Pending) => self,
        }
    }

    /// What a poll for writing returns: the result of the write, once the next writer knows.
    pub open spec fn write_result(self, event: WriterEvent<W, usize>) -> Poll<
        Result<usize, IoError>,
    > {
        match (self, event) {
            (SequentialWriterInner::FinishNotifying(result), WriterEvent::Notified) =>
                Poll::Ready(result),
            _ => Poll::Pending,
        }
    }

    /// The state after a poll for flushing of which `event` came; `lock` is what waits for the
    /// lock, where the poll asked for it.
    pub open spec fn after_flush(
        self,
        event: WriterEvent<W, ()>,
        lock: LockArc<W>,
    ) -> SequentialWriterInner<W> {
        match (self, event) {
            (_, WriterEvent::Done(_)) => SequentialWriterInner::Empty,
            (_, WriterEvent::Locked(guard)) => SequentialWriterInner::Flushing(guard),
            (_, WriterEvent::Triggered) => SequentialWriterInner::AcquiringLock(lock),
            (SequentialWriterInner::Empty, _) => SequentialWriterInner::AcquiringLock(lock),
            _ => self,
        }
    }

    /// The state after a poll for closing of which `event` came; `lock` is what waits for the lock,
    /// where the poll asked for it.
    pub open spec fn after_close(
        self,
        event: WriterEvent<W, ()>,
        lock: LockArc<W>,
    ) -> SequentialWriterInner<W> {
        match (self, event) {
            (_, WriterEvent::Done(_)) => SequentialWriterInner::Empty,
            (_, WriterEvent::Locked(guard)) => SequentialWriterInner::Closing(guard),
            (SequentialWriterInner::Empty, _) => SequentialWriterInner::AcquiringLock(lock),
            _ => self,
        }
    }
}

/// What a poll for flushing or closing returns: the result of the underlying writer.
pub open spec fn operation_result<W>(event: WriterEvent<W, ()>) -> Poll<Result<(), IoError>> {
    match event {
        WriterEvent::Done(result) => Poll::Ready(result),
        _ => Poll::Pending,
    }
}

impl<W> SequentialWriter<W> {
    /// The writer once it waits for its turn: a trigger that is still here is waited for, and
    /// whatever the writer was about to do is given up.
    pub open spec fn in_line(self) -> SequentialWriter<W> {
        match self.trigger {
            Some(rx) => SequentialWriter {
                inner: SequentialWriterInner::WaitingForTrigger(rx),
                trigger: None,
                ..self
            },
            None => self,
        }
    }

    /// Everything but the state is as in `other`.
    pub open spec fn same_ends(self, other: SequentialWriter<W>) -> bool {
        &&& self.trigger == other.trigger
        &&& self.writer == other.writer
        &&& self.on_finish == other.on_finish
    }

    /// If the writer waits for the lock and did not do so `before`, then for that of its own
    /// underlying writer.
    pub open spec fn asks_for_lock(self, before: SequentialWriter<W>) -> bool {
        self.inner is AcquiringLock && before.inner !is AcquiringLock ==> crate::outside::waits_for(
            self.inner->AcquiringLock_0,
            before.writer,
        )
    }

    fn get_in_line(&mut self)
        ensures
            *final(self) == old(self).in_line(),
    {
        if let Some(rx) = self.trigger.take() {
            self.inner = SequentialWriterInner::WaitingForTrigger(rx);
        }
    }

    /// Starts a poll for writing: says which outside poll to make.
    pub fn start_write(&mut self) -> (action: WriterAction)
        requires
            old(self).in_line().inner.write_action() is Some,
        ensures
            *final(self) == old(self).in_line(),
            Some(action) == final(self).inner.write_action(),
    {
        self.get_in_line();
        match &self.inner {
            SequentialWriterInner::FinishNotifying(_) => WriterAction::AwaitNotification,
            SequentialWriterInner::Writing(_) => WriterAction::Operate,
            SequentialWriterInner::AcquiringLock(_) => WriterAction::AwaitLock,
            SequentialWriterInner::WaitingForTrigger(_) => WriterAction::AwaitTrigger,
            _ => WriterAction::Nothing,
        }
    }

    /// Ends a poll for writing. `event` is what came of the outside poll that `start_write` asked
    /// for.
    pub fn poll_write(&mut self, event: WriterEvent<W, usize>) -> (r: Poll<Result<usize, IoError>>)
        requires
            old(self).trigger is None,
            old(self).inner.write_action() is Some,
            event.answers(old(self).inner.write_action()->0),
        ensures
            final(self).inner == old(self).inner.after_write(
                event,
                final(self).inner->AcquiringLock_0,
            ),
            final(self).asks_for_lock(*old(self)),
            final(self).same_ends(*old(self)),
            r == old(self).inner.write_result(event),
    {
        match event {
            WriterEvent::Notified => {
                let mut inner = SequentialWriterInner::Empty;
                mem::swap(&mut inner, &mut self.inner);
                match inner {
                    SequentialWriterInner::FinishNotifying(result) => Poll::Ready(result),
                    _ => Poll::Pending,
                }
            },
            WriterEvent::Done(result) => {
                // The lock is released here; the next writer is told before this one returns,
                // for there is no later occasion to do so.
                self.inner = SequentialWriterInner::FinishNotifying(result);
                Poll::Pending
            },
            WriterEvent::Locked(guard) => {
                self.inner = SequentialWriterInner::Writing(guard);
                Poll::Pending
            },
            WriterEvent::Triggered => {
                self.inner = SequentialWriterInner::AcquiringLock(Mutex::lock_arc(&self.writer));
                Poll::Pending
            },
            WriterEvent::Pending => {
                if let SequentialWriterInner::Empty = self.inner {
                    self.inner = SequentialWriterInner::AcquiringLock(Mutex::lock_arc(&self.writer));
                }
                Poll::Pending
            },
        }
    }

    /// Starts a poll for flushing: says which outside poll to make.
    pub fn start_flush(&mut self) -> (action: WriterAction)
        requires
            old(self).in_line().inner.flush_action() is Some,
        ensures
            *final(self) == old(self).in_line(),
            Some(action) == final(self).inner.flush_action(),
    {
        self.get_in_line();
        match &self.inner {
            SequentialWriterInner::Flushing(_) => WriterAction::Operate,
            SequentialWriterInner::AcquiringLock(_) => WriterAction::AwaitLock,
            SequentialWriterInner::WaitingForTrigger(_) => WriterAction::AwaitTrigger,
            _ => WriterAction::Nothing,
        }
    }

    /// Ends a poll for flushing. `event` is what came of the outside poll that `start_flush` asked
    /// for.
    pub fn poll_flush(&mut self, event: WriterEvent<W, ()>) -> (r: Poll<Result<(), IoError>>)
        requires
            old(self).trigger is None,
            old(self).inner.flush_action() is Some,
            event.answers(old(self).inner.flush_action()->0),
        ensures
            final(self).inner == old(self).inner.after_flush(
                event,
                final(self).inner->AcquiringLock_0,
            ),
            final(self).asks_for_lock(*old(self)),
            final(self).same_ends(*old(self)),
            r == operation_result(event),
    {
        match event {
            WriterEvent::Done(result) => {
                self.inner = SequentialWriterInner::Empty;
                Poll::Ready(result)
            },
            WriterEvent::Locked(guard) => {
                self.inner = SequentialWriterInner::Flushing(guard);
                Poll::Pending
            },
            WriterEvent::Triggered => {
                self.inner = SequentialWriterInner::AcquiringLock(Mutex::lock_arc(&self.writer));
                Poll::Pending
            },
            _ => {
                if let SequentialWriterInner::Empty = self.inner {
                    self.inner = SequentialWriterInner::AcquiringLock(Mutex::lock_arc(&self.writer));
                }
                Poll::Pending
            },
        }
    }

    /// Starts a poll for closing: says which outside poll to make. A close does not wait for the
    /// writer's turn.
    pub fn start_close(&self) -> (action: WriterAction)
        requires
            self.inner.close_action() is Some,
        ensures
            Some(action) == self.inner.close_action(),
    {
        match &self.inner {
            SequentialWriterInner::Closing(_) => WriterAction::Operate,
            SequentialWriterInner::AcquiringLock(_) => WriterAction::AwaitLock,
            _ => WriterAction::Nothing,
        }
    }

    /// Dropping the writer changes nothing of it and leaves one thing to do: to report to the next
    /// writer, whatever this one was about to do.
    pub fn drop(&mut self) -> (action: WriterAction)
        ensures
            action is AwaitNotification,
            *final(self) == *old(self),
    {
        WriterAction::AwaitNotification
    }

    /// Ends a poll for closing. `event` is what came of the outside poll that `start_close` asked
    /// for.
    pub fn poll_close(&mut self, event: WriterEvent<W, ()>) -> (r: Poll<Result<(), IoError>>)
        requires
            old(self).inner.close_action() is Some,
            event.answers(old(self).inner.close_action()->0),
        ensures
            final(self).inner == old(self).inner.after_close(
                event,
                final(self).inner->AcquiringLock_0,
            ),
            final(self).asks_for_lock(*old(self)),
            final(self).same_ends(*old(self)),
            r == operation_result(event),
    {
        match event {
            WriterEvent::Done(result) => {
                self.inner = SequentialWriterInner::Empty;
                Poll::Ready(result)
            },
            WriterEvent::Locked(guard) => {
                self.inner = SequentialWriterInner::Closing(guard);
                Poll::Pending
            },
            _ => {
                if let SequentialWriterInner::Empty = self.inner {
                    self.inner = SequentialWriterInner::AcquiringLock(Mutex::lock_arc(&self.writer));
                }
                Poll::Pending
            },
        }
    }
}

} // verus!
