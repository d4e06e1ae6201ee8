//! What holds of a writer over many polls, and of all the writers of one builder together.
use crate::poll::Poll;
use crate::sequential::{
    SequentialWriter, SequentialWriterBuilder, SequentialWriterInner, WriterEvent,
};
use async_channel::{Receiver, Sender};
use async_lock::futures::LockArc;
use async_lock::{Mutex, MutexGuardArc};
use std::io::Error as IoError;
use std::sync::Arc;
use vstd::prelude::*;

verus! {

/// One poll of a writer, from its start to its end, with what came of the outside poll and what
/// waits for the lock, where the poll asked for it.
#[verifier::reject_recursive_types(W)]
pub enum WriterCall<W> {
    Write(WriterEvent<W, usize>, LockArc<W>),
    Flush(WriterEvent<W, ()>, LockArc<W>),
    Close(WriterEvent<W, ()>, LockArc<W>),
}

impl<W> WriterCall<W> {
    /// The outside poll found that the writer before is done.
    pub open spec fn triggers(self) -> bool {
        match self {
            WriterCall::Write(event, _) => event is Triggered,
            WriterCall::Flush(event, _) => event is Triggered,
            WriterCall::Close(event, _) => event is Triggered,
        }
    }

    /// The outside poll acquired the lock.
    pub open spec fn locks(self) -> bool {
        match self {
            WriterCall::Write(event, _) => event is Locked,
            WriterCall::Flush(event, _) => event is Locked,
            WriterCall::Close(event, _) => event is Locked,
        }
    }

    /// The outside poll told the next writer.
    pub open spec fn notifies(self) -> bool {
        match self {
            WriterCall::Write(event, _) => event is Notified,
            WriterCall::Flush(event, _) => event is Notified,
            WriterCall::Close(event, _) => event is Notified,
        }
    }
}

impl<W> SequentialWriter<W> {
    /// Whether the writer can be polled like this.
    pub open spec fn can_poll(self, call: WriterCall<W>) -> bool {
        match call {
            WriterCall::Write(event, _) => {
                &&& self.in_line().inner.write_action() is Some
                &&& event.answers(self.in_line().inner.write_action()->0)
                &&& self.polled(call).asks_for_lock(self.in_line())
            },
            WriterCall::Flush(event, _) => {
                &&& self.in_line().inner.flush_action() is Some
                &&& event.answers(self.in_line().inner.flush_action()->0)
                &&& self.polled(call).asks_for_lock(self.in_line())
            },
            WriterCall::Close(event, _) => {
                &&& self.inner.close_action() is Some
                &&& event.answers(self.inner.close_action()->0)
                &&& self.polled(call).asks_for_lock(self)
            },
        }
    }

    /// The writer after the poll.
    pub open spec fn polled(self, call: WriterCall<W>) -> SequentialWriter<W> {
        match call {
            WriterCall::Write(event, lock) => SequentialWriter {
                inner: self.in_line().inner.after_write(event, lock),
                ..self.in_line()
            },
            WriterCall::Flush(event, lock) => SequentialWriter {
                inner: self.in_line().inner.after_flush(event, lock),
                ..self.in_line()
            },
            WriterCall::Close(event, lock) => SequentialWriter {
                inner: self.inner.after_close(event, lock),
                ..self
            },
        }
    }

    /// Whether the writer can be polled like this, one poll after the other.
    pub open spec fn can_poll_all(self, calls: Seq<WriterCall<W>>) -> bool
        decreases calls.len(),
    {
        calls.len() > 0 ==> self.can_poll_all(calls.drop_last()) && self.polled_all(
            calls.drop_last(),
        ).can_poll(calls.last())
    }

    /// The writer after the polls.
    pub open spec fn polled_all(self, calls: Seq<WriterCall<W>>) -> SequentialWriter<W>
        decreases calls.len(),
    {
        if calls.len() > 0 {
            self.polled_all(calls.drop_last()).polled(calls.last())
        } else {
            self
        }
    }

    /// The results that the polls for writing returned, in order.
    pub open spec fn returned(self, calls: Seq<WriterCall<W>>) -> Seq<Result<usize, IoError>>
        decreases calls.len(),
    {
        if calls.len() > 0 {
            let before = self.returned(calls.drop_last());
            match calls.last() {
                WriterCall::Write(event, _) => match self.polled_all(
                    calls.drop_last(),
                ).in_line().inner.write_result(event) {
                    Poll::Ready(result) => before.push(result),
                    Poll::Pending => before,
                },
                _ => before,
            }
        } else {
            Seq::empty()
        }
    }

    /// The writer has the lock.
    pub open spec fn has_lock(self) -> bool {
        self.inner is Writing || self.inner is Flushing || self.inner is Closing
    }

    /// What holds of a writer whatever it was polled for.
    spec fn sound(self) -> bool {
        self.trigger is Some ==> self.inner is Empty || self.inner is AcquiringLock
            || self.inner is Closing
    }
}

/// The results that the underlying writer gave to the polls for writing, in order.
pub open spec fn written<W>(calls: Seq<WriterCall<W>>) -> Seq<Result<usize, IoError>>
    decreases calls.len(),
{
    if calls.len() > 0 {
        let before = written(calls.drop_last());
        match calls.last() {
            WriterCall::Write(WriterEvent::Done(result), _) => before.push(result),
            _ => before,
        }
    } else {
        Seq::empty()
    }
}

/// Every result of the underlying writer is returned, once and in order, by the poll in which the
/// next writer was told; the last one may still wait for that.
pub proof fn law_results_are_returned_in_order<W>(
    writer: SequentialWriter<W>,
    calls: Seq<WriterCall<W>>,
)
    requires
        writer.inner is Empty,
        writer.can_poll_all(calls),
    ensures
        written(calls) == (match writer.polled_all(calls).inner {
            SequentialWriterInner::FinishNotifying(result) => writer.returned(calls).push(result),
            _ => writer.returned(calls),
        }),
{
    lemma_results(writer, calls);
}

proof fn lemma_results<W>(writer: SequentialWriter<W>, calls: Seq<WriterCall<W>>)
    requires
        writer.inner is Empty,
        writer.can_poll_all(calls),
    ensures
        writer.polled_all(calls).sound(),
        written(calls) == (match writer.polled_all(calls).inner {
            SequentialWriterInner::FinishNotifying(result) => writer.returned(calls).push(result),
            _ => writer.returned(calls),
        }),
    decreases calls.len(),
{
    if calls.len() > 0 {
        lemma_results(writer, calls.drop_last());
    }
}

/// A writer whose turn has come and that nobody else disturbs writes: it asks for the lock, writes
/// under it, gives it back, tells the next writer, and only then returns what the underlying
/// writer gave.
pub proof fn law_a_write_completes<W>(
    writer: SequentialWriter<W>,
    lock: LockArc<W>,
    guard: MutexGuardArc<W>,
    result: Result<usize, IoError>,
)
    requires
        writer.inner is Empty,
        writer.trigger is None,
        crate::outside::waits_for(lock, writer.writer),
    ensures
        ({
            let calls = seq![
                WriterCall::Write(WriterEvent::Pending, lock),
                WriterCall::Write(WriterEvent::Locked(guard), lock),
                WriterCall::Write(WriterEvent::Done(result), lock),
                WriterCall::Write(WriterEvent::Notified, lock),
            ];
            &&& writer.can_poll_all(calls)
            &&& writer.polled_all(calls.take(2)).inner == SequentialWriterInner::Writing(guard)
            &&& !writer.polled_all(calls.take(3)).has_lock()
            &&& writer.returned(calls.take(3)) == Seq::<Result<usize, IoError>>::empty()
            &&& writer.returned(calls) == seq![result]
            &&& writer.polled_all(calls) == writer
        }),
{
    let calls = seq![
        WriterCall::Write(WriterEvent::Pending, lock),
        WriterCall::Write(WriterEvent::Locked(guard), lock),
        WriterCall::Write(WriterEvent::Done(result), lock),
        WriterCall::Write(WriterEvent::Notified, lock),
    ];
    assert(calls.drop_last() =~= calls.take(3));
    assert(calls.take(3).drop_last() =~= calls.take(2));
    assert(calls.take(2).drop_last() =~= calls.take(1));
    assert(calls.take(1).drop_last() =~= Seq::empty());
    reveal_with_fuel(SequentialWriter::can_poll_all, 5);
    reveal_with_fuel(SequentialWriter::polled_all, 5);
    reveal_with_fuel(SequentialWriter::returned, 5);
}

/// A writer whose turn has come and that has no operation under way flushes: it asks for the lock of
/// its underlying writer, flushes under it, and with the result of the underlying writer returns
/// that result and is back where it was; before that it returns nothing.
pub proof fn law_a_flush_completes<W>(
    writer: SequentialWriter<W>,
    lock: LockArc<W>,
    guard: MutexGuardArc<W>,
    result: Result<(), IoError>,
)
    requires
        writer.inner is Empty,
        writer.trigger is None,
        crate::outside::waits_for(lock, writer.writer),
    ensures
        ({
            let calls = seq![
                WriterCall::Flush(WriterEvent::Pending, lock),
                WriterCall::Flush(WriterEvent::Locked(guard), lock),
                WriterCall::Flush(WriterEvent::Done(result), lock),
            ];
            &&& writer.can_poll_all(calls)
            &&& writer.polled_all(calls.take(1)).inner == SequentialWriterInner::AcquiringLock(lock)
            &&& writer.polled_all(calls.take(2)).inner == SequentialWriterInner::Flushing(guard)
            &&& writer.polled_all(calls) == writer
            &&& crate::sequential::operation_result(WriterEvent::<W, ()>::Pending) is Pending
            &&& crate::sequential::operation_result(WriterEvent::<W, ()>::Locked(guard)) is Pending
            &&& crate::sequential::operation_result(WriterEvent::<W, ()>::Done(result))
                == Poll::Ready(result)
        }),
{
    let calls = seq![
        WriterCall::Flush(WriterEvent::Pending, lock),
        WriterCall::Flush(WriterEvent::Locked(guard), lock),
        WriterCall::Flush(WriterEvent::Done(result), lock),
    ];
    assert(calls.drop_last() =~= calls.take(2));
    assert(calls.take(2).drop_last() =~= calls.take(1));
    assert(calls.take(1).drop_last() =~= Seq::empty());
    reveal_with_fuel(SequentialWriter::can_poll_all, 4);
    reveal_with_fuel(SequentialWriter::polled_all, 4);
}

/// A writer that has no operation under way closes, whether its turn has come or not: it asks for
/// the lock of its underlying writer, closes under it, and with the result of the underlying writer
/// is back where it was.
pub proof fn law_a_close_completes<W>(
    writer: SequentialWriter<W>,
    lock: LockArc<W>,
    guard: MutexGuardArc<W>,
    result: Result<(), IoError>,
)
    requires
        writer.inner is Empty,
        crate::outside::waits_for(lock, writer.writer),
    ensures
        ({
            let calls = seq![
                WriterCall::Close(WriterEvent::Pending, lock),
                WriterCall::Close(WriterEvent::Locked(guard), lock),
                WriterCall::Close(WriterEvent::Done(result), lock),
            ];
            &&& writer.can_poll_all(calls)
            &&& writer.polled_all(calls.take(1)).inner == SequentialWriterInner::AcquiringLock(lock)
            &&& writer.polled_all(calls.take(2)).inner == SequentialWriterInner::Closing(guard)
            &&& writer.polled_all(calls) == writer
        }),
{
    let calls = seq![
        WriterCall::Close(WriterEvent::Pending, lock),
        WriterCall::Close(WriterEvent::Locked(guard), lock),
        WriterCall::Close(WriterEvent::Done(result), lock),
    ];
    assert(calls.drop_last() =~= calls.take(2));
    assert(calls.take(2).drop_last() =~= calls.take(1));
    assert(calls.take(1).drop_last() =~= Seq::empty());
    reveal_with_fuel(SequentialWriter::can_poll_all, 4);
    reveal_with_fuel(SequentialWriter::polled_all, 4);
}

/// A writer whose turn has not come waits for it, be it for a write or for a flush, and once the
/// writer before it is done goes on like any other: it waits for the lock, and works under it.
pub proof fn law_a_later_writer_waits_and_goes_on<W>(
    writer: SequentialWriter<W>,
    rx: Receiver<()>,
    lock: LockArc<W>,
    guard: MutexGuardArc<W>,
)
    requires
        writer.inner is Empty,
        writer.trigger == Some(rx),
        crate::outside::waits_for(lock, writer.writer),
    ensures
        ({
            let writes = seq![
                WriterCall::Write(WriterEvent::Pending, lock),
                WriterCall::Write(WriterEvent::Triggered, lock),
                WriterCall::Write(WriterEvent::Locked(guard), lock),
            ];
            let flushes = seq![
                WriterCall::Flush(WriterEvent::Pending, lock),
                WriterCall::Flush(WriterEvent::Triggered, lock),
                WriterCall::Flush(WriterEvent::Locked(guard), lock),
            ];
            let waiting = SequentialWriter {
                inner: SequentialWriterInner::WaitingForTrigger(rx),
                trigger: None,
                ..writer
            };
            let locking = SequentialWriter {
                inner: SequentialWriterInner::AcquiringLock(lock),
                ..waiting
            };
            &&& writer.can_poll_all(writes) && writer.can_poll_all(flushes)
            &&& writer.polled_all(writes.take(1)) == waiting
            &&& writer.polled_all(flushes.take(1)) == waiting
            &&& writer.polled_all(writes.take(2)) == locking
            &&& writer.polled_all(flushes.take(2)) == locking
            &&& writer.polled_all(writes).inner == SequentialWriterInner::Writing(guard)
            &&& writer.polled_all(flushes).inner == SequentialWriterInner::Flushing(guard)
            &&& writer.returned(writes) == Seq::<Result<usize, IoError>>::empty()
        }),
{
    let writes = seq![
        WriterCall::Write(WriterEvent::Pending, lock),
        WriterCall::Write(WriterEvent::Triggered, lock),
        WriterCall::Write(WriterEvent::Locked(guard), lock),
    ];
    let flushes = seq![
        WriterCall::Flush(WriterEvent::Pending, lock),
        WriterCall::Flush(WriterEvent::Triggered, lock),
        WriterCall::Flush(WriterEvent::Locked(guard), lock),
    ];
    assert(writes.drop_last() =~= writes.take(2));
    assert(writes.take(2).drop_last() =~= writes.take(1));
    assert(writes.take(1).drop_last() =~= Seq::empty());
    assert(flushes.drop_last() =~= flushes.take(2));
    assert(flushes.take(2).drop_last() =~= flushes.take(1));
    assert(flushes.take(1).drop_last() =~= Seq::empty());
    reveal_with_fuel(SequentialWriter::can_poll_all, 4);
    reveal_with_fuel(SequentialWriter::polled_all, 4);
    reveal_with_fuel(SequentialWriter::returned, 4);
}

/// One builder and the writers that it has handed out, in that order.
#[verifier::reject_recursive_types(W)]
pub struct WriterChain<W> {
    /// `None` once the builder is gone.
    pub builder: Option<SequentialWriterBuilder<W>>,
    /// `None` for a writer that was dropped.
    pub writers: Seq<Option<SequentialWriter<W>>>,
    /// Where the writer with the same index says that it is done.
    pub on_finish: Seq<Arc<Sender<()>>>,
    /// Whether a message lies in the channel to which the writer with the same index reports.
    pub links: Seq<bool>,
    /// Whether the writer with the same index has said that it is done.
    pub reported: Seq<bool>,
    /// Whether the writer with the same index has seen that the one before it is done.
    pub triggered: Seq<bool>,
}

/// Something that happens to a chain of writers.
#[verifier::reject_recursive_types(W)]
pub enum WriterStep<W> {
    /// The builder hands out this writer and is left in this state.
    HandOut(SequentialWriter<W>, SequentialWriterBuilder<W>),
    /// The writer with this index is polled.
    Poll(int, WriterCall<W>),
    /// The writer with this index is dropped, which reports that it is done.
    Drop(int),
    /// The builder is dropped.
    DropBuilder,
}

impl<W> WriterChain<W> {
    /// A builder that has handed out nothing yet.
    pub open spec fn start(builder: SequentialWriterBuilder<W>) -> WriterChain<W> {
        WriterChain {
            builder: Some(builder),
            writers: Seq::empty(),
            on_finish: Seq::empty(),
            links: Seq::empty(),
            reported: Seq::empty(),
            triggered: Seq::empty(),
        }
    }

    /// Writer `i` exists and was not dropped.
    pub open spec fn alive(self, i: int) -> bool {
        0 <= i < self.writers.len() && self.writers[i] is Some
    }

    /// Writer `i` has the lock on the underlying writer.
    pub open spec fn locked_by(self, i: int) -> bool {
        self.alive(i) && self.writers[i]->0.has_lock()
    }

    /// The turn of writer `i` has come.
    pub open spec fn in_turn(self, i: int) -> bool {
        i == 0 || self.triggered[i]
    }

    /// Whether somebody holds the receiving end of the channel of writer `i`: the next writer as
    /// long as it has not seen the message, or the builder.
    pub open spec fn listened(self, i: int) -> bool {
        if i + 1 < self.writers.len() {
            self.alive(i + 1) && (self.writers[i + 1]->0.trigger is Some
                || self.writers[i + 1]->0.inner is WaitingForTrigger)
        } else {
            self.builder is Some
        }
    }

    /// Whether a message to the channel of writer `i` is taken at once: there is room for it, or
    /// nobody listens there any more.
    pub open spec fn takes_report(self, i: int) -> bool {
        !self.links[i] || !self.listened(i)
    }

    /// Whether `step` can happen. A trigger is a message of the writer before, or the lack of that
    /// writer; a report is taken; the lock is free when it is acquired.
    pub open spec fn enabled(self, step: WriterStep<W>) -> bool {
        match step {
            WriterStep::HandOut(writer, after) => self.builder is Some
                && self.builder->0.hands_out(writer, after),
            WriterStep::Poll(i, call) => {
                &&& self.alive(i)
                &&& self.writers[i]->0.can_poll(call)
                &&& call.triggers() ==> i > 0 && (self.links[i - 1] || !self.alive(i - 1))
                &&& call.notifies() ==> self.takes_report(i)
                &&& call.locks() ==> forall|j: int| !self.locked_by(j)
            },
            WriterStep::Drop(i) => self.alive(i) && self.takes_report(i),
            WriterStep::DropBuilder => self.builder is Some,
        }
    }

    /// The chain after `step`.
    pub open spec fn after(self, step: WriterStep<W>) -> WriterChain<W> {
        match step {
            WriterStep::HandOut(writer, after) => WriterChain {
                builder: Some(after),
                writers: self.writers.push(Some(writer)),
                on_finish: self.on_finish.push(writer.on_finish),
                links: self.links.push(false),
                reported: self.reported.push(false),
                triggered: self.triggered.push(false),
            },
            WriterStep::Poll(i, call) => WriterChain {
                builder: self.builder,
                writers: self.writers.update(i, Some(self.writers[i]->0.polled(call))),
                on_finish: self.on_finish,
                links: if call.triggers() {
                    self.links.update(i - 1, false)
                } else if call.notifies() {
                    self.links.update(i, self.listened(i))
                } else {
                    self.links
                },
                reported: self.reported.update(i, self.reported[i] || call.notifies()),
                triggered: self.triggered.update(i, self.triggered[i] || call.triggers()),
            },
            WriterStep::Drop(i) => WriterChain {
                builder: self.builder,
                writers: self.writers.update(i, None),
                on_finish: self.on_finish,
                links: self.links.update(i, self.listened(i)),
                reported: self.reported.update(i, true),
                triggered: self.triggered,
            },
            WriterStep::DropBuilder => WriterChain {
                builder: None,
                links: if self.links.len() > 0 {
                    self.links.update(self.links.len() - 1, false)
                } else {
                    self.links
                },
                ..self
            },
        }
    }

    /// Whether the steps can happen one after the other.
    pub open spec fn can_run(self, steps: Seq<WriterStep<W>>) -> bool
        decreases steps.len(),
    {
        steps.len() > 0 ==> self.can_run(steps.drop_last()) && self.run(steps.drop_last()).enabled(
            steps.last(),
        )
    }

    /// The chain after the steps.
    pub open spec fn run(self, steps: Seq<WriterStep<W>>) -> WriterChain<W>
        decreases steps.len(),
    {
        if steps.len() > 0 {
            self.run(steps.drop_last()).after(steps.last())
        } else {
            self
        }
    }

    /// No writer is dropped in the steps before its turn has come.
    pub open spec fn orderly(self, steps: Seq<WriterStep<W>>) -> bool
        decreases steps.len(),
    {
        steps.len() > 0 ==> self.orderly(steps.drop_last()) && (steps.last() matches
            WriterStep::Drop(i) ==> self.run(steps.drop_last()).in_turn(i))
    }

    /// `trigger`, if it is there, is the receiving end of the channel to which the writer before
    /// `i` reports.
    spec fn waits_at(self, i: int, trigger: Option<Receiver<()>>) -> bool {
        trigger matches Some(rx) ==> crate::outside::linked(*self.on_finish[i - 1], rx)
    }

    /// What holds of writer `i` while it is there.
    spec fn writer_sound(self, lock: Arc<Mutex<W>>, i: int) -> bool {
        let writer = self.writers[i]->0;
        &&& writer.sound()
        &&& writer.on_finish == self.on_finish[i]
        &&& i > 0 ==> self.waits_at(i, writer.trigger)
        &&& writer.inner is WaitingForTrigger ==> i > 0 && crate::outside::linked(
            *self.on_finish[i - 1],
            writer.inner->WaitingForTrigger_0,
        )
        &&& writer.writer == lock
        &&& writer.inner is AcquiringLock ==> crate::outside::waits_for(
            writer.inner->AcquiringLock_0,
            writer.writer,
        )
        &&& i == 0 ==> writer.trigger is None && writer.inner !is WaitingForTrigger
        &&& i > 0 && writer.trigger is None && writer.inner !is WaitingForTrigger
            ==> self.triggered[i]
    }

    /// What holds of a chain around `lock` whatever happened to it.
    spec fn sound(self, lock: Arc<Mutex<W>>) -> bool {
        &&& self.reported.len() == self.writers.len()
        &&& self.triggered.len() == self.writers.len()
        &&& self.on_finish.len() == self.writers.len()
        &&& self.links.len() == self.writers.len()
        &&& forall|i: int|
            0 <= i < self.writers.len() && (self.links[i] || self.writers[i] is None)
                ==> #[trigger] self.reported[i]
        &&& self.builder matches Some(builder) ==> {
            &&& builder.writer == lock
            &&& self.waits_at(self.writers.len() as int, builder.next_trigger)
            &&& (builder.next_trigger is None <==> self.writers.len() == 0)
        }
        &&& forall|i: int| #[trigger] self.alive(i) ==> self.writer_sound(lock, i)
        &&& forall|i: int|
            0 <= i < self.writers.len() && #[trigger] self.triggered[i] ==> i > 0
                && self.reported[i - 1]
        &&& forall|i: int, j: int| #[trigger]
            self.locked_by(i) && #[trigger] self.locked_by(j) ==> i == j
    }

    /// What holds besides where no writer was dropped before its turn.
    spec fn in_order(self) -> bool {
        forall|i: int|
            0 <= i < self.writers.len() && #[trigger] self.reported[i] ==> self.in_turn(i)
    }

    proof fn lemma_step(self, step: WriterStep<W>, lock: Arc<Mutex<W>>)
        requires
            self.sound(lock),
            self.enabled(step),
        ensures
            self.after(step).sound(lock),
            self.in_order() && (step matches WriterStep::Drop(i) ==> self.in_turn(i))
                ==> self.after(step).in_order(),
    {
        let next = self.after(step);
        assert forall|i: int| #[trigger] next.alive(i) implies next.writer_sound(lock, i) by {
            assert(i < self.writers.len() ==> self.alive(i));
        }
        assert forall|i: int, j: int| #[trigger]
            next.locked_by(i) && #[trigger] next.locked_by(j) implies i == j by {
            assert(!(step matches WriterStep::Poll(k, call) && k == i && call.locks())
                ==> self.locked_by(i));
            assert(!(step matches WriterStep::Poll(k, call) && k == j && call.locks())
                ==> self.locked_by(j));
        }
        assert forall|i: int|
            0 <= i < next.writers.len() && (next.links[i] || next.writers[i] is None) implies
            #[trigger] next.reported[i] by {
            if i < self.writers.len() && (self.links[i] || self.writers[i] is None) {
                assert(self.reported[i]);
            }
        }
        assert forall|i: int|
            0 <= i < next.writers.len() && #[trigger] next.triggered[i] implies i > 0
            && next.reported[i - 1] by {
            if i < self.writers.len() && self.triggered[i] {
                assert(self.reported[i - 1]);
            } else {
                assert(self.alive(i));
                assert(0 <= i - 1 && (self.links[i - 1] || self.writers[i - 1] is None));
                assert(self.reported[i - 1]);
            }
        }
        if self.in_order() && (step matches WriterStep::Drop(i) ==> self.in_turn(i)) {
            assert forall|i: int|
                0 <= i < next.writers.len() && #[trigger] next.reported[i] implies next.in_turn(
                i,
            ) by {
                if let WriterStep::Poll(k, call) = step {
                    if k == i && call.notifies() {
                        assert(self.alive(k));
                    }
                }
                assert(i < self.writers.len() && self.reported[i] ==> self.in_turn(i));
            }
        }
    }

    proof fn lemma_run(builder: SequentialWriterBuilder<W>, steps: Seq<WriterStep<W>>)
        requires
            builder.next_trigger is None,
            Self::start(builder).can_run(steps),
        ensures
            Self::start(builder).run(steps).sound(builder.writer),
            Self::start(builder).orderly(steps) ==> Self::start(builder).run(steps).in_order(),
        decreases steps.len(),
    {
        if steps.len() > 0 {
            Self::lemma_run(builder, steps.drop_last());
            Self::start(builder).run(steps.drop_last()).lemma_step(steps.last(), builder.writer);
        }
    }

    proof fn lemma_reported(self, lock: Arc<Mutex<W>>, i: int, j: int)
        requires
            self.sound(lock),
            self.in_order(),
            0 <= j <= i < self.writers.len(),
            self.reported[i],
        ensures
            self.reported[j],
        decreases i,
    {
        if j < i {
            assert(self.in_turn(i));
            assert(self.triggered[i]);
            self.lemma_reported(lock, i - 1, j);
        }
    }
}

/// Whatever happens to a chain of writers, a writer that has not had its turn yet holds the
/// receiving end of the channel to which the writer before it reports.
pub proof fn law_each_writer_reports_to_the_next<W>(
    builder: SequentialWriterBuilder<W>,
    steps: Seq<WriterStep<W>>,
    i: int,
)
    requires
        builder.next_trigger is None,
        WriterChain::start(builder).can_run(steps),
        WriterChain::start(builder).run(steps).alive(i),
        i > 0,
    ensures
        ({
            let chain = WriterChain::start(builder).run(steps);
            let writer = chain.writers[i]->0;
            &&& chain.alive(i - 1) ==> chain.writers[i - 1]->0.on_finish == chain.on_finish[i - 1]
            &&& writer.trigger matches Some(rx) ==> crate::outside::linked(
                *chain.on_finish[i - 1],
                rx,
            )
            &&& writer.inner matches SequentialWriterInner::WaitingForTrigger(rx)
                ==> crate::outside::linked(*chain.on_finish[i - 1], rx)
            &&& writer.trigger is Some || writer.inner is WaitingForTrigger || chain.triggered[i]
        }),
{
    let chain = WriterChain::start(builder).run(steps);
    WriterChain::lemma_run(builder, steps);
    assert(chain.writer_sound(builder.writer, i));
    if chain.alive(i - 1) {
        assert(chain.writer_sound(builder.writer, i - 1));
    }
}

/// Whatever happens to a chain of writers, all of them use the one lock of their builder, and a
/// writer that waits for a lock waits for that one.
pub proof fn law_writers_share_the_lock<W>(
    builder: SequentialWriterBuilder<W>,
    steps: Seq<WriterStep<W>>,
    i: int,
)
    requires
        builder.next_trigger is None,
        WriterChain::start(builder).can_run(steps),
        WriterChain::start(builder).run(steps).alive(i),
    ensures
        ({
            let writer = WriterChain::start(builder).run(steps).writers[i]->0;
            &&& writer.writer == builder.writer
            &&& writer.inner matches SequentialWriterInner::AcquiringLock(lock)
                ==> crate::outside::waits_for(lock, builder.writer)
        }),
{
    WriterChain::lemma_run(builder, steps);
    assert(WriterChain::start(builder).run(steps).writer_sound(builder.writer, i));
}

/// Whatever happens to a chain of writers, no two of them have the lock on the underlying writer
/// at once: a write, a flush and a close of one never overlap one of another.
pub proof fn law_one_writer_at_a_time<W>(
    builder: SequentialWriterBuilder<W>,
    steps: Seq<WriterStep<W>>,
    i: int,
    j: int,
)
    requires
        builder.next_trigger is None,
        WriterChain::start(builder).can_run(steps),
        WriterChain::start(builder).run(steps).locked_by(i),
        WriterChain::start(builder).run(steps).locked_by(j),
    ensures
        i == j,
{
    WriterChain::lemma_run(builder, steps);
}

/// Whatever happens to a chain of writers, a writer writes or flushes only once the writer before
/// it has said that it is done, be it by a write or by being dropped.
pub proof fn law_a_writer_waits_for_the_one_before<W>(
    builder: SequentialWriterBuilder<W>,
    steps: Seq<WriterStep<W>>,
    i: int,
)
    requires
        builder.next_trigger is None,
        WriterChain::start(builder).can_run(steps),
        i > 0,
        WriterChain::start(builder).run(steps).alive(i),
        ({
            let inner = WriterChain::start(builder).run(steps).writers[i]->0.inner;
            inner is Writing || inner is Flushing || inner is FinishNotifying
        }),
    ensures
        WriterChain::start(builder).run(steps).reported[i - 1],
{
    WriterChain::lemma_run(builder, steps);
    assert(WriterChain::start(builder).run(steps).writer_sound(builder.writer, i));
}

/// Once a message of the writer before it lies there, or that writer is gone, a writer that waits
/// for its turn can go on, and a writer that waits for the lock can take it once nobody has it.
pub proof fn law_a_writer_can_go_on<W>(
    chain: WriterChain<W>,
    i: int,
    lock: LockArc<W>,
    guard: MutexGuardArc<W>,
)
    requires
        chain.alive(i),
        chain.writers[i]->0.trigger is None,
        crate::outside::waits_for(lock, chain.writers[i]->0.writer),
    ensures
        ({
            let inner = chain.writers[i]->0.inner;
            let triggered = WriterStep::Poll(i, WriterCall::Write(WriterEvent::Triggered, lock));
            let locked = WriterStep::Poll(i, WriterCall::Write(WriterEvent::Locked(guard), lock));
            &&& inner is WaitingForTrigger && i > 0 && (chain.links[i - 1] || !chain.alive(i - 1))
                ==> {
                &&& chain.enabled(triggered)
                &&& chain.after(triggered).writers[i]->0.inner is AcquiringLock
            }
            &&& inner is AcquiringLock && (forall|j: int| !chain.locked_by(j)) ==> {
                &&& chain.enabled(locked)
                &&& chain.after(locked).writers[i]->0.inner == SequentialWriterInner::Writing(guard)
            }
        }),
{
}

/// What a writer says for the first time is taken at once: neither the first write of a writer nor
/// dropping one that has not written ever waits for the next writer.
pub proof fn law_the_first_report_is_taken_at_once<W>(
    builder: SequentialWriterBuilder<W>,
    steps: Seq<WriterStep<W>>,
    i: int,
)
    requires
        builder.next_trigger is None,
        WriterChain::start(builder).can_run(steps),
        WriterChain::start(builder).run(steps).alive(i),
        !WriterChain::start(builder).run(steps).reported[i],
    ensures
        WriterChain::start(builder).run(steps).takes_report(i),
        WriterChain::start(builder).run(steps).enabled(WriterStep::Drop(i)),
{
    WriterChain::lemma_run(builder, steps);
}

/// Once the builder is gone, nobody listens to the last writer: neither what it says after a write
/// nor dropping it ever waits for anybody, however often it has written.
pub proof fn law_the_last_writer_reports_at_once<W>(
    chain: WriterChain<W>,
    i: int,
    call: WriterCall<W>,
)
    requires
        chain.builder is None,
        chain.alive(i),
        i + 1 == chain.writers.len(),
    ensures
        chain.takes_report(i),
        chain.enabled(WriterStep::Drop(i)),
        chain.writers[i]->0.can_poll(call) && call.notifies() ==> chain.enabled(
            WriterStep::Poll(i, call),
        ),
{
}

/// As long as no writer is dropped before its turn has come, a writer writes or flushes only once
/// all writers before it have said that they are done.
pub proof fn law_writers_take_turns<W>(
    builder: SequentialWriterBuilder<W>,
    steps: Seq<WriterStep<W>>,
    i: int,
    j: int,
)
    requires
        builder.next_trigger is None,
        WriterChain::start(builder).can_run(steps),
        WriterChain::start(builder).orderly(steps),
        0 <= j < i,
        WriterChain::start(builder).run(steps).alive(i),
        ({
            let inner = WriterChain::start(builder).run(steps).writers[i]->0.inner;
            inner is Writing || inner is Flushing || inner is FinishNotifying
        }),
    ensures
        WriterChain::start(builder).run(steps).reported[j],
{
    WriterChain::lemma_run(builder, steps);
    law_a_writer_waits_for_the_one_before(builder, steps, i);
    WriterChain::start(builder).run(steps).lemma_reported(builder.writer, i - 1, j);
}

} // verus!
