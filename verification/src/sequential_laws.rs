//! What each call on the readers and writers that take turns is for, in terms of what goes in and
//! what comes out.
use crate::poll::Poll;
use crate::sequential::{
    Handover, ReadEvent, SequentialReader, SequentialReaderBuilder, SequentialReaderBuilderInner,
    SequentialReaderInner, SequentialWriter, SequentialWriterBuilder, SequentialWriterInner,
    WriterAction, WriterEvent,
};
use async_lock::Mutex;
use std::io::Error as IoError;
use vstd::prelude::*;

verus! {

/// The first reader that a builder hands out has the very underlying reader that the builder was
/// made around; what the builder keeps is the receiving end of a new channel with room for one, to
/// which that reader sends. The reader that is handed out next waits at that very end, and so on.
pub proof fn law_readers_are_handed_out_in_a_row<R>(
    reader: R,
    made: SequentialReaderBuilder<R>,
    builder: &mut SequentialReaderBuilder<R>,
    first: Option<SequentialReader<R>>,
    later: &mut SequentialReaderBuilder<R>,
    second: Option<SequentialReader<R>>,
)
    requires
        call_ensures(SequentialReaderBuilder::<R>::new, (reader,), made),
        *old(builder) == made,
        call_ensures(SequentialReaderBuilder::<R>::next, (builder,), first),
        *old(later) == *final(builder),
        call_ensures(SequentialReaderBuilder::<R>::next, (later,), second),
    ensures
        first is Some,
        first->0.inner == SequentialReaderInner::MyTurn(reader),
        second is Some,
        second->0.inner matches SequentialReaderInner::Waiting(rx) && call_ensures(
            async_channel::bounded::<R>,
            (1usize,),
            (first->0.next, rx),
        ),
        final(later).inner matches SequentialReaderBuilderInner::NotFirst(rx) && call_ensures(
            async_channel::bounded::<R>,
            (1usize,),
            (second->0.next, rx),
        ),
{
}

/// However many readers a builder has handed out, it hands out one more: it waits at the end that
/// the builder has kept, and the builder keeps the end of a new channel with room for one, to which
/// that reader sends.
pub proof fn law_there_is_always_a_next_reader<R>(
    builder: &mut SequentialReaderBuilder<R>,
    r: Option<SequentialReader<R>>,
)
    requires
        call_ensures(SequentialReaderBuilder::<R>::next, (builder,), r),
    ensures
        r is Some,
        old(builder).inner matches SequentialReaderBuilderInner::First(reader) ==> r->0.inner
            == SequentialReaderInner::MyTurn(reader),
        old(builder).inner matches SequentialReaderBuilderInner::NotFirst(rx) ==> r->0.inner
            == SequentialReaderInner::Waiting(rx),
        final(builder).inner matches SequentialReaderBuilderInner::NotFirst(rx) && call_ensures(
            async_channel::bounded::<R>,
            (1usize,),
            (r->0.next, rx),
        ),
{
}

/// A reader that has the underlying reader returns what that one gives, a result or an error, in
/// the call in which it gives it, and keeps it. A reader that waits for it keeps waiting until it
/// arrives, and then has it; until then it returns nothing. Where it sends it never changes.
pub proof fn law_a_reader_returns_what_the_underlying_reader_gives<R>(
    reader: &mut SequentialReader<R>,
    event: ReadEvent<R>,
    r: Poll<Result<usize, IoError>>,
)
    requires
        call_ensures(SequentialReader::<R>::poll_read, (reader, event), r),
    ensures
        event matches ReadEvent::Read(result) ==> r == Poll::Ready(result) && final(reader).inner
            == old(reader).inner,
        event matches ReadEvent::Received(underlying) ==> r is Pending && final(reader).inner
            == SequentialReaderInner::MyTurn(underlying),
        event is Pending ==> r is Pending && final(reader).inner == old(reader).inner,
        final(reader).next == old(reader).next,
{
}

/// Dropping a reader passes the underlying reader on: what it has itself, or what it waits for.
/// Dropping it once more does nothing.
pub proof fn law_a_dropped_reader_passes_on_what_it_has<R>(
    reader: &mut SequentialReader<R>,
    r: Handover<R>,
    again: &mut SequentialReader<R>,
    s: Handover<R>,
)
    requires
        call_ensures(SequentialReader::<R>::drop, (reader,), r),
        *old(again) == *final(reader),
        call_ensures(SequentialReader::<R>::drop, (again,), s),
    ensures
        old(reader).inner matches SequentialReaderInner::MyTurn(underlying) ==> r == Handover::Send(
            underlying,
        ),
        old(reader).inner matches SequentialReaderInner::Waiting(rx) ==> r
            == Handover::ReceiveThenSend(rx),
        old(reader).inner is Empty ==> r is Nothing,
        final(reader).inner is Empty,
        final(reader).next == old(reader).next,
        s is Nothing,
{
}

/// Writers are handed out without end. All of them use one lock, which was made around the
/// underlying writer; the first has nobody to wait for, and each later one has the receiving end of
/// the channel with room for one at which the writer before it reports.
pub proof fn law_writers_are_handed_out_in_a_row<W>(
    writer: W,
    made: SequentialWriterBuilder<W>,
    builder: &mut SequentialWriterBuilder<W>,
    first: Option<SequentialWriter<W>>,
    later: &mut SequentialWriterBuilder<W>,
    second: Option<SequentialWriter<W>>,
)
    requires
        call_ensures(SequentialWriterBuilder::<W>::new, (writer,), made),
        *old(builder) == made,
        call_ensures(SequentialWriterBuilder::<W>::next, (builder,), first),
        *old(later) == *final(builder),
        call_ensures(SequentialWriterBuilder::<W>::next, (later,), second),
    ensures
        call_ensures(Mutex::<W>::new, (writer,), *made.writer),
        first is Some && second is Some,
        first->0.inner is Empty && second->0.inner is Empty,
        first->0.writer == made.writer && second->0.writer == made.writer,
        first->0.trigger is None,
        second->0.trigger matches Some(rx) && call_ensures(
            async_channel::bounded::<()>,
            (1usize,),
            (*first->0.on_finish, rx),
        ),
{
}

/// However many writers a builder has handed out, it hands out one more, which is idle: it waits at
/// the end that the builder has kept, if there is one, and reports to a new channel with room for
/// one, of which the builder keeps the receiving end.
pub proof fn law_there_is_always_a_next_writer<W>(
    builder: &mut SequentialWriterBuilder<W>,
    r: Option<SequentialWriter<W>>,
)
    requires
        call_ensures(SequentialWriterBuilder::<W>::next, (builder,), r),
    ensures
        r is Some,
        r->0.inner is Empty,
        r->0.trigger == old(builder).next_trigger,
        r->0.writer == old(builder).writer,
        final(builder).writer == old(builder).writer,
        final(builder).next_trigger matches Some(rx) && call_ensures(
            async_channel::bounded::<()>,
            (1usize,),
            (*r->0.on_finish, rx),
        ),
{
}

/// A writer that has not had its turn waits for it, whatever it is asked for and whatever it was
/// about to do; one that has had its turn is left as it is. Then a write waits for what it needs
/// next, and never for anything else.
pub proof fn law_a_write_waits_for_what_it_needs_next<W>(
    writer: &mut SequentialWriter<W>,
    action: WriterAction,
)
    requires
        call_ensures(SequentialWriter::<W>::start_write, (writer,), action),
    ensures
        old(writer).trigger matches Some(rx) ==> {
            &&& final(writer).inner == SequentialWriterInner::<W>::WaitingForTrigger(rx)
            &&& final(writer).trigger is None
            &&& action is AwaitTrigger
        },
        old(writer).trigger is None ==> *final(writer) == *old(writer),
        final(writer).inner is WaitingForTrigger ==> action is AwaitTrigger,
        final(writer).inner is AcquiringLock ==> action is AwaitLock,
        final(writer).inner is Writing ==> action is Operate,
        final(writer).inner is FinishNotifying ==> action is AwaitNotification,
        final(writer).inner is Empty ==> action is Nothing,
        final(writer).writer == old(writer).writer,
        final(writer).on_finish == old(writer).on_finish,
{
}

/// The same of a flush.
pub proof fn law_a_flush_waits_for_what_it_needs_next<W>(
    writer: &mut SequentialWriter<W>,
    action: WriterAction,
)
    requires
        call_ensures(SequentialWriter::<W>::start_flush, (writer,), action),
    ensures
        old(writer).trigger matches Some(rx) ==> {
            &&& final(writer).inner == SequentialWriterInner::<W>::WaitingForTrigger(rx)
            &&& final(writer).trigger is None
            &&& action is AwaitTrigger
        },
        old(writer).trigger is None ==> *final(writer) == *old(writer),
        final(writer).inner is WaitingForTrigger ==> action is AwaitTrigger,
        final(writer).inner is AcquiringLock ==> action is AwaitLock,
        final(writer).inner is Flushing ==> action is Operate,
        final(writer).inner is Empty ==> action is Nothing,
        final(writer).writer == old(writer).writer,
        final(writer).on_finish == old(writer).on_finish,
{
}

/// A close does not wait for the turn of the writer: it waits for the lock, and works under it.
pub proof fn law_a_close_waits_for_the_lock_alone<W>(
    writer: SequentialWriter<W>,
    action: WriterAction,
)
    requires
        call_ensures(SequentialWriter::<W>::start_close, (&writer,), action),
    ensures
        !(action is AwaitTrigger || action is AwaitNotification),
        writer.inner is Empty ==> action is Nothing,
        writer.inner is AcquiringLock ==> action is AwaitLock,
        writer.inner is Closing ==> action is Operate,
{
}

/// A poll for writing comes one stage further, or stays where it is if there was nothing to wait
/// for yet: an idle writer and one whose turn has come ask for the lock of their own underlying
/// writer; with the lock it is to write under that guard; with the result of the underlying writer,
/// whatever it is, the lock is given back and the next writer is to be told; and once that has
/// happened, and not before, that very result is returned and the writer is idle again.
pub proof fn law_a_write_goes_on_stage_by_stage<W>(
    writer: &mut SequentialWriter<W>,
    event: WriterEvent<W, usize>,
    r: Poll<Result<usize, IoError>>,
)
    requires
        call_ensures(SequentialWriter::<W>::poll_write, (writer, event), r),
    ensures
        ({
            let before = old(writer).inner;
            let after = final(writer).inner;
            &&& event is Pending && before is Empty || event is Triggered
                && before is WaitingForTrigger ==> {
                &&& after is AcquiringLock
                &&& call_ensures(
                    Mutex::<W>::lock_arc,
                    (&old(writer).writer,),
                    after->AcquiringLock_0,
                )
            }
            &&& event is Pending && !(before is Empty) ==> after == before
            &&& event matches WriterEvent::Locked(guard) ==> after
                == SequentialWriterInner::Writing(guard)
            &&& event matches WriterEvent::Done(result) ==> after
                == SequentialWriterInner::<W>::FinishNotifying(result)
            &&& event is Notified ==> after is Empty
            &&& event is Notified && before is FinishNotifying ==> r == Poll::Ready(
                before->FinishNotifying_0,
            )
            &&& !(event is Notified) ==> r is Pending
        }),
        final(writer).trigger == old(writer).trigger,
        final(writer).writer == old(writer).writer,
        final(writer).on_finish == old(writer).on_finish,
{
}

/// A poll for flushing comes one stage further, or stays where it is if there was nothing to wait
/// for yet: an idle writer and one whose turn has come ask for the lock of their own underlying
/// writer; with the lock it is to flush under that guard; and with the result of the underlying
/// writer, and not before, that very result is returned, the lock is given back and the writer is
/// idle again.
pub proof fn law_a_flush_goes_on_stage_by_stage<W>(
    writer: &mut SequentialWriter<W>,
    event: WriterEvent<W, ()>,
    r: Poll<Result<(), IoError>>,
)
    requires
        call_ensures(SequentialWriter::<W>::poll_flush, (writer, event), r),
        !(event is Notified),
    ensures
        ({
            let before = old(writer).inner;
            let after = final(writer).inner;
            &&& event is Pending && before is Empty || event is Triggered
                && before is WaitingForTrigger ==> {
                &&& after is AcquiringLock
                &&& call_ensures(
                    Mutex::<W>::lock_arc,
                    (&old(writer).writer,),
                    after->AcquiringLock_0,
                )
            }
            &&& event is Pending && !(before is Empty) ==> after == before
            &&& event matches WriterEvent::Locked(guard) ==> after
                == SequentialWriterInner::Flushing(guard)
            &&& event matches WriterEvent::Done(result) ==> after is Empty && r == Poll::Ready(
                result,
            )
            &&& !(event is Done) ==> r is Pending
        }),
        final(writer).trigger == old(writer).trigger,
        final(writer).writer == old(writer).writer,
        final(writer).on_finish == old(writer).on_finish,
{
}

/// A poll for closing comes one stage further, or stays where it is if there was nothing to wait
/// for yet: an idle writer asks for the lock of its own underlying writer, whether its turn has
/// come or not; with the lock it is to close under that guard; and with the result of the
/// underlying writer, and not before, that very result is returned, the lock is given back and the
/// writer is idle again. Its turn is neither waited for nor given up.
pub proof fn law_a_close_goes_on_stage_by_stage<W>(
    writer: &mut SequentialWriter<W>,
    event: WriterEvent<W, ()>,
    r: Poll<Result<(), IoError>>,
)
    requires
        call_ensures(SequentialWriter::<W>::poll_close, (writer, event), r),
        !(event is Notified || event is Triggered),
    ensures
        ({
            let before = old(writer).inner;
            let after = final(writer).inner;
            &&& event is Pending && before is Empty ==> {
                &&& after is AcquiringLock
                &&& call_ensures(
                    Mutex::<W>::lock_arc,
                    (&old(writer).writer,),
                    after->AcquiringLock_0,
                )
            }
            &&& event is Pending && !(before is Empty) ==> after == before
            &&& event matches WriterEvent::Locked(guard) ==> after
                == SequentialWriterInner::Closing(guard)
            &&& event matches WriterEvent::Done(result) ==> after is Empty && r == Poll::Ready(
                result,
            )
            &&& !(event is Done) ==> r is Pending
        }),
        final(writer).trigger == old(writer).trigger,
        final(writer).writer == old(writer).writer,
        final(writer).on_finish == old(writer).on_finish,
{
}

/// Dropping a writer, whatever it was about to do, leaves its report to the next writer to be made,
/// at the end where it always reports.
pub proof fn law_a_dropped_writer_reports<W>(
    writer: &mut SequentialWriter<W>,
    action: WriterAction,
)
    requires
        call_ensures(SequentialWriter::<W>::drop, (writer,), action),
    ensures
        action is AwaitNotification,
        final(writer).on_finish == old(writer).on_finish,
        final(writer).writer == old(writer).writer,
        final(writer).trigger == old(writer).trigger,
        final(writer).inner == old(writer).inner,
{
}

} // verus!
