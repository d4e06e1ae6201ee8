use async_lock::MutexGuardArc;
use futures_lite::future::block_on;
use std::io::{Error, ErrorKind};
use std::sync::Arc;
use tiny_http::poll::Poll;
use tiny_http::sequential::{
    SequentialWriter, SequentialWriterBuilder, SequentialWriterInner, WriterAction, WriterEvent,
};

/// Polls the lock that the writer waits for.
fn lock(writer: &mut SequentialWriter<Vec<u8>>) -> MutexGuardArc<Vec<u8>> {
    match &mut writer.inner {
        SequentialWriterInner::AcquiringLock(lock) => block_on(lock),
        _ => panic!("the writer does not wait for the lock"),
    }
}

/// Writes `bytes` with a writer whose turn has come.
fn write(writer: &mut SequentialWriter<Vec<u8>>, bytes: &[u8]) -> usize {
    loop {
        let event = match writer.start_write() {
            WriterAction::AwaitTrigger => {
                match &writer.inner {
                    SequentialWriterInner::WaitingForTrigger(rx) => rx.try_recv().unwrap(),
                    _ => panic!("no trigger"),
                }
                WriterEvent::Triggered
            }
            WriterAction::AwaitLock => WriterEvent::Locked(lock(writer)),
            WriterAction::Operate => {
                match &mut writer.inner {
                    SequentialWriterInner::Writing(guard) => guard.extend_from_slice(bytes),
                    _ => panic!("no lock"),
                }
                WriterEvent::Done(Ok(bytes.len()))
            }
            WriterAction::AwaitNotification => {
                // the lock was given back before the next writer is told
                assert!(writer.writer.try_lock().is_some());
                writer.on_finish.try_send(()).unwrap();
                WriterEvent::Notified
            }
            WriterAction::Nothing => WriterEvent::Pending,
        };
        match writer.poll_write(event) {
            Poll::Ready(result) => return result.unwrap(),
            Poll::Pending => {}
        }
    }
}

#[test]
fn new_builder_puts_the_writer_behind_a_lock() {
    let builder = SequentialWriterBuilder::new(vec![3u8, 4]);
    assert!(builder.next_trigger.is_none());
    assert_eq!(*builder.writer.try_lock().unwrap(), vec![3u8, 4]);
}

#[test]
fn only_the_first_writer_has_no_trigger() {
    let mut builder = SequentialWriterBuilder::new(Vec::<u8>::new());
    let first = builder.next().unwrap();
    let second = builder.next().unwrap();
    assert!(matches!(first.inner, SequentialWriterInner::Empty));
    assert!(first.trigger.is_none());
    assert!(matches!(second.inner, SequentialWriterInner::Empty));
    assert!(second.trigger.is_some());
    assert!(Arc::ptr_eq(&first.writer, &second.writer));
    assert!(Arc::ptr_eq(&first.writer, &builder.writer));
    assert_eq!(first.on_finish.capacity(), Some(1));
}

#[test]
fn each_writer_reports_to_the_next() {
    let mut builder = SequentialWriterBuilder::new(Vec::<u8>::new());
    let first = builder.next().unwrap();
    let second = builder.next().unwrap();
    let trigger = second.trigger.unwrap();
    assert!(trigger.try_recv().is_err());
    first.on_finish.try_send(()).unwrap();
    assert!(trigger.try_recv().is_ok());
}

#[test]
fn writers_write_in_turn() {
    let mut builder = SequentialWriterBuilder::new(Vec::<u8>::new());
    let mut first = builder.next().unwrap();
    let mut second = builder.next().unwrap();
    let mut third = builder.next().unwrap();

    // the second starts to wait before the first writes
    assert!(matches!(second.start_write(), WriterAction::AwaitTrigger));
    assert!(matches!(second.poll_write(WriterEvent::Pending), Poll::Pending));
    assert!(second.trigger.is_none());

    assert_eq!(write(&mut first, b"one "), 4);
    assert_eq!(write(&mut second, b"two "), 4);
    assert_eq!(write(&mut third, b"three"), 5);
    assert_eq!(*builder.writer.try_lock().unwrap(), b"one two three".to_vec());
    assert!(matches!(first.inner, SequentialWriterInner::Empty));
}

#[test]
fn a_write_goes_through_all_states() {
    let mut builder = SequentialWriterBuilder::new(Vec::<u8>::new());
    let mut writer = builder.next().unwrap();
    assert!(matches!(writer.start_write(), WriterAction::Nothing));
    assert!(matches!(writer.poll_write(WriterEvent::Pending), Poll::Pending));
    assert!(matches!(writer.start_write(), WriterAction::AwaitLock));
    assert!(matches!(writer.poll_write(WriterEvent::Pending), Poll::Pending));
    let guard = lock(&mut writer);
    assert!(matches!(writer.poll_write(WriterEvent::Locked(guard)), Poll::Pending));
    assert!(writer.writer.try_lock().is_none());
    assert!(matches!(writer.start_write(), WriterAction::Operate));
    assert!(matches!(writer.poll_write(WriterEvent::Pending), Poll::Pending));
    assert!(matches!(writer.poll_write(WriterEvent::Done(Ok(3))), Poll::Pending));
    assert!(writer.writer.try_lock().is_some());
    assert!(matches!(writer.start_write(), WriterAction::AwaitNotification));
    assert!(matches!(writer.poll_write(WriterEvent::Pending), Poll::Pending));
    assert!(matches!(writer.poll_write(WriterEvent::Notified), Poll::Ready(Ok(3))));
    assert!(matches!(writer.inner, SequentialWriterInner::Empty));
}

#[test]
fn an_error_is_returned_after_the_notification() {
    let mut builder = SequentialWriterBuilder::new(Vec::<u8>::new());
    let mut writer = builder.next().unwrap();
    writer.start_write();
    writer.poll_write(WriterEvent::Pending);
    let guard = lock(&mut writer);
    writer.poll_write(WriterEvent::Locked(guard));
    let error = Error::new(ErrorKind::Other, "full");
    assert!(matches!(writer.poll_write(WriterEvent::Done(Err(error))), Poll::Pending));
    match writer.poll_write(WriterEvent::Notified) {
        Poll::Ready(Err(e)) => assert_eq!(e.to_string(), "full"),
        _ => panic!("the error is lost"),
    }
}

#[test]
fn a_flush_waits_for_its_turn_and_does_not_notify() {
    let mut builder = SequentialWriterBuilder::new(Vec::<u8>::new());
    let first = builder.next().unwrap();
    let mut second = builder.next().unwrap();
    assert!(matches!(second.start_flush(), WriterAction::AwaitTrigger));
    assert!(matches!(second.poll_flush(WriterEvent::Pending), Poll::Pending));
    first.on_finish.try_send(()).unwrap();
    assert!(matches!(second.start_flush(), WriterAction::AwaitTrigger));
    assert!(matches!(second.poll_flush(WriterEvent::Triggered), Poll::Pending));
    assert!(matches!(second.start_flush(), WriterAction::AwaitLock));
    let guard = lock(&mut second);
    assert!(matches!(second.poll_flush(WriterEvent::Locked(guard)), Poll::Pending));
    assert!(matches!(second.inner, SequentialWriterInner::Flushing(_)));
    assert!(matches!(second.start_flush(), WriterAction::Operate));
    assert!(matches!(second.poll_flush(WriterEvent::Done(Ok(()))), Poll::Ready(Ok(()))));
    assert!(matches!(second.inner, SequentialWriterInner::Empty));
    assert!(second.writer.try_lock().is_some());
    assert!(second.on_finish.is_empty());
}

#[test]
fn a_close_does_not_wait_for_its_turn() {
    let mut builder = SequentialWriterBuilder::new(Vec::<u8>::new());
    let _first = builder.next().unwrap();
    let mut second = builder.next().unwrap();
    assert!(matches!(second.start_close(), WriterAction::Nothing));
    assert!(matches!(second.poll_close(WriterEvent::Pending), Poll::Pending));
    assert!(matches!(second.start_close(), WriterAction::AwaitLock));
    let guard = lock(&mut second);
    assert!(matches!(second.poll_close(WriterEvent::Locked(guard)), Poll::Pending));
    assert!(matches!(second.inner, SequentialWriterInner::Closing(_)));
    assert!(matches!(second.start_close(), WriterAction::Operate));
    match second.poll_close(WriterEvent::Done(Err(Error::new(ErrorKind::Other, "gone")))) {
        Poll::Ready(Err(e)) => assert_eq!(e.to_string(), "gone"),
        _ => panic!("the error is lost"),
    }
    assert!(second.trigger.is_some());
    assert!(matches!(second.inner, SequentialWriterInner::Empty));
}

#[test]
fn a_write_gives_up_a_close_that_came_before_its_turn() {
    let mut builder = SequentialWriterBuilder::new(Vec::<u8>::new());
    let _first = builder.next().unwrap();
    let mut second = builder.next().unwrap();
    second.poll_close(WriterEvent::Pending);
    let guard = lock(&mut second);
    second.poll_close(WriterEvent::Locked(guard));
    assert!(second.writer.try_lock().is_none());
    assert!(matches!(second.start_write(), WriterAction::AwaitTrigger));
    assert!(second.writer.try_lock().is_some());
}

#[test]
fn two_writers_never_have_the_lock_at_once() {
    let mut builder = SequentialWriterBuilder::new(Vec::<u8>::new());
    let mut first = builder.next().unwrap();
    let mut second = builder.next().unwrap();
    first.poll_close(WriterEvent::Pending);
    second.poll_close(WriterEvent::Pending);
    let guard = lock(&mut first);
    first.poll_close(WriterEvent::Locked(guard));
    assert!(second.writer.try_lock_arc().is_none());
    assert!(matches!(first.poll_close(WriterEvent::Done(Ok(()))), Poll::Ready(Ok(()))));
    let guard = lock(&mut second);
    second.poll_close(WriterEvent::Locked(guard));
    assert!(matches!(second.inner, SequentialWriterInner::Closing(_)));
}

#[test]
fn the_first_report_finds_room() {
    let mut builder = SequentialWriterBuilder::new(Vec::<u8>::new());
    let mut first = builder.next().unwrap();
    assert_eq!(write(&mut first, b"ab"), 2);
    // a second report waits until the next writer has seen the first
    assert!(first.on_finish.is_full());
    let mut second = builder.next().unwrap();
    assert_eq!(write(&mut second, b"c"), 1);
    // nobody listens to the first writer any more
    assert!(first.on_finish.is_closed());
    assert_eq!(*builder.writer.try_lock().unwrap(), b"abc".to_vec());
}

#[test]
fn without_a_builder_the_last_writer_reports_at_once() {
    let mut builder = SequentialWriterBuilder::new(Vec::<u8>::new());
    let mut first = builder.next().unwrap();
    let mut last = builder.next().unwrap();
    assert_eq!(write(&mut first, b"a"), 1);
    let underlying = builder.writer.clone();
    drop(builder);
    // nobody will ever listen to the last writer
    assert!(last.on_finish.is_closed());
    assert!(block_on(last.on_finish.send(())).is_err());
    assert!(matches!(last.start_write(), WriterAction::AwaitTrigger));
    assert!(matches!(last.poll_write(WriterEvent::Triggered), Poll::Pending));
    let guard = lock(&mut last);
    assert!(matches!(last.poll_write(WriterEvent::Locked(guard)), Poll::Pending));
    assert!(matches!(last.poll_write(WriterEvent::Done(Ok(0))), Poll::Pending));
    assert!(matches!(last.poll_write(WriterEvent::Notified), Poll::Ready(Ok(0))));
    assert_eq!(*underlying.try_lock().unwrap(), b"a".to_vec());
}

#[test]
fn a_dropped_writer_has_to_report() {
    let mut builder = SequentialWriterBuilder::new(Vec::<u8>::new());
    let mut first = builder.next().unwrap();
    let mut second = builder.next().unwrap();
    assert!(matches!(first.drop(), WriterAction::AwaitNotification));
    first.on_finish.try_send(()).unwrap();
    assert_eq!(write(&mut second, b"c"), 1);
    assert!(matches!(second.drop(), WriterAction::AwaitNotification));
    assert!(second.trigger.is_none());
    assert!(matches!(second.inner, SequentialWriterInner::Empty));
}
