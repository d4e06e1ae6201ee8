use futures_lite::future::block_on;
use std::io::{Error, ErrorKind};
use std::sync::Arc;
use tiny_http::poll::Poll;
use tiny_http::refined_tcp_stream::{
    RefinedTcpStream, RefinedTcpStreamReader, Shutdown, Stream, StreamAction, StreamEvent,
};

type Half = RefinedTcpStream<Arc<u32>, String>;

fn plain() -> (Half, Half) {
    RefinedTcpStream::new(Stream::from(Arc::new(8u32)))
}

fn encrypted() -> (Half, Half) {
    RefinedTcpStream::new(Stream::from_ssl(String::from("tls")))
}

#[test]
fn halves_share_a_plain_connection() {
    let (read, write) = plain();
    match (&read.stream, &write.stream) {
        (Stream::Http(a), Stream::Http(b)) => {
            assert_eq!(**a, 8);
            assert!(Arc::ptr_eq(a, b));
        }
        _ => panic!("not plain"),
    }
    assert!(!read.secure());
    assert!(!write.secure());
}

#[test]
fn halves_share_an_encrypted_connection() {
    let (read, write) = encrypted();
    match (&read.stream, &write.stream) {
        (Stream::Https(a), Stream::Https(b)) => {
            assert!(Arc::ptr_eq(a, b));
            assert_eq!(*a.try_lock().unwrap(), "tls");
        }
        _ => panic!("not encrypted"),
    }
    assert!(read.secure());
    assert!(write.secure());
}

#[test]
fn each_half_closes_its_own_direction() {
    let (mut read, mut write) = plain();
    assert!(read.close_read && !read.close_write);
    assert!(!write.close_read && write.close_write);
    assert_eq!(read.drop(), vec![Shutdown::Read]);
    assert_eq!(write.drop(), vec![Shutdown::Write]);
}

#[test]
fn a_half_that_closes_both_directions_closes_reading_first() {
    let (mut read, _write) = plain();
    read.close_write = true;
    assert_eq!(read.drop(), vec![Shutdown::Read, Shutdown::Write]);
    read.close_read = false;
    read.close_write = false;
    assert_eq!(read.drop(), vec![]);
}

#[test]
fn a_plain_connection_is_worked_on_at_once() {
    let (mut read, _write) = plain();
    assert!(matches!(read.start_operation_ssl(), StreamAction::OperateHttp));
    assert!(matches!(read.do_operation_ssl::<usize>(StreamEvent::Pending), Poll::Pending));
    assert!(matches!(read.do_operation_ssl(StreamEvent::Done(Ok(7usize))), Poll::Ready(Ok(7))));
    assert!(matches!(read.ssl_fut, RefinedTcpStreamReader::Waiting));
}

#[test]
fn an_encrypted_connection_is_worked_on_under_the_lock() {
    let (mut read, mut write) = encrypted();
    assert!(matches!(read.start_operation_ssl(), StreamAction::AwaitLock));
    let guard = match &mut read.ssl_fut {
        RefinedTcpStreamReader::LockingSsl(lock) => block_on(lock),
        _ => panic!("it does not wait for the lock"),
    };
    assert_eq!(*guard, "tls");
    // the poll in which the lock is acquired does not work yet
    assert!(matches!(read.do_operation_ssl::<usize>(StreamEvent::Locked(guard)), Poll::Pending));
    assert!(matches!(read.start_operation_ssl(), StreamAction::OperateSsl));

    // the other half has to wait
    assert!(matches!(write.start_operation_ssl(), StreamAction::AwaitLock));
    match &write.stream {
        Stream::Https(mutex) => assert!(mutex.try_lock().is_none()),
        _ => panic!("not encrypted"),
    }

    assert!(matches!(read.do_operation_ssl(StreamEvent::Done(Ok(3usize))), Poll::Ready(Ok(3))));
    assert!(matches!(read.ssl_fut, RefinedTcpStreamReader::Waiting));
    let guard = match &mut write.ssl_fut {
        RefinedTcpStreamReader::LockingSsl(lock) => block_on(lock),
        _ => panic!("it does not wait for the lock"),
    };
    assert!(matches!(write.do_operation_ssl::<()>(StreamEvent::Locked(guard)), Poll::Pending));
    match write.do_operation_ssl::<()>(StreamEvent::Done(Err(Error::new(ErrorKind::Other, "x")))) {
        Poll::Ready(Err(e)) => assert_eq!(e.to_string(), "x"),
        _ => panic!("the error is lost"),
    }
    assert!(matches!(write.ssl_fut, RefinedTcpStreamReader::Waiting));
}

#[test]
fn a_dropped_half_gives_the_lock_back_and_closes_under_it() {
    let (mut read, _write) = encrypted();
    read.start_operation_ssl();
    let guard = match &mut read.ssl_fut {
        RefinedTcpStreamReader::LockingSsl(lock) => block_on(lock),
        _ => panic!("it does not wait for the lock"),
    };
    let _ = read.do_operation_ssl::<usize>(StreamEvent::Locked(guard));
    let mutex = match &read.stream {
        Stream::Https(mutex) => mutex.clone(),
        _ => panic!("not encrypted"),
    };
    assert!(mutex.try_lock().is_none());
    assert_eq!(read.drop(), vec![Shutdown::Read]);
    assert!(matches!(read.ssl_fut, RefinedTcpStreamReader::Waiting));
    assert!(mutex.try_lock().is_some());
    assert!(read.secure() && read.close_read && !read.close_write);
    // to close is an operation under the lock
    assert!(matches!(read.start_operation_ssl(), StreamAction::AwaitLock));
}
