use futures_lite::future::block_on;
use std::io::{Error, ErrorKind};
use tiny_http::poll::Poll;
use tiny_http::sequential::{
    Handover, ReadEvent, SequentialReader, SequentialReaderBuilder, SequentialReaderBuilderInner,
    SequentialReaderInner,
};

/// Does what dropping a reader leaves to do.
fn finish(reader: &mut SequentialReader<u32>) {
    let underlying = match reader.drop() {
        Handover::Send(underlying) => underlying,
        Handover::ReceiveThenSend(rx) => block_on(rx.recv()).unwrap(),
        Handover::Nothing => return,
    };
    let _ = block_on(reader.next.send(underlying));
}

#[test]
fn new_builder_has_the_reader() {
    let builder = SequentialReaderBuilder::new(5u32);
    assert!(matches!(builder.inner, SequentialReaderBuilderInner::First(5)));
}

#[test]
fn first_reader_has_its_turn_and_the_others_wait() {
    let mut builder = SequentialReaderBuilder::new(5u32);
    let first = builder.next().unwrap();
    let second = builder.next().unwrap();
    let third = builder.next().unwrap();
    assert!(matches!(first.inner, SequentialReaderInner::MyTurn(5)));
    assert!(matches!(second.inner, SequentialReaderInner::Waiting(_)));
    assert!(matches!(third.inner, SequentialReaderInner::Waiting(_)));
    assert!(matches!(builder.inner, SequentialReaderBuilderInner::NotFirst(_)));
}

#[test]
fn channel_of_a_reader_has_room_for_one() {
    let mut builder = SequentialReaderBuilder::new(5u32);
    let first = builder.next().unwrap();
    assert_eq!(first.next.capacity(), Some(1));
}

#[test]
fn readers_pass_the_underlying_reader_on() {
    let mut builder = SequentialReaderBuilder::new(77u32);
    let mut first = builder.next().unwrap();
    let mut second = builder.next().unwrap();
    let mut third = builder.next().unwrap();

    // nothing has arrived yet
    assert!(matches!(second.poll_read(ReadEvent::Pending), Poll::Pending));
    assert!(matches!(second.inner, SequentialReaderInner::Waiting(_)));

    finish(&mut first);
    assert!(matches!(first.inner, SequentialReaderInner::Empty));

    let arrived = match &second.inner {
        SequentialReaderInner::Waiting(rx) => rx.try_recv().unwrap(),
        _ => panic!("the second reader does not wait"),
    };
    assert_eq!(arrived, 77);
    // the poll in which the underlying reader arrives does not read
    assert!(matches!(second.poll_read(ReadEvent::Received(arrived)), Poll::Pending));
    assert!(matches!(second.inner, SequentialReaderInner::MyTurn(77)));
    assert!(matches!(third.inner, SequentialReaderInner::Waiting(_)));

    finish(&mut second);
    // dropped while it waits: passes on what it receives
    finish(&mut third);
    let last = builder.next().unwrap();
    match &last.inner {
        SequentialReaderInner::Waiting(rx) => assert_eq!(rx.try_recv().unwrap(), 77),
        _ => panic!("the last reader does not wait"),
    }
}

#[test]
fn reading_returns_what_the_underlying_reader_gave() {
    let mut builder = SequentialReaderBuilder::new(1u32);
    let mut reader = builder.next().unwrap();
    assert!(matches!(reader.poll_read(ReadEvent::Pending), Poll::Pending));
    assert!(matches!(reader.poll_read(ReadEvent::Read(Ok(12))), Poll::Ready(Ok(12))));
    match reader.poll_read(ReadEvent::Read(Err(Error::new(ErrorKind::Other, "broken")))) {
        Poll::Ready(Err(e)) => assert_eq!(e.to_string(), "broken"),
        _ => panic!("the error is lost"),
    }
    assert!(matches!(reader.inner, SequentialReaderInner::MyTurn(1)));
}

#[test]
fn a_second_drop_has_nothing_to_do() {
    let mut builder = SequentialReaderBuilder::new(1u32);
    let mut reader = builder.next().unwrap();
    assert!(matches!(reader.drop(), Handover::Send(1)));
    assert!(matches!(reader.drop(), Handover::Nothing));
}

#[test]
fn at_most_one_reader_has_its_turn() {
    let mut builder = SequentialReaderBuilder::new(9u32);
    let mut readers: Vec<SequentialReader<u32>> = Vec::new();
    for _ in 0..5 {
        readers.push(builder.next().unwrap());
    }
    for turn in 0..5 {
        for i in 0..5 {
            let has_it = matches!(readers[i].inner, SequentialReaderInner::MyTurn(9));
            let waits = matches!(readers[i].inner, SequentialReaderInner::Waiting(_));
            assert_eq!(has_it, i == turn);
            assert_eq!(waits, i > turn);
        }
        finish(&mut readers[turn]);
        if turn + 1 < 5 {
            let arrived = match &readers[turn + 1].inner {
                SequentialReaderInner::Waiting(rx) => rx.try_recv().unwrap(),
                _ => panic!("it does not wait"),
            };
            readers[turn + 1].poll_read(ReadEvent::Received(arrived));
        }
    }
}

/// Reads up to `n` bytes with a reader whose turn it is or comes, from an underlying reader that
/// delivers the bytes of a vector from the front.
fn read(reader: &mut SequentialReader<Vec<u8>>, n: usize) -> Vec<u8> {
    loop {
        let mut bytes = Vec::new();
        let event = match &mut reader.inner {
            SequentialReaderInner::MyTurn(underlying) => {
                let n = n.min(underlying.len());
                bytes.extend(underlying.drain(..n));
                ReadEvent::Read(Ok(n))
            }
            SequentialReaderInner::Waiting(rx) => ReadEvent::Received(rx.try_recv().unwrap()),
            SequentialReaderInner::Empty => panic!("the reader is done"),
        };
        if let Poll::Ready(result) = reader.poll_read(event) {
            assert_eq!(result.unwrap(), bytes.len());
            return bytes;
        }
    }
}

#[test]
fn what_is_read_is_what_was_delivered() {
    let delivered: Vec<u8> = (0..10).collect();
    let mut builder = SequentialReaderBuilder::new(delivered.clone());
    let mut all = Vec::new();
    for turn in 0..4 {
        let mut reader = builder.next().unwrap();
        all.extend(read(&mut reader, turn));
        all.extend(read(&mut reader, 2));
        match reader.drop() {
            // the underlying reader is passed on as the reads have left it
            Handover::Send(underlying) => {
                assert_eq!(underlying, delivered[all.len()..].to_vec());
                block_on(reader.next.send(underlying)).unwrap();
            }
            _ => panic!("nothing to pass on"),
        }
    }
    assert_eq!(all, delivered);
}
