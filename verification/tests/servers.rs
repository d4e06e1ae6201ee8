use openssl::asn1::Asn1Time;
use openssl::hash::MessageDigest;
use openssl::pkey::{PKey, Private};
use openssl::rsa::Rsa;
use openssl::ssl::{Ssl, SslVerifyMode};
use openssl::x509::{X509Name, X509};
use std::io::{Error, ErrorKind};
use tiny_http::message::{Message, Request};
use tiny_http::poll::Poll;
use tiny_http::refined_tcp_stream::{RefinedTcpStream, Stream};
use tiny_http::server::{IpAddr, Server, ServerConfig, ServerError, SocketAddr};
use tiny_http::ssl::SslConfig;
use tiny_http::tasks::{
    ClientAction, ClientEvent, ClientPhase, ClientTask, RunnerAction, RunnerEvent, RunnerPhase,
    RunnerTask,
};

type Event = RunnerEvent<u32, String>;
type Action = RunnerAction<u32, String>;

const ADDR: SocketAddr =
    SocketAddr { ip: IpAddr::V4(0x7f000001), port: 8080, flowinfo: 0, scope_id: 0 };

fn server() -> Server<&'static str, u32> {
    match Server::http("127.0.0.1:8080", Ok(ADDR)) {
        Ok((server, None)) => server,
        _ => panic!("no plain server"),
    }
}

fn error(text: &str) -> Error {
    Error::new(ErrorKind::Other, text)
}

fn key() -> PKey<Private> {
    PKey::from_rsa(Rsa::generate(2048).unwrap()).unwrap()
}

fn certificate(key: &PKey<Private>) -> X509 {
    let mut name = X509Name::builder().unwrap();
    name.append_entry_by_text("CN", "localhost").unwrap();
    let name = name.build();
    let mut builder = X509::builder().unwrap();
    builder.set_version(2).unwrap();
    builder.set_subject_name(&name).unwrap();
    builder.set_issuer_name(&name).unwrap();
    builder.set_not_before(&Asn1Time::days_from_now(0).unwrap()).unwrap();
    builder.set_not_after(&Asn1Time::days_from_now(1).unwrap()).unwrap();
    builder.set_pubkey(key).unwrap();
    builder.sign(key, MessageDigest::sha256()).unwrap();
    builder.build()
}

fn ssl_config() -> SslConfig {
    let key = key();
    SslConfig {
        certificate: certificate(&key).to_pem().unwrap(),
        private_key: key.private_key_to_pem_pkcs8().unwrap(),
    }
}

/// Lets the task accept the client `sock`.
fn serve(server: &mut Server<&'static str, u32>, task: &mut RunnerTask, sock: u32) {
    let action: Action = server.runner_task(task, Event::Resume);
    assert!(matches!(action, RunnerAction::Accept));
    let action: Action = server.runner_task(task, Event::Accepted(sock));
    assert!(matches!(action, RunnerAction::Serve { .. }));
}

#[test]
fn a_new_server_listens_and_is_empty() {
    let mut server = server();
    assert_eq!(server.server_addr(), ADDR);
    assert_eq!(server.num_connections(), 0);
    assert!(matches!(server.try_recv(), Ok(None)));
    assert!(matches!(server.recv(), Poll::Pending));
}

#[test]
fn a_server_without_a_listener_is_refused() {
    match Server::<u8, u32>::http("0.0.0.0:80", Err(error("in use"))) {
        Err(ServerError::Io(e)) => assert_eq!(e.to_string(), "in use"),
        _ => panic!("made without a listener"),
    }
    // the listener is tried before the configuration
    let config = ServerConfig { addr: "0.0.0.0:80", ssl: Some(ssl_config()) };
    assert!(matches!(
        Server::<u8, u32>::new(config, Err(error("in use")), false),
        Err(ServerError::Io(_))
    ));
}

#[test]
fn ssl_that_is_not_built_in_is_refused() {
    let config = ServerConfig { addr: "0.0.0.0:80", ssl: Some(ssl_config()) };
    match Server::<u8, u32>::new(config, Ok(ADDR), false) {
        Err(e) => {
            assert!(matches!(e, ServerError::SslNotEnabled));
            assert_eq!(
                e.message(),
                Some("Building a server with SSL requires enabling the `ssl` feature in tiny-http")
            );
        }
        Ok(_) => panic!("made with SSL"),
    }
    assert_eq!(ServerError::Io(error("x")).message(), None);
}

#[test]
fn an_https_server_has_the_context_of_its_configuration() {
    let config = ssl_config();
    let expected = config.certificate.clone();
    match Server::<u8, u32>::https("0.0.0.0:443", config, Ok(ADDR)) {
        Ok((server, Some(context))) => {
            assert_eq!(server.server_addr(), ADDR);
            assert_eq!(context.certificate().unwrap().to_pem().unwrap(), expected);
        }
        _ => panic!("no https server"),
    }
}

#[test]
fn an_https_server_with_a_bad_certificate_is_refused() {
    let mut config = ssl_config();
    config.certificate = b"not a certificate".to_vec();
    assert!(matches!(
        Server::<u8, u32>::https("0.0.0.0:443", config, Ok(ADDR)),
        Err(ServerError::Ssl(_))
    ));
}

#[test]
fn building_a_context_configures_it_and_wipes_the_secrets() {
    let mut config = ssl_config();
    let before = config.clone();
    let context = config.build_context().unwrap();
    assert_eq!(config.certificate, vec![0u8; before.certificate.len()]);
    assert_eq!(config.private_key, vec![0u8; before.private_key.len()]);
    assert_eq!(context.certificate().unwrap().to_pem().unwrap(), before.certificate);
    assert_eq!(
        context.private_key().unwrap().private_key_to_pem_pkcs8().unwrap(),
        before.private_key
    );
    let session = Ssl::new(&context).unwrap();
    assert_eq!(session.verify_mode(), SslVerifyMode::NONE);
}

#[test]
fn a_key_that_does_not_fit_is_refused_and_nothing_is_wiped() {
    let mut config = ssl_config();
    config.private_key = key().private_key_to_pem_pkcs8().unwrap();
    let before = config.clone();
    assert!(config.build_context().is_err());
    assert_eq!(config.certificate, before.certificate);
    assert_eq!(config.private_key, before.private_key);
}

#[test]
fn a_bad_key_is_refused_and_nothing_is_wiped() {
    let mut config = ssl_config();
    config.private_key = b"no key".to_vec();
    let before = config.clone();
    assert!(config.build_context().is_err());
    assert_eq!(config.certificate, before.certificate);
    assert_eq!(config.private_key, b"no key".to_vec());
}

#[test]
fn an_accepted_client_is_served_over_two_halves() {
    let mut server = server();
    let mut task = RunnerTask::new(None);
    assert_eq!(task.phase, RunnerPhase::Idle);
    let action: Action = server.runner_task(&mut task, Event::Resume);
    assert!(matches!(action, RunnerAction::Accept));
    match server.runner_task(&mut task, Event::Accepted(42)) {
        RunnerAction::Serve { client, read, write } => {
            assert_eq!(client.phase, ClientPhase::Reading);
            assert!(client.notify.is_none());
            let halves: [RefinedTcpStream<u32, String>; 2] = [read, write];
            assert!(matches!(halves[0].stream, Stream::Http(42)));
            assert!(matches!(halves[1].stream, Stream::Http(42)));
            assert!(halves[0].close_read && !halves[0].close_write);
            assert!(!halves[1].close_read && halves[1].close_write);
        }
        _ => panic!("not served"),
    }
    assert_eq!(task.phase, RunnerPhase::Idle);
    assert_eq!(server.num_connections(), 1);
}

#[test]
fn an_encrypted_client_is_served_after_the_handshake() {
    let mut server = server();
    let context = ssl_config().build_context().unwrap();
    let mut task = RunnerTask::new(Some(context));
    let _: Action = server.runner_task(&mut task, Event::Resume);
    match server.runner_task(&mut task, Event::Accepted(42)) {
        RunnerAction::Handshake { sock, session } => {
            assert_eq!(sock, 42);
            assert_eq!(
                session.ssl_context().certificate().unwrap().to_pem().unwrap(),
                task.ssl.as_ref().unwrap().certificate().unwrap().to_pem().unwrap()
            );
        }
        _ => panic!("no handshake"),
    }
    assert_eq!(server.num_connections(), 1);
    match server.runner_task(&mut task, Event::HandshakeDone(String::from("tls"))) {
        RunnerAction::Serve { client, read, write } => {
            // a client on an encrypted connection is synchronized
            let (sender, receiver) = client.notify.unwrap();
            sender.try_send(()).unwrap();
            assert!(receiver.try_recv().is_ok());
            assert!(read.secure());
            match write.stream {
                Stream::Https(ssl) => assert_eq!(*ssl.try_lock().unwrap(), "tls"),
                Stream::Http(_) => panic!("not encrypted"),
            }
        }
        _ => panic!("not served"),
    }
    assert_eq!(server.num_connections(), 1);
}

#[test]
fn a_client_that_fails_the_handshake_counts_no_longer() {
    let mut server = server();
    let mut task = RunnerTask::new(Some(ssl_config().build_context().unwrap()));
    let _: Action = server.runner_task(&mut task, Event::Resume);
    let _: Action = server.runner_task(&mut task, Event::Accepted(1));
    assert_eq!(server.num_connections(), 1);
    let action: Action = server.runner_task(&mut task, Event::HandshakeFailed);
    assert!(matches!(action, RunnerAction::Accept));
    assert_eq!(task.phase, RunnerPhase::Accepting);
    assert_eq!(server.num_connections(), 0);
}

#[test]
fn without_a_session_the_task_fails() {
    let mut config = ssl_config();
    config.certificate = Vec::new();
    let reason = match config.build_context() {
        Err(reason) => reason,
        Ok(_) => panic!("a context without a certificate"),
    };
    let mut server = server();
    let mut task = RunnerTask::new(Some(ssl_config().build_context().unwrap()));
    let _: Action = server.runner_task(&mut task, Event::Resume);
    let action: Action = server.begin_handshake(&mut task, 1, Err(reason));
    assert!(matches!(action, RunnerAction::Fail(_)));
    assert_eq!(task.phase, RunnerPhase::Stopped);
    assert_eq!(server.num_connections(), 0);
    assert!(matches!(server.incoming_requests().next(), Poll::Ready(None)));
    assert!(matches!(server.incoming_requests().next(), Poll::Ready(None)));
}

#[test]
fn a_failed_accept_is_reported_and_ends_the_task() {
    let mut server = server();
    let mut task = RunnerTask::new(None);
    let _: Action = server.runner_task(&mut task, Event::Resume);
    let action: Action = server.runner_task(&mut task, Event::AcceptFailed(error("no socket")));
    assert!(matches!(action, RunnerAction::Stop));
    assert_eq!(task.phase, RunnerPhase::Stopped);
    assert_eq!(server.num_connections(), 0);
    match server.recv() {
        Poll::Ready(Err(e)) => assert_eq!(e.to_string(), "no socket"),
        _ => panic!("the error is lost"),
    }
    assert!(matches!(server.recv(), Poll::Pending));
}

#[test]
fn a_closed_server_accepts_no_further_client() {
    let mut server = server();
    let mut task = RunnerTask::new(None);
    serve(&mut server, &mut task, 1);
    assert_eq!(server.drop(), (ADDR, vec![1]));
    let action: Action = server.runner_task(&mut task, Event::Resume);
    assert!(matches!(action, RunnerAction::Stop));
    assert_eq!(task.phase, RunnerPhase::Stopped);
}

#[test]
fn a_closed_server_reads_no_further_request() {
    let mut server = server();
    let mut runner = RunnerTask::new(None);
    serve(&mut server, &mut runner, 1);
    let mut client = ClientTask::new(false, 0);
    assert_eq!(server.run_client(&mut client, ClientEvent::Resume), ClientAction::ReadRequest);
    server.drop();
    assert_eq!(server.run_client(&mut client, ClientEvent::Request("last")), ClientAction::Stop);
    assert_eq!(client.phase, ClientPhase::Finished);
    assert_eq!(server.num_connections(), 0);
    // what was read stays
    match server.recv() {
        Poll::Ready(Ok(rq)) => assert_eq!(rq.payload, "last"),
        _ => panic!("the request is lost"),
    }
}

#[test]
fn requests_of_a_plain_client_follow_on_each_other() {
    let mut server = server();
    let mut runner = RunnerTask::new(None);
    serve(&mut server, &mut runner, 1);
    let mut client = ClientTask::new(false, 0);
    assert!(client.notify.is_none());
    for rq in ["a", "b", "c"] {
        assert_eq!(
            server.run_client(&mut client, ClientEvent::Request(rq)),
            ClientAction::ReadRequest
        );
    }
    assert_eq!(server.run_client(&mut client, ClientEvent::NoMoreRequests), ClientAction::Stop);
    assert_eq!(client.phase, ClientPhase::Finished);
    assert_eq!(server.num_connections(), 0);
    for expected in ["a", "b", "c"] {
        match server.try_recv() {
            Ok(Some(rq)) => {
                assert_eq!(rq.payload, expected);
                assert!(rq.notify_sender.is_none());
            }
            _ => panic!("a request is lost"),
        }
    }
    assert!(matches!(server.try_recv(), Ok(None)));
}

#[test]
fn requests_of_a_secure_client_wait_for_the_response() {
    let mut server = server();
    let mut client = ClientTask::new(true, 0);
    assert_eq!(
        server.run_client(&mut client, ClientEvent::Request("a")),
        ClientAction::AwaitNotification
    );
    assert_eq!(client.phase, ClientPhase::AwaitingNotification);
    let receiver = match &client.notify {
        Some((sender, receiver)) => {
            assert_eq!(sender.capacity(), None);
            receiver.clone()
        }
        None => panic!("nobody to tell"),
    };
    assert!(receiver.try_recv().is_err());
    match server.recv() {
        Poll::Ready(Ok(rq)) => rq.notify_sender.unwrap().try_send(()).unwrap(),
        _ => panic!("the request is lost"),
    }
    assert!(receiver.try_recv().is_ok());
    assert_eq!(server.run_client(&mut client, ClientEvent::Notified), ClientAction::ReadRequest);
    assert_eq!(client.phase, ClientPhase::Reading);
}

#[test]
fn recv_timeout_gives_up_only_when_the_time_is_out() {
    let mut server = server();
    assert!(matches!(server.recv_timeout(false), Poll::Pending));
    assert!(matches!(server.recv_timeout(true), Poll::Ready(Ok(None))));
    let mut client = ClientTask::new(false, 0);
    server.run_client(&mut client, ClientEvent::Request("x"));
    server.run_client(&mut client, ClientEvent::Request("y"));
    match server.recv_timeout(true) {
        Poll::Ready(Ok(Some(rq))) => assert_eq!(rq.payload, "x"),
        _ => panic!("the request is lost"),
    }
    match server.recv_timeout(false) {
        Poll::Ready(Ok(Some(rq))) => assert_eq!(rq.payload, "y"),
        _ => panic!("the request is lost"),
    }
    let mut task = RunnerTask::new(None);
    let _: Action = server.runner_task(&mut task, Event::Resume);
    let _: Action = server.runner_task(&mut task, Event::AcceptFailed(error("z")));
    assert!(matches!(server.recv_timeout(false), Poll::Ready(Err(_))));
}

#[test]
fn the_iterator_ends_with_an_error() {
    let mut server = server();
    let mut client = ClientTask::new(false, 0);
    server.run_client(&mut client, ClientEvent::Request("x"));
    let mut task = RunnerTask::new(None);
    let _: Action = server.runner_task(&mut task, Event::Resume);
    let _: Action = server.runner_task(&mut task, Event::AcceptFailed(error("shut down")));
    let mut incoming = server.incoming_requests();
    match incoming.next() {
        Poll::Ready(Some(rq)) => assert_eq!(rq.payload, "x"),
        _ => panic!("the request is lost"),
    }
    for _ in 0..3 {
        assert!(matches!(incoming.next(), Poll::Ready(None)));
    }
    // for everybody who iterates
    assert!(matches!(server.incoming_requests().next(), Poll::Ready(None)));
    assert!(matches!(server.recv(), Poll::Pending));
}

#[test]
fn the_iterator_waits_for_clients_that_are_still_connected() {
    let mut server = server();
    let mut task = RunnerTask::new(None);
    serve(&mut server, &mut task, 1);
    let mut client = ClientTask::new(false, 0);
    assert!(matches!(server.incoming_requests().next(), Poll::Pending));
    let _: Action = server.runner_task(&mut task, Event::Resume);
    let _: Action = server.runner_task(&mut task, Event::AcceptFailed(error("shut down")));
    assert!(matches!(server.incoming_requests().next(), Poll::Ready(None)));
    assert!(matches!(server.incoming_requests().next(), Poll::Pending));
    server.run_client(&mut client, ClientEvent::Request("late"));
    server.run_client(&mut client, ClientEvent::NoMoreRequests);
    match server.incoming_requests().next() {
        Poll::Ready(Some(rq)) => assert_eq!(rq.payload, "late"),
        _ => panic!("the request is lost"),
    }
    for _ in 0..3 {
        assert!(matches!(server.incoming_requests().next(), Poll::Ready(None)));
    }
}

#[test]
fn the_iterator_ends_though_somebody_else_took_the_error() {
    let mut server = server();
    let mut task = RunnerTask::new(None);
    let _: Action = server.runner_task(&mut task, Event::Resume);
    assert!(matches!(server.incoming_requests().next(), Poll::Pending));
    let _: Action = server.runner_task(&mut task, Event::AcceptFailed(error("shut down")));
    assert!(matches!(server.recv(), Poll::Ready(Err(_))));
    assert!(matches!(server.incoming_requests().next(), Poll::Ready(None)));
    assert!(matches!(server.incoming_requests().next(), Poll::Ready(None)));
}

#[test]
fn the_iterator_ends_when_a_closed_server_stops_accepting() {
    let mut server = server();
    let mut task = RunnerTask::new(Some(ssl_config().build_context().unwrap()));
    let _: Action = server.runner_task(&mut task, Event::Resume);
    let _: Action = server.runner_task(&mut task, Event::Accepted(1));
    server.drop();
    assert!(matches!(server.incoming_requests().next(), Poll::Pending));
    let action: Action = server.runner_task(&mut task, Event::HandshakeFailed);
    assert!(matches!(action, RunnerAction::Stop));
    assert!(matches!(server.incoming_requests().next(), Poll::Ready(None)));
    assert!(matches!(server.incoming_requests().next(), Poll::Ready(None)));
}

#[test]
fn try_recv_returns_an_error() {
    let mut server = server();
    let mut task = RunnerTask::new(None);
    let _: Action = server.runner_task(&mut task, Event::Resume);
    let _: Action = server.runner_task(&mut task, Event::AcceptFailed(error("e")));
    match server.try_recv() {
        Err(e) => assert_eq!(e.to_string(), "e"),
        Ok(_) => panic!("the error is lost"),
    }
}

#[test]
fn connections_are_counted() {
    let mut server = server();
    let mut task = RunnerTask::new(None);
    serve(&mut server, &mut task, 1);
    serve(&mut server, &mut task, 2);
    serve(&mut server, &mut task, 3);
    assert_eq!(server.num_connections(), 3);
    let mut client = ClientTask::new(false, 0);
    server.run_client(&mut client, ClientEvent::NoMoreRequests);
    assert_eq!(server.num_connections(), 2);
    server.drop();
    assert_eq!(server.server_addr(), ADDR);
}

/// Lets the task accept the client `sock` and returns the task for it.
fn client_of(
    server: &mut Server<&'static str, u32>,
    task: &mut RunnerTask,
    sock: u32,
) -> ClientTask {
    let _: Action = server.runner_task(task, Event::Resume);
    match server.runner_task(task, Event::Accepted(sock)) {
        RunnerAction::Serve { client, .. } => client,
        _ => panic!("not served"),
    }
}

#[test]
fn closing_reaches_every_client_that_is_connected() {
    let mut server = server();
    let mut task = RunnerTask::new(None);
    let mut first = client_of(&mut server, &mut task, 11);
    let mut second = client_of(&mut server, &mut task, 22);
    let mut third = client_of(&mut server, &mut task, 33);
    server.run_client(&mut second, ClientEvent::NoMoreRequests);
    // its key is free again
    let fourth = client_of(&mut server, &mut task, 44);
    assert_eq!(fourth.key, second.key);
    let fifth = client_of(&mut server, &mut task, 55);
    assert!(![first.key, third.key, fourth.key].contains(&fifth.key));
    server.run_client(&mut first, ClientEvent::NoMoreRequests);
    server.run_client(&mut third, ClientEvent::Request("a"));
    assert_eq!(server.num_connections(), 3);
    assert_eq!(server.drop(), (ADDR, vec![44, 33, 55]));
    // nothing else changes
    assert_eq!(server.num_connections(), 3);
    match server.recv() {
        Poll::Ready(Ok(rq)) => assert_eq!(rq.payload, "a"),
        _ => panic!("the request is lost"),
    }
    assert_eq!(server.run_client(&mut third, ClientEvent::Resume), ClientAction::Stop);
    assert_eq!(server.drop(), (ADDR, vec![44, 55]));
}

#[test]
fn closing_reaches_a_client_that_sets_up_the_encryption() {
    let mut server = server();
    let mut task = RunnerTask::new(Some(ssl_config().build_context().unwrap()));
    let _: Action = server.runner_task(&mut task, Event::Resume);
    let _: Action = server.runner_task(&mut task, Event::Accepted(7));
    assert_eq!(task.phase, RunnerPhase::Handshaking(0));
    assert_eq!(server.drop(), (ADDR, vec![7]));
    let _: Action = server.runner_task(&mut task, Event::HandshakeFailed);
    assert_eq!(server.drop(), (ADDR, vec![]));
}

#[test]
fn https_gives_what_new_gives() {
    let config = ssl_config();
    let all = ServerConfig { addr: "0.0.0.0:443", ssl: Some(config.clone()) };
    let a = Server::<u8, u32>::https("0.0.0.0:443", config, Ok(ADDR));
    let b = Server::<u8, u32>::new(all, Ok(ADDR), true);
    match (a, b) {
        (Ok((a, Some(x))), Ok((b, Some(y)))) => {
            assert_eq!(a.server_addr(), b.server_addr());
            assert_eq!(
                x.certificate().unwrap().to_pem().unwrap(),
                y.certificate().unwrap().to_pem().unwrap()
            );
        }
        _ => panic!("no context"),
    }
}

#[test]
fn messages_are_made_of_errors_and_requests() {
    assert!(matches!(Message::<u8>::from(error("e")), Message::Error(_)));
    let rq = Request { payload: 4u8, notify_sender: None };
    match Message::from(rq) {
        Message::NewRequest(rq) => assert_eq!(rq.payload, 4),
        Message::Error(_) => panic!("an error"),
    }
    let (sender, receiver) = async_channel::bounded(1);
    let rq = Request { payload: 4u8, notify_sender: None }.with_notify_sender(sender);
    rq.notify_sender.unwrap().try_send(()).unwrap();
    assert!(receiver.try_recv().is_ok());
}
