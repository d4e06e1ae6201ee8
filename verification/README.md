# tiny_http

The decisions of a small HTTP server, verified with Verus.

* `src/sequential.rs`: readers and writers that take turns on one connection; `src/reader_chain.rs`
  and `src/writer_chain.rs` prove what holds of all of them together.
* `src/refined_tcp_stream.rs`: the two halves of a connection, plain or encrypted.
* `src/server.rs`, `src/tasks.rs`, `src/message.rs`: the server, the task that accepts clients, the
  tasks of the clients, and what they hand to whoever receives requests; `src/server_laws.rs` proves
  what holds of them together.
* `src/ssl.rs`: building an SSL context and the sessions within it.
* `src/outside.rs`: what is taken for granted of channels and locks.

The functions of the library touch no socket and wait for no client, channel or lock; only reading a
private key that is itself encrypted makes OpenSSL ask the terminal for the pass phrase. Each function
takes what happened as an event and says what to do next; `app/` does it: it owns the sockets, the
threads and the futures.
