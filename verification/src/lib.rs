//! The decisions of a small HTTP server: who may use a connection and when, which client is served
//! next, and what whoever receives requests gets.
pub mod message;
pub mod outside;
pub mod poll;
pub mod reader_chain;
pub mod refined_tcp_stream;
pub mod sequential;
pub mod sequential_laws;
pub mod server;
pub mod server_call_laws;
pub mod server_laws;
pub mod ssl;
pub mod tasks;
pub mod writer_chain;

pub use message::Request;
pub use server::{IncomingRequests, Server, ServerConfig};
pub use ssl::SslConfig;
