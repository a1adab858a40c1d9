//! A minimal bidirectional TCP relay tool: run with `-l host[:port]` it
//! listens and copies one accepted connection to standard output; run with
//! `host[:port]` it connects and copies standard input to the socket.
//!
//! This crate holds the verified core: resolving the raw argument list into
//! a typed [`command::Command`] (client or server, host and port). The
//! blocking network and stream I/O around it lives outside the library.

pub mod command;
pub mod endpoint;
pub mod relay;
