//! Session-multiplexing kernel of a local daemon that sits between UI
//! processes and a secure session network.
//!
//! The crate holds the parts of the daemon that decide: the length-delimited
//! frame format of the local socket, the wire types, and the router that owns
//! the table of UI connections and the table of sessions. Sockets, tasks and
//! the session network itself are driven by the program around this library.

pub mod connection;
pub mod frame;
pub mod laws;
pub mod model;
pub mod router;
pub mod session;
pub mod text;
pub mod types;
