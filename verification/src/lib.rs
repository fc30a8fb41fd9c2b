//! A text chat relay.
//!
//! Peers connect, send their name as a first line and then encrypted chat
//! lines; the relay decrypts each line and rebroadcasts it, as
//! `"{name}: {message}\n"`, to every registered peer.
//!
//! The crate holds the relay's rules and leaves sockets, tasks and the
//! terminal to its caller:
//!
//! - [`accept`]: the accept loop, which numbers the connections;
//! - [`reader`]: the inbound half of a connection, from its lines to
//!   [`event`]s for the broker;
//! - [`broker`]: the single owner of the peer [`registry`] and of the
//!   outbound queues in the [`outbox`];
//! - [`writer`]: the outbound half of a connection, from its queue to bytes;
//! - [`cipher`]: the shared-passphrase cipher, and [`client`]: what a client
//!   sends;
//! - [`error`]: the failures and how far each reaches;
//! - [`laws`]: what holds of all of them together.
//!
//! Every reader, writer and accept loop is a state machine that is told what
//! happened outside and answers with the one step to take. The broker is
//! handed one event at a time and has finished with it when it returns.

pub mod broker;
pub mod cipher;
pub mod client;
pub mod error;
pub mod event;
pub mod laws;
pub mod accept;
pub mod outbox;
pub mod reader;
pub mod registry;
pub mod text;
pub mod writer;
