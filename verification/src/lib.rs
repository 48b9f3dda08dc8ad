//! The real-time synchronisation core of a chat server, verified with Verus.
//!
//! The server keeps one [`sync::Connection`] for each client. Every state
//! change is published as a [`event::MessageSync`]; each connection asks the
//! [`filter`] whether its user may see the event, gives it the next sequence
//! number if so, and keeps the latest 256 numbered envelopes so that a client
//! that lost its transport can take up where it left off. What a user may
//! see follows from what the user may do, which the [`resolver`] computes
//! from memberships, roles and the overwrites of a thread.
//!
//! The library decides and computes; it performs no I/O. Its callers read
//! the socket, the event bus, the clock and the data provider, hand the
//! library what they found, and carry out what it answers. What a client
//! reads of an event, a user or a message is carried through as JSON text.
//!
//! The modules, from the core outwards:
//!
//! - [`ids`], [`error`]: identifiers, times, and the failures reported.
//! - [`permission`], [`types`], [`resolver`]: capabilities, sets of them,
//!   and what a user may do in a room and in a thread.
//! - [`session`], [`event`], [`filter`]: sessions, events, and who may see
//!   which event.
//! - [`sync`], [`registry`]: the connection with its queue, handshake,
//!   resume and heartbeat, and the registry of connections that wait for a
//!   resume.
//! - [`state`]: how events are published, and the addresses of media.
//! - [`invite`], [`application`], [`permission_overwrite`], [`room`]: the
//!   decisions behind the HTTP routes that publish events.
//! - [`media`], [`tag`], [`email`], [`audit_logs`], [`user_relationship`],
//!   [`data`], [`config`], [`sfu`], [`http`]: the records of the server,
//!   and how they are read from what is stored.
//! - [`seq_lemmas`]: facts about filtered sequences that the proofs use.
//!
//! A few calls go to other crates: `uuid` and `nanoid` draw random
//! identifiers, `time` reads the clock, `validator` judges email addresses,
//! `url` takes addresses apart, and `dashmap` holds the registry. Each such
//! call stands in a small function whose contract is believed, not proved;
//! its doc comment says what is claimed.

pub mod application;
pub mod audit_logs;
pub mod config;
pub mod data;
pub mod email;
pub mod error;
pub mod event;
pub mod filter;
pub mod http;
pub mod ids;
pub mod invite;
pub mod media;
pub mod permission;
pub mod permission_overwrite;
pub mod registry;
pub mod resolver;
pub mod room;
pub mod seq_lemmas;
pub mod session;
pub mod sfu;
pub mod state;
pub mod sync;
pub mod tag;
pub mod types;
pub mod user_relationship;
