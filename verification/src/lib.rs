//! Command-channel client core for a voice-dictation front-end shell.
//!
//! The shell relays short text commands (`start`, `stop`, `toggle`) to an
//! already-running backend over a local stream socket and keeps a local
//! belief about whether recording is active.  The wire protocol is
//! fire-and-forget: the backend never answers, so delivery of the bytes to
//! the OS transport is all a sender can know.
//!
//! The socket I/O itself is performed by an unverified driver; this crate
//! holds everything the driver must decide: command validation, the exact
//! order of the bounded I/O steps, the classification of every failure into
//! a distinct error, and the update discipline of the recording belief.
//! Each I/O step is described by a [`channel::ChannelAction`], and its
//! outcome comes back as a [`channel::ChannelEvent`]; the state machines in
//! [`send`] and [`probe`] turn those observations into the next action or a
//! final outcome.

pub mod bindings;
pub mod channel;
pub mod command;
pub mod error;
pub mod probe;
pub mod send;
pub mod tracker;
