//! Lifecycle tracking for socket operations that are carried out by an
//! asynchronous proxy.
//!
//! Inside a sandbox that has no sockets of its own, every connect, bind and
//! accept is a request to the outside, which answers at once or later. This
//! library holds the part that does not depend on the proxy:
//!
//! - [`State`], the phase that one such operation is in, with the payload of
//!   that phase;
//! - [`other`] and [`would_block`], the two errors that the library makes
//!   itself;
//! - the entry points [`connect`], [`connect_str`], [`bind`], [`bind_str`] and
//!   [`accept`], which are handed the proxy's step and return its report;
//! - in [`lemmas`], what holds of every state.

pub mod error;
pub mod facade;
pub mod lemmas;
pub mod state;

pub use error::{other, would_block};
pub use facade::{accept, bind, bind_str, connect, connect_str};
pub use state::State;
