//! Model serving and configuration synchronisation for a local assistant.
//!
//! The library keeps three things straight for the desktop host that embeds
//! it:
//!
//! - [`db`]: the store of named model configurations, at most one for each
//!   name, which announces every change;
//! - [`model`]: the engine that holds at most one loaded model, lets one
//!   load or one prediction run at a time, and the session that takes the
//!   tokens of a prediction;
//! - [`sync`]: the bus that carries the store's and the session's signals to
//!   whoever listens, in order.
//!
//! [`conversation`] is the listener's side: the messages of a chat and the
//! prompt template. [`error`] lists the failures, [`text`] and [`clock`] are
//! small helpers, [`log`] names where log records go.
//!
//! Apart from reading the clock to date a message, the library does no
//! input or output. Whatever takes time or touches the machine (opening
//! storage, loading a model, generating) is done by the host between two
//! calls: the first says whether the work may start and what it is, the
//! second takes its result.

pub mod clock;
pub mod conversation;
pub mod db;
pub mod error;
pub mod log;
pub mod model;
pub mod sync;
pub mod text;
