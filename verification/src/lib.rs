//! HTTP server that does nothing, responding HTTP 200 to all requests.
//!
//! The server acknowledges every request with an empty `200`, whatever its
//! method, path or body, until it is told to shut down.
//!
//! The crate holds the decisions of such a server and proves what holds of
//! every run; the socket, the clock and the console belong to a driver that
//! carries out one action at a time:
//!
//! - [`config`], [`signal`], [`http`] and [`error`] hold the plain values
//!   that a run works on;
//! - [`model`] is the server as a transition system over those values;
//! - [`server`] is the machine that a driver runs, step by step, proved to
//!   do exactly what the model says;
//! - [`trace`], [`startup`], [`serving`] and [`shutdown`] state and prove
//!   what holds of every run of the model: how it starts, that serving
//!   changes nothing, and how and how soon it stops.

pub mod channel;
pub mod config;
pub mod error;
pub mod http;
pub mod model;
pub mod server;
pub mod serving;
pub mod shutdown;
pub mod signal;
pub mod startup;
pub mod text;
pub mod trace;

pub use crate::config::Args;
pub use crate::error::Error as ServerError;
pub use crate::server::Builder as ServerBuilder;
pub use crate::signal::Ready;
pub use crate::signal::Shutdown;
