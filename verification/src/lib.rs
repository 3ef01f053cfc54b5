//! Relay of service-readiness notifications across a sandbox boundary.
//!
//! A process inside a sandbox cannot reach the host's service supervisor.
//! The sandbox side receives its notifications on a local channel and keeps
//! the latest one in a status record; the host side polls that record and
//! forwards what it finds to the supervisor. This library holds the rules of
//! both sides: the text protocol, the status record and the watcher's state
//! machine. Sockets, files, processes and signals are the caller's business.

pub mod codec;
pub mod logger;
pub mod number;
pub mod proxy;
pub mod relay;
pub mod share;
pub mod text;
pub mod watcher;
