//! A single-threaded reactor core: handler tokens, readiness dispatch and the
//! start/stop protocol of the polling worker.

pub mod handler;
pub mod registry;
pub mod event;
pub mod poller;
