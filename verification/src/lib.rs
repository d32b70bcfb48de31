//! Status-reporting core of a compute-worker client: leveled log lines,
//! a fixed-width queue gauge, and a locator for the work item in flight.

pub mod configure;
pub mod text;
pub mod gauge;
pub mod ipc;
pub mod net;
pub mod locator;
pub mod logger;
