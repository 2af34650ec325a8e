//! Live log relay for running workloads.
//!
//! The crate holds the decisions of a service that relays the log output of a
//! running workload to remote observers: how raw bytes become lines, how a
//! line becomes an event frame, how a relay session moves between its states,
//! and what the record and snapshot endpoints answer. All input and output is
//! left to the caller, which feeds the session with what happened and carries
//! out what the session asks for.

pub mod encoder;
pub mod framer;
pub mod records;
pub mod session;
pub mod snapshot;
pub mod subscription;
pub mod trace;
