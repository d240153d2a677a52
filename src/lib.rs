//! Fault-tolerant access to a bulk object store and a key-value store:
//! the retry and reconnect decisions, path and listing handling, ranged
//! reads, structured-decode outcomes and the database control-file decoder.
//! The I/O itself is performed by the caller, which feeds each outcome back
//! into the state machines defined here.
pub mod control;
pub mod error;
pub mod kv;
pub mod path;
pub mod retry;
pub mod store;
