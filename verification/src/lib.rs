//! The decisions of a key-value service: what each request asks for, what each response says, in
//! which order the commands of a batch are taken up, and when a call is counted.
//!
//! The library works on plain values. Whoever uses it performs what it asks for, such as calls of
//! the storage or messages to replicas, and hands back what came of that.
pub mod batch;
pub mod bytes;
pub mod call;
pub mod command;
pub mod gc;
pub mod key;
pub mod laws;
pub mod metrics;
pub mod notify;
pub mod raft;
pub mod region;
pub mod request;
pub mod response;
pub mod service;
pub mod status;
pub mod stream;
pub mod txn;
