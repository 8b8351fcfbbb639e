//! What the operations of the service do, stated of what goes into them and what comes out.
pub mod batches;
pub mod calls;
pub mod commands;
pub mod labels;
pub mod locks;
pub mod regions;
pub mod requests;
pub mod responses;
pub mod services;
pub mod streams;
pub mod transactions;
