//! A relay for signed transactions: accepted transactions are kept in a store
//! and forwarded again on a timer until they are confirmed, expire, or run
//! out of retries.

pub mod forwarder;
pub mod laws;
pub mod record;
pub mod rpc_server;
pub mod scheduler;
pub mod solana;
pub mod solana_rpc;
pub mod store;
pub mod txn_sender;
