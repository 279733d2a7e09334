//! A sharded, in-memory key-value store and the per-connection logic that
//! serves `SET` and `GET` commands against it.

pub mod codec;
pub mod command;
pub mod connection;
pub mod dispatch;
pub mod guarantees;
pub mod hashing;
pub mod shard;
pub mod store;
pub mod value;
