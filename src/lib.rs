//! Session management for a single Ethereum light client: choosing the
//! network from a chain id, planning and driving the startup of a client,
//! holding at most one synchronized client, and reading through it.
pub mod block;
pub mod error;
pub mod laws;
pub mod network;
pub mod registry;
pub mod start;
pub mod text;
