//! Decision logic of a TCP echo service: the server's per-connection session,
//! the client's connection retries, response accumulation and echo verdict,
//! and the address settings both sides start from.

pub mod events;
pub mod settings;
pub mod server;
pub mod client;
