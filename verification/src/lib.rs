//! Verified core of a binary TCP request/response framework: the wire format of the
//! system packets, the server-side routing table, the client-side route cache, the
//! per-connection decisions and the cipher helpers.
pub mod wire;
pub mod s_type;
pub mod server_router;
pub mod target_router;
pub mod client;
pub mod connection;
pub mod data_cipher;
pub mod util;
pub mod testing;
pub mod examples;
pub mod formats;
