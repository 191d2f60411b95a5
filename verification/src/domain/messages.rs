//! One module per message kind, the registry of kinds and the error
//! taxonomy.

pub mod connect;
pub mod connected;
pub mod error;
pub mod messages_kind;
pub mod options;
pub mod ping;
pub mod pong;
pub mod sync;
pub mod synced;
