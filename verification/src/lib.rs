//! Server-side wire layer of the Logux synchronisation protocol: typed
//! messages, their positional JSON codecs, the error formatter, the
//! dispatcher and the per-connection session.

pub mod decimal;
pub mod dispatch;
pub mod domain;
pub mod json;
pub mod json_text;
pub mod middleware;
pub mod session;
