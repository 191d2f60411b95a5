//! The protocol's domain: its messages.

pub mod messages;
