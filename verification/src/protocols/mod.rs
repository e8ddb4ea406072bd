//! Protocols that are built on messages.

pub mod routing;
