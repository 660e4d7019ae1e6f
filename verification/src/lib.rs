//! Verified core of a gateway-driven chat bot: a key-value store with
//! write suppression, per-guild feature configuration, an event router
//! that turns platform events into notifications, and the pure helpers
//! (decimal parsing and rendering, elapsed-time breakdowns, random
//! draws) that the command handlers lean on.

pub mod commands;
pub mod config;
pub mod events;
pub mod format;
pub mod store;
pub mod text;
pub mod tools;
