//! Presence synchronization engine: compiles editable form fields into a
//! well-formed presence payload, manages the lifecycle of the connection to
//! the presence host, resolves timestamp modes against the session clock,
//! and merges sparse presets into the live field model.

pub mod connection;
pub mod fields;
pub mod payload;
pub mod preset;
pub mod session;
pub mod timestamp;
