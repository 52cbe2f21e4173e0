//! Control logic of a small interactive media player: command parsing,
//! transport decisions, bus-event handling and the text the player prints.
//!
//! The media pipeline itself stays outside. Every function here works on
//! plain values that the caller reads from, or hands to, the pipeline.

pub mod command;
pub mod coordinator;
pub mod events;
pub mod text;
pub mod transport;
pub mod uri;
