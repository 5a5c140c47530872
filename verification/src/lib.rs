//! Core decisions of a selective forwarding unit: one broadcaster publishes a
//! video and an audio stream under a name, viewers subscribe by that name.

pub mod codec;
pub mod control;
pub mod registry;
pub mod signaling;
pub mod tracks;
pub mod session;
pub mod settings;
