//! Decisions and replies of chat commands that control music playback in a
//! guild's voice channel: joining and leaving, playing from an address or a
//! search, skipping, pausing, resuming, looping, and listing or clearing the
//! queue. The voice connection and the resolution of media are left to the
//! caller, which performs what these functions decide.

pub mod commands;
pub mod laws;
pub mod queue;
pub mod text;
