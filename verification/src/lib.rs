//! Core of a voice-chat bot: the verified wire protocol and playback logic.
//!
//! The crate covers the pieces of the bot whose behaviour is worth pinning
//! down exactly: the variable-length integer encoding and the tagged,
//! length-prefixed framing of the wire protocol; the writer discipline that
//! sequences voice packets and keeps the connection alive; the player
//! orchestrator's queue and state machine; the audio delivery engine's
//! buffering, volume scaling and cancellation behaviour; and the mapping
//! from text commands to player actions.
//!
//! Network transport, task scheduling and the external track resolver and
//! decoder live outside this crate and speak to it through plain values.

pub mod commands;
pub mod config;
pub mod engine;
pub mod messages;
pub mod player;
pub mod varint;
pub mod wire;
