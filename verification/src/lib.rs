//! Per-guild voice-session coordination for a chat-platform audio bot:
//! session lifecycle (join/leave), playback-queue control, an idle-disconnect
//! monitor, and the track-completion reporting fan-out, together with the
//! per-guild settings store that all of them read and mutate.
//!
//! The session manager decides; the caller performs the outside work (voice
//! transport, HTTP, persistence) and hands each outcome back in as a plain
//! value, so every state decision here is verified.
pub mod idle;
pub mod queue;
pub mod registration;
pub mod reporting;
pub mod session;
pub mod settings;
pub mod table;
