//! Core of a desktop music player: a verified playback engine (state machine,
//! queue and cursor, volume, completion monitoring), the configuration store,
//! and the catalogue providers behind a common capability trait.
//!
//! All I/O — the audio device, network fetches, the UI bridge — lives outside
//! this crate; the engine here decides every transition and hands the caller
//! the notifications and follow-up work as plain values.

pub mod audio;
pub mod config;
pub mod providers;
pub mod types;
