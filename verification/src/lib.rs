//! Clipboard-to-speech core: an ordered text-rewrite table, a normalizer that
//! turns raw clipboard text into speech-engine markup, and the playback
//! state machine that drives the synthesis engine and a status icon.

pub mod text;
pub mod rules;
pub mod controller;
pub mod laws;
