//! Acquisition and finishing of one song: where a source reference leads, which
//! arguments the media tools get, how their reports are read, how tags and the
//! amplitude summary are made, and in which order the stages of a job run.

pub mod text;
pub mod textmap;
pub mod origin;
pub mod json;
pub mod pattern;
pub mod error;
pub mod command;
pub mod report;
pub mod waveform;
pub mod song;
pub mod job;
pub mod state;
pub mod cover;
pub mod playback;
