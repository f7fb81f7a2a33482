//! A terminal music player's playback orchestration core: a playlist with a
//! deterministic track order, a playback session state machine with gapless
//! track pre-queueing, and the event dispatch that ties them together.

pub mod backend;
pub mod coordinator;
pub mod input;
pub mod output;
pub mod playlist;
pub mod song;
pub mod text;
pub mod traits;
