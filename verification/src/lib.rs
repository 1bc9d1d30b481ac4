//! Playback and playlist coordination for a terminal music player.

pub mod controller;
pub mod paths;
pub mod player;
pub mod playlist;
pub mod track;
