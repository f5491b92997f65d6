//! A verified core for a command-line client of the radiooooo.com streaming
//! service: filter selections and their normalization, the JSON request
//! bodies sent to the play endpoint, the ordering of the island map, and the
//! playback loop's state machine. Terminal prompts, HTTP calls and the player
//! process live outside this crate and hand plain values in and out.

pub mod cli;
pub mod islands;
pub mod payload;
pub mod playback;
pub mod playlists;
pub mod selection;
pub mod text;
