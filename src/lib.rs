//! A small audio player core: a catalog of the tracks found in one directory,
//! the player's state machine, and what the view shows of that state.
pub mod catalog;

pub mod track;

pub use catalog::{scan_pattern, ScanError, TrackCatalog};

pub use track::{get_file_name, Track};
pub mod player;
pub use player::{
    default_directory, default_input_text, Effect, Event, PlaybackError, PlayerState, PlayerStatus, Projection,
};
