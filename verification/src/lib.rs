//! Backend logic of a desktop browser for music-analysis datasets.
//!
//! The crate holds the decisions behind four commands: listing the songs
//! found under a directory, loading one song's analysis manifest, resolving
//! a stem file, and running the external converter. Everything that touches
//! the file system or spawns a process is left to the caller, who hands in
//! what it read and performs what the library planned.

pub mod binary64;
pub mod catalog;
pub mod decode;
pub mod encode;
pub mod error;
pub mod fields;
pub mod json;
pub mod keyed;
pub mod manifest;
pub mod pipeline;
pub mod round_trip;
pub mod text;
pub mod text_map;

pub use binary64::Binary64;
pub use catalog::{
    get_stem_path, list_songs, load_analysis, Listing, ManifestRead, SongEntry, SongSummary,
};
pub use error::CommandError;
pub use json::{Json, JsonNumber};
pub use manifest::{BeatEvent, SongAnalysis, StemInfo};
pub use pipeline::{process_song, process_song_plan, ProcessOutcome, ProcessPlan};
pub use text_map::TextMap;
