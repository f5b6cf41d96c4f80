//! Core logic of a small music player, verified with Verus.
//!
//! The library holds everything the player decides or computes on plain
//! values: which directory entries count as music, how a path is split into
//! stem and extension, how the track list is filtered by a search query,
//! the playback state machine, the metadata derived from an audio file's
//! primary tag, and the routing of bridge requests. Device I/O, rendering
//! and the directory scan itself live outside the library and hand it plain
//! values.

pub mod bridge;
pub mod files;
pub mod metadata;
pub mod paths;
pub mod player;
pub mod search;
pub mod style;
