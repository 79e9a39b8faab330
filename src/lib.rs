//! Resolves a music player's exported playlists against a relocated music
//! library: decodes the playlist and membership files, collects the audio ids
//! of a chosen playlist, picks for each id the catalog row whose stored path
//! maps onto an existing local file, and logs every record it skips.
pub mod json;
pub mod text;
pub mod records;
pub mod diagnostic;
pub mod registry;
pub mod membership;
pub mod paths;
pub mod catalog;
pub mod discovery;
