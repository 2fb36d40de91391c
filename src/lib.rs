//! Sorting of photo and video files into an archive laid out by media
//! category, owner, year and month of last modification.
//!
//! The library decides; the caller walks the source tree, reads metadata and
//! performs the filesystem steps that [`engine`] asks for.
pub mod bucket;
pub mod engine;
pub mod laws;
pub mod media;
pub mod resolve;
