//! What the interface offers: the media files it lets the user pick.
use vstd::prelude::*;

verus! {

/// The extensions of the video and audio files the file picker shows.
pub const MEDIA_EXTENSIONS: [&'static str; 10] = ["mp4", "mkv", "mov", "avi", "webm", "mp3", "wav", "m4a", "flac", "ogg"];

} // verus!
