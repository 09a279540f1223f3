//! What is played, and how far along it is.
use vstd::prelude::*;

verus! {

/// The kinds of media that a Plex server plays.
#[derive(Debug, Clone, Copy, PartialEq, Eq, Structural)]
pub enum MediaType {
    Movie,
    Episode,
    Track,
}

/// Whether the media runs.
#[derive(Debug, Clone, Copy, PartialEq, Eq, Structural)]
pub enum PlaybackState {
    Playing,
    Paused,
    Buffering,
}

} // verus!
