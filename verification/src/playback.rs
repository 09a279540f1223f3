//! How what a Plex server reports is answered.
use crate::config::Config;
use crate::media::{MediaType, PlaybackState};
use crate::tray::TrayStatus;
use vstd::prelude::*;

verus! {

/// What a server reports.
#[derive(Debug, Clone, Copy, PartialEq, Eq, Structural)]
pub enum MediaUpdate {
    /// Media of this kind is in this state.
    Playing { media_type: MediaType, state: PlaybackState },
    /// Nothing is played any more.
    Stopped,
}

/// What is to be done on Discord.
#[derive(Debug, Clone, Copy, PartialEq, Eq, Structural)]
pub enum MediaAction {
    /// Nothing.
    Ignore,
    /// See to it that there is a connection, and show the media.
    Show,
    /// Show nothing any more.
    Clear,
}

/// The status that an update means for the tray.
pub open spec fn update_status(update: MediaUpdate) -> TrayStatus {
    match update {
        MediaUpdate::Playing { state, .. } => TrayStatus::Media(state),
        MediaUpdate::Stopped => TrayStatus::Idle,
    }
}

/// What an update means for Discord.
pub open spec fn update_action(update: MediaUpdate, config: Config) -> MediaAction {
    match update {
        MediaUpdate::Playing { media_type, .. } => if config.shows(media_type) {
            MediaAction::Show
        } else {
            MediaAction::Ignore
        },
        MediaUpdate::Stopped => MediaAction::Clear,
    }
}

/// Answers what a server reports: the tray always learns of it, Discord only of
/// media of the kinds that are enabled.
pub fn handle_media(update: MediaUpdate, config: &Config) -> (answer: (TrayStatus, MediaAction))
    ensures
        answer == (update_status(update), update_action(update, *config)),
{
    match update {
        MediaUpdate::Playing { media_type, state } => {
            let action = if config.enabled(media_type) {
                MediaAction::Show
            } else {
                MediaAction::Ignore
            };
            (TrayStatus::from(state), action)
        },
        MediaUpdate::Stopped => (TrayStatus::Idle, MediaAction::Clear),
    }
}

/// Media of a kind that is not enabled never reaches Discord, and only a stop
/// clears what Discord shows.
pub proof fn law_disabled_media_is_not_shown(update: MediaUpdate, config: Config)
    ensures
        update_action(update, config) is Show <==> (update matches MediaUpdate::Playing {
            media_type,
            ..
        } && config.shows(media_type)),
        update_action(update, config) is Clear <==> update is Stopped,
{
}

} // verus!
