//! The decisions behind a Discord rich presence for Plex.
//!
//! The library holds what the program computes and decides: the configuration
//! and where it is kept, the frames of Discord's local protocol, the activity
//! that a presence becomes, the connection to a Discord client, the search for
//! Plex servers, the sign-in, and how the tray and the media updates are
//! answered. Reading, writing, waiting and drawing are left to the program,
//! which performs the actions that the library asks for and reports back.
pub mod auth;
pub mod config;
pub mod discord;
pub mod discovery;
pub mod frame;
pub mod json;
pub mod laws;
pub mod media;
pub mod paths;
pub mod playback;
pub mod presence;
pub mod rich;
pub mod session;
pub mod text;
pub mod tray;
