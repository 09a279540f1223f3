//! The configuration and its files.
use presence_for_plex::config::{Config, ConfigFile, FileStep, CONFIG_FILE_MODE};
use presence_for_plex::media::MediaType;
use std::path::{Path, PathBuf};

#[test]
fn default_settings() {
    let c = Config::default();
    assert_eq!(c.discord_client_id, "1359742002618564618");
    assert_eq!(c.discord_client, "auto");
    assert!(c.show_buttons && c.show_progress && c.show_artwork);
    assert!(c.enable_movies && c.enable_tv_shows && c.enable_music);
    assert_eq!(c.plex_token, None);
    assert_eq!(c.plex_server_url, None);
    assert_eq!(c.tmdb_token, None);
    assert_eq!(c.tv_details, "{show}");
    assert_eq!(c.tv_state, "S{season} · E{episode} - {title}");
    assert_eq!(c.tv_image_text, "{title}");
    assert_eq!(c.movie_details, "{title} ({year})");
    assert_eq!(c.movie_state, "{genres}");
    assert_eq!(c.movie_image_text, "{title}");
    assert_eq!(c.music_details, "{title}");
    assert_eq!(c.music_state, "{artist}");
    assert_eq!(c.music_image_text, "{album}");
}

#[test]
fn files_lie_in_the_directory_of_the_program() {
    let dir = || Some(PathBuf::from("/home/u/.config"));
    assert_eq!(
        Config::app_dir_in(dir()),
        Path::new("/home/u/.config/presence-for-plex")
    );
    assert_eq!(
        Config::config_path_in(dir()),
        Path::new("/home/u/.config/presence-for-plex/config.yaml")
    );
    assert_eq!(
        Config::backup_path_in(dir()),
        Path::new("/home/u/.config/presence-for-plex/config.yaml.bak")
    );
    assert_eq!(
        Config::log_path_in(dir()),
        Path::new("/home/u/.config/presence-for-plex/presence-for-plex.log")
    );
    assert_eq!(
        Config::lock_path_in(dir()),
        Path::new("/home/u/.config/presence-for-plex/presence-for-plex.lock")
    );
}

#[test]
fn the_current_directory_stands_in() {
    assert_eq!(Config::app_dir_in(None), Path::new("./presence-for-plex"));
    assert_eq!(
        Config::backup_path_in(None),
        Path::new("./presence-for-plex/config.yaml.bak")
    );
}

#[test]
fn files_wherever_the_environment_puts_them() {
    let dir = Config::app_dir();
    assert!(dir.ends_with("presence-for-plex"));
    assert_eq!(Config::config_path(), dir.join("config.yaml"));
    assert_eq!(Config::backup_path(), dir.join("config.yaml.bak"));
    assert_eq!(Config::log_path(), dir.join("presence-for-plex.log"));
    assert_eq!(Config::lock_path(), dir.join("presence-for-plex.lock"));
}

#[test]
fn a_parsed_file_is_kept() {
    let mut config = Config::default();
    config.tmdb_token = Some("t".to_string());
    let (loaded, step) = Config::load(ConfigFile::Parsed(config));
    assert_eq!(loaded.tmdb_token.as_deref(), Some("t"));
    assert_eq!(step, FileStep::Keep);
}

#[test]
fn a_malformed_file_is_backed_up() {
    let (loaded, step) = Config::load(ConfigFile::Malformed);
    assert_eq!(loaded.movie_state, "{genres}");
    assert_eq!(step, FileStep::BackUp);
}

#[test]
fn a_missing_file_is_written() {
    let (loaded, step) = Config::load(ConfigFile::Missing);
    assert_eq!(loaded.discord_client, "auto");
    assert_eq!(step, FileStep::Save);
}

#[test]
fn an_unreadable_file_is_left_alone() {
    let (loaded, step) = Config::load(ConfigFile::Unreadable);
    assert_eq!(loaded.plex_token, None);
    assert_eq!(step, FileStep::Keep);
}

#[test]
fn a_token_changes_nothing_else() {
    let mut config = Config::default();
    config.enable_music = false;
    let config = config.with_plex_token("abc123".to_string());
    assert_eq!(config.plex_token.as_deref(), Some("abc123"));
    assert!(!config.enable_music);
    assert!(config.enable_movies);
}

#[test]
fn kinds_of_media_are_enabled_one_by_one() {
    let mut config = Config::default();
    config.enable_tv_shows = false;
    assert!(config.enabled(MediaType::Movie));
    assert!(!config.enabled(MediaType::Episode));
    assert!(config.enabled(MediaType::Track));
}

#[test]
fn only_the_owner_reads_the_file() {
    assert_eq!(CONFIG_FILE_MODE, 0o600);
}
