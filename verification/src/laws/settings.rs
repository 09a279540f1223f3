//! What the settings are, and where the program's files lie.
use crate::config;
use crate::config::{Config, ConfigFile, FileStep};
use crate::media::MediaType;
use crate::paths;
use std::path::PathBuf;
use vstd::prelude::*;

verus! {

/// The settings that hold unless others are made: whichever client answers is
/// taken, everything is shown, nobody has signed in, and the texts name the media.
pub proof fn law_defaults(settings: Config)
    requires
        call_ensures(<Config as Default>::default, (), settings),
    ensures
        settings.discord_client_id@ == "1359742002618564618"@,
        settings.discord_client@ == "auto"@,
        settings.show_buttons && settings.show_progress && settings.show_artwork,
        settings.plex_token is None && settings.plex_server_url is None,
        settings.enable_movies && settings.enable_tv_shows && settings.enable_music,
        settings.tmdb_token is None,
        settings.tv_details@ == "{show}"@,
        settings.tv_state@ == "S{season} · E{episode} - {title}"@,
        settings.tv_image_text@ == "{title}"@,
        settings.movie_details@ == "{title} ({year})"@,
        settings.movie_state@ == "{genres}"@,
        settings.movie_image_text@ == "{title}"@,
        settings.music_details@ == "{title}"@,
        settings.music_state@ == "{artist}"@,
        settings.music_image_text@ == "{album}"@,
        config::is_default(settings),
{
}

/// Nobody but its owner may read or write the file with the token.
pub proof fn law_file_is_private()
    ensures
        config::CONFIG_FILE_MODE == 6 * 8 * 8,
{
}

/// A file that holds settings is gone by and left alone. Otherwise the settings
/// are the usual ones; a file that holds something else is moved away and never
/// written over, and a file is written only where there is none.
pub proof fn law_load(file: ConfigFile, loaded: (Config, FileStep))
    requires
        call_ensures(Config::load, (file,), loaded),
    ensures
        file matches ConfigFile::Parsed(settings) ==> loaded.0 == settings,
        !(file is Parsed) ==> {
            &&& loaded.0.discord_client_id@ == "1359742002618564618"@
            &&& loaded.0.discord_client@ == "auto"@
            &&& loaded.0.plex_token is None && loaded.0.plex_server_url is None
            &&& loaded.0.enable_movies && loaded.0.enable_tv_shows && loaded.0.enable_music
            &&& config::is_default(loaded.0)
        },
        loaded.1 == FileStep::BackUp <==> file is Malformed,
        loaded.1 == FileStep::Save <==> file is Missing,
        loaded.1 == FileStep::Keep <==> file is Parsed || file is Unreadable,
{
}

/// A new token takes the place of the old one, and every other setting stays.
pub proof fn law_token_is_kept(settings: Config, token: String, updated: Config)
    requires
        call_ensures(Config::with_plex_token, (settings, token), updated),
    ensures
        updated.plex_token == Some(token),
        updated.discord_client_id == settings.discord_client_id,
        updated.discord_client == settings.discord_client,
        updated.show_buttons == settings.show_buttons,
        updated.show_progress == settings.show_progress,
        updated.show_artwork == settings.show_artwork,
        updated.plex_server_url == settings.plex_server_url,
        updated.enable_movies == settings.enable_movies,
        updated.enable_tv_shows == settings.enable_tv_shows,
        updated.enable_music == settings.enable_music,
        updated.tmdb_token == settings.tmdb_token,
        updated.tv_details == settings.tv_details,
        updated.tv_state == settings.tv_state,
        updated.tv_image_text == settings.tv_image_text,
        updated.movie_details == settings.movie_details,
        updated.movie_state == settings.movie_state,
        updated.movie_image_text == settings.movie_image_text,
        updated.music_details == settings.music_details,
        updated.music_state == settings.music_state,
        updated.music_image_text == settings.music_image_text,
{
}

/// Media is enabled exactly if the setting of its own kind is on.
pub proof fn law_enabled(settings: Config, media_type: MediaType, enabled: bool)
    requires
        call_ensures(Config::enabled, (&settings, media_type), enabled),
    ensures
        media_type == MediaType::Movie ==> enabled == settings.enable_movies,
        media_type == MediaType::Episode ==> enabled == settings.enable_tv_shows,
        media_type == MediaType::Track ==> enabled == settings.enable_music,
{
}

/// The program's directory and its files lie in the directory given, under names
/// of their own.
pub proof fn law_paths_in_a_directory(
    dir: PathBuf,
    app: PathBuf,
    file: PathBuf,
    backup: PathBuf,
    log: PathBuf,
    lock: PathBuf,
)
    requires
        paths::takes_names(paths::path_components(dir)),
        call_ensures(Config::app_dir_in, (Some(dir),), app),
        call_ensures(Config::config_path_in, (Some(dir),), file),
        call_ensures(Config::backup_path_in, (Some(dir),), backup),
        call_ensures(Config::log_path_in, (Some(dir),), log),
        call_ensures(Config::lock_path_in, (Some(dir),), lock),
    ensures
        ({
            let home = paths::path_components(dir).push("presence-for-plex"@);
            &&& paths::path_components(app) == home
            &&& paths::path_components(file) == home.push("config.yaml"@)
            &&& paths::path_components(backup) == home.push("config.yaml.bak"@)
            &&& paths::path_components(log) == home.push("presence-for-plex.log"@)
            &&& paths::path_components(lock) == home.push("presence-for-plex.lock"@)
        }),
{
}

/// Without a configuration directory the current one takes its place.
pub proof fn law_paths_without_a_directory(
    app: PathBuf,
    file: PathBuf,
    backup: PathBuf,
    log: PathBuf,
    lock: PathBuf,
)
    requires
        call_ensures(Config::app_dir_in, (None,), app),
        call_ensures(Config::config_path_in, (None,), file),
        call_ensures(Config::backup_path_in, (None,), backup),
        call_ensures(Config::log_path_in, (None,), log),
        call_ensures(Config::lock_path_in, (None,), lock),
    ensures
        ({
            let home = seq!["."@, "presence-for-plex"@];
            &&& paths::path_components(app) == home
            &&& paths::path_components(file) == home.push("config.yaml"@)
            &&& paths::path_components(backup) == home.push("config.yaml.bak"@)
            &&& paths::path_components(log) == home.push("presence-for-plex.log"@)
            &&& paths::path_components(lock) == home.push("presence-for-plex.lock"@)
        }),
{
}

/// The program's directory lies in a directory that `dirs::config_dir` may
/// give, or in the current one if it gives none.
pub proof fn law_app_dir(path: PathBuf)
    requires
        call_ensures(Config::app_dir, (), path),
    ensures
        exists|given: Option<PathBuf>| #[trigger]
            call_ensures(dirs::config_dir, (), given) && match given {
                Some(dir) => paths::takes_names(paths::path_components(dir))
                    ==> paths::path_components(path) == paths::path_components(dir) + seq!["presence-for-plex"@],
                None => paths::path_components(path) == seq!["."@] + seq!["presence-for-plex"@],
            },
{
    let given = choose|given: Option<PathBuf>| #[trigger]
        call_ensures(dirs::config_dir, (), given) && (config::takes_files(
            config::dir_components(given),
        ) ==> paths::path_components(path) == config::app_dir_components(
            config::dir_components(given),
        ));
    assert(call_ensures(dirs::config_dir, (), given));
    match given {
        Some(dir) => {
            if paths::takes_names(paths::path_components(dir)) {
                assert(paths::path_components(path) =~= paths::path_components(dir) + seq!["presence-for-plex"@]);
            }
        },
        None => {
            assert(paths::path_components(path) =~= seq!["."@] + seq!["presence-for-plex"@]);
        },
    }
}

/// The settings lie in the program's directory, which lies in one that
/// `dirs::config_dir` may give, or in the current one if it gives none.
pub proof fn law_config_path(path: PathBuf)
    requires
        call_ensures(Config::config_path, (), path),
    ensures
        exists|given: Option<PathBuf>| #[trigger]
            call_ensures(dirs::config_dir, (), given) && match given {
                Some(dir) => paths::takes_names(paths::path_components(dir))
                    ==> paths::path_components(path) == paths::path_components(dir) + seq!["presence-for-plex"@, "config.yaml"@],
                None => paths::path_components(path) == seq!["."@] + seq!["presence-for-plex"@, "config.yaml"@],
            },
{
    let given = choose|given: Option<PathBuf>| #[trigger]
        call_ensures(dirs::config_dir, (), given) && (config::takes_files(
            config::dir_components(given),
        ) ==> paths::path_components(path) == config::app_dir_components(
            config::dir_components(given),
        ).push("config.yaml"@));
    assert(call_ensures(dirs::config_dir, (), given));
    match given {
        Some(dir) => {
            if paths::takes_names(paths::path_components(dir)) {
                assert(paths::path_components(path) =~= paths::path_components(dir) + seq!["presence-for-plex"@, "config.yaml"@]);
            }
        },
        None => {
            assert(paths::path_components(path) =~= seq!["."@] + seq!["presence-for-plex"@, "config.yaml"@]);
        },
    }
}

/// A file of settings that was moved away lies in the program's directory,
/// which lies in one that `dirs::config_dir` may give, or in the current one
/// if it gives none.
pub proof fn law_backup_path(path: PathBuf)
    requires
        call_ensures(Config::backup_path, (), path),
    ensures
        exists|given: Option<PathBuf>| #[trigger]
            call_ensures(dirs::config_dir, (), given) && match given {
                Some(dir) => paths::takes_names(paths::path_components(dir))
                    ==> paths::path_components(path) == paths::path_components(dir) + seq!["presence-for-plex"@, "config.yaml.bak"@],
                None => paths::path_components(path) == seq!["."@] + seq!["presence-for-plex"@, "config.yaml.bak"@],
            },
{
    let given = choose|given: Option<PathBuf>| #[trigger]
        call_ensures(dirs::config_dir, (), given) && (config::takes_files(
            config::dir_components(given),
        ) ==> paths::path_components(path) == config::app_dir_components(
            config::dir_components(given),
        ).push("config.yaml.bak"@));
    assert(call_ensures(dirs::config_dir, (), given));
    match given {
        Some(dir) => {
            if paths::takes_names(paths::path_components(dir)) {
                assert(paths::path_components(path) =~= paths::path_components(dir) + seq!["presence-for-plex"@, "config.yaml.bak"@]);
            }
        },
        None => {
            assert(paths::path_components(path) =~= seq!["."@] + seq!["presence-for-plex"@, "config.yaml.bak"@]);
        },
    }
}

/// The log lies in the program's directory, which lies in one that
/// `dirs::config_dir` may give, or in the current one if it gives none.
pub proof fn law_log_path(path: PathBuf)
    requires
        call_ensures(Config::log_path, (), path),
    ensures
        exists|given: Option<PathBuf>| #[trigger]
            call_ensures(dirs::config_dir, (), given) && match given {
                Some(dir) => paths::takes_names(paths::path_components(dir))
                    ==> paths::path_components(path) == paths::path_components(dir) + seq!["presence-for-plex"@, "presence-for-plex.log"@],
                None => paths::path_components(path) == seq!["."@] + seq!["presence-for-plex"@, "presence-for-plex.log"@],
            },
{
    let given = choose|given: Option<PathBuf>| #[trigger]
        call_ensures(dirs::config_dir, (), given) && (config::takes_files(
            config::dir_components(given),
        ) ==> paths::path_components(path) == config::app_dir_components(
            config::dir_components(given),
        ).push("presence-for-plex.log"@));
    assert(call_ensures(dirs::config_dir, (), given));
    match given {
        Some(dir) => {
            if paths::takes_names(paths::path_components(dir)) {
                assert(paths::path_components(path) =~= paths::path_components(dir) + seq!["presence-for-plex"@, "presence-for-plex.log"@]);
            }
        },
        None => {
            assert(paths::path_components(path) =~= seq!["."@] + seq!["presence-for-plex"@, "presence-for-plex.log"@]);
        },
    }
}

/// The file that a running instance locks lies in the program's directory,
/// which lies in one that `dirs::config_dir` may give, or in the current one
/// if it gives none.
pub proof fn law_lock_path(path: PathBuf)
    requires
        call_ensures(Config::lock_path, (), path),
    ensures
        exists|given: Option<PathBuf>| #[trigger]
            call_ensures(dirs::config_dir, (), given) && match given {
                Some(dir) => paths::takes_names(paths::path_components(dir))
                    ==> paths::path_components(path) == paths::path_components(dir) + seq!["presence-for-plex"@, "presence-for-plex.lock"@],
                None => paths::path_components(path) == seq!["."@] + seq!["presence-for-plex"@, "presence-for-plex.lock"@],
            },
{
    let given = choose|given: Option<PathBuf>| #[trigger]
        call_ensures(dirs::config_dir, (), given) && (config::takes_files(
            config::dir_components(given),
        ) ==> paths::path_components(path) == config::app_dir_components(
            config::dir_components(given),
        ).push("presence-for-plex.lock"@));
    assert(call_ensures(dirs::config_dir, (), given));
    match given {
        Some(dir) => {
            if paths::takes_names(paths::path_components(dir)) {
                assert(paths::path_components(path) =~= paths::path_components(dir) + seq!["presence-for-plex"@, "presence-for-plex.lock"@]);
            }
        },
        None => {
            assert(paths::path_components(path) =~= seq!["."@] + seq!["presence-for-plex"@, "presence-for-plex.lock"@]);
        },
    }
}

} // verus!
