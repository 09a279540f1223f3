//! The configuration, where it is kept, and what becomes of a configuration file
//! that cannot be used.
use crate::media::MediaType;
use crate::paths;
use std::path::PathBuf;
use vstd::prelude::*;

verus! {

/// The permissions of the configuration file, which holds the Plex token: only
/// its owner may read and write it.
pub const CONFIG_FILE_MODE: u32 = 0o600;

/// The settings of the program.
#[derive(Debug, Clone)]
pub struct Config {
    pub discord_client_id: String,
    /// Which Discord client to target: "auto", "stable", "ptb", "canary".
    /// Maps to pipe indices: stable=0, ptb=1, canary=2. "auto" scans all.
    pub discord_client: String,
    pub show_buttons: bool,
    pub show_progress: bool,
    pub show_artwork: bool,
    pub plex_token: Option<String>,
    /// The address of a Plex server, which is then taken in place of those that
    /// the account lists.
    pub plex_server_url: Option<String>,
    pub enable_movies: bool,
    pub enable_tv_shows: bool,
    pub enable_music: bool,
    pub tmdb_token: Option<String>,
    pub tv_details: String,
    pub tv_state: String,
    pub tv_image_text: String,
    pub movie_details: String,
    pub movie_state: String,
    pub movie_image_text: String,
    pub music_details: String,
    pub music_state: String,
    pub music_image_text: String,
}

/// The settings that hold unless others are made.
pub open spec fn is_default(c: Config) -> bool {
    &&& c.discord_client_id@ == "1359742002618564618"@
    &&& c.discord_client@ == "auto"@
    &&& c.show_buttons
    &&& c.show_progress
    &&& c.show_artwork
    &&& c.plex_token is None
    &&& c.plex_server_url is None
    &&& c.enable_movies
    &&& c.enable_tv_shows
    &&& c.enable_music
    &&& c.tmdb_token is None
    &&& c.tv_details@ == "{show}"@
    &&& c.tv_state@ == "S{season} · E{episode} - {title}"@
    &&& c.tv_image_text@ == "{title}"@
    &&& c.movie_details@ == "{title} ({year})"@
    &&& c.movie_state@ == "{genres}"@
    &&& c.movie_image_text@ == "{title}"@
    &&& c.music_details@ == "{title}"@
    &&& c.music_state@ == "{artist}"@
    &&& c.music_image_text@ == "{album}"@
}

impl Default for Config {
    fn default() -> (config: Self)
        ensures
            is_default(config),
    {
        Config {
            discord_client_id: "1359742002618564618".to_owned(),
            discord_client: "auto".to_owned(),
            show_buttons: true,
            show_progress: true,
            show_artwork: true,
            plex_token: None,
            plex_server_url: None,
            enable_movies: true,
            enable_tv_shows: true,
            enable_music: true,
            tmdb_token: None,
            tv_details: "{show}".to_owned(),
            tv_state: "S{season} · E{episode} - {title}".to_owned(),
            tv_image_text: "{title}".to_owned(),
            movie_details: "{title} ({year})".to_owned(),
            movie_state: "{genres}".to_owned(),
            movie_image_text: "{title}".to_owned(),
            music_details: "{title}".to_owned(),
            music_state: "{artist}".to_owned(),
            music_image_text: "{album}".to_owned(),
        }
    }
}

/// What was found where the configuration file should be.
#[derive(Debug)]
pub enum ConfigFile {
    /// A configuration.
    Parsed(Config),
    /// A file that is not a configuration.
    Malformed,
    /// No file.
    Missing,
    /// A file that could not be read.
    Unreadable,
}

/// What is to be done about the configuration file.
#[derive(Debug, Clone, Copy, PartialEq, Eq, Structural)]
pub enum FileStep {
    /// It stays as it is.
    Keep,
    /// It is moved to the backup path.
    BackUp,
    /// The configuration is saved there.
    Save,
}

/// The components of the program's directory, in the user's configuration
/// directory or, where there is none, in the current one.
pub open spec fn app_dir_components(config_dir: Option<Seq<Seq<char>>>) -> Seq<Seq<char>> {
    match config_dir {
        Some(dir) => dir.push("presence-for-plex"@),
        None => seq!["."@, "presence-for-plex"@],
    }
}

/// The components of the user's configuration directory.
pub open spec fn dir_components(config_dir: Option<std::path::PathBuf>) -> Option<Seq<Seq<char>>> {
    match config_dir {
        Some(dir) => Some(paths::path_components(dir)),
        None => None,
    }
}

/// Whether the user's configuration directory, if there is one, takes names.
/// Only then are the components of the program's paths known.
pub open spec fn takes_files(config_dir: Option<Seq<Seq<char>>>) -> bool {
    match config_dir {
        Some(dir) => paths::takes_names(dir),
        None => true,
    }
}

proof fn lemma_plain_names()
    ensures
        paths::is_plain_name("presence-for-plex"@),
        paths::is_plain_name("config.yaml"@),
        paths::is_plain_name("yaml.bak"@),
        paths::is_plain_name("presence-for-plex.log"@),
        paths::is_plain_name("presence-for-plex.lock"@),
{
    reveal_strlit("presence-for-plex");
    reveal_strlit("config.yaml");
    reveal_strlit("yaml.bak");
    reveal_strlit("presence-for-plex.log");
    reveal_strlit("presence-for-plex.lock");
}

proof fn lemma_app_dir_takes_names(config_dir: Option<Seq<Seq<char>>>)
    requires
        takes_files(config_dir),
    ensures
        paths::takes_names(app_dir_components(config_dir)),
{
    reveal_strlit(".");
    reveal_strlit("presence-for-plex");
    assert("."@[0] == '.');
    assert("presence-for-plex"@[0] == 'p');
}

/// Asks where the user's configuration is kept, and hands on the answer.
fn asked<F: FnOnce() -> Option<PathBuf>>(ask: F) -> (dir: Option<PathBuf>)
    requires
        call_requires(ask, ()),
    ensures
        call_ensures(ask, (), dir),
{
    ask()
}

fn file_in(config_dir: Option<PathBuf>, name: &str) -> (path: PathBuf)
    requires
        paths::is_plain_name(name@),
    ensures
        takes_files(dir_components(config_dir)) ==> paths::path_components(path)
            == app_dir_components(dir_components(config_dir)).push(name@),
{
    proof {
        if takes_files(dir_components(config_dir)) {
            lemma_app_dir_takes_names(dir_components(config_dir));
        }
    }
    paths::join(&Config::app_dir_in(config_dir), name)
}

impl Config {
    /// The program's directory within this configuration directory.
    pub fn app_dir_in(config_dir: Option<PathBuf>) -> (path: PathBuf)
        ensures
            takes_files(dir_components(config_dir)) ==> paths::path_components(path)
                == app_dir_components(dir_components(config_dir)),
    {
        proof {
            lemma_plain_names();
            reveal_strlit(".");
            assert("."@[0] == '.');
        }
        match config_dir {
            Some(dir) => paths::join(&dir, "presence-for-plex"),
            None => {
                let path = paths::join(&paths::path_of("."), "presence-for-plex");
                assert(paths::path_components(path) =~= seq!["."@, "presence-for-plex"@]);
                path
            },
        }
    }

    /// The configuration file within this configuration directory.
    pub fn config_path_in(config_dir: Option<PathBuf>) -> (path: PathBuf)
        ensures
            takes_files(dir_components(config_dir)) ==> paths::path_components(path)
                == app_dir_components(dir_components(config_dir)).push("config.yaml"@),
    {
        proof {
            lemma_plain_names();
        }
        file_in(config_dir, "config.yaml")
    }

    /// Where a malformed configuration file is moved, within this configuration
    /// directory.
    pub fn backup_path_in(config_dir: Option<PathBuf>) -> (path: PathBuf)
        ensures
            takes_files(dir_components(config_dir)) ==> paths::path_components(path)
                == app_dir_components(dir_components(config_dir)).push("config.yaml.bak"@),
    {
        let path = Config::config_path_in(config_dir);
        proof {
            lemma_plain_names();
            reveal_strlit("config");
            reveal_strlit(".");
            reveal_strlit("yaml");
            reveal_strlit("config.yaml");
            reveal_strlit("yaml.bak");
            reveal_strlit("config.yaml.bak");
            assert("config.yaml"@ =~= "config"@ + "."@ + "yaml"@);
            assert("config.yaml.bak"@ =~= "config"@ + "."@ + "yaml.bak"@);
            let dir = app_dir_components(dir_components(config_dir));
            assert(dir.push("config.yaml"@).drop_last() =~= dir);
        }
        paths::with_extension(&path, "yaml.bak")
    }

    /// The log file within this configuration directory.
    pub fn log_path_in(config_dir: Option<PathBuf>) -> (path: PathBuf)
        ensures
            takes_files(dir_components(config_dir)) ==> paths::path_components(path)
                == app_dir_components(dir_components(config_dir)).push("presence-for-plex.log"@),
    {
        proof {
            lemma_plain_names();
        }
        file_in(config_dir, "presence-for-plex.log")
    }

    /// The file that a running instance locks, within this configuration
    /// directory.
    pub fn lock_path_in(config_dir: Option<PathBuf>) -> (path: PathBuf)
        ensures
            takes_files(dir_components(config_dir)) ==> paths::path_components(path)
                == app_dir_components(dir_components(config_dir)).push("presence-for-plex.lock"@),
    {
        proof {
            lemma_plain_names();
        }
        file_in(config_dir, "presence-for-plex.lock")
    }

    /// The program's directory, in the directory that `dirs::config_dir` gives.
    /// Which one that is lies with the environment.
    pub fn app_dir() -> (path: PathBuf)
        ensures
            exists|dir: Option<PathBuf>| #[trigger]
                call_ensures(dirs::config_dir, (), dir) && (takes_files(dir_components(dir))
                    ==> paths::path_components(path) == app_dir_components(dir_components(dir))),
    {
        Config::app_dir_in(asked(dirs::config_dir))
    }

    /// The configuration file.
    pub fn config_path() -> (path: PathBuf)
        ensures
            exists|dir: Option<PathBuf>| #[trigger]
                call_ensures(dirs::config_dir, (), dir) && (takes_files(dir_components(dir))
                    ==> paths::path_components(path) == app_dir_components(dir_components(dir)).push("config.yaml"@)),
    {
        Config::config_path_in(asked(dirs::config_dir))
    }

    /// Where a malformed configuration file is moved.
    pub fn backup_path() -> (path: PathBuf)
        ensures
            exists|dir: Option<PathBuf>| #[trigger]
                call_ensures(dirs::config_dir, (), dir) && (takes_files(dir_components(dir))
                    ==> paths::path_components(path) == app_dir_components(dir_components(dir)).push("config.yaml.bak"@)),
    {
        Config::backup_path_in(asked(dirs::config_dir))
    }

    /// The log file.
    pub fn log_path() -> (path: PathBuf)
        ensures
            exists|dir: Option<PathBuf>| #[trigger]
                call_ensures(dirs::config_dir, (), dir) && (takes_files(dir_components(dir))
                    ==> paths::path_components(path) == app_dir_components(dir_components(dir)).push("presence-for-plex.log"@)),
    {
        Config::log_path_in(asked(dirs::config_dir))
    }

    /// The file that a running instance locks.
    pub fn lock_path() -> (path: PathBuf)
        ensures
            exists|dir: Option<PathBuf>| #[trigger]
                call_ensures(dirs::config_dir, (), dir) && (takes_files(dir_components(dir))
                    ==> paths::path_components(path) == app_dir_components(dir_components(dir)).push("presence-for-plex.lock"@)),
    {
        Config::lock_path_in(asked(dirs::config_dir))
    }

    /// The configuration to go by, for what was found where the file should be,
    /// and what is to be done about the file.
    pub fn load(file: ConfigFile) -> (loaded: (Config, FileStep))
        ensures
            match file {
                ConfigFile::Parsed(config) => loaded == (config, FileStep::Keep),
                ConfigFile::Malformed => is_default(loaded.0) && loaded.1 == FileStep::BackUp,
                ConfigFile::Missing => is_default(loaded.0) && loaded.1 == FileStep::Save,
                ConfigFile::Unreadable => is_default(loaded.0) && loaded.1 == FileStep::Keep,
            },
    {
        match file {
            ConfigFile::Parsed(config) => (config, FileStep::Keep),
            ConfigFile::Malformed => (Config::default(), FileStep::BackUp),
            ConfigFile::Missing => (Config::default(), FileStep::Save),
            ConfigFile::Unreadable => (Config::default(), FileStep::Keep),
        }
    }

    /// The configuration with this Plex token.
    pub fn with_plex_token(self, token: String) -> (config: Config)
        ensures
            config == (Config { plex_token: Some(token), ..self }),
    {
        let mut config = self;
        config.plex_token = Some(token);
        config
    }

    /// Whether media of a kind is shown.
    pub open spec fn shows(self, media_type: MediaType) -> bool {
        match media_type {
            MediaType::Movie => self.enable_movies,
            MediaType::Episode => self.enable_tv_shows,
            MediaType::Track => self.enable_music,
        }
    }

    /// Tells whether media of this kind is shown.
    pub fn enabled(&self, media_type: MediaType) -> (enabled: bool)
        ensures
            enabled == self.shows(media_type),
    {
        match media_type {
            MediaType::Movie => self.enable_movies,
            MediaType::Episode => self.enable_tv_shows,
            MediaType::Track => self.enable_music,
        }
    }
}

/// The program's files lie side by side in its directory, and no two of them
/// are the same.
pub proof fn law_files_differ(config_dir: Option<Seq<Seq<char>>>)
    ensures
        ({
            let dir = app_dir_components(config_dir);
            &&& dir.push("config.yaml"@) != dir.push("config.yaml.bak"@)
            &&& dir.push("config.yaml"@) != dir.push("presence-for-plex.log"@)
            &&& dir.push("config.yaml"@) != dir.push("presence-for-plex.lock"@)
            &&& dir.push("config.yaml.bak"@) != dir.push("presence-for-plex.log"@)
            &&& dir.push("config.yaml.bak"@) != dir.push("presence-for-plex.lock"@)
            &&& dir.push("presence-for-plex.log"@) != dir.push("presence-for-plex.lock"@)
        }),
{
    reveal_strlit("config.yaml");
    reveal_strlit("config.yaml.bak");
    reveal_strlit("presence-for-plex.log");
    reveal_strlit("presence-for-plex.lock");
    let dir = app_dir_components(config_dir);
    let n = dir.len() as int;
    assert(dir.push("config.yaml"@)[n].len() == 11);
    assert(dir.push("config.yaml.bak"@)[n].len() == 15);
    assert(dir.push("presence-for-plex.log"@)[n].len() == 21);
    assert(dir.push("presence-for-plex.lock"@)[n].len() == 22);
}

} // verus!
