//! The configuration file: where it is, and what it comes to.

use vstd::prelude::*;

use crate::git_text;
use crate::git_text::join_path;
use crate::text::join2;

verus! {

/// Defaults for the command line, each of them optional.
#[derive(Debug, PartialEq, Eq)]
pub struct Config {
    pub nerd_font: Option<bool>,
    pub mouse: Option<bool>,
    pub primary: Option<bool>,
    pub auto_copy: Option<bool>,
    /// Git-sync is on for files under these paths.
    pub git_sync_paths: Option<Vec<String>>,
}

impl Config {
    /// Nothing is configured.
    pub open spec fn is_empty(self) -> bool {
        &&& self.nerd_font is None
        &&& self.mouse is None
        &&& self.primary is None
        &&& self.auto_copy is None
        &&& self.git_sync_paths is None
    }
}

impl Default for Config {
    /// Nothing configured.
    fn default() -> (r: Config)
        ensures
            r.is_empty(),
            r.nerd_font is None && r.mouse is None && r.primary is None && r.auto_copy is None
                && r.git_sync_paths is None,
    {
        Config {
            nerd_font: None,
            mouse: None,
            primary: None,
            auto_copy: None,
            git_sync_paths: None,
        }
    }
}

/// The directory of configuration files: the one that the environment names,
/// or else `.config` in the home directory. An empty name counts as none.
pub open spec fn config_base(xdg: Option<Seq<char>>, home: Option<Seq<char>>) -> Option<Seq<char>> {
    if xdg is Some && (xdg->0).len() > 0 {
        xdg
    } else if home is Some && (home->0).len() > 0 {
        Some(git_text::joined_path(home->0, ".config"@))
    } else {
        None
    }
}

/// Where the configuration file is.
pub open spec fn config_location(xdg: Option<Seq<char>>, home: Option<Seq<char>>) -> Option<
    Seq<char>,
> {
    match config_base(xdg, home) {
        Some(base) => Some(
            git_text::joined_path(git_text::joined_path(base, "markcheck"@), "config.toml"@),
        ),
        None => None,
    }
}

/// An optional text as a mathematical value.
pub open spec fn option_text(o: Option<&str>) -> Option<Seq<char>> {
    match o {
        Some(s) => Some(s@),
        None => None,
    }
}

/// Where the configuration file is, given what the environment has for
/// `XDG_CONFIG_HOME` and `HOME`.
pub fn config_path(xdg_config_home: Option<&str>, home: Option<&str>) -> (r: Option<String>)
    ensures
        crate::app_state::text_model(r) == config_location(
            option_text(xdg_config_home),
            option_text(home),
        ),
{
    let named = match xdg_config_home {
        Some(dir) => !dir.is_empty(),
        None => false,
    };
    let base: String = if named {
        match xdg_config_home {
            Some(dir) => crate::text::copy_of(dir),
            None => {
                return None;
            },
        }
    } else {
        match home {
            Some(dir) => {
                if dir.is_empty() {
                    return None;
                }
                join_path(dir, ".config")
            },
            None => {
                return None;
            },
        }
    };
    let dir = join_path(base.as_str(), "markcheck");
    Some(join_path(dir.as_str(), "config.toml"))
}

/// What reading the configuration file gave.
#[derive(Debug)]
pub enum ConfigFile {
    /// There is none.
    Missing,
    /// It cannot be read, for the given reason.
    Unreadable(String),
    /// It was read, but is not valid, for the given reason.
    Invalid(String),
    /// It was read.
    Valid(Config),
}

/// Why a configuration file cannot be used: what was tried, and what went
/// wrong.
#[derive(Debug, PartialEq, Eq)]
pub struct ConfigError {
    pub context: String,
    pub cause: String,
}

/// What a configuration file comes to. That there is none is not an error, and
/// configures nothing; one that cannot be read, or is not valid, is an error.
pub fn load_config(path: &str, file: ConfigFile) -> (r: Result<Config, ConfigError>)
    ensures
        match file {
            ConfigFile::Missing => r matches Ok(config) && config.is_empty() && config.nerd_font
                is None && config.mouse is None && config.primary is None && config.auto_copy
                is None && config.git_sync_paths is None,
            ConfigFile::Valid(config) => r == Ok::<Config, ConfigError>(config),
            ConfigFile::Unreadable(reason) => r matches Err(e) && e.context@
                == "cannot read config file: "@ + path@ && e.cause@ == reason@,
            ConfigFile::Invalid(reason) => r matches Err(e) && e.context@
                == "invalid config file: "@ + path@ && e.cause@ == reason@,
        },
{
    match file {
        ConfigFile::Missing => Ok(Config::default()),
        ConfigFile::Valid(config) => Ok(config),
        ConfigFile::Unreadable(reason) => Err(
            ConfigError { context: join2("cannot read config file: ", path), cause: reason },
        ),
        ConfigFile::Invalid(reason) => Err(
            ConfigError { context: join2("invalid config file: ", path), cause: reason },
        ),
    }
}

} // verus!
