use markcheck::config::{config_path, load_config, Config, ConfigError, ConfigFile};

#[test]
fn config_path_prefers_xdg_config_home() {
    let path = config_path(Some("/xdg"), Some("/home/user")).unwrap();
    assert_eq!(path, "/xdg/markcheck/config.toml");
}

#[test]
fn config_path_falls_back_to_home_dot_config() {
    let path = config_path(None, Some("/home/user")).unwrap();
    assert_eq!(path, "/home/user/.config/markcheck/config.toml");
}

#[test]
fn config_path_ignores_empty_xdg_config_home() {
    let path = config_path(Some(""), Some("/home/user")).unwrap();
    assert_eq!(path, "/home/user/.config/markcheck/config.toml");
}

#[test]
fn config_path_none_when_neither_set() {
    assert_eq!(config_path(None, None), None);
}

#[test]
fn config_path_none_when_home_is_empty_and_xdg_unset() {
    assert_eq!(config_path(None, Some("")), None);
}

#[test]
fn config_path_does_not_double_a_trailing_slash() {
    let path = config_path(Some("/xdg/"), None).unwrap();
    assert_eq!(path, "/xdg/markcheck/config.toml");
}

#[test]
fn load_config_missing_file_returns_defaults() {
    assert_eq!(load_config("/none.toml", ConfigFile::Missing).unwrap(), Config::default());
}

#[test]
fn load_config_hands_a_valid_file_on() {
    let config = Config {
        nerd_font: Some(false),
        mouse: None,
        primary: Some(true),
        auto_copy: None,
        git_sync_paths: Some(vec!["/home/user/checklists".to_string()]),
    };
    let loaded = load_config("/c.toml", ConfigFile::Valid(config)).unwrap();
    assert_eq!(loaded.nerd_font, Some(false));
    assert_eq!(loaded.primary, Some(true));
    assert_eq!(loaded.git_sync_paths, Some(vec!["/home/user/checklists".to_string()]));
}

#[test]
fn load_config_names_the_file_in_its_errors() {
    assert_eq!(
        load_config("/c.toml", ConfigFile::Unreadable("permission denied".to_string())),
        Err(ConfigError {
            context: "cannot read config file: /c.toml".to_string(),
            cause: "permission denied".to_string(),
        })
    );
    assert_eq!(
        load_config("/c.toml", ConfigFile::Invalid("unknown field `nerdfont`".to_string())),
        Err(ConfigError {
            context: "invalid config file: /c.toml".to_string(),
            cause: "unknown field `nerdfont`".to_string(),
        })
    );
}
