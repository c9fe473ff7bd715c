use ssh_clipboard::agent::{
    apply_config_set, maybe_apply_agent_config_defaults, client_config_from_agent, default_agent_config, validate_config,
    ConfigError, ConfigSetArgs, PlatformDefaults,
};
use ssh_clipboard::client::SshConfig;
use ssh_clipboard::protocol::DEFAULT_MAX_SIZE;

#[test]
fn apply_config_set_updates_only_provided_fields() {
    let mut config = default_agent_config(PlatformDefaults::Linux);
    config.target = "user@old".to_string();
    config.max_size = 1;
    config.timeout_ms = 2;

    let args = ConfigSetArgs {
        target: Some("user@new".to_string()),
        max_size: Some(42),
        timeout_ms: None,
        ..ConfigSetArgs::default()
    };
    apply_config_set(&mut config, &args);

    assert_eq!(config.target, "user@new");
    assert_eq!(config.max_size, 42);
    assert_eq!(config.timeout_ms, 2);
}

#[test]
fn apply_config_set_appends_ssh_options_by_default() {
    let mut config = default_agent_config(PlatformDefaults::Linux);
    config.ssh_options = vec!["A=1".to_string()];
    let args = ConfigSetArgs { ssh_option: vec!["B=2".to_string()], ..ConfigSetArgs::default() };
    apply_config_set(&mut config, &args);
    assert_eq!(config.ssh_options, vec!["A=1", "B=2"]);
}

#[test]
fn apply_config_set_clear_ssh_options() {
    let mut config = default_agent_config(PlatformDefaults::Linux);
    config.ssh_options = vec!["A=1".to_string()];
    let args = ConfigSetArgs {
        clear_ssh_options: true,
        ssh_option: vec!["B=2".to_string()],
        ..ConfigSetArgs::default()
    };
    apply_config_set(&mut config, &args);
    assert_eq!(config.ssh_options, vec!["B=2"]);
}

#[test]
fn defaults_depend_on_platform() {
    let linux = default_agent_config(PlatformDefaults::Linux);
    assert_eq!(linux.hotkeys.push, "Ctrl+Shift+KeyC");
    assert_eq!(linux.hotkeys.pull, "Ctrl+Shift+KeyV");
    let mac = default_agent_config(PlatformDefaults::Macos);
    assert_eq!(mac.hotkeys.push, "CmdOrCtrl+Shift+KeyC");
    assert_eq!(mac.max_size, DEFAULT_MAX_SIZE);
    assert_eq!(mac.timeout_ms, 7000);
    assert!(mac.target.is_empty());
}

#[test]
fn validation_checks_in_order() {
    let mut config = default_agent_config(PlatformDefaults::Windows);
    assert_eq!(validate_config(&config), Err(ConfigError::MissingTarget));
    config.target = "  \t".to_string();
    assert_eq!(validate_config(&config), Err(ConfigError::MissingTarget));
    config.target = "u@h".to_string();
    config.max_size = 0;
    config.timeout_ms = 0;
    assert_eq!(validate_config(&config), Err(ConfigError::ZeroMaxSize));
    config.max_size = 1;
    assert_eq!(validate_config(&config), Err(ConfigError::ZeroTimeout));
    config.timeout_ms = 1;
    assert_eq!(validate_config(&config), Ok(()));
    config.hotkeys.pull = "Ctrl+Shift+NotAKey".to_string();
    assert_eq!(validate_config(&config), Err(ConfigError::InvalidPullHotkey));
    config.hotkeys.push = "".to_string();
    assert_eq!(validate_config(&config), Err(ConfigError::InvalidPushHotkey));
}

#[test]
fn client_config_copies_connection_settings() {
    let mut config = default_agent_config(PlatformDefaults::Linux);
    config.target = "u@h".to_string();
    config.port = Some(22);
    config.ssh_options = vec!["A=1".to_string()];
    let client = client_config_from_agent(&config);
    assert_eq!(client.ssh.target, "u@h");
    assert_eq!(client.ssh.port, Some(22));
    assert_eq!(client.ssh.ssh_options, vec!["A=1"]);
    assert_eq!(client.max_size, config.max_size);
}

fn empty_ssh() -> SshConfig {
    SshConfig {
        target: String::new(),
        port: None,
        user: None,
        host: None,
        identity_file: None,
        ssh_options: Vec::new(),
        ssh_bin: None,
    }
}

#[test]
fn agent_config_fills_missing_ssh_settings() {
    let mut config = default_agent_config(PlatformDefaults::Linux);
    config.target = "u@saved".to_string();
    config.port = Some(2222);
    config.ssh_options = vec!["A=1".to_string()];
    let mut ssh = empty_ssh();
    let info = maybe_apply_agent_config_defaults(&mut ssh, Ok(config.clone()));
    assert!(info.used_for_target);
    assert_eq!(ssh.target, "u@saved");
    assert_eq!(ssh.port, Some(2222));
    assert_eq!(ssh.ssh_options, vec!["A=1"]);

    let mut ssh = empty_ssh();
    ssh.host = Some("given".to_string());
    ssh.port = Some(22);
    let info = maybe_apply_agent_config_defaults(&mut ssh, Ok(config));
    assert!(!info.used_for_target);
    assert_eq!(ssh.target, "");
    assert_eq!(ssh.port, Some(22));

    let mut ssh = empty_ssh();
    let info = maybe_apply_agent_config_defaults(&mut ssh, Err("no file".to_string()));
    assert_eq!(info.load_error.as_deref(), Some("no file"));
    assert!(ssh.port.is_none());
}

#[test]
fn config_error_messages() {
    assert_eq!(ConfigError::MissingTarget.message(), "missing target; set config.target (user@host)");
    assert_eq!(ConfigError::ZeroMaxSize.message(), "max_size must be > 0");
    assert_eq!(ConfigError::InvalidPullHotkey.message(), "invalid pull hotkey binding");
}
