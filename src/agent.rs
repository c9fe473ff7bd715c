//! Settings of the local agent: defaults per platform, validation, edits from the command
//! line, and the client settings they lead to.
use vstd::prelude::*;
use crate::client::{
    opt_str, resolve_target_and_port, split_spec, target_of, ClientConfig, SshConfig,
};
use crate::protocol::DEFAULT_MAX_SIZE;
use crate::text::{trim_str, trimmed};

verus! {

#[derive(Debug, Clone)]
pub struct HotkeyConfig {
    pub push: String,
    pub pull: String,
}

#[derive(Debug, Clone)]
pub struct AgentConfig {
    pub config_version: u32,
    pub target: String,
    pub port: Option<u16>,
    pub identity_file: Option<String>,
    pub ssh_options: Vec<String>,
    pub max_size: usize,
    pub timeout_ms: u64,
    pub resync_frames: bool,
    pub resync_max_bytes: usize,
    pub hotkeys: HotkeyConfig,
    pub autostart_enabled: bool,
}

#[derive(Debug, Clone, Copy, PartialEq, Eq, Structural)]
pub enum PlatformDefaults {
    Windows,
    Macos,
    Linux,
}

/// Default timeout of one SSH exchange, in milliseconds.
pub const DEFAULT_TIMEOUT_MS: u64 = 7000;

/// Default number of noise bytes the resynchronising reader skips.
pub const DEFAULT_RESYNC_MAX_BYTES: usize = 8192;

/// The agent's defaults: no target, the default size bound and timeout, resynchronising
/// reads, autostart off, and the platform's copy and paste chords.
pub fn default_agent_config(platform: PlatformDefaults) -> (c: AgentConfig)
    ensures
        c.config_version == 1,
        c.target@.len() == 0,
        c.port is None,
        c.identity_file is None,
        c.ssh_options@.len() == 0,
        c.max_size == DEFAULT_MAX_SIZE,
        c.timeout_ms == DEFAULT_TIMEOUT_MS,
        c.resync_frames,
        c.resync_max_bytes == DEFAULT_RESYNC_MAX_BYTES,
        !c.autostart_enabled,
        platform == PlatformDefaults::Linux ==> c.hotkeys.push@ == "Ctrl+Shift+KeyC"@
            && c.hotkeys.pull@ == "Ctrl+Shift+KeyV"@,
        platform != PlatformDefaults::Linux ==> c.hotkeys.push@ == "CmdOrCtrl+Shift+KeyC"@
            && c.hotkeys.pull@ == "CmdOrCtrl+Shift+KeyV"@,
{
    let (push, pull) = match platform {
        PlatformDefaults::Macos => (
            String::from_str("CmdOrCtrl+Shift+KeyC"),
            String::from_str("CmdOrCtrl+Shift+KeyV"),
        ),
        PlatformDefaults::Windows => (
            String::from_str("CmdOrCtrl+Shift+KeyC"),
            String::from_str("CmdOrCtrl+Shift+KeyV"),
        ),
        PlatformDefaults::Linux => (
            String::from_str("Ctrl+Shift+KeyC"),
            String::from_str("Ctrl+Shift+KeyV"),
        ),
    };
    AgentConfig {
        config_version: 1,
        target: String::new(),
        port: None,
        identity_file: None,
        ssh_options: Vec::new(),
        max_size: DEFAULT_MAX_SIZE,
        timeout_ms: DEFAULT_TIMEOUT_MS,
        resync_frames: true,
        resync_max_bytes: DEFAULT_RESYNC_MAX_BYTES,
        hotkeys: HotkeyConfig { push, pull },
        autostart_enabled: false,
    }
}

/// The first setting that makes a configuration unusable.
#[derive(Debug, Clone, Copy, PartialEq, Eq, Structural)]
pub enum ConfigError {
    MissingTarget,
    ZeroMaxSize,
    ZeroTimeout,
    InvalidPushHotkey,
    InvalidPullHotkey,
}

impl ConfigError {
    pub fn message(&self) -> (r: String)
        ensures
            r@ == match *self {
                ConfigError::MissingTarget => "missing target; set config.target (user@host)"@,
                ConfigError::ZeroMaxSize => "max_size must be > 0"@,
                ConfigError::ZeroTimeout => "timeout_ms must be > 0"@,
                ConfigError::InvalidPushHotkey => "invalid push hotkey binding"@,
                ConfigError::InvalidPullHotkey => "invalid pull hotkey binding"@,
            },
    {
        match self {
            ConfigError::MissingTarget => String::from_str(
                "missing target; set config.target (user@host)",
            ),
            ConfigError::ZeroMaxSize => String::from_str("max_size must be > 0"),
            ConfigError::ZeroTimeout => String::from_str("timeout_ms must be > 0"),
            ConfigError::InvalidPushHotkey => String::from_str("invalid push hotkey binding"),
            ConfigError::InvalidPullHotkey => String::from_str("invalid pull hotkey binding"),
        }
    }
}

/// Whether global-hotkey reads `s` as a key chord.
pub uninterp spec fn hotkey_accepted(s: Seq<char>) -> bool;

/// Relies on global-hotkey's `HotKey::from_str`: whether the chord parses, which depends on
/// the text alone.
#[verifier::external_body]
fn hotkey_parses(s: &str) -> (r: bool)
    ensures
        r == hotkey_accepted(s@),
{
    s.parse::<global_hotkey::hotkey::HotKey>().is_ok()
}

/// Checks, in order, that the target is not blank, that the size bound and the timeout are
/// not zero, and that both hotkey chords parse.
pub fn validate_config(config: &AgentConfig) -> (r: Result<(), ConfigError>)
    ensures
        r == if trimmed(config.target@).len() == 0 {
            Err::<(), ConfigError>(ConfigError::MissingTarget)
        } else if config.max_size == 0 {
            Err(ConfigError::ZeroMaxSize)
        } else if config.timeout_ms == 0 {
            Err(ConfigError::ZeroTimeout)
        } else if !hotkey_accepted(config.hotkeys.push@) {
            Err(ConfigError::InvalidPushHotkey)
        } else if !hotkey_accepted(config.hotkeys.pull@) {
            Err(ConfigError::InvalidPullHotkey)
        } else {
            Ok(())
        },
{
    if trim_str(config.target.as_str()).unicode_len() == 0 {
        return Err(ConfigError::MissingTarget);
    }
    if config.max_size == 0 {
        return Err(ConfigError::ZeroMaxSize);
    }
    if config.timeout_ms == 0 {
        return Err(ConfigError::ZeroTimeout);
    }
    if !hotkey_parses(config.hotkeys.push.as_str()) {
        return Err(ConfigError::InvalidPushHotkey);
    }
    if !hotkey_parses(config.hotkeys.pull.as_str()) {
        return Err(ConfigError::InvalidPullHotkey);
    }
    Ok(())
}

fn clone_strings(v: &Vec<String>) -> (r: Vec<String>)
    ensures
        r@ == v@,
{
    let mut r: Vec<String> = Vec::new();
    let mut i: usize = 0;
    while i < v.len()
        invariant
            i <= v@.len(),
            r@ == v@.subrange(0, i as int),
        decreases v@.len() - i,
    {
        r.push(v[i].clone());
        assert(r@ =~= v@.subrange(0, i + 1));
        i = i + 1;
    }
    assert(v@.subrange(0, v@.len() as int) =~= v@);
    r
}

/// The client settings an agent configuration leads to.
pub fn client_config_from_agent(config: &AgentConfig) -> (c: ClientConfig)
    ensures
        c.ssh.target == config.target,
        c.ssh.port == config.port,
        c.ssh.user is None,
        c.ssh.host is None,
        c.ssh.identity_file == config.identity_file,
        c.ssh.ssh_options@ == config.ssh_options@,
        c.ssh.ssh_bin is None,
        c.max_size == config.max_size,
        c.timeout_ms == config.timeout_ms,
        c.resync_frames == config.resync_frames,
        c.resync_max_bytes == config.resync_max_bytes,
{
    let identity_file = match &config.identity_file {
        Some(f) => Some(f.clone()),
        None => None,
    };
    ClientConfig {
        ssh: SshConfig {
            target: config.target.clone(),
            port: config.port,
            user: None,
            host: None,
            identity_file,
            ssh_options: clone_strings(&config.ssh_options),
            ssh_bin: None,
        },
        max_size: config.max_size,
        timeout_ms: config.timeout_ms,
        resync_frames: config.resync_frames,
        resync_max_bytes: config.resync_max_bytes,
    }
}

/// Edits to the agent configuration given on the command line; each `None` leaves its
/// setting alone.
#[derive(Debug, Clone)]
pub struct ConfigSetArgs {
    pub target: Option<String>,
    pub port: Option<u16>,
    pub identity_file: Option<String>,
    pub ssh_option: Vec<String>,
    pub clear_ssh_options: bool,
    pub max_size: Option<usize>,
    pub timeout_ms: Option<u64>,
    pub resync_frames: Option<bool>,
    pub resync_max_bytes: Option<usize>,
}

impl Default for ConfigSetArgs {
    fn default() -> (r: Self)
        ensures
            r.target is None && r.port is None && r.identity_file is None && r.ssh_option@.len()
                == 0 && !r.clear_ssh_options && r.max_size is None && r.timeout_ms is None
                && r.resync_frames is None && r.resync_max_bytes is None,
    {
        ConfigSetArgs {
            target: None,
            port: None,
            identity_file: None,
            ssh_option: Vec::new(),
            clear_ssh_options: false,
            max_size: None,
            timeout_ms: None,
            resync_frames: None,
            resync_max_bytes: None,
        }
    }
}

pub open spec fn or_keep<T>(new: Option<T>, old: T) -> T {
    match new {
        Some(v) => v,
        None => old,
    }
}

/// Applies the edits: given settings replace the old ones, SSH options are appended to the
/// old list, or to an empty one when clearing is asked for.
pub fn apply_config_set(config: &mut AgentConfig, args: &ConfigSetArgs)
    ensures
        final(config).target == or_keep(args.target, old(config).target),
        final(config).port == match args.port {
            Some(p) => Some(p),
            None => old(config).port,
        },
        final(config).identity_file == match args.identity_file {
            Some(f) => Some(f),
            None => old(config).identity_file,
        },
        final(config).max_size == or_keep(args.max_size, old(config).max_size),
        final(config).timeout_ms == or_keep(args.timeout_ms, old(config).timeout_ms),
        final(config).resync_frames == or_keep(args.resync_frames, old(config).resync_frames),
        final(config).resync_max_bytes == or_keep(
            args.resync_max_bytes,
            old(config).resync_max_bytes,
        ),
        final(config).ssh_options@ == (if args.clear_ssh_options {
            Seq::empty()
        } else {
            old(config).ssh_options@
        }) + args.ssh_option@,
        final(config).config_version == old(config).config_version,
        final(config).hotkeys == old(config).hotkeys,
        final(config).autostart_enabled == old(config).autostart_enabled,
{
    if let Some(target) = &args.target {
        config.target = target.clone();
    }
    if let Some(port) = args.port {
        config.port = Some(port);
    }
    if let Some(identity) = &args.identity_file {
        config.identity_file = Some(identity.clone());
    }
    if let Some(max_size) = args.max_size {
        config.max_size = max_size;
    }
    if let Some(timeout_ms) = args.timeout_ms {
        config.timeout_ms = timeout_ms;
    }
    if let Some(resync_frames) = args.resync_frames {
        config.resync_frames = resync_frames;
    }
    if let Some(resync_max_bytes) = args.resync_max_bytes {
        config.resync_max_bytes = resync_max_bytes;
    }
    if args.clear_ssh_options {
        config.ssh_options.clear();
    }
    let ghost base = config.ssh_options@;
    let mut i: usize = 0;
    while i < args.ssh_option.len()
        invariant
            i <= args.ssh_option@.len(),
            config.ssh_options@ == base + args.ssh_option@.subrange(0, i as int),
            config.target == or_keep(args.target, old(config).target),
            config.port == match args.port {
                Some(p) => Some(p),
                None => old(config).port,
            },
            config.identity_file == match args.identity_file {
                Some(f) => Some(f),
                None => old(config).identity_file,
            },
            config.max_size == or_keep(args.max_size, old(config).max_size),
            config.timeout_ms == or_keep(args.timeout_ms, old(config).timeout_ms),
            config.resync_frames == or_keep(args.resync_frames, old(config).resync_frames),
            config.resync_max_bytes == or_keep(args.resync_max_bytes, old(config).resync_max_bytes),
            config.config_version == old(config).config_version,
            config.hotkeys == old(config).hotkeys,
            config.autostart_enabled == old(config).autostart_enabled,
        decreases args.ssh_option@.len() - i,
    {
        config.ssh_options.push(args.ssh_option[i].clone());
        assert(config.ssh_options@ =~= base + args.ssh_option@.subrange(0, i + 1));
        i = i + 1;
    }
    assert(args.ssh_option@.subrange(0, args.ssh_option@.len() as int) =~= args.ssh_option@);
}

/// What filling SSH settings from the agent configuration did.
#[derive(Debug, Clone)]
pub struct AgentConfigInfo {
    /// The target came from the agent configuration.
    pub used_for_target: bool,
    /// Why the agent configuration could not be loaded.
    pub load_error: Option<String>,
}

/// Fills the SSH settings that were not given from the agent configuration, when it could be
/// loaded: the target only when none resolves and the configuration has a non-blank one;
/// port, identity file and options only when unset.
pub fn maybe_apply_agent_config_defaults(
    ssh: &mut SshConfig,
    loaded: Result<AgentConfig, String>,
) -> (info: AgentConfigInfo)
    ensures
        match loaded {
            Ok(config) => {
                let resolved = split_spec(
                    trimmed(target_of(old(ssh).target@, opt_str(old(ssh).user), opt_str(old(ssh).host))),
                ).0;
                let take = trimmed(resolved).len() == 0 && trimmed(config.target@).len() > 0;
                &&& info.used_for_target == take
                &&& info.load_error is None
                &&& final(ssh).target == if take { config.target } else { old(ssh).target }
                &&& final(ssh).port == if old(ssh).port is None { config.port } else { old(ssh).port }
                &&& final(ssh).identity_file == if old(ssh).identity_file is None {
                    config.identity_file
                } else {
                    old(ssh).identity_file
                }
                &&& final(ssh).ssh_options@ == if old(ssh).ssh_options@.len() == 0 {
                    config.ssh_options@
                } else {
                    old(ssh).ssh_options@
                }
                &&& final(ssh).user == old(ssh).user && final(ssh).host == old(ssh).host
            },
            Err(e) => !info.used_for_target && info.load_error == Some(e) && *final(ssh) == *old(ssh),
        },
{
    match loaded {
        Ok(config) => {
            let (resolved, _) = resolve_target_and_port(ssh);
            let want_target = trim_str(resolved.as_str()).unicode_len() == 0;
            let take = want_target && trim_str(config.target.as_str()).unicode_len() > 0;
            if take {
                ssh.target = config.target.clone();
            }
            if ssh.port.is_none() {
                ssh.port = config.port;
            }
            if ssh.identity_file.is_none() {
                ssh.identity_file = match &config.identity_file {
                    Some(f) => Some(f.clone()),
                    None => None,
                };
            }
            if ssh.ssh_options.len() == 0 {
                ssh.ssh_options = clone_strings(&config.ssh_options);
            }
            AgentConfigInfo { used_for_target: take, load_error: None }
        },
        Err(e) => AgentConfigInfo { used_for_target: false, load_error: Some(e) },
    }
}

} // verus!
