use vstd::prelude::*;
use crate::notify::Notice;

verus! {

/// Name of the settings file, watched beside the content directory.
pub const CONFIG_FILE: &'static str = "site.toml";

/// Watcher settings.
#[derive(Clone, Debug)]
pub struct SentinelConfig {
    pub content_dir: String,
    pub log_file: String,
}

/// Remote mirror settings.
#[derive(Clone, Debug)]
pub struct DeployConfig {
    pub ssh_key: String,
    pub ssh_target: String,
    pub dest_dir: String,
}

/// One complete snapshot of the settings.
#[derive(Clone, Debug)]
pub struct Config {
    pub sentinel: SentinelConfig,
    pub deploy: DeployConfig,
}

/// Why settings could not be loaded.
pub enum ConfigError {
    /// The settings file could not be read.
    Unreadable(String),
    /// The settings file is not a well-formed document of the expected shape.
    Malformed(String),
    /// A required field is absent.
    MissingField(String),
}

impl ConfigError {
    pub open spec fn describe_spec(&self) -> Seq<char> {
        match self {
            ConfigError::Unreadable(why) => "could not read "@ + CONFIG_FILE@ + ": "@ + why@,
            ConfigError::Malformed(why) => "failed to parse "@ + CONFIG_FILE@ + ": "@ + why@,
            ConfigError::MissingField(field) => "missing field `"@ + field@ + "`"@,
        }
    }

    /// A one-line account of the error.
    pub fn describe(&self) -> (r: String)
        ensures
            r@ == self.describe_spec(),
    {
        match self {
            ConfigError::Unreadable(why) => {
                let mut r = String::from_str("could not read ");
                r.append(CONFIG_FILE);
                r.append(": ");
                r.append(why.as_str());
                r
            },
            ConfigError::Malformed(why) => {
                let mut r = String::from_str("failed to parse ");
                r.append(CONFIG_FILE);
                r.append(": ");
                r.append(why.as_str());
                r
            },
            ConfigError::MissingField(field) => {
                let mut r = String::from_str("missing field `");
                r.append(field.as_str());
                r.append("`");
                r
            },
        }
    }
}

/// The name of the first absent field, in the order the settings list them.
pub open spec fn first_missing(
    content_dir: Option<String>,
    log_file: Option<String>,
    ssh_key: Option<String>,
    ssh_target: Option<String>,
    dest_dir: Option<String>,
) -> Option<Seq<char>> {
    if content_dir is None {
        Some("content_dir"@)
    } else if log_file is None {
        Some("log_file"@)
    } else if ssh_key is None {
        Some("ssh_key"@)
    } else if ssh_target is None {
        Some("ssh_target"@)
    } else if dest_dir is None {
        Some("dest_dir"@)
    } else {
        None
    }
}

/// Assembles a snapshot from the fields read out of the settings document.
/// Succeeds exactly when every field is present; otherwise names the first
/// absent one.
pub fn config_from_fields(
    content_dir: Option<String>,
    log_file: Option<String>,
    ssh_key: Option<String>,
    ssh_target: Option<String>,
    dest_dir: Option<String>,
) -> (r: Result<Config, ConfigError>)
    ensures
        match first_missing(content_dir, log_file, ssh_key, ssh_target, dest_dir) {
            Some(field) => r matches Err(ConfigError::MissingField(f)) && f@ == field,
            None => r matches Ok(c) && c.sentinel.content_dir == content_dir->Some_0
                && c.sentinel.log_file == log_file->Some_0 && c.deploy.ssh_key == ssh_key->Some_0
                && c.deploy.ssh_target == ssh_target->Some_0 && c.deploy.dest_dir == dest_dir->Some_0,
        },
{
    match (content_dir, log_file, ssh_key, ssh_target, dest_dir) {
        (None, _, _, _, _) => Err(ConfigError::MissingField(String::from_str("content_dir"))),
        (_, None, _, _, _) => Err(ConfigError::MissingField(String::from_str("log_file"))),
        (_, _, None, _, _) => Err(ConfigError::MissingField(String::from_str("ssh_key"))),
        (_, _, _, None, _) => Err(ConfigError::MissingField(String::from_str("ssh_target"))),
        (_, _, _, _, None) => Err(ConfigError::MissingField(String::from_str("dest_dir"))),
        (Some(content_dir), Some(log_file), Some(ssh_key), Some(ssh_target), Some(dest_dir)) => Ok(
            Config {
                sentinel: SentinelConfig { content_dir, log_file },
                deploy: DeployConfig { ssh_key, ssh_target, dest_dir },
            },
        ),
    }
}

/// Outcome of reloading the settings.
pub enum ReloadOutcome {
    /// The new snapshot is now in effect.
    Reloaded,
    /// The previous snapshot stays in effect; the notice reports why.
    Kept(Notice),
}

/// Puts a freshly loaded snapshot in effect as a whole, or keeps the current
/// one untouched when loading failed.
pub fn apply_reload(current: &mut Config, loaded: Result<Config, ConfigError>) -> (r: ReloadOutcome)
    ensures
        match loaded {
            Ok(c) => *final(current) == c && r is Reloaded,
            Err(e) => *final(current) == *old(current) && (r matches ReloadOutcome::Kept(n)
                && n.title@ == "Config Reload Failed"@ && n.message@ == e.describe_spec()),
        },
{
    match loaded {
        Ok(c) => {
            *current = c;
            ReloadOutcome::Reloaded
        },
        Err(e) => {
            let message = e.describe();
            ReloadOutcome::Kept(Notice { title: String::from_str("Config Reload Failed"), message })
        },
    }
}

} // verus!
