//! The user's settings and the rules around loading and saving them.

use vstd::prelude::*;

verus! {

/// The settings kept in `config.toml`.
#[derive(Clone, Debug)]
pub struct Config {
    pub device_name: String,
    pub remote_host: String,
    pub username: String,
    pub port: u16,
    pub ssh_key_path: String,
    pub auto_connect: bool,
    pub start_on_boot: bool,
    pub poll_interval_seconds: u64,
}

/// The settings used when none could be loaded.
pub open spec fn is_default_config(c: Config) -> bool {
    &&& c.device_name@ == "My Laptop"@
    &&& c.remote_host@ == "192.168.1.100"@
    &&& c.username@ == "user"@
    &&& c.port == 22
    &&& c.ssh_key_path@ == "~/.ssh/id_ed25519"@
    &&& c.auto_connect
    &&& !c.start_on_boot
    &&& c.poll_interval_seconds == 5
}

impl Default for Config {
    fn default() -> (r: Self)
        ensures
            is_default_config(r),
    {
        Config {
            device_name: String::from_str("My Laptop"),
            remote_host: String::from_str("192.168.1.100"),
            username: String::from_str("user"),
            port: 22,
            ssh_key_path: String::from_str("~/.ssh/id_ed25519"),
            auto_connect: true,
            start_on_boot: false,
            poll_interval_seconds: 5,
        }
    }
}

impl Config {
    /// The settings in effect after a load: what was read, or the defaults when the
    /// configuration directory is unknown, the file is missing or it does not parse.
    pub fn from_loaded(loaded: Option<Config>) -> (r: Config)
        ensures
            loaded is Some ==> r == loaded->0,
            loaded is None ==> is_default_config(r),
    {
        match loaded {
            Some(c) => c,
            None => Config::default(),
        }
    }
}

/// Why the settings could not be saved.
pub enum SaveFailure {
    NoConfigDir,
    CreateDir(String),
    Serialize(String),
    Write(String),
}

pub open spec fn save_failure_text(f: SaveFailure) -> Seq<char> {
    match f {
        SaveFailure::NoConfigDir => "Could not determine config directory"@,
        SaveFailure::CreateDir(d) => "Failed to create config directory: "@ + d@,
        SaveFailure::Serialize(d) => "Failed to serialize config: "@ + d@,
        SaveFailure::Write(d) => "Failed to write config: "@ + d@,
    }
}

impl SaveFailure {
    /// The text that `save` reports for this failure.
    pub fn message(&self) -> (r: String)
        ensures
            r@ == save_failure_text(*self),
    {
        match self {
            SaveFailure::NoConfigDir => String::from_str("Could not determine config directory"),
            SaveFailure::CreateDir(d) => String::from_str(
                "Failed to create config directory: ",
            ).concat(d.as_str()),
            SaveFailure::Serialize(d) => String::from_str("Failed to serialize config: ").concat(
                d.as_str(),
            ),
            SaveFailure::Write(d) => String::from_str("Failed to write config: ").concat(
                d.as_str(),
            ),
        }
    }
}

} // verus!
