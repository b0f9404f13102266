//! Settings of the daemons.

use vstd::prelude::*;

use crate::generator::{default_generator_config, GeneratorConfig};

verus! {

/// Settings read from `config.toml`: seconds of inactivity before the vault
/// locks itself, how many snapshot files to keep (0 keeps all), and the
/// generator settings used for autofill.
#[derive(Clone, Copy, Debug)]
pub struct DaemonConfig {
    pub auto_lock_timeout: u64,
    pub max_snapshots: usize,
    pub password_generation: GeneratorConfig,
}

impl Default for DaemonConfig {
    fn default() -> (res: Self)
        ensures
            res.auto_lock_timeout == 30,
            res.max_snapshots == 0,
            res.password_generation == default_generator_config(),
    {
        DaemonConfig {
            auto_lock_timeout: 30,
            max_snapshots: 0,
            password_generation: GeneratorConfig::default(),
        }
    }
}

/// Filesystem paths, carried through opaquely.
#[verifier::external_type_specification]
#[verifier::external_body]
pub struct ExPathBuf(std::path::PathBuf);

/// The user's home directory (`dirs::home_dir`). It depends on the
/// environment, so nothing is stated of it.
#[verifier::external_body]
fn home_dir() -> Option<std::path::PathBuf> {
    dirs::home_dir()
}

/// `base` with `part` appended (`Path::join`). Nothing is stated of paths.
#[verifier::external_body]
fn join_path(base: &std::path::PathBuf, part: &str) -> std::path::PathBuf {
    base.join(part)
}

/// The path made of `text` (`PathBuf::from`).
#[verifier::external_body]
fn path_from(text: &str) -> std::path::PathBuf {
    std::path::PathBuf::from(text)
}

/// Settings of the socket daemon: where its wallet lives, its port, the
/// inactivity timeout, logging, the number of unlock attempts and the
/// interval of its housekeeping tick.
pub struct Config {
    pub storage_path: std::path::PathBuf,
    pub port: u16,
    pub inactivity_timeout_secs: u64,
    pub json_logging: bool,
    pub max_auth_attempts: u32,
    pub event_check_interval_ms: u64,
}

impl Default for Config {
    /// The defaults; the wallet lives in `.blackout` under the home
    /// directory (under the working directory when there is none).
    fn default() -> (res: Self)
        ensures
            res.port == 9400,
            res.inactivity_timeout_secs == 60,
            !res.json_logging,
            res.max_auth_attempts == 3,
            res.event_check_interval_ms == 500,
    {
        let base = match home_dir() {
            Some(home) => home,
            None => path_from("."),
        };
        Config {
            storage_path: join_path(&base, ".blackout"),
            port: 9400,
            inactivity_timeout_secs: 60,
            json_logging: false,
            max_auth_attempts: 3,
            event_check_interval_ms: 500,
        }
    }
}

} // verus!
