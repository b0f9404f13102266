use blackout::config::{Config, DaemonConfig};
use blackout::generator::GeneratorMode;

#[test]
fn test_default_config() {
    let config = Config::default();
    assert_eq!(config.port, 9400);
    assert_eq!(config.inactivity_timeout_secs, 60);
}

#[test]
fn default_config_follows_its_documentation() {
    let config = Config::default();
    assert_eq!(config.max_auth_attempts, 3);
    assert!(!config.json_logging);
    assert_eq!(config.event_check_interval_ms, 500);
}

#[test]
fn daemon_config_defaults_follow_the_documentation() {
    let config = DaemonConfig::default();
    assert_eq!(config.auto_lock_timeout, 30);
    assert_eq!(config.max_snapshots, 0);
    assert_eq!(config.password_generation.mode, GeneratorMode::Passphrase);
    assert_eq!(config.password_generation.word_count, 5);
    assert_eq!(config.password_generation.separator, '_');
}
