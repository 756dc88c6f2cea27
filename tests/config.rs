use swift_xet_rust::config::{download_env_update, performance_defaults};
use swift_xet_rust::{EnvSnapshot, XetDownloadConfig};

fn unset() -> EnvSnapshot {
    EnvSnapshot {
        range_gets_set: false,
        preferred_range_gets: None,
        high_performance_set: false,
        preferred_high_performance: None,
        max_downloads_set: false,
        block_size_set: false,
    }
}

#[test]
fn default_config_values() {
    let c = XetDownloadConfig::default();
    assert_eq!(c.chunk_size_bytes, 8 * 1024 * 1024);
    assert_eq!(c.max_parallel_files, 32);
    assert_eq!(c.parallel_failures, 4);
    assert_eq!(c.max_retries, 3);
}

#[test]
fn settings_override_defaults() {
    let c = XetDownloadConfig::from_settings(Some("8"), Some("16"));
    assert_eq!(c.max_parallel_files, 8);
    assert_eq!(c.chunk_size_bytes, 16 * 1024 * 1024);
    let c = XetDownloadConfig::from_settings(Some("many"), Some("-1"));
    assert_eq!(c, XetDownloadConfig::default());
}

#[test]
fn unset_environment_gets_defaults() {
    let u = performance_defaults(&unset());
    assert_eq!(u.range_gets.as_deref(), Some("256"));
    assert_eq!(u.high_performance.as_deref(), Some("1"));
    assert!(u.max_concurrent_downloads.is_none());
    let u = download_env_update(&XetDownloadConfig::default(), &unset());
    assert_eq!(u.max_concurrent_downloads.as_deref(), Some("32"));
    assert_eq!(u.ingestion_block_size.as_deref(), Some("8388608"));
}

#[test]
fn caller_settings_win() {
    let env = EnvSnapshot {
        range_gets_set: true,
        preferred_range_gets: Some("4".to_string()),
        high_performance_set: true,
        preferred_high_performance: None,
        max_downloads_set: true,
        block_size_set: true,
    };
    let u = download_env_update(&XetDownloadConfig::default(), &env);
    assert!(u.range_gets.is_none());
    assert!(u.high_performance.is_none());
    assert!(u.max_concurrent_downloads.is_none());
    assert!(u.ingestion_block_size.is_none());
}

#[test]
fn preferences_shape_the_defaults() {
    let env = EnvSnapshot {
        preferred_range_gets: Some("64".to_string()),
        preferred_high_performance: Some("0".to_string()),
        ..unset()
    };
    let u = performance_defaults(&env);
    assert_eq!(u.range_gets.as_deref(), Some("64"));
    assert!(u.high_performance.is_none());
    let env = EnvSnapshot { preferred_high_performance: Some("no".to_string()), ..unset() };
    assert_eq!(performance_defaults(&env).high_performance.as_deref(), Some("1"));
}
