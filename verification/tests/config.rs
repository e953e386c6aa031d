use soma_player::config::AppConfig;

#[test]
fn test_app_config_default() {
    let config = AppConfig::default();

    assert_eq!(config.last_channel_id, None);
    assert_eq!(config.volume, Some(50));
    assert_eq!(config.auto_start, false);
}

#[test]
fn test_set_volume_clamps_values() {
    let mut config = AppConfig::default();

    // Test normal value
    config.set_volume(75);
    assert_eq!(config.volume, Some(75));

    // Test clamping max value
    config.set_volume(150);
    assert_eq!(config.volume, Some(100));

    // Test minimum value
    config.set_volume(0);
    assert_eq!(config.volume, Some(0));
}

#[test]
fn test_set_last_channel() {
    let mut config = AppConfig::default();

    config.set_last_channel("deepspaceone".to_string());
    assert_eq!(config.last_channel_id, Some("deepspaceone".to_string()));
}

#[test]
fn test_set_auto_start() {
    let mut config = AppConfig::default();

    config.set_auto_start(true);
    assert_eq!(config.auto_start, true);

    config.set_auto_start(false);
    assert_eq!(config.auto_start, false);
}

#[test]
fn setters_leave_other_fields_alone() {
    let mut config = AppConfig::default();
    config.set_last_channel("groovesalad".to_string());
    config.set_volume(100);
    config.set_volume(101);
    config.set_auto_start(true);
    assert_eq!(config.last_channel_id, Some("groovesalad".to_string()));
    assert_eq!(config.volume, Some(100));
    assert!(config.auto_start);
    config.set_volume(255);
    assert_eq!(config.volume, Some(100));
}

#[test]
fn overrides_from_the_command_line() {
    let mut config = AppConfig::default();
    config.apply_overrides(false, None, None);
    assert_eq!(config.volume, Some(50));
    assert!(!config.auto_start);
    assert_eq!(config.last_channel_id, None);

    config.apply_overrides(true, Some(75), None);
    assert_eq!(config.volume, Some(75));
    assert!(config.auto_start);

    let mut config = AppConfig::default();
    config.apply_overrides(false, Some(101), Some("dronezone".to_string()));
    assert_eq!(config.volume, Some(50));
    assert!(config.auto_start);
    assert_eq!(config.last_channel_id, Some("dronezone".to_string()));

    let mut config = AppConfig { last_channel_id: None, volume: None, auto_start: true };
    config.apply_overrides(false, Some(100), None);
    assert_eq!(config.volume, Some(100));
    assert!(config.auto_start);
}
