use hello_tts::config::TTSConfig;
use hello_tts::config_manager::ConfigManager;
use hello_tts::config_manager::list_presets;

#[test]
fn test_default_config() {
    let config = TTSConfig::default();
    assert_eq!(config.default_voice, "en-US-AriaNeural");
    assert_eq!(config.output_format, "mp3");
    assert_eq!(config.batch_size, 5);
    assert_eq!(config.max_concurrent, 3);
}

#[test]
fn test_presets() {
    let presets = ConfigManager::get_presets();
    assert!(presets.iter().any(|(name, _)| name == "default"));
    assert!(presets.iter().any(|(name, _)| name == "fast"));
    assert!(presets.iter().any(|(name, _)| name == "slow"));

    let fast_config = &presets.iter().find(|(name, _)| name == "fast").unwrap().1;
    assert_eq!(fast_config.rate, "+20%");
    assert_eq!(fast_config.max_concurrent, 5);
}

#[test]
fn test_get_preset() {
    let config = ConfigManager::get_preset("fast").unwrap();
    assert_eq!(config.rate, "+20%");
    assert_eq!(config.batch_size, 10);
}

#[test]
fn test_unknown_preset() {
    let result = ConfigManager::get_preset("unknown");
    assert!(result.is_err());
}

#[test]
fn test_list_presets() {
    let presets = ConfigManager::list_presets();
    assert!(presets.iter().any(|name| name == "default"));
    assert!(presets.iter().any(|name| name == "fast"));
    assert!(presets.iter().any(|name| name == "slow"));
}

#[test]
fn test_free_functions_match_manager() {
    let names = list_presets();
    assert_eq!(names.len(), 7);
    let whisper = hello_tts::config_manager::get_preset("whisper").unwrap();
    assert_eq!(whisper.rate, "-10%");
    assert_eq!(whisper.volume, "50%");
    assert_eq!(whisper.pitch, "-5%");
}

#[test]
fn test_unknown_preset_message_names_choices() {
    let err = ConfigManager::get_preset("nope").unwrap_err();
    match err {
        hello_tts::models::TTSError::Config(m) => {
            assert_eq!(
                m,
                "Unknown preset 'nope'. Available: default, fast, slow, high_quality, batch_processing, whisper, excited"
            );
        },
        _ => panic!("expected a Config error"),
    }
}

#[test]
fn test_every_preset_is_valid() {
    for (name, config) in ConfigManager::get_presets() {
        assert!(config.validate().is_ok(), "preset should be valid: {}", name);
    }
}
