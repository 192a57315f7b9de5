use hello_tts::config::TTSConfig;

#[test]
fn config_test_tts_config_default() {
    let config = TTSConfig::default();
    assert_eq!(config.default_voice, "en-US-AriaNeural");
    assert_eq!(config.output_format, "mp3");
    assert_eq!(config.max_retries, 3);
    assert_eq!(config.backend, "edge");
}

#[test]
fn test_config_validation() {
    let mut config = TTSConfig::default();
    assert!(config.validate().is_ok());

    config.default_voice = String::new();
    assert!(config.validate().is_err());

    config.default_voice = "en-US-AriaNeural".to_string();
    config.batch_size = 0;
    assert!(config.validate().is_err());
}

#[test]
fn test_validation_rejects_zero_max_concurrent() {
    let mut config = TTSConfig::default();
    config.max_concurrent = 0;
    let err = config.validate().unwrap_err();
    assert!(matches!(err, hello_tts::models::TTSError::Config(_)));
    match err {
        hello_tts::models::TTSError::Config(m) => {
            assert_eq!(m, "max_concurrent must be positive");
        },
        _ => panic!("expected a Config error"),
    }
}
