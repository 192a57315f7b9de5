use hello_tts::backends::edge::EdgeTTS;
use hello_tts::backends::edge::EdgeVoiceData;
use hello_tts::backends::google::GoogleTTS;
use hello_tts::backends::synthesis_outcome;
use hello_tts::config::LanguageConfig;
use hello_tts::config::TTSConfigFile;
use hello_tts::models::TTSError;

#[test]
fn test_derive_lang_code() {
    assert_eq!(GoogleTTS::derive_lang_code("en_US-Test"), "en-us");
    assert_eq!(GoogleTTS::derive_lang_code("FR"), "fr");
    assert_eq!(GoogleTTS::derive_lang_code(""), "en");
    assert_eq!(GoogleTTS::derive_lang_code("en-US"), "en-us");
    assert_eq!(GoogleTTS::derive_lang_code("en-GBR"), "en");
    assert_eq!(GoogleTTS::derive_lang_code("pt_br"), "pt-br");
}

#[test]
fn test_temp_file_names() {
    assert_eq!(EdgeTTS::temp_file_name(12345), "tts_output_12345.mp3");
    assert_eq!(GoogleTTS::temp_file_name(0), "gtts_output_0.mp3");
    assert_eq!(
        GoogleTTS::temp_file_name(u64::MAX),
        "gtts_output_18446744073709551615.mp3"
    );
}

#[test]
fn test_edge_synthesis_args() {
    let args = EdgeTTS::synthesis_args("aria", "Hello", "/tmp/x.mp3");
    assert_eq!(
        args,
        vec!["--voice", "aria", "--text", "Hello", "--write-media", "/tmp/x.mp3"]
    );

    let fallback = EdgeTTS::fallback_args("aria", "Hello", "/tmp/x.mp3");
    assert_eq!(
        fallback,
        vec![
            "-m",
            "edge_tts",
            "--voice",
            "aria",
            "--text",
            "Hello",
            "--write-media",
            "/tmp/x.mp3"
        ]
    );
}

#[test]
fn test_google_synthesis_args() {
    let args = GoogleTTS::synthesis_args("Hello", "en-us", "/tmp/y.mp3");
    assert_eq!(args, vec!["Hello", "--lang", "en-us", "--output", "/tmp/y.mp3"]);
}

#[test]
fn test_voices_from_listing_keeps_every_record() {
    let records = vec![
        EdgeVoiceData {
            short_name: "en-US-AriaNeural".to_string(),
            friendly_name: "Aria".to_string(),
            locale: "en-US".to_string(),
            gender: "Female".to_string(),
        },
        EdgeVoiceData {
            short_name: "fr-FR-DeniseNeural".to_string(),
            friendly_name: "Denise".to_string(),
            locale: "fr-FR".to_string(),
            gender: "Female".to_string(),
        },
    ];
    let voices = EdgeTTS::voices_from_listing(&records);
    assert_eq!(voices.len(), 2);
    assert_eq!(voices[0].name, "en-US-AriaNeural");
    assert_eq!(voices[0].display_name, "Aria");
    assert_eq!(voices[0].locale, "en-US");
    assert_eq!(voices[0].gender, "Female");
    assert!(voices[0].description.is_none());
    assert_eq!(voices[1].name, "fr-FR-DeniseNeural");
}

fn language(code: &str, name: &str, google_voice: Option<&str>) -> LanguageConfig {
    LanguageConfig {
        code: code.to_string(),
        name: name.to_string(),
        flag: None,
        text: None,
        edge_voice: Some("ignored".to_string()),
        google_voice: google_voice.map(|v| v.to_string()),
    }
}

#[test]
fn test_voices_from_config_skips_entries_without_a_voice() {
    let file = TTSConfigFile {
        languages: vec![
            language("en", "English", Some("en")),
            language("de", "German", None),
            language("fr", "French", Some("fr")),
        ],
    };
    let voices = GoogleTTS::voices_from_config(&file);
    assert_eq!(voices.len(), 2);
    assert_eq!(voices[0].name, "en");
    assert_eq!(voices[0].display_name, "English");
    assert_eq!(voices[0].locale, "en");
    assert_eq!(voices[0].gender, "Unknown");
    assert_eq!(voices[1].name, "fr");
    assert_eq!(voices[1].display_name, "French");
}

#[test]
fn test_synthesis_outcome_rules() {
    let ok = synthesis_outcome(true, Some(vec![1, 2, 3]), "Edge TTS failed: ", "ignored");
    assert_eq!(ok.unwrap(), vec![1u8, 2u8, 3u8]);

    let failed = synthesis_outcome(false, Some(vec![1]), "Edge TTS failed: ", "boom");
    match failed.unwrap_err() {
        TTSError::Synthesis(m) => assert_eq!(m, "Edge TTS failed: boom"),
        _ => panic!("expected a Synthesis error"),
    }

    let missing = synthesis_outcome(true, None, "Google TTS failed: ", "unused");
    match missing.unwrap_err() {
        TTSError::Synthesis(m) => assert_eq!(m, "Audio file was not generated"),
        _ => panic!("expected a Synthesis error"),
    }
}
