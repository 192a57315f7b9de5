use hello_tts::audio_player::AudioError;
use hello_tts::audio_player::AudioPlayer;
use hello_tts::audio_player::FULL_VOLUME;

#[test]
fn test_volume_control() {
    let mut player = AudioPlayer::new();
    player.set_volume(500);
    assert_eq!(player.volume(), 500);

    player.set_volume(1500);
    assert_eq!(player.volume(), FULL_VOLUME);

    player.set_volume(-500);
    assert_eq!(player.volume(), 0);
}

#[test]
fn test_playback_controls() {
    let mut player = AudioPlayer::new();
    player.pause();
    player.resume();
    player.stop();
    assert!(!player.is_playing());
}

#[test]
fn test_transport_state_machine() {
    let mut player = AudioPlayer::new();
    assert!(!player.is_playing());

    player.begin_playback();
    assert!(player.is_playing());

    player.pause();
    assert!(player.is_playing(), "a paused sink still holds its queue");

    player.resume();
    assert!(player.is_playing());

    player.finish_playback();
    assert!(!player.is_playing());

    player.pause();
    assert!(!player.is_playing(), "pausing while idle is a no-op");

    player.begin_playback();
    player.stop();
    assert!(!player.is_playing());
}

#[test]
fn test_default_player_is_idle_at_full_volume() {
    let player = AudioPlayer::default();
    assert!(!player.is_playing());
    assert_eq!(player.volume(), FULL_VOLUME);
}

#[test]
fn test_audio_error_messages() {
    assert_eq!(AudioError::Io("f".to_string()).message(), "IO error: f");
    assert_eq!(
        AudioError::Decode("bad".to_string()).message(),
        "Audio decode error: bad"
    );
    assert_eq!(
        AudioError::Playback("halt".to_string()).message(),
        "Audio playback error: halt"
    );
    assert_eq!(
        AudioError::Device("none".to_string()).message(),
        "Audio device error: none"
    );
}
