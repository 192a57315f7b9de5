//! A text-to-speech client core: a backend capability with two provider
//! flavours, voice-list caching, and the synthesis / persist / playback
//! orchestration around them.
//!
//! Everything here is verified. Process invocation, network transfers and
//! the audio device live outside the library and talk to it through plain
//! values and the [`backends::TTSBackend`] capability.

pub mod audio_player;
pub mod backends;
pub mod config;
pub mod config_manager;
pub mod models;
pub mod prelude;
pub mod text;
pub mod tts_client;

pub use audio_player::AudioError;
pub use audio_player::AudioPlayer;
pub use config::TTSConfig;
pub use config::TTSConfigFile;
pub use models::TTSError;
pub use models::Voice;
pub use tts_client::TTSProcessor;
