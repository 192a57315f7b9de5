//! The commonly used types in one place.

pub use crate::audio_player::{AudioError, AudioPlayer};
pub use crate::backends::TTSBackend;
pub use crate::config::{TTSConfig, TTSConfigFile};
pub use crate::models::{TTSError, Voice};
pub use crate::tts_client::TTSProcessor;
