//! Processor configuration: the snapshot of values a processor is built
//! from, its construction invariants, and the shape of the shared voice
//! configuration document that the command-line backend reads.

use crate::models::TTSError;
use vstd::prelude::*;

verus! {

/// Configuration of a processor. Built once, immutable thereafter.
#[derive(Debug)]
pub struct TTSConfig {
    pub default_voice: String,
    /// Selects the backend: `"google"` means the command-line provider,
    /// anything else the cloud provider.
    pub backend: String,
    pub output_format: String,
    pub output_directory: String,
    pub auto_play: bool,
    pub cache_voices: bool,
    pub max_retries: u32,
    /// Timeout for provider calls, in seconds.
    pub timeout: u64,
    pub rate: String,
    pub pitch: String,
    pub volume: String,
    pub batch_size: usize,
    pub max_concurrent: usize,
}

/// The mathematical image of a [`TTSConfig`].
pub ghost struct ConfigView {
    pub default_voice: Seq<char>,
    pub backend: Seq<char>,
    pub output_format: Seq<char>,
    pub output_directory: Seq<char>,
    pub auto_play: bool,
    pub cache_voices: bool,
    pub max_retries: u32,
    pub timeout: u64,
    pub rate: Seq<char>,
    pub pitch: Seq<char>,
    pub volume: Seq<char>,
    pub batch_size: usize,
    pub max_concurrent: usize,
}

impl View for TTSConfig {
    type V = ConfigView;

    open spec fn view(&self) -> ConfigView {
        ConfigView {
            default_voice: self.default_voice@,
            backend: self.backend@,
            output_format: self.output_format@,
            output_directory: self.output_directory@,
            auto_play: self.auto_play,
            cache_voices: self.cache_voices,
            max_retries: self.max_retries,
            timeout: self.timeout,
            rate: self.rate@,
            pitch: self.pitch@,
            volume: self.volume@,
            batch_size: self.batch_size,
            max_concurrent: self.max_concurrent,
        }
    }
}

/// The configuration every processor starts from when none is supplied.
pub open spec fn default_config() -> ConfigView {
    ConfigView {
        default_voice: "en-US-AriaNeural"@,
        backend: "edge"@,
        output_format: "mp3"@,
        output_directory: "./output"@,
        auto_play: true,
        cache_voices: true,
        max_retries: 3,
        timeout: 30,
        rate: "0%"@,
        pitch: "0%"@,
        volume: "100%"@,
        batch_size: 5,
        max_concurrent: 3,
    }
}

/// The construction invariants of a configuration: a named default voice
/// and positive batching values.
pub open spec fn spec_valid_config(c: ConfigView) -> bool {
    c.default_voice.len() > 0 && c.batch_size > 0 && c.max_concurrent > 0
}

impl Clone for TTSConfig {
    /// A clone carries exactly the same field values.
    fn clone(&self) -> (r: Self)
        ensures
            r == *self,
    {
        TTSConfig {
            default_voice: self.default_voice.clone(),
            backend: self.backend.clone(),
            output_format: self.output_format.clone(),
            output_directory: self.output_directory.clone(),
            auto_play: self.auto_play,
            cache_voices: self.cache_voices,
            max_retries: self.max_retries,
            timeout: self.timeout,
            rate: self.rate.clone(),
            pitch: self.pitch.clone(),
            volume: self.volume.clone(),
            batch_size: self.batch_size,
            max_concurrent: self.max_concurrent,
        }
    }
}

impl Default for TTSConfig {
    /// The stock configuration: cloud backend, mp3 output, caching on.
    fn default() -> (r: Self)
        ensures
            r@ == default_config(),
    {
        TTSConfig {
            default_voice: String::from_str("en-US-AriaNeural"),
            backend: String::from_str("edge"),
            output_format: String::from_str("mp3"),
            output_directory: String::from_str("./output"),
            auto_play: true,
            cache_voices: true,
            max_retries: 3,
            timeout: 30,
            rate: String::from_str("0%"),
            pitch: String::from_str("0%"),
            volume: String::from_str("100%"),
            batch_size: 5,
            max_concurrent: 3,
        }
    }
}

impl TTSConfig {
    /// Checks the construction invariants. Succeeds exactly on valid values;
    /// every rejection is a `Config` error naming the first failing field.
    pub fn validate(&self) -> (r: Result<(), TTSError>)
        ensures
            r is Ok <==> spec_valid_config(self@),
            r matches Err(e) ==> e matches TTSError::Config(m) && (
                (self@.default_voice.len() == 0 && m@ == "default_voice cannot be empty"@)
                || (self@.default_voice.len() > 0 && self@.batch_size == 0 && m@
                    == "batch_size must be positive"@)
                || (self@.default_voice.len() > 0 && self@.batch_size > 0 && self@.max_concurrent
                    == 0 && m@ == "max_concurrent must be positive"@)
            ),
    {
        if self.default_voice.as_str().is_empty() {
            return Err(TTSError::Config(String::from_str("default_voice cannot be empty")));
        }
        if self.batch_size == 0 {
            return Err(TTSError::Config(String::from_str("batch_size must be positive")));
        }
        if self.max_concurrent == 0 {
            return Err(TTSError::Config(String::from_str("max_concurrent must be positive")));
        }
        Ok(())
    }
}

/// One language entry of the shared voice configuration document.
#[derive(Debug)]
pub struct LanguageConfig {
    pub code: String,
    pub name: String,
    pub flag: Option<String>,
    pub text: Option<String>,
    pub edge_voice: Option<String>,
    pub google_voice: Option<String>,
}

/// The mathematical image of a [`LanguageConfig`].
pub ghost struct LanguageConfigView {
    pub code: Seq<char>,
    pub name: Seq<char>,
    pub flag: Option<Seq<char>>,
    pub text: Option<Seq<char>>,
    pub edge_voice: Option<Seq<char>>,
    pub google_voice: Option<Seq<char>>,
}

impl View for LanguageConfig {
    type V = LanguageConfigView;

    open spec fn view(&self) -> LanguageConfigView {
        LanguageConfigView {
            code: self.code@,
            name: self.name@,
            flag: match self.flag {
                Some(s) => Some(s@),
                None => None,
            },
            text: match self.text {
                Some(s) => Some(s@),
                None => None,
            },
            edge_voice: match self.edge_voice {
                Some(s) => Some(s@),
                None => None,
            },
            google_voice: match self.google_voice {
                Some(s) => Some(s@),
                None => None,
            },
        }
    }
}

/// The shared voice configuration document: its language entries, in order.
#[derive(Debug)]
pub struct TTSConfigFile {
    pub languages: Vec<LanguageConfig>,
}

impl View for TTSConfigFile {
    type V = Seq<LanguageConfigView>;

    open spec fn view(&self) -> Seq<LanguageConfigView> {
        self.languages@.map_values(|l: LanguageConfig| l@)
    }
}

} // verus!
