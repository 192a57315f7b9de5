//! Preset configurations: a fixed table of named configuration snapshots.
//! Loading and writing configuration files is filesystem work and lives
//! with the caller; the table itself and its lookup rules are verified
//! here.

use crate::config::{default_config, ConfigView, TTSConfig};
use crate::models::TTSError;
use crate::text::str_eq;
use vstd::prelude::*;

verus! {

/// The `fast` preset: quicker speech, more parallelism.
pub open spec fn fast_config() -> ConfigView {
    ConfigView { rate: "+20%"@, max_concurrent: 5, batch_size: 10, ..default_config() }
}

/// The `slow` preset: slower speech, less parallelism.
pub open spec fn slow_config() -> ConfigView {
    ConfigView { rate: "-20%"@, max_concurrent: 2, batch_size: 3, ..default_config() }
}

/// The `high_quality` preset: lossless output, more retries.
pub open spec fn high_quality_config() -> ConfigView {
    ConfigView { output_format: "wav"@, cache_voices: true, max_retries: 5, ..default_config() }
}

/// The `batch_processing` preset: wide batches.
pub open spec fn batch_processing_config() -> ConfigView {
    ConfigView { max_concurrent: 8, batch_size: 20, cache_voices: true, ..default_config() }
}

/// The `whisper` preset: quiet, low, slightly slow.
pub open spec fn whisper_config() -> ConfigView {
    ConfigView { rate: "-10%"@, volume: "50%"@, pitch: "-5%"@, ..default_config() }
}

/// The `excited` preset: quick, high, loud.
pub open spec fn excited_config() -> ConfigView {
    ConfigView { rate: "+15%"@, pitch: "+10%"@, volume: "110%"@, ..default_config() }
}

/// The preset table: the configuration each preset name stands for, and
/// `None` for every other name.
pub open spec fn spec_preset(name: Seq<char>) -> Option<ConfigView> {
    if name == "default"@ {
        Some(default_config())
    } else if name == "fast"@ {
        Some(fast_config())
    } else if name == "slow"@ {
        Some(slow_config())
    } else if name == "high_quality"@ {
        Some(high_quality_config())
    } else if name == "batch_processing"@ {
        Some(batch_processing_config())
    } else if name == "whisper"@ {
        Some(whisper_config())
    } else if name == "excited"@ {
        Some(excited_config())
    } else {
        None
    }
}

/// Preset lookup and listing. Reading or writing configuration files is
/// the caller's filesystem work and stays outside the library.
pub struct ConfigManager;

impl ConfigManager {
    fn fast() -> (r: TTSConfig)
        ensures
            r@ == fast_config(),
    {
        let mut c = TTSConfig::default();
        c.rate = String::from_str("+20%");
        c.max_concurrent = 5;
        c.batch_size = 10;
        c
    }

    fn slow() -> (r: TTSConfig)
        ensures
            r@ == slow_config(),
    {
        let mut c = TTSConfig::default();
        c.rate = String::from_str("-20%");
        c.max_concurrent = 2;
        c.batch_size = 3;
        c
    }

    fn high_quality() -> (r: TTSConfig)
        ensures
            r@ == high_quality_config(),
    {
        let mut c = TTSConfig::default();
        c.output_format = String::from_str("wav");
        c.cache_voices = true;
        c.max_retries = 5;
        c
    }

    fn batch_processing() -> (r: TTSConfig)
        ensures
            r@ == batch_processing_config(),
    {
        let mut c = TTSConfig::default();
        c.max_concurrent = 8;
        c.batch_size = 20;
        c.cache_voices = true;
        c
    }

    fn whisper() -> (r: TTSConfig)
        ensures
            r@ == whisper_config(),
    {
        let mut c = TTSConfig::default();
        c.rate = String::from_str("-10%");
        c.volume = String::from_str("50%");
        c.pitch = String::from_str("-5%");
        c
    }

    fn excited() -> (r: TTSConfig)
        ensures
            r@ == excited_config(),
    {
        let mut c = TTSConfig::default();
        c.rate = String::from_str("+15%");
        c.pitch = String::from_str("+10%");
        c.volume = String::from_str("110%");
        c
    }

    /// The whole preset table as name / configuration pairs, every named
    /// preset exactly once.
    pub fn get_presets() -> (r: Vec<(String, TTSConfig)>)
        ensures
            r@.len() == 7,
            r@[0].0@ == "default"@ && r@[0].1@ == default_config(),
            r@[1].0@ == "fast"@ && r@[1].1@ == fast_config(),
            r@[2].0@ == "slow"@ && r@[2].1@ == slow_config(),
            r@[3].0@ == "high_quality"@ && r@[3].1@ == high_quality_config(),
            r@[4].0@ == "batch_processing"@ && r@[4].1@ == batch_processing_config(),
            r@[5].0@ == "whisper"@ && r@[5].1@ == whisper_config(),
            r@[6].0@ == "excited"@ && r@[6].1@ == excited_config(),
    {
        let mut presets: Vec<(String, TTSConfig)> = Vec::new();
        presets.push((String::from_str("default"), TTSConfig::default()));
        presets.push((String::from_str("fast"), Self::fast()));
        presets.push((String::from_str("slow"), Self::slow()));
        presets.push((String::from_str("high_quality"), Self::high_quality()));
        presets.push((String::from_str("batch_processing"), Self::batch_processing()));
        presets.push((String::from_str("whisper"), Self::whisper()));
        presets.push((String::from_str("excited"), Self::excited()));
        presets
    }

    /// Looks a preset up by name: exactly the names of [`spec_preset`]
    /// succeed, with the configuration the table gives them; every other
    /// name is a `Config` error naming the available presets.
    pub fn get_preset(preset_name: &str) -> (r: Result<TTSConfig, TTSError>)
        ensures
            r is Ok <==> spec_preset(preset_name@) is Some,
            r matches Ok(c) ==> spec_preset(preset_name@) == Some(c@),
            r matches Err(e) ==> e matches TTSError::Config(m) && m@ == "Unknown preset '"@
                + preset_name@
                + "'. Available: default, fast, slow, high_quality, batch_processing, whisper, excited"@,
    {
        if str_eq(preset_name, "default") {
            Ok(TTSConfig::default())
        } else if str_eq(preset_name, "fast") {
            Ok(Self::fast())
        } else if str_eq(preset_name, "slow") {
            Ok(Self::slow())
        } else if str_eq(preset_name, "high_quality") {
            Ok(Self::high_quality())
        } else if str_eq(preset_name, "batch_processing") {
            Ok(Self::batch_processing())
        } else if str_eq(preset_name, "whisper") {
            Ok(Self::whisper())
        } else if str_eq(preset_name, "excited") {
            Ok(Self::excited())
        } else {
            Err(TTSError::Config(
                String::from_str("Unknown preset '").concat(preset_name).concat(
                    "'. Available: default, fast, slow, high_quality, batch_processing, whisper, excited",
                ),
            ))
        }
    }

    /// The available preset names, each exactly once.
    pub fn list_presets() -> (r: Vec<String>)
        ensures
            r@.len() == 7,
            r@[0]@ == "default"@,
            r@[1]@ == "fast"@,
            r@[2]@ == "slow"@,
            r@[3]@ == "high_quality"@,
            r@[4]@ == "batch_processing"@,
            r@[5]@ == "whisper"@,
            r@[6]@ == "excited"@,
    {
        let mut names: Vec<String> = Vec::new();
        names.push(String::from_str("default"));
        names.push(String::from_str("fast"));
        names.push(String::from_str("slow"));
        names.push(String::from_str("high_quality"));
        names.push(String::from_str("batch_processing"));
        names.push(String::from_str("whisper"));
        names.push(String::from_str("excited"));
        names
    }
}

/// Looks a preset up by name, as [`ConfigManager::get_preset`] does.
pub fn get_preset(preset_name: &str) -> (r: Result<TTSConfig, TTSError>)
    ensures
        r is Ok <==> spec_preset(preset_name@) is Some,
        r matches Ok(c) ==> spec_preset(preset_name@) == Some(c@),
        r matches Err(e) ==> e matches TTSError::Config(_),
{
    ConfigManager::get_preset(preset_name)
}

/// The available preset names, as [`ConfigManager::list_presets`] gives
/// them.
pub fn list_presets() -> (r: Vec<String>)
    ensures
        r@.len() == 7,
        r@[0]@ == "default"@,
        r@[1]@ == "fast"@,
        r@[2]@ == "slow"@,
        r@[3]@ == "high_quality"@,
        r@[4]@ == "batch_processing"@,
        r@[5]@ == "whisper"@,
        r@[6]@ == "excited"@,
{
    ConfigManager::list_presets()
}

} // verus!
