//! The voice model and the error kinds shared by every operation of the
//! core: backends, processor and configuration handling.

use crate::text::{
    head_segment, lemma_prefix_len_le, lower, lower_starts_with, find_dash, starts_with, str_eq,
};
use vstd::prelude::*;

verus! {

/// Error kinds of the TTS core. Providers surface the most specific kind
/// possible; the processor passes them through unchanged.
#[derive(Debug)]
pub enum TTSError {
    /// Transport or HTTP failure while talking to a provider.
    Network(String),
    /// Filesystem read or write failure.
    Io(String),
    /// Malformed provider response or configuration document.
    Json(String),
    /// The external synthesis tool was unavailable, exited non-zero, or
    /// produced no output.
    Synthesis(String),
    /// No voice with the requested identifier.
    VoiceNotFound(String),
    /// Invalid configuration values.
    Config(String),
}

impl TTSError {
    /// A readable rendering of the error, kind first.
    pub fn message(&self) -> (r: String)
        ensures
            match self {
                TTSError::Network(m) => r@ == "Network error: "@ + m@,
                TTSError::Io(m) => r@ == "IO error: "@ + m@,
                TTSError::Json(m) => r@ == "JSON parsing error: "@ + m@,
                TTSError::Synthesis(m) => r@ == "TTS synthesis failed: "@ + m@,
                TTSError::VoiceNotFound(m) => r@ == "Voice not found: "@ + m@,
                TTSError::Config(m) => r@ == "Invalid configuration: "@ + m@,
            },
    {
        match self {
            TTSError::Network(m) => String::from_str("Network error: ").concat(m.as_str()),
            TTSError::Io(m) => String::from_str("IO error: ").concat(m.as_str()),
            TTSError::Json(m) => String::from_str("JSON parsing error: ").concat(m.as_str()),
            TTSError::Synthesis(m) => String::from_str("TTS synthesis failed: ").concat(m.as_str()),
            TTSError::VoiceNotFound(m) => String::from_str("Voice not found: ").concat(m.as_str()),
            TTSError::Config(m) => String::from_str("Invalid configuration: ").concat(m.as_str()),
        }
    }
}

/// One synthesis voice as a provider advertises it. Immutable once built.
#[derive(Debug)]
pub struct Voice {
    pub name: String,
    pub display_name: String,
    pub locale: String,
    pub gender: String,
    pub description: Option<String>,
}

/// The mathematical image of a [`Voice`]: its fields as character sequences.
pub ghost struct VoiceView {
    pub name: Seq<char>,
    pub display_name: Seq<char>,
    pub locale: Seq<char>,
    pub gender: Seq<char>,
    pub description: Option<Seq<char>>,
}

impl View for Voice {
    type V = VoiceView;

    open spec fn view(&self) -> VoiceView {
        VoiceView {
            name: self.name@,
            display_name: self.display_name@,
            locale: self.locale@,
            gender: self.gender@,
            description: match self.description {
                Some(d) => Some(d@),
                None => None,
            },
        }
    }
}

impl Clone for Voice {
    /// A clone carries exactly the same field values.
    fn clone(&self) -> (r: Self)
        ensures
            r == *self,
    {
        Voice {
            name: self.name.clone(),
            display_name: self.display_name.clone(),
            locale: self.locale.clone(),
            gender: self.gender.clone(),
            description: match &self.description {
                Some(d) => Some(d.clone()),
                None => None,
            },
        }
    }
}

/// The locale starts, ignoring ASCII case, with the queried language code.
pub open spec fn spec_matches_language(locale: Seq<char>, lang_code: Seq<char>) -> bool {
    starts_with(lower(locale), lower(lang_code))
}

/// The filter used when listing voices of one language: a case-insensitive
/// prefix match on the locale, or exact equality with its leading language
/// segment.
pub open spec fn spec_lang_filter(v: VoiceView, lang: Seq<char>) -> bool {
    spec_matches_language(v.locale, lang) || head_segment(v.locale) == lang
}

impl Voice {
    /// A voice with the given identifier, display name, locale and gender,
    /// and no description.
    pub fn new(name: String, display_name: String, locale: String, gender: String) -> (r: Self)
        ensures
            r.name == name,
            r.display_name == display_name,
            r.locale == locale,
            r.gender == gender,
            r.description is None,
    {
        Voice { name, display_name, locale, gender, description: None }
    }

    /// Whether this voice answers to the queried language code: its locale
    /// starts with the query, ignoring ASCII case.
    pub fn matches_language(&self, lang_code: &str) -> (r: bool)
        ensures
            r == spec_matches_language(self.locale@, lang_code@),
    {
        lower_starts_with(self.locale.as_str(), lang_code)
    }

    /// The leading `lang` segment of the locale: everything before its
    /// first `'-'`.
    pub fn language_code(&self) -> (r: &str)
        ensures
            r@ == head_segment(self.locale@),
    {
        let i = find_dash(self.locale.as_str());
        proof {
            lemma_prefix_len_le(self.locale@);
        }
        self.locale.as_str().substring_char(0, i)
    }

    /// The full filter used when listing voices of one language.
    pub fn in_language(&self, lang: &str) -> (r: bool)
        ensures
            r == spec_lang_filter(self@, lang@),
    {
        if self.matches_language(lang) {
            true
        } else {
            str_eq(self.language_code(), lang)
        }
    }
}

} // verus!
