//! The processor: one backend, one voice cache, one configuration
//! snapshot. It is the single entry point callers use for synthesis,
//! voice listing, persisting and playback hand-off, and it never retries
//! or rewrites a backend failure.

use crate::backends::TTSBackend;
use crate::config::{default_config, TTSConfig};
use crate::models::{spec_lang_filter, TTSError, Voice, VoiceView};
use crate::text::str_eq;
use vstd::prelude::*;

verus! {

broadcast use vstd::seq::Seq::lemma_filter_push, vstd::seq::Seq::lemma_filter_pred;

/// Which provider a backend selector names.
#[derive(Clone, Copy, Debug, PartialEq, Eq, Structural)]
pub enum BackendKind {
    /// The cloud provider.
    Edge,
    /// The command-line provider.
    Google,
}

/// The provider a backend selector names: exactly `"google"` (case
/// sensitive) is the command-line provider; every other selector falls
/// back to the cloud provider.
pub open spec fn spec_backend_kind(selector: Seq<char>) -> BackendKind {
    if selector == "google"@ {
        BackendKind::Google
    } else {
        BackendKind::Edge
    }
}

/// Reads a backend selector, as [`spec_backend_kind`] rules.
pub fn backend_kind(selector: &str) -> (r: BackendKind)
    ensures
        r == spec_backend_kind(selector@),
{
    if str_eq(selector, "google") {
        BackendKind::Google
    } else {
        BackendKind::Edge
    }
}

/// A copy of a voice list, element for element.
pub fn clone_voices(voices: &Vec<Voice>) -> (r: Vec<Voice>)
    ensures
        r@ == voices@,
{
    let mut out: Vec<Voice> = Vec::new();
    let mut i: usize = 0;
    while i < voices.len()
        invariant
            0 <= i <= voices@.len(),
            out@ =~= voices@.subrange(0, i as int),
        decreases voices@.len() - i,
    {
        out.push(voices[i].clone());
        i += 1;
    }
    proof {
        assert(voices@.subrange(0, voices@.len() as int) =~= voices@);
    }
    out
}

/// The voices of a listing that answer to one language, in their given
/// order.
pub open spec fn spec_filter_voices(vs: Seq<VoiceView>, lang: Seq<char>) -> Seq<VoiceView> {
    vs.filter(|v: VoiceView| spec_lang_filter(v, lang))
}

/// Keeps the voices that answer to `lang`, in their given order.
pub fn filter_by_language(voices: &Vec<Voice>, lang: &str) -> (r: Vec<Voice>)
    ensures
        r@.map_values(|v: Voice| v@) == spec_filter_voices(
            voices@.map_values(|v: Voice| v@),
            lang@,
        ),
{
    let mut out: Vec<Voice> = Vec::new();
    let mut i: usize = 0;
    while i < voices.len()
        invariant
            0 <= i <= voices@.len(),
            out@.map_values(|v: Voice| v@) == spec_filter_voices(
                voices@.subrange(0, i as int).map_values(|v: Voice| v@),
                lang@,
            ),
        decreases voices@.len() - i,
    {
        let ghost prev = voices@.subrange(0, i as int).map_values(|v: Voice| v@);
        let ghost cur = voices@.subrange(0, i + 1).map_values(|v: Voice| v@);
        let ghost x = voices@[i as int]@;
        let ghost before = out@;
        let keep = voices[i].in_language(lang);
        if keep {
            out.push(voices[i].clone());
        }
        proof {
            assert(cur =~= prev.push(x));
            assert(spec_filter_voices(prev.push(x), lang@) == if spec_lang_filter(x, lang@) {
                spec_filter_voices(prev, lang@).push(x)
            } else {
                spec_filter_voices(prev, lang@)
            });
            if keep {
                assert(out@.map_values(|v: Voice| v@) =~= before.map_values(|v: Voice| v@).push(
                    x,
                ));
            }
            assert(out@.map_values(|v: Voice| v@) == spec_filter_voices(cur, lang@));
        }
        i += 1;
    }
    proof {
        assert(voices@.subrange(0, voices@.len() as int) =~= voices@);
    }
    out
}

/// The processor: exactly one backend, selected at construction and never
/// swapped, one exclusively owned voice cache, and one configuration
/// snapshot. Backend failures come through unchanged.
pub struct TTSProcessor<B: TTSBackend> {
    pub config: TTSConfig,
    pub voices_cache: Option<Vec<Voice>>,
    pub backend: B,
}

impl<B: TTSBackend> TTSProcessor<B> {
    /// A processor around the given backend. The configuration defaults
    /// when none is supplied; the cache starts empty.
    pub fn new(config: Option<TTSConfig>, backend: B) -> (r: Self)
        ensures
            match config {
                Some(c) => r.config == c,
                None => r.config@ == default_config(),
            },
            r.voices_cache is None,
            r.backend == backend,
    {
        let config = match config {
            Some(c) => c,
            None => TTSConfig::default(),
        };
        TTSProcessor { config, voices_cache: None, backend }
    }

    /// Delegates synthesis to the owned backend; its error comes through
    /// unchanged, and neither configuration nor cache moves.
    pub fn synthesize_text(&mut self, text: &str, voice: &str) -> (r: Result<Vec<u8>, TTSError>)
        ensures
            final(self).config == old(self).config,
            final(self).voices_cache == old(self).voices_cache,
    {
        self.backend.synthesize_text(text, voice)
    }

    /// The available voices. With caching enabled, a populated cache
    /// answers by itself: the processor is left exactly as it was — in
    /// particular the backend is not consulted — and the cached sequence
    /// comes back. Otherwise the backend is fetched; with caching enabled a
    /// successful fetch fills the cache with exactly the returned sequence,
    /// and a failed fetch leaves the cache as it was.
    pub fn list_voices(&mut self) -> (r: Result<Vec<Voice>, TTSError>)
        ensures
            final(self).config == old(self).config,
            (old(self).config.cache_voices && old(self).voices_cache is Some) ==> {
                &&& *final(self) == *old(self)
                &&& r matches Ok(v) && v@ == old(self).voices_cache->0@
            },
            !(old(self).config.cache_voices && old(self).voices_cache is Some) ==> {
                &&& (r matches Ok(v) ==> {
                    &&& old(self).config.cache_voices ==> (final(self).voices_cache matches Some(c)
                        && c@ == v@)
                    &&& !old(self).config.cache_voices ==> final(self).voices_cache == old(
                        self,
                    ).voices_cache
                })
                &&& (r is Err ==> final(self).voices_cache == old(self).voices_cache)
            },
    {
        if self.config.cache_voices {
            match &self.voices_cache {
                Some(voices) => {
                    return Ok(clone_voices(voices));
                },
                None => {},
            }
        }
        let fetched = self.backend.list_voices();
        match fetched {
            Ok(voices) => {
                if self.config.cache_voices {
                    self.voices_cache = Some(clone_voices(&voices));
                }
                Ok(voices)
            },
            Err(e) => Err(e),
        }
    }

    /// The available voices of one language: the listing of `list_voices`
    /// filtered by [`spec_lang_filter`], order kept. With caching enabled
    /// and the cache populated it succeeds by itself, leaving the processor
    /// exactly as it was and filtering the cached sequence. A listing
    /// failure comes through unchanged and leaves the cache as
    /// `list_voices` left it — an untouched cache stays untouched.
    pub fn get_voices_by_language(&mut self, lang: &str) -> (r: Result<Vec<Voice>, TTSError>)
        ensures
            final(self).config == old(self).config,
            (old(self).config.cache_voices && old(self).voices_cache is Some) ==> {
                &&& *final(self) == *old(self)
                &&& r matches Ok(v) && v@.map_values(|x: Voice| x@) == spec_filter_voices(
                    old(self).voices_cache->0@.map_values(|x: Voice| x@),
                    lang@,
                )
            },
            r matches Ok(v) ==> (old(self).config.cache_voices ==> (
                final(self).voices_cache matches Some(c) && v@.map_values(|x: Voice| x@)
                    == spec_filter_voices(c@.map_values(|x: Voice| x@), lang@)
            )),
            r matches Ok(v) ==> forall|i: int|
                0 <= i < v@.len() ==> spec_lang_filter(#[trigger] v@[i]@, lang@),
            r is Err ==> final(self).voices_cache == old(self).voices_cache,
    {
        let all = match self.list_voices() {
            Ok(v) => v,
            Err(e) => {
                return Err(e);
            },
        };
        let picked = filter_by_language(&all, lang);
        proof {
            let views = all@.map_values(|x: Voice| x@);
            assert forall|i: int| 0 <= i < picked@.len() implies spec_lang_filter(
                #[trigger] picked@[i]@,
                lang@,
            ) by {
                assert(picked@[i]@ == picked@.map_values(|x: Voice| x@)[i]);
                assert(spec_filter_voices(views, lang@)[i] == picked@.map_values(
                    |x: Voice| x@,
                )[i]);
            }
        }
        Ok(picked)
    }

    /// Synthesizes `text` with `voice`; persists the audio through the
    /// backend under `output_path` when one is given; and hands the bytes
    /// back for playback when `play` is set, `Ok(None)` otherwise, so that
    /// no audio player is ever brought up for a silent run. The three steps
    /// run in order and the operation fails fast at the first failing one,
    /// leaving a file already persisted in place; every error comes through
    /// unchanged.
    pub fn synthesize_and_play(
        &mut self,
        text: &str,
        voice: &str,
        output_path: Option<&str>,
        play: bool,
    ) -> (r: Result<Option<Vec<u8>>, TTSError>)
        ensures
            final(self).config == old(self).config,
            final(self).voices_cache == old(self).voices_cache,
            r matches Ok(b) ==> (b is Some <==> play),
    {
        let audio = match self.synthesize_text(text, voice) {
            Ok(a) => a,
            Err(e) => {
                return Err(e);
            },
        };
        match output_path {
            Some(path) => {
                match self.backend.save_audio(audio.as_slice(), path) {
                    Ok(()) => {},
                    Err(e) => {
                        return Err(e);
                    },
                }
            },
            None => {},
        }
        if play {
            Ok(Some(audio))
        } else {
            Ok(None)
        }
    }

    /// Forwards to the backend's persist operation; its error comes
    /// through unchanged, and neither configuration nor cache moves.
    pub fn save_audio(&mut self, audio_data: &[u8], filename: &str) -> (r: Result<(), TTSError>)
        ensures
            final(self).config == old(self).config,
            final(self).voices_cache == old(self).voices_cache,
    {
        self.backend.save_audio(audio_data, filename)
    }

    /// Empties the voice cache — a no-op when it is already empty — and
    /// touches nothing else. The next listing must consult the backend
    /// again.
    pub fn clear_voice_cache(&mut self)
        ensures
            final(self).voices_cache is None,
            final(self).config == old(self).config,
            final(self).backend == old(self).backend,
    {
        self.voices_cache = None;
    }
}

} // verus!
