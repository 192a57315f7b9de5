//! The command-line provider: voices come from the shared voice
//! configuration document, synthesis shells out to an external tool with a
//! locale code derived from the voice identifier. The process run and the
//! document parsing live outside the library; the derivation rule, the
//! entry filtering, argument layout and temp-file naming are verified here.

use crate::config::TTSConfigFile;
use crate::models::{Voice, VoiceView};
use crate::text::{
    decimal, find_dash, head_segment, hyphenated, lemma_prefix_len_le, lower, prefix_len,
    push_char, to_lower,
};
use vstd::prelude::*;

verus! {

/// The command-line synthesis provider. The process and filesystem work
/// lives with the caller; this type carries the provider's logic.
pub struct GoogleTTS;

impl GoogleTTS {
    pub fn new() -> (r: Self) {
        GoogleTTS
    }
}

/// The locale code the command-line provider derives from a voice
/// identifier: underscores count as hyphens; with a second
/// hyphen-separated segment of exactly two characters the code is
/// `lang-region`, both lower-cased; otherwise the leading segment
/// lower-cased; an empty identifier defaults to `"en"`.
pub open spec fn spec_lang_code(voice: Seq<char>) -> Seq<char> {
    let v = hyphenated(voice);
    if prefix_len(v) < v.len() {
        let first = head_segment(v);
        let second = head_segment(v.skip(prefix_len(v) as int + 1));
        if second.len() == 2 {
            lower(first) + seq!['-'] + lower(second)
        } else {
            lower(first)
        }
    } else if v.len() > 0 {
        lower(v)
    } else {
        "en"@
    }
}

/// The voices the shared configuration document yields for this provider:
/// one per language entry that names a voice for it, in document order;
/// entries without one are skipped.
pub open spec fn spec_google_voices(langs: Seq<crate::config::LanguageConfigView>) -> Seq<
    VoiceView,
>
    decreases langs.len(),
{
    if langs.len() == 0 {
        Seq::empty()
    } else {
        let rest = spec_google_voices(langs.drop_last());
        match langs.last().google_voice {
            Some(vn) => rest.push(
                VoiceView {
                    name: vn,
                    display_name: langs.last().name,
                    locale: langs.last().code,
                    gender: "Unknown"@,
                    description: None,
                },
            ),
            None => rest,
        }
    }
}

impl GoogleTTS {
    /// Copies the identifier with every underscore replaced by a hyphen.
    fn hyphenate(s: &str) -> (r: String)
        ensures
            r@ == hyphenated(s@),
    {
        let n = s.unicode_len();
        let mut r = String::new();
        let mut i: usize = 0;
        while i < n
            invariant
                0 <= i <= n,
                n == s@.len(),
                r@ == hyphenated(s@.subrange(0, i as int)),
            decreases n - i,
        {
            let c = s.get_char(i);
            let d = if c == '_' {
                '-'
            } else {
                c
            };
            push_char(&mut r, d);
            proof {
                assert(r@ =~= hyphenated(s@.subrange(0, i + 1)));
            }
            i += 1;
        }
        proof {
            assert(s@.subrange(0, n as int) =~= s@);
        }
        r
    }

    /// Derives the locale code handed to the external tool from the voice
    /// identifier, by the rule of [`spec_lang_code`].
    pub fn derive_lang_code(voice: &str) -> (r: String)
        ensures
            r@ == spec_lang_code(voice@),
    {
        let hy = Self::hyphenate(voice);
        let n = hy.as_str().unicode_len();
        let p = find_dash(hy.as_str());
        proof {
            lemma_prefix_len_le(hy@);
        }
        if p < n {
            let first = hy.as_str().substring_char(0, p);
            let rest = hy.as_str().substring_char(p + 1, n);
            proof {
                assert(rest@ =~= hyphenated(voice@).skip(prefix_len(hyphenated(voice@)) as int + 1));
            }
            let q = find_dash(rest);
            proof {
                lemma_prefix_len_le(rest@);
            }
            let second = rest.substring_char(0, q);
            if second.unicode_len() == 2 {
                let mut code = to_lower(first);
                push_char(&mut code, '-');
                let code2 = code.concat(to_lower(second).as_str());
                proof {
                    assert(code2@ =~= spec_lang_code(voice@));
                }
                code2
            } else {
                to_lower(first)
            }
        } else if n > 0 {
            to_lower(hy.as_str())
        } else {
            String::from_str("en")
        }
    }

    /// Maps the shared configuration document onto this provider's voices,
    /// as [`spec_google_voices`] lays them out. The gender of every derived
    /// voice is `"Unknown"`.
    pub fn voices_from_config(file: &TTSConfigFile) -> (r: Vec<Voice>)
        ensures
            r@.map_values(|v: Voice| v@) == spec_google_voices(file@),
    {
        let mut out: Vec<Voice> = Vec::new();
        let mut i: usize = 0;
        while i < file.languages.len()
            invariant
                0 <= i <= file.languages@.len(),
                out@.map_values(|v: Voice| v@) == spec_google_voices(
                    file@.subrange(0, i as int),
                ),
            decreases file.languages@.len() - i,
        {
            let lang = &file.languages[i];
            match &lang.google_voice {
                Some(voice_name) => {
                    out.push(Voice {
                        name: voice_name.clone(),
                        display_name: lang.name.clone(),
                        locale: lang.code.clone(),
                        gender: String::from_str("Unknown"),
                        description: None,
                    });
                },
                None => {},
            }
            proof {
                assert(file@.subrange(0, i + 1).drop_last() =~= file@.subrange(0, i as int));
                assert(file@.subrange(0, i + 1).last() == file@[i as int]);
                assert(file@[i as int] == lang@);
                assert(out@.map_values(|v: Voice| v@) =~= spec_google_voices(
                    file@.subrange(0, i + 1),
                ));
            }
            i += 1;
        }
        proof {
            assert(file@.subrange(0, file.languages@.len() as int) =~= file@);
        }
        out
    }

    /// The invocation of the external tool:
    /// `<text> --lang <code> --output <out>`.
    pub fn synthesis_args(text: &str, lang_code: &str, output_file: &str) -> (r: Vec<String>)
        ensures
            r@.len() == 5,
            r@[0]@ == text@,
            r@[1]@ == "--lang"@,
            r@[2]@ == lang_code@,
            r@[3]@ == "--output"@,
            r@[4]@ == output_file@,
    {
        let mut args: Vec<String> = Vec::new();
        args.push(String::from_str(text));
        args.push(String::from_str("--lang"));
        args.push(String::from_str(lang_code));
        args.push(String::from_str("--output"));
        args.push(String::from_str(output_file));
        args
    }

    /// The temp-file name a synthesis run of this provider writes through.
    pub fn temp_file_name(millis: u64) -> (r: String)
        ensures
            r@ == "gtts_output_"@ + decimal(millis as nat) + ".mp3"@,
    {
        crate::backends::temp_file_name("gtts_output_", millis)
    }
}

} // verus!
