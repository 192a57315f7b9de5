//! The cloud provider: voice listing comes from a provider endpoint as
//! plain records, synthesis goes through an external tool with a fallback
//! invocation. The network transfer and the process run live outside the
//! library; the record mapping, argument layout, temp-file naming and
//! failure policy are verified here.

use crate::models::Voice;
use vstd::prelude::*;

verus! {

/// The cloud synthesis provider. The HTTP client that fetches its voice
/// listing lives with the caller; this type carries the provider's logic.
pub struct EdgeTTS;

impl EdgeTTS {
    pub fn new() -> (r: Self)
    {
        EdgeTTS
    }
}

/// One record of the provider's voice listing, already decoded from its
/// renamed wire keys into plain fields.
#[derive(Debug)]
pub struct EdgeVoiceData {
    pub short_name: String,
    pub friendly_name: String,
    pub locale: String,
    pub gender: String,
}

impl EdgeTTS {
    /// Maps the provider's records one-to-one onto voices: `short_name`
    /// becomes the identifier, `friendly_name` the display name; no record
    /// is dropped and the order is kept.
    pub fn voices_from_listing(records: &Vec<EdgeVoiceData>) -> (r: Vec<Voice>)
        ensures
            r@.len() == records@.len(),
            forall|i: int| 0 <= i < records@.len() ==> {
                &&& (#[trigger] r@[i])@.name == records@[i].short_name@
                &&& r@[i]@.display_name == records@[i].friendly_name@
                &&& r@[i]@.locale == records@[i].locale@
                &&& r@[i]@.gender == records@[i].gender@
                &&& r@[i]@.description is None
            },
    {
        let mut out: Vec<Voice> = Vec::new();
        let mut i: usize = 0;
        while i < records.len()
            invariant
                0 <= i <= records@.len(),
                out@.len() == i,
                forall|j: int| 0 <= j < i ==> {
                    &&& (#[trigger] out@[j])@.name == records@[j].short_name@
                    &&& out@[j]@.display_name == records@[j].friendly_name@
                    &&& out@[j]@.locale == records@[j].locale@
                    &&& out@[j]@.gender == records@[j].gender@
                    &&& out@[j]@.description is None
                },
            decreases records@.len() - i,
        {
            let rec = &records[i];
            out.push(Voice {
                name: rec.short_name.clone(),
                display_name: rec.friendly_name.clone(),
                locale: rec.locale.clone(),
                gender: rec.gender.clone(),
                description: None,
            });
            i += 1;
        }
        out
    }

    /// The primary invocation of the external tool:
    /// `--voice <v> --text <t> --write-media <out>`.
    pub fn synthesis_args(voice: &str, text: &str, output_file: &str) -> (r: Vec<String>)
        ensures
            r@.len() == 6,
            r@[0]@ == "--voice"@,
            r@[1]@ == voice@,
            r@[2]@ == "--text"@,
            r@[3]@ == text@,
            r@[4]@ == "--write-media"@,
            r@[5]@ == output_file@,
    {
        let mut args: Vec<String> = Vec::new();
        args.push(String::from_str("--voice"));
        args.push(String::from_str(voice));
        args.push(String::from_str("--text"));
        args.push(String::from_str(text));
        args.push(String::from_str("--write-media"));
        args.push(String::from_str(output_file));
        args
    }

    /// The fallback invocation, wrapping the same tool as a module run:
    /// `-m edge_tts` followed by the primary arguments.
    pub fn fallback_args(voice: &str, text: &str, output_file: &str) -> (r: Vec<String>)
        ensures
            r@.len() == 8,
            r@[0]@ == "-m"@,
            r@[1]@ == "edge_tts"@,
            r@[2]@ == "--voice"@,
            r@[3]@ == voice@,
            r@[4]@ == "--text"@,
            r@[5]@ == text@,
            r@[6]@ == "--write-media"@,
            r@[7]@ == output_file@,
    {
        let mut args: Vec<String> = Vec::new();
        args.push(String::from_str("-m"));
        args.push(String::from_str("edge_tts"));
        args.push(String::from_str("--voice"));
        args.push(String::from_str(voice));
        args.push(String::from_str("--text"));
        args.push(String::from_str(text));
        args.push(String::from_str("--write-media"));
        args.push(String::from_str(output_file));
        args
    }

    /// The temp-file name a synthesis run of this provider writes through.
    pub fn temp_file_name(millis: u64) -> (r: String)
        ensures
            r@ == "tts_output_"@ + crate::text::decimal(millis as nat) + ".mp3"@,
    {
        crate::backends::temp_file_name("tts_output_", millis)
    }
}

} // verus!
