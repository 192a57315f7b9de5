//! The backend capability: the one contract a synthesis provider offers
//! the processor, and the failure policy shared by both providers after an
//! external synthesis attempt.

use crate::models::{TTSError, Voice};
use crate::text::decimal;
use vstd::prelude::*;

pub mod edge;
pub mod google;

verus! {

/// What a synthesis provider can do for the processor: produce audio for a
/// text, list its voices, and persist audio bytes. The two providers of
/// this crate implement it around their external tools; test doubles may
/// implement it over canned data.
pub trait TTSBackend {
    /// Produce audio bytes for `text` spoken by the voice named `voice`.
    fn synthesize_text(&mut self, text: &str, voice: &str) -> Result<Vec<u8>, TTSError>;

    /// The voices the provider currently offers, in the provider's order.
    fn list_voices(&mut self) -> Result<Vec<Voice>, TTSError>;

    /// Persist audio bytes under the given file name.
    fn save_audio(&mut self, audio_data: &[u8], filename: &str) -> Result<(), TTSError>;
}

/// The failure policy after an external synthesis attempt: a run that did
/// not succeed is a `Synthesis` error carrying the tool's own words behind
/// `fail_prefix`; a successful run that left no output file is a
/// `Synthesis` error as well; only a successful run with readable output
/// yields audio. There is no silent success.
pub fn synthesis_outcome(tool_succeeded: bool, output: Option<Vec<u8>>, fail_prefix: &str, detail: &str)
    -> (r: Result<Vec<u8>, TTSError>)
    ensures
        r is Ok <==> (tool_succeeded && output is Some),
        r matches Ok(b) ==> output matches Some(o) && b == o,
        r matches Err(e) ==> e matches TTSError::Synthesis(m) && (
            if !tool_succeeded {
                m@ == fail_prefix@ + detail@
            } else {
                m@ == "Audio file was not generated"@
            }
        ),
{
    if !tool_succeeded {
        return Err(TTSError::Synthesis(String::from_str(fail_prefix).concat(detail)));
    }
    match output {
        Some(bytes) => Ok(bytes),
        None => Err(TTSError::Synthesis(String::from_str("Audio file was not generated"))),
    }
}

/// The name of the uniquely named temporary output file a synthesis run
/// writes through: a backend tag followed by a timestamp in milliseconds.
/// Distinct timestamps give distinct names.
pub fn temp_file_name(prefix: &str, millis: u64) -> (r: String)
    ensures
        r@ == prefix@ + decimal(millis as nat) + ".mp3"@,
{
    let digits = crate::text::decimal_string(millis);
    String::from_str(prefix).concat(digits.as_str()).concat(".mp3")
}

/// Temp-file names collide only when their timestamps do: the decimal
/// rendering is injective, and the name embeds it between a fixed tag and
/// a fixed suffix.
pub proof fn lemma_temp_names_distinct(prefix: Seq<char>, m1: u64, m2: u64)
    requires
        m1 != m2,
    ensures
        prefix + decimal(m1 as nat) + ".mp3"@ != prefix + decimal(m2 as nat) + ".mp3"@,
{
    let d1 = decimal(m1 as nat);
    let d2 = decimal(m2 as nat);
    if prefix + d1 + ".mp3"@ == prefix + d2 + ".mp3"@ {
        assert((prefix + d1 + ".mp3"@).len() == prefix.len() + d1.len() + ".mp3"@.len());
        assert((prefix + d2 + ".mp3"@).len() == prefix.len() + d2.len() + ".mp3"@.len());
        assert(d1.len() == d2.len());
        assert forall|j: int| 0 <= j < d1.len() implies d1[j] == d2[j] by {
            assert((prefix + d1 + ".mp3"@)[prefix.len() + j] == d1[j]);
            assert((prefix + d2 + ".mp3"@)[prefix.len() + j] == d2[j]);
        }
        assert(d1 =~= d2);
        crate::text::lemma_decimal_injective(m1 as nat, m2 as nat);
    }
}

} // verus!
