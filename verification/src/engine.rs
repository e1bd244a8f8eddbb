//! The whole pipeline from a request to the frames of its waveform.

use vstd::prelude::*;
use crate::phoneme::lowercase_of;
use crate::phoneme::transcribe;
use crate::phoneme::transcription;
use crate::phoneme::Phoneme;
use crate::timeline::assemble;
use crate::timeline::is_timeline;
use crate::timeline::sample_count_spec;
use crate::timeline::Frame;
use crate::timeline::SynthesisError;
use crate::voice::chosen_embedding;
use crate::voice::ids_of;
use crate::voice::parameters_of;
use crate::voice::resolves_to;
use crate::voice::derive_voice_parameters;
use crate::voice::Voice;
use crate::voice::VoiceParameters;

verus! {

/// What a request gives: the parameters of the voice, and one frame for
/// each output sample.
pub struct Synthesis {
    pub parameters: VoiceParameters,
    pub frames: Vec<Frame>,
}

/// What a request for the given phonemes owes: an error for a speed of
/// zero or a timeline too long for the machine, and otherwise the voice's
/// parameters with the whole timeline.
pub open spec fn synthesized(
    result: Result<Synthesis, SynthesisError>,
    voices: Seq<Voice>,
    phonemes: Seq<Phoneme>,
    chars: nat,
    voice_id: Seq<char>,
    speed_milli: nat,
) -> bool {
    if speed_milli == 0 {
        result is Err && result->Err_0 == SynthesisError::InvalidSpeed
    } else if sample_count_spec(chars, speed_milli) > usize::MAX {
        result is Err && result->Err_0 == SynthesisError::TooLong
    } else {
        &&& result is Ok
        &&& is_timeline(result->Ok_0.frames@, phonemes, chars, speed_milli)
        &&& exists|choice: Option<usize>| #[trigger]
            resolves_to(ids_of(voices), voice_id, choice) && result->Ok_0.parameters
                == parameters_of(chosen_embedding(voices, choice))
    }
}

/// Puts a request together from a phoneme sequence: resolves the voice,
/// and spreads the phonemes over the samples of a text of `chars`
/// characters.
pub fn synthesize_phonemes(
    voices: &Vec<Voice>,
    phonemes: &Vec<Phoneme>,
    chars: usize,
    voice_id: &str,
    speed_milli: u32,
) -> (result: Result<Synthesis, SynthesisError>)
    ensures
        synthesized(result, voices@, phonemes@, chars as nat, voice_id@, speed_milli as nat),
{
    let parameters: VoiceParameters = derive_voice_parameters(voice_id, voices);
    match assemble(phonemes, chars, speed_milli) {
        Ok(frames) => Ok(Synthesis { parameters, frames }),
        Err(e) => Err(e),
    }
}

/// Synthesizes a text with the requested voice at the given speed, in
/// thousandths: transcribes the text, resolves the voice, and lays out one
/// frame for each output sample. The empty text gives no frames.
pub fn synthesize(voices: &Vec<Voice>, text: &str, voice_id: &str, speed_milli: u32) -> (result:
    Result<Synthesis, SynthesisError>)
    ensures
        synthesized(
            result,
            voices@,
            transcription(lowercase_of(text@)),
            text@.len(),
            voice_id@,
            speed_milli as nat,
        ),
        speed_milli > 0 && text@.len() == 0 ==> result is Ok && result->Ok_0.frames@.len() == 0,
{
    let phonemes: Vec<Phoneme> = transcribe(text);
    let chars: usize = text.unicode_len();
    proof {
        if speed_milli > 0 && chars == 0 {
            assert(sample_count_spec(0, speed_milli as nat) == 0) by (nonlinear_arith)
                requires
                    speed_milli > 0,
            ;
        }
    }
    synthesize_phonemes(voices, &phonemes, chars, voice_id, speed_milli)
}

} // verus!
