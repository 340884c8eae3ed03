//! Local transcription with a whisper.cpp model file.
use vstd::prelude::*;

use crate::text::{concat3, decimal, decimal_string};

verus! {

/// The local whisper engine: the path of the ggml model it loads.
pub struct LocalWhisperEngine {
    model_path: String,
}

impl LocalWhisperEngine {
    pub closed spec fn spec_model_path(&self) -> Seq<char> {
        self.model_path@
    }

    pub fn new(model_path: &str) -> (r: Self)
        ensures
            r.spec_model_path() == model_path@,
    {
        LocalWhisperEngine { model_path: model_path.to_owned() }
    }

    /// The model file this engine loads.
    pub fn model_path(&self) -> (r: &str)
        ensures
            r@ == self.spec_model_path(),
    {
        self.model_path.as_str()
    }
}

/// The refusal of a recording in another format.
pub open spec fn wav_format_message(channels: u16, sample_rate: u32) -> Seq<char> {
    "WAV must be mono 16kHz (got: "@ + decimal(channels as nat) + " channels, "@ + decimal(sample_rate as nat)
        + "Hz)"@
}

/// whisper.cpp is fed mono audio sampled at 16 kHz: any other recording is
/// refused, naming its channel count and sample rate.
pub fn check_wav_format(channels: u16, sample_rate: u32) -> (r: Result<(), String>)
    ensures
        r is Ok <==> channels == 1 && sample_rate == 16000,
        r matches Err(m) ==> m@ == wav_format_message(channels, sample_rate),
{
    if channels == 1 && sample_rate == 16000 {
        Ok(())
    } else {
        let c = decimal_string(channels as usize);
        let s = decimal_string(sample_rate as usize);
        let head = concat3("WAV must be mono 16kHz (got: ", c.as_str(), " channels, ");
        Err(concat3(head.as_str(), s.as_str(), "Hz)"))
    }
}

} // verus!
