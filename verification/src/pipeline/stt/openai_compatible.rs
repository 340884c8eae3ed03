//! Transcription through an OpenAI-Whisper-compatible `/audio/transcriptions`
//! endpoint: OpenAI itself and Groq share the request and answer shape.
use vstd::prelude::*;

use crate::text::{trim, trim_string};
use super::{Segment, Transcript};

verus! {

pub const GROQ_ENDPOINT: &'static str = "https://api.groq.com/openai/v1/audio/transcriptions";
pub const GROQ_MODEL: &'static str = "whisper-large-v3-turbo";
pub const OPENAI_ENDPOINT: &'static str = "https://api.openai.com/v1/audio/transcriptions";
pub const OPENAI_MODEL: &'static str = "whisper-1";

/// An engine bound to one endpoint and model, with the key it authenticates with.
pub struct OpenAiCompatibleWhisperEngine {
    endpoint: &'static str,
    model: &'static str,
    api_key: String,
}

impl OpenAiCompatibleWhisperEngine {
    pub closed spec fn spec_endpoint(&self) -> Seq<char> {
        self.endpoint@
    }

    pub closed spec fn spec_model(&self) -> Seq<char> {
        self.model@
    }

    pub closed spec fn spec_api_key(&self) -> Seq<char> {
        self.api_key@
    }

    /// Groq's endpoint with its turbo large-v3 model.
    pub fn groq(api_key: &str) -> (r: Self)
        ensures
            r.spec_endpoint() == GROQ_ENDPOINT@,
            r.spec_model() == GROQ_MODEL@,
            r.spec_api_key() == api_key@,
    {
        OpenAiCompatibleWhisperEngine { endpoint: GROQ_ENDPOINT, model: GROQ_MODEL, api_key: api_key.to_owned() }
    }

    /// OpenAI's endpoint with `whisper-1`.
    pub fn openai(api_key: &str) -> (r: Self)
        ensures
            r.spec_endpoint() == OPENAI_ENDPOINT@,
            r.spec_model() == OPENAI_MODEL@,
            r.spec_api_key() == api_key@,
    {
        OpenAiCompatibleWhisperEngine { endpoint: OPENAI_ENDPOINT, model: OPENAI_MODEL, api_key: api_key.to_owned() }
    }

    pub fn endpoint(&self) -> (r: &'static str)
        ensures
            r@ == self.spec_endpoint(),
    {
        self.endpoint
    }

    pub fn model(&self) -> (r: &'static str)
        ensures
            r@ == self.spec_model(),
    {
        self.model
    }

    pub fn api_key(&self) -> (r: &str)
        ensures
            r@ == self.spec_api_key(),
    {
        self.api_key.as_str()
    }
}

/// One segment of a `verbose_json` answer.
#[derive(Debug, Clone)]
pub struct ApiSegment<T> {
    pub start: T,
    pub end: T,
    pub text: String,
}

/// A `verbose_json` answer: the detected language and the segments.
#[derive(Debug, Clone)]
pub struct ApiResponse<T> {
    pub language: String,
    pub segments: Vec<ApiSegment<T>>,
}

/// The answer as a transcript: same language, same timings, each text
/// trimmed (whisper prefixes its segments with a space).
pub fn to_transcript<T: Copy>(parsed: &ApiResponse<T>) -> (r: Transcript<T>)
    ensures
        r.language@ == parsed.language@,
        r.segments.len() == parsed.segments.len(),
        forall|i: int| 0 <= i < r.segments.len() ==> {
            &&& #[trigger] r.segments[i].start == parsed.segments[i].start
            &&& r.segments[i].end == parsed.segments[i].end
            &&& r.segments[i].text@ == trim(parsed.segments[i].text@)
        },
{
    let mut segments: Vec<Segment<T>> = Vec::new();
    let mut i: usize = 0;
    while i < parsed.segments.len()
        invariant
            i <= parsed.segments.len(),
            segments.len() == i,
            forall|j: int| 0 <= j < i ==> {
                &&& #[trigger] segments[j].start == parsed.segments[j].start
                &&& segments[j].end == parsed.segments[j].end
                &&& segments[j].text@ == trim(parsed.segments[j].text@)
            },
        decreases parsed.segments.len() - i,
    {
        let s = &parsed.segments[i];
        segments.push(Segment { start: s.start, end: s.end, text: trim_string(s.text.as_str()) });
        i = i + 1;
    }
    Transcript { language: parsed.language.clone(), segments }
}

} // verus!
