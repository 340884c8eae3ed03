//! Transcription through Deepgram's `listen` endpoint.
use vstd::prelude::*;

use crate::text::{concat, trim, trim_string};
use super::{Segment, Transcript, UNKNOWN_LANGUAGE};

verus! {

/// The request asks for utterances (the segmentation downstream builds on
/// them), punctuation and language detection (reported to the interface).
pub const ENDPOINT: &'static str = "https://api.deepgram.com/v1/listen?model=nova-2&smart_format=true&punctuate=true&utterances=true&detect_language=true";

/// The Deepgram engine and the key it authenticates with.
pub struct DeepgramEngine {
    api_key: String,
}

impl DeepgramEngine {
    pub closed spec fn spec_api_key(&self) -> Seq<char> {
        self.api_key@
    }

    pub fn new(api_key: &str) -> (r: Self)
        ensures
            r.spec_api_key() == api_key@,
    {
        DeepgramEngine { api_key: api_key.to_owned() }
    }

    pub fn api_key(&self) -> (r: &str)
        ensures
            r@ == self.spec_api_key(),
    {
        self.api_key.as_str()
    }
}

/// One utterance of the answer.
#[derive(Debug, Clone)]
pub struct Utterance<T> {
    pub start: T,
    pub end: T,
    pub transcript: String,
}

/// One audio channel of the answer.
#[derive(Debug, Clone)]
pub struct Channel {
    pub detected_language: Option<String>,
}

#[derive(Debug, Clone)]
pub struct Results<T> {
    pub channels: Vec<Channel>,
    pub utterances: Vec<Utterance<T>>,
}

/// Deepgram's answer.
#[derive(Debug, Clone)]
pub struct DeepgramResponse<T> {
    pub results: Results<T>,
}

/// The language of an answer: the one detected on the first channel, or
/// `"unknown"`.
pub open spec fn detected_language<T>(parsed: DeepgramResponse<T>) -> Seq<char> {
    if parsed.results.channels.len() > 0 {
        match parsed.results.channels[0].detected_language {
            Some(l) => l@,
            None => UNKNOWN_LANGUAGE@,
        }
    } else {
        UNKNOWN_LANGUAGE@
    }
}

/// The answer as a transcript: the first channel decides the language, each
/// utterance becomes a segment with its timings and trimmed text.
pub fn to_transcript<T: Copy>(parsed: &DeepgramResponse<T>) -> (r: Transcript<T>)
    ensures
        r.language@ == detected_language(*parsed),
        r.segments.len() == parsed.results.utterances.len(),
        forall|i: int| 0 <= i < r.segments.len() ==> {
            &&& #[trigger] r.segments[i].start == parsed.results.utterances[i].start
            &&& r.segments[i].end == parsed.results.utterances[i].end
            &&& r.segments[i].text@ == trim(parsed.results.utterances[i].transcript@)
        },
{
    let language = if parsed.results.channels.len() > 0 {
        match &parsed.results.channels[0].detected_language {
            Some(l) => l.clone(),
            None => UNKNOWN_LANGUAGE.to_owned(),
        }
    } else {
        UNKNOWN_LANGUAGE.to_owned()
    };
    let utterances = &parsed.results.utterances;
    let mut segments: Vec<Segment<T>> = Vec::new();
    let mut i: usize = 0;
    while i < utterances.len()
        invariant
            i <= utterances.len(),
            segments.len() == i,
            forall|j: int| 0 <= j < i ==> {
                &&& #[trigger] segments[j].start == utterances[j].start
                &&& segments[j].end == utterances[j].end
                &&& segments[j].text@ == trim(utterances[j].transcript@)
            },
        decreases utterances.len() - i,
    {
        let u = &utterances[i];
        segments.push(Segment { start: u.start, end: u.end, text: trim_string(u.transcript.as_str()) });
        i = i + 1;
    }
    Transcript { language, segments }
}

/// The authentication header value Deepgram expects: `Token <key>`.
pub fn auth_header(api_key: &str) -> (r: String)
    ensures
        r@ == "Token "@ + api_key@,
{
    concat("Token ", api_key)
}

} // verus!
