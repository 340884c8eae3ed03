//! Speech-to-text engines: what each one is configured with, and the
//! conversion of their answers into a transcript.
use vstd::prelude::*;

pub mod assemblyai;
pub mod deepgram;
pub mod local_whisper;
pub mod openai_compatible;

use assemblyai::AssemblyAiEngine;
use deepgram::DeepgramEngine;
use openai_compatible::OpenAiCompatibleWhisperEngine;

verus! {

/// One timed piece of transcribed text. `T` is the type of the timestamps
/// (seconds from the start of the recording).
#[derive(Debug, Clone)]
pub struct Segment<T> {
    pub start: T,
    pub end: T,
    pub text: String,
}

/// A transcription: the detected language and the timed segments.
#[derive(Debug, Clone)]
pub struct Transcript<T> {
    pub language: String,
    pub segments: Vec<Segment<T>>,
}

/// The language reported when an engine detected none.
pub const UNKNOWN_LANGUAGE: &'static str = "unknown";

/// A configured cloud transcription engine.
pub enum CloudTranscriber {
    /// Groq or OpenAI, which share one request shape.
    Whisper(OpenAiCompatibleWhisperEngine),
    Deepgram(DeepgramEngine),
    AssemblyAi(AssemblyAiEngine),
}

} // verus!
