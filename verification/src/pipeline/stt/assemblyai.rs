//! Transcription through AssemblyAI: upload, job creation, status polling,
//! then the sentences of the finished job.
use vstd::prelude::*;

use crate::text::{concat, concat3, trim, trim_string};
use super::{Segment, UNKNOWN_LANGUAGE};

verus! {

pub const BASE_URL: &'static str = "https://api.assemblyai.com/v2";
/// Seconds between two status reads.
pub const POLL_INTERVAL_SECS: u64 = 3;
/// Status reads before giving up (about ten minutes in all).
pub const MAX_POLLS: u32 = 200;

/// The AssemblyAI engine and the key it authenticates with.
pub struct AssemblyAiEngine {
    api_key: String,
}

impl AssemblyAiEngine {
    pub closed spec fn spec_api_key(&self) -> Seq<char> {
        self.api_key@
    }

    pub fn new(api_key: &str) -> (r: Self)
        ensures
            r.spec_api_key() == api_key@,
    {
        AssemblyAiEngine { api_key: api_key.to_owned() }
    }

    pub fn api_key(&self) -> (r: &str)
        ensures
            r@ == self.spec_api_key(),
    {
        self.api_key.as_str()
    }
}

/// Answer to the upload: where the audio now lives.
#[derive(Debug, Clone)]
pub struct UploadResponse {
    pub upload_url: String,
}

/// Answer to the job creation.
#[derive(Debug, Clone)]
pub struct TranscriptCreated {
    pub id: String,
}

/// Answer to a status read.
#[derive(Debug, Clone)]
pub struct TranscriptStatus {
    pub status: String,
    pub language_code: Option<String>,
    pub error: Option<String>,
}

/// One sentence of the finished job, timed in milliseconds.
#[derive(Debug, Clone)]
pub struct Sentence {
    pub text: String,
    pub start: i64,
    pub end: i64,
}

/// The sentences of the finished job.
#[derive(Debug, Clone)]
pub struct SentencesResponse {
    pub sentences: Vec<Sentence>,
}

/// What to do after one status read.
#[derive(Debug)]
pub enum Poll {
    /// Finished, with the detected language.
    Done(String),
    /// Failed on AssemblyAI's side, with its message.
    Failed(String),
    /// Still running: read again.
    Pending,
}

impl Poll {
    pub open spec fn same(&self, other: &Self) -> bool {
        match (self, other) {
            (Poll::Done(a), Poll::Done(b)) => a@ == b@,
            (Poll::Failed(a), Poll::Failed(b)) => a@ == b@,
            (Poll::Pending, Poll::Pending) => true,
            _ => false,
        }
    }
}

impl PartialEq for Poll {
    fn eq(&self, other: &Self) -> (r: bool) {
        match (self, other) {
            (Poll::Done(a), Poll::Done(b)) => crate::text::str_eq(a.as_str(), b.as_str()),
            (Poll::Failed(a), Poll::Failed(b)) => crate::text::str_eq(a.as_str(), b.as_str()),
            (Poll::Pending, Poll::Pending) => true,
            _ => false,
        }
    }
}

impl vstd::std_specs::cmp::PartialEqSpecImpl for Poll {
    open spec fn obeys_eq_spec() -> bool {
        true
    }

    open spec fn eq_spec(&self, other: &Self) -> bool {
        self.same(other)
    }
}

/// The reading of a status answer: `completed` is done (with the detected
/// language, else `fallback_language`), `error` is a failure (with its
/// message, else `"unknown error"`), anything else is still pending.
pub fn interpret_status(status: TranscriptStatus, fallback_language: &str) -> (r: Poll)
    ensures
        status.status@ == "completed"@ ==> (r matches Poll::Done(l) && l@ == match status.language_code {
            Some(c) => c@,
            None => fallback_language@,
        }),
        status.status@ != "completed"@ && status.status@ == "error"@ ==> (r matches Poll::Failed(m) && m@ == match status.error {
            Some(e) => e@,
            None => "unknown error"@,
        }),
        status.status@ != "completed"@ && status.status@ != "error"@ ==> r is Pending,
{
    if crate::text::str_eq(status.status.as_str(), "completed") {
        Poll::Done(match status.language_code {
            Some(c) => c,
            None => fallback_language.to_owned(),
        })
    } else if crate::text::str_eq(status.status.as_str(), "error") {
        Poll::Failed(match status.error {
            Some(e) => e,
            None => "unknown error".to_owned(),
        })
    } else {
        Poll::Pending
    }
}

/// Why an AssemblyAI transcription did not finish.
#[derive(Debug)]
pub enum AssemblyAiError {
    /// The job failed, with AssemblyAI's message.
    Failed(String),
    /// The job was still running after the last allowed status read.
    TimedOut,
}

impl AssemblyAiError {
    pub open spec fn message(&self) -> Seq<char> {
        match self {
            AssemblyAiError::Failed(reason) => "AssemblyAI transcription failed: "@ + reason@,
            AssemblyAiError::TimedOut => "AssemblyAI transcription timed out"@,
        }
    }

    pub fn to_string(&self) -> (r: String)
        ensures
            r@ == self.message(),
    {
        match self {
            AssemblyAiError::Failed(reason) => concat("AssemblyAI transcription failed: ", reason.as_str()),
            AssemblyAiError::TimedOut => "AssemblyAI transcription timed out".to_owned(),
        }
    }
}

/// Where the polling loop stands after a status read.
#[derive(Debug)]
pub enum PollProgress {
    /// The job finished, with its language.
    Completed(String),
    /// Read the status again.
    KeepPolling,
}

/// The decision after the status read numbered `attempt` (from 0): a finished
/// job ends the loop with its language (`"unknown"` when none is reported), a
/// failed job ends it with the failure, and a pending job is read again
/// unless that was the last allowed read, which ends it as timed out.
pub fn after_poll(attempt: u32, status: TranscriptStatus) -> (r: Result<PollProgress, AssemblyAiError>)
    requires
        attempt < MAX_POLLS,
    ensures
        status.status@ == "completed"@ ==> (r matches Ok(PollProgress::Completed(l)) && l@ == match status.language_code {
            Some(c) => c@,
            None => UNKNOWN_LANGUAGE@,
        }),
        status.status@ != "completed"@ && status.status@ == "error"@ ==> (r matches Err(AssemblyAiError::Failed(m)) && m@ == match status.error {
            Some(e) => e@,
            None => "unknown error"@,
        }),
        r matches Ok(PollProgress::KeepPolling) ==> attempt + 1 < MAX_POLLS,
        status.status@ != "completed"@ && status.status@ != "error"@ ==> (if attempt + 1 < MAX_POLLS {
            r matches Ok(PollProgress::KeepPolling)
        } else {
            r matches Err(AssemblyAiError::TimedOut)
        }),
{
    match interpret_status(status, UNKNOWN_LANGUAGE) {
        Poll::Done(language) => Ok(PollProgress::Completed(language)),
        Poll::Failed(reason) => Err(AssemblyAiError::Failed(reason)),
        Poll::Pending => {
            if attempt + 1 < MAX_POLLS {
                Ok(PollProgress::KeepPolling)
            } else {
                Err(AssemblyAiError::TimedOut)
            }
        },
    }
}

/// The sentences as segments, still timed in milliseconds, each with its
/// text trimmed.
pub fn to_segments(answer: &SentencesResponse) -> (r: Vec<Segment<i64>>)
    ensures
        r.len() == answer.sentences.len(),
        forall|i: int| 0 <= i < r.len() ==> {
            &&& #[trigger] r[i].start == answer.sentences[i].start
            &&& r[i].end == answer.sentences[i].end
            &&& r[i].text@ == trim(answer.sentences[i].text@)
        },
{
    let sentences = &answer.sentences;
    let mut segments: Vec<Segment<i64>> = Vec::new();
    let mut i: usize = 0;
    while i < sentences.len()
        invariant
            i <= sentences.len(),
            segments.len() == i,
            forall|j: int| 0 <= j < i ==> {
                &&& #[trigger] segments[j].start == sentences[j].start
                &&& segments[j].end == sentences[j].end
                &&& segments[j].text@ == trim(sentences[j].text@)
            },
        decreases sentences.len() - i,
    {
        let s = &sentences[i];
        segments.push(Segment { start: s.start, end: s.end, text: trim_string(s.text.as_str()) });
        i = i + 1;
    }
    segments
}

/// Where the audio is uploaded.
pub fn upload_url() -> (r: String)
    ensures
        r@ == BASE_URL@ + "/upload"@,
{
    concat(BASE_URL, "/upload")
}

/// Where transcription jobs are created.
pub fn transcript_url() -> (r: String)
    ensures
        r@ == BASE_URL@ + "/transcript"@,
{
    concat(BASE_URL, "/transcript")
}

/// Where the status of job `id` is read.
pub fn status_url(id: &str) -> (r: String)
    ensures
        r@ == BASE_URL@ + "/transcript/"@ + id@,
{
    concat3(BASE_URL, "/transcript/", id)
}

/// Where the sentences of job `id` are read.
pub fn sentences_url(id: &str) -> (r: String)
    ensures
        r@ == BASE_URL@ + "/transcript/"@ + id@ + "/sentences"@,
{
    let s = status_url(id);
    concat(s.as_str(), "/sentences")
}

} // verus!
