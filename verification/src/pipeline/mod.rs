//! The subtitle pipeline: which key each engine needs, which engine a run
//! uses, where the output files go, and how translated lines are put back on
//! their timings.
use vstd::prelude::*;

pub mod audio_extract;
pub mod stt;
pub mod translate;

use crate::config::{
    ConfigError, SttEngineChoice, TranslationEngineChoice, ASSEMBLYAI_API_KEY,
    AZURE_TRANSLATOR_KEY, DEEPGRAM_API_KEY, DEEPL_API_KEY, GOOGLE_TRANSLATE_API_KEY, GROQ_API_KEY,
    OPENAI_API_KEY,
};
use crate::paths::{
    file_stem, path_file_stem, path_with_extension, path_with_file_name, with_extension, with_file_name,
};
use crate::text::{concat, concat3, decimal, decimal_string};
use stt::assemblyai::AssemblyAiEngine;
use stt::deepgram::DeepgramEngine;
use stt::openai_compatible::OpenAiCompatibleWhisperEngine;
use stt::{CloudTranscriber, Segment};
use translate::azure_translate::AzureTranslateEngine;
use translate::cloud_deepl::CloudDeepLEngine;
use translate::google_translate::GoogleTranslateEngine;
use translate::openai_translate::OpenAiTranslateEngine;
use translate::CloudTranslator;

verus! {

/// What a transcription run produced.
#[derive(Debug, Clone)]
pub struct PipelineOutput {
    pub srt_path: String,
    pub srt_content: String,
    pub language: String,
}

/// What a translation run produced.
#[derive(Debug, Clone)]
pub struct TranslationOutput {
    pub srt_path: String,
    pub srt_content: String,
}

/// Why a run stopped.
#[derive(Debug)]
pub enum PipelineError {
    /// The keychain failed while the provider's key was read.
    KeyRead { provider: String, cause: ConfigError },
    /// No key is stored for the provider.
    KeyMissing { provider: String },
    /// The engine merged or split lines: the translation does not fit the cues.
    TranslationCountMismatch { returned: usize, expected: usize },
    /// The subtitles hold no cue to translate.
    NoCues,
    /// Azure Translator is chosen but no region is configured.
    AzureRegionMissing,
    /// Translation is switched off in the settings.
    TranslationDisabled,
}

impl PipelineError {
    pub open spec fn message(&self) -> Seq<char> {
        match self {
            PipelineError::KeyRead { provider, .. } => "reading "@ + provider@ + " API key"@,
            PipelineError::KeyMissing { provider } => "no "@ + provider@ + " API key configured — add one in Settings"@,
            PipelineError::TranslationCountMismatch { returned, expected } => "translation engine returned "@ + decimal(
                *returned as nat,
            ) + " results for "@ + decimal(*expected as nat) + " cues"@,
            PipelineError::NoCues => "no subtitle cues to translate"@,
            PipelineError::AzureRegionMissing => "Azure Translator region not configured — add it in Settings"@,
            PipelineError::TranslationDisabled => "translation is disabled — enable it in Settings first"@,
        }
    }

    pub fn to_string(&self) -> (r: String)
        ensures
            r@ == self.message(),
    {
        match self {
            PipelineError::KeyRead { provider, .. } => concat3("reading ", provider.as_str(), " API key"),
            PipelineError::KeyMissing { provider } => concat3(
                "no ",
                provider.as_str(),
                " API key configured — add one in Settings",
            ),
            PipelineError::TranslationCountMismatch { returned, expected } => {
                let r = decimal_string(*returned);
                let e = decimal_string(*expected);
                let head = concat3("translation engine returned ", r.as_str(), " results for ");
                concat3(head.as_str(), e.as_str(), " cues")
            },
            PipelineError::NoCues => "no subtitle cues to translate".to_owned(),
            PipelineError::AzureRegionMissing => "Azure Translator region not configured — add it in Settings".to_owned(),
            PipelineError::TranslationDisabled => "translation is disabled — enable it in Settings first".to_owned(),
        }
    }
}

// ── API keys each engine needs ───────────────────────────────────────────

/// The view of a (key name, provider) requirement.
pub open spec fn requirement_view(r: Option<(&'static str, &'static str)>) -> Option<(Seq<char>, Seq<char>)> {
    match r {
        Some((k, p)) => Some((k@, p@)),
        None => None,
    }
}

/// The key a transcription engine needs, as (key name, provider shown to the
/// user); none for the local engine.
pub open spec fn stt_requirement(choice: SttEngineChoice) -> Option<(Seq<char>, Seq<char>)> {
    match choice {
        SttEngineChoice::Local => None,
        SttEngineChoice::Groq => Some((GROQ_API_KEY@, "Groq"@)),
        SttEngineChoice::OpenAi => Some((OPENAI_API_KEY@, "OpenAI"@)),
        SttEngineChoice::Deepgram => Some((DEEPGRAM_API_KEY@, "Deepgram"@)),
        SttEngineChoice::AssemblyAi => Some((ASSEMBLYAI_API_KEY@, "AssemblyAI"@)),
    }
}

/// The key a translation engine needs; none for the local engine and for no
/// translation.
pub open spec fn translation_requirement(choice: TranslationEngineChoice) -> Option<(Seq<char>, Seq<char>)> {
    match choice {
        TranslationEngineChoice::DeepL => Some((DEEPL_API_KEY@, "DeepL"@)),
        TranslationEngineChoice::OpenAi => Some((OPENAI_API_KEY@, "OpenAI"@)),
        TranslationEngineChoice::Google => Some((GOOGLE_TRANSLATE_API_KEY@, "Google Translate"@)),
        TranslationEngineChoice::Azure => Some((AZURE_TRANSLATOR_KEY@, "Azure Translator"@)),
        TranslationEngineChoice::Local | TranslationEngineChoice::Disabled => None,
    }
}

pub fn stt_key_requirement(choice: SttEngineChoice) -> (r: Option<(&'static str, &'static str)>)
    ensures
        requirement_view(r) == stt_requirement(choice),
{
    match choice {
        SttEngineChoice::Local => None,
        SttEngineChoice::Groq => Some((GROQ_API_KEY, "Groq")),
        SttEngineChoice::OpenAi => Some((OPENAI_API_KEY, "OpenAI")),
        SttEngineChoice::Deepgram => Some((DEEPGRAM_API_KEY, "Deepgram")),
        SttEngineChoice::AssemblyAi => Some((ASSEMBLYAI_API_KEY, "AssemblyAI")),
    }
}

pub fn translation_key_requirement(choice: TranslationEngineChoice) -> (r: Option<(&'static str, &'static str)>)
    ensures
        requirement_view(r) == translation_requirement(choice),
{
    match choice {
        TranslationEngineChoice::DeepL => Some((DEEPL_API_KEY, "DeepL")),
        TranslationEngineChoice::OpenAi => Some((OPENAI_API_KEY, "OpenAI")),
        TranslationEngineChoice::Google => Some((GOOGLE_TRANSLATE_API_KEY, "Google Translate")),
        TranslationEngineChoice::Azure => Some((AZURE_TRANSLATOR_KEY, "Azure Translator")),
        TranslationEngineChoice::Local | TranslationEngineChoice::Disabled => None,
    }
}

/// The key, given what the keychain answered for `provider`: a failing
/// keychain and a missing key are both reported, naming the provider.
pub fn api_key_required(lookup: Result<Option<String>, ConfigError>, provider: &str) -> (r: Result<
    String,
    PipelineError,
>)
    ensures
        lookup matches Ok(Some(k)) ==> (r matches Ok(key) && key == k),
        lookup matches Ok(None) ==> (r matches Err(PipelineError::KeyMissing { provider: p }) && p@ == provider@),
        lookup is Err ==> (r matches Err(PipelineError::KeyRead { provider: p, .. }) && p@ == provider@),
{
    match lookup {
        Ok(Some(k)) => Ok(k),
        Ok(None) => Err(PipelineError::KeyMissing { provider: provider.to_owned() }),
        Err(cause) => Err(PipelineError::KeyRead { provider: provider.to_owned(), cause }),
    }
}

/// One OpenAI key, entered once, serves both transcription and
/// translation.
pub proof fn openai_key_is_shared()
    ensures
        stt_requirement(SttEngineChoice::OpenAi) matches Some((k1, _)) && translation_requirement(
            TranslationEngineChoice::OpenAi,
        ) matches Some((k2, _)) && k1 == k2,
{
}

// ── which engine a run uses ──────────────────────────────────────────────

/// How a transcription run gets its engine.
#[derive(Debug, Clone, Copy)]
pub enum SttRoute {
    /// Download the default whisper model if needed, then run it locally.
    Local,
    /// Read the provider's key, then call the cloud engine.
    Cloud { engine: SttEngineChoice, key_name: &'static str, provider: &'static str },
}

/// The route of a transcription run for the chosen engine.
pub fn stt_route(choice: SttEngineChoice) -> (r: SttRoute)
    ensures
        choice == SttEngineChoice::Local <==> r is Local,
        r matches SttRoute::Cloud { engine, key_name, provider } ==> engine == choice && stt_requirement(choice) == Some(
            (key_name@, provider@),
        ),
{
    match stt_key_requirement(choice) {
        None => SttRoute::Local,
        Some((key_name, provider)) => SttRoute::Cloud { engine: choice, key_name, provider },
    }
}

/// The cloud transcription engine for `engine`, authenticated with `api_key`.
pub fn cloud_transcriber(engine: SttEngineChoice, api_key: &str) -> (r: CloudTranscriber)
    requires
        engine != SttEngineChoice::Local,
    ensures
        engine == SttEngineChoice::Groq ==> (r matches CloudTranscriber::Whisper(e) && e.spec_endpoint()
            == stt::openai_compatible::GROQ_ENDPOINT@ && e.spec_model() == stt::openai_compatible::GROQ_MODEL@
            && e.spec_api_key() == api_key@),
        engine == SttEngineChoice::OpenAi ==> (r matches CloudTranscriber::Whisper(e) && e.spec_endpoint()
            == stt::openai_compatible::OPENAI_ENDPOINT@ && e.spec_model() == stt::openai_compatible::OPENAI_MODEL@
            && e.spec_api_key() == api_key@),
        engine == SttEngineChoice::Deepgram ==> (r matches CloudTranscriber::Deepgram(e) && e.spec_api_key()
            == api_key@),
        engine == SttEngineChoice::AssemblyAi ==> (r matches CloudTranscriber::AssemblyAi(e) && e.spec_api_key()
            == api_key@),
{
    match engine {
        SttEngineChoice::Groq => CloudTranscriber::Whisper(OpenAiCompatibleWhisperEngine::groq(api_key)),
        SttEngineChoice::OpenAi => CloudTranscriber::Whisper(OpenAiCompatibleWhisperEngine::openai(api_key)),
        SttEngineChoice::Deepgram => CloudTranscriber::Deepgram(DeepgramEngine::new(api_key)),
        _ => CloudTranscriber::AssemblyAi(AssemblyAiEngine::new(api_key)),
    }
}

/// How a translation run gets its engine.
#[derive(Debug, Clone, Copy)]
pub enum TranslationRoute {
    /// Download the NLLB model if needed, then run it locally.
    Local,
    /// Read the provider's key, then call the cloud engine.
    Cloud { engine: TranslationEngineChoice, key_name: &'static str, provider: &'static str },
}

/// The route of a translation run over `cue_count` cues: an empty subtitle
/// file is refused first, then a disabled translation.
pub fn translation_route(choice: TranslationEngineChoice, cue_count: usize) -> (r: Result<
    TranslationRoute,
    PipelineError,
>)
    ensures
        cue_count == 0 ==> r matches Err(PipelineError::NoCues),
        cue_count > 0 && choice == TranslationEngineChoice::Disabled ==> r matches Err(
            PipelineError::TranslationDisabled,
        ),
        cue_count > 0 && choice == TranslationEngineChoice::Local ==> r matches Ok(TranslationRoute::Local),
        r matches Ok(TranslationRoute::Cloud { engine, key_name, provider }) ==> engine == choice
            && translation_requirement(choice) == Some((key_name@, provider@)),
        cue_count > 0 && translation_requirement(choice) is Some ==> r matches Ok(TranslationRoute::Cloud { .. }),
{
    if cue_count == 0 {
        return Err(PipelineError::NoCues);
    }
    match choice {
        TranslationEngineChoice::Disabled => Err(PipelineError::TranslationDisabled),
        TranslationEngineChoice::Local => Ok(TranslationRoute::Local),
        _ => match translation_key_requirement(choice) {
            Some((key_name, provider)) => Ok(TranslationRoute::Cloud { engine: choice, key_name, provider }),
            None => Ok(TranslationRoute::Local),
        },
    }
}

/// The cloud translation engine for `engine`, authenticated with `api_key`;
/// Azure also needs the configured region.
pub fn cloud_translator(engine: TranslationEngineChoice, api_key: &str, azure_region: &str) -> (r: Result<
    CloudTranslator,
    PipelineError,
>)
    requires
        translation_requirement(engine) is Some,
    ensures
        engine == TranslationEngineChoice::DeepL ==> (r matches Ok(CloudTranslator::DeepL(e)) && e.spec_api_key()
            == api_key@),
        engine == TranslationEngineChoice::OpenAi ==> (r matches Ok(CloudTranslator::OpenAi(e)) && e.spec_api_key()
            == api_key@),
        engine == TranslationEngineChoice::Google ==> (r matches Ok(CloudTranslator::Google(e)) && e.spec_api_key()
            == api_key@),
        engine == TranslationEngineChoice::Azure && azure_region@.len() == 0 ==> r matches Err(
            PipelineError::AzureRegionMissing,
        ),
        engine == TranslationEngineChoice::Azure && azure_region@.len() > 0 ==> (r matches Ok(
            CloudTranslator::Azure(e),
        ) && e.spec_api_key() == api_key@ && e.spec_region() == azure_region@),
{
    match engine {
        TranslationEngineChoice::DeepL => Ok(CloudTranslator::DeepL(CloudDeepLEngine::new(api_key))),
        TranslationEngineChoice::OpenAi => Ok(CloudTranslator::OpenAi(OpenAiTranslateEngine::new(api_key))),
        TranslationEngineChoice::Google => Ok(CloudTranslator::Google(GoogleTranslateEngine::new(api_key))),
        _ => {
            if azure_region.is_empty() {
                Err(PipelineError::AzureRegionMissing)
            } else {
                Ok(CloudTranslator::Azure(AzureTranslateEngine::new(api_key, azure_region)))
            }
        },
    }
}

// ── output files ─────────────────────────────────────────────────────────

/// `<source>.srt`, next to the source media file.
pub fn srt_output_path(input: &str) -> (r: String)
    ensures
        r@ == path_with_extension(input@, "srt"@),
{
    proof {
        reveal_strlit("srt");
    }
    with_extension(input, "srt")
}

/// The file name of a translation: `<stem>.<language>.srt`, with
/// `subtitles` for a path without a stem.
pub open spec fn translated_file_name(stem: Option<Seq<char>>, target_lang: Seq<char>) -> Seq<char> {
    match stem {
        Some(s) => s + "."@ + target_lang + ".srt"@,
        None => "subtitles"@ + "."@ + target_lang + ".srt"@,
    }
}

/// `<source>.<language>.srt`, next to the source subtitles.
pub fn translated_output_path(srt_path: &str, target_lang: &str) -> (r: String)
    ensures
        r@ == path_with_file_name(srt_path@, translated_file_name(path_file_stem(srt_path@), target_lang@)),
{
    let stem = match file_stem(srt_path) {
        Some(s) => s,
        None => "subtitles".to_owned(),
    };
    let head = concat3(stem.as_str(), ".", target_lang);
    let name = concat(head.as_str(), ".srt");
    with_file_name(srt_path, name.as_str())
}

/// Translating the same subtitles into two different languages gives two
/// different file names: the second translation never overwrites the first.
pub proof fn translations_into_distinct_languages_do_not_collide(
    stem: Option<Seq<char>>,
    first: Seq<char>,
    second: Seq<char>,
)
    requires
        first != second,
    ensures
        translated_file_name(stem, first) != translated_file_name(stem, second),
{
    let s = match stem {
        Some(s) => s,
        None => "subtitles"@,
    };
    let a = s + "."@ + first + ".srt"@;
    let b = s + "."@ + second + ".srt"@;
    assert(translated_file_name(stem, first) == a);
    assert(translated_file_name(stem, second) == b);
    if a == b {
        let off: int = (s.len() + "."@.len()) as int;
        assert(first.len() == second.len());
        assert(a.subrange(off, off + first.len() as int) =~= first);
        assert(b.subrange(off, off + second.len() as int) =~= second);
    }
}

// ── putting translations back on their timings ───────────────────────────

/// The translated texts on the original timings, refusing any shift: an
/// engine that merged or split lines would put every following subtitle out
/// of time.
pub fn zip_translations<T: Copy>(cues: &[Segment<T>], translated: Vec<String>) -> (r: Result<
    Vec<Segment<T>>,
    PipelineError,
>)
    ensures
        r is Ok <==> translated.len() == cues@.len(),
        r matches Err(e) ==> (e matches PipelineError::TranslationCountMismatch { returned, expected }
            && returned == translated.len() && expected == cues@.len()),
        r matches Ok(out) ==> out.len() == cues@.len() && forall|i: int|
            0 <= i < out.len() ==> {
                &&& #[trigger] out[i].start == cues@[i].start
                &&& out[i].end == cues@[i].end
                &&& out[i].text == translated[i]
            },
{
    if translated.len() != cues.len() {
        return Err(PipelineError::TranslationCountMismatch { returned: translated.len(), expected: cues.len() });
    }
    let mut out: Vec<Segment<T>> = Vec::new();
    let mut i: usize = 0;
    while i < cues.len()
        invariant
            translated.len() == cues@.len(),
            i <= cues@.len(),
            out.len() == i,
            forall|j: int|
                0 <= j < i ==> {
                    &&& #[trigger] out[j].start == cues@[j].start
                    &&& out[j].end == cues@[j].end
                    &&& out[j].text == translated[j]
                },
        decreases cues@.len() - i,
    {
        let cue = &cues[i];
        out.push(Segment { start: cue.start, end: cue.end, text: translated[i].clone() });
        i = i + 1;
    }
    Ok(out)
}

} // verus!
