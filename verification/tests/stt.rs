use std::time::Duration;

use light_gen_subz::pipeline::stt::assemblyai::{
    after_poll, interpret_status, to_segments, sentences_url, status_url, Poll, PollProgress, Sentence, SentencesResponse, TranscriptStatus, MAX_POLLS,
    POLL_INTERVAL_SECS,
};
use light_gen_subz::pipeline::stt::deepgram::{self, Channel, DeepgramResponse, Results, Utterance, ENDPOINT};
use light_gen_subz::pipeline::stt::local_whisper::LocalWhisperEngine;
use light_gen_subz::pipeline::stt::openai_compatible::{self, ApiResponse, ApiSegment, OpenAiCompatibleWhisperEngine};

fn status(state: &str, language_code: Option<&str>, error: Option<&str>) -> TranscriptStatus {
    TranscriptStatus {
        status: state.to_string(),
        language_code: language_code.map(|s| s.to_string()),
        error: error.map(|s| s.to_string()),
    }
}

#[test]
fn a_completed_job_reports_its_detected_language() {
    let poll = interpret_status(status("completed", Some("fr"), None), "unknown");

    assert_eq!(poll, Poll::Done("fr".into()));
}

#[test]
fn a_completed_job_without_a_language_keeps_the_fallback() {
    let poll = interpret_status(status("completed", None, None), "unknown");

    assert_eq!(poll, Poll::Done("unknown".into()));
}

#[test]
fn a_failed_job_carries_its_reason() {
    let poll = interpret_status(status("error", None, Some("audio too short")), "unknown");

    assert_eq!(poll, Poll::Failed("audio too short".into()));
}

#[test]
fn a_failed_job_without_a_reason_still_reports_a_failure() {
    let poll = interpret_status(status("error", None, None), "unknown");

    assert_eq!(poll, Poll::Failed("unknown error".into()));
}

#[test]
fn the_intermediate_statuses_keep_the_loop_going() {
    for s in ["queued", "processing", "something-new"] {
        assert_eq!(
            interpret_status(status(s, None, None), "unknown"),
            Poll::Pending,
            "{s}"
        );
    }
}

#[test]
fn the_poll_budget_covers_about_ten_minutes() {
    let total = Duration::from_secs(POLL_INTERVAL_SECS) * MAX_POLLS;

    assert_eq!(total.as_secs(), 600);
}

#[test]
fn the_last_pending_status_ends_the_wait() {
    assert!(matches!(
        after_poll(0, status("queued", None, None)),
        Ok(PollProgress::KeepPolling)
    ));
    let err = after_poll(MAX_POLLS - 1, status("processing", None, None)).unwrap_err();
    assert_eq!(err.to_string(), "AssemblyAI transcription timed out");
    let err = after_poll(3, status("error", None, Some("bad audio"))).unwrap_err();
    assert_eq!(err.to_string(), "AssemblyAI transcription failed: bad audio");
    match after_poll(5, status("completed", None, None)) {
        Ok(PollProgress::Completed(language)) => assert_eq!(language, "unknown"),
        other => panic!("{other:?}"),
    }
}

#[test]
fn the_job_addresses_hang_off_the_transcript_endpoint() {
    assert_eq!(status_url("tr-1"), "https://api.assemblyai.com/v2/transcript/tr-1");
    assert_eq!(
        sentences_url("tr-1"),
        "https://api.assemblyai.com/v2/transcript/tr-1/sentences"
    );
}

// ── Deepgram ─────────────────────────────────────────────────────────────

fn deepgram_answer(languages: &[Option<&str>], utterances: &[(f64, f64, &str)]) -> DeepgramResponse<f64> {
    DeepgramResponse {
        results: Results {
            channels: languages
                .iter()
                .map(|l| Channel { detected_language: l.map(|s| s.to_string()) })
                .collect(),
            utterances: utterances
                .iter()
                .map(|&(start, end, text)| Utterance { start, end, transcript: text.to_string() })
                .collect(),
        },
    }
}

#[test]
fn a_response_becomes_a_transcript_with_its_segments() {
    let t = deepgram::to_transcript(&deepgram_answer(
        &[Some("fr")],
        &[(0.0, 1.5, "Bonjour"), (1.5, 3.0, "le monde")],
    ));

    assert_eq!(t.language, "fr");
    assert_eq!(t.segments.len(), 2);
    assert_eq!(t.segments[0].text, "Bonjour");
    assert_eq!(t.segments[1].start, 1.5);
    assert_eq!(t.segments[1].end, 3.0);
}

#[test]
fn an_undetected_language_falls_back_to_unknown() {
    let t = deepgram::to_transcript(&deepgram_answer(&[None], &[]));

    assert_eq!(t.language, "unknown");
    assert!(t.segments.is_empty());
}

#[test]
fn a_response_without_any_channel_also_falls_back() {
    let t = deepgram::to_transcript(&deepgram_answer(&[], &[]));

    assert_eq!(t.language, "unknown");
}

#[test]
fn the_surrounding_whitespace_of_an_utterance_is_trimmed() {
    let t = deepgram::to_transcript(&deepgram_answer(&[Some("en")], &[(0.0, 1.0, "  hello  ")]));

    assert_eq!(t.segments[0].text, "hello");
}

#[test]
fn only_the_first_channel_decides_the_language() {
    let t = deepgram::to_transcript(&deepgram_answer(&[Some("es"), Some("de")], &[]));

    assert_eq!(t.language, "es");
}

#[test]
fn the_api_key_goes_in_a_token_header() {
    assert_eq!(deepgram::auth_header("sk-abc"), "Token sk-abc");
}

#[test]
fn the_endpoint_asks_for_utterances_and_language_detection() {
    // La segmentation en aval dépend des utterances, et la langue est remontée à l'UI.
    assert!(ENDPOINT.contains("utterances=true"));
    assert!(ENDPOINT.contains("detect_language=true"));
    assert!(ENDPOINT.contains("punctuate=true"));
}

// ── whisper local ────────────────────────────────────────────────────────

#[test]
fn the_engine_keeps_the_model_path_it_was_given() {
    let engine = LocalWhisperEngine::new("/models/ggml-small.bin");

    assert_eq!(engine.model_path(), "/models/ggml-small.bin");
}

// ── OpenAI / Groq ────────────────────────────────────────────────────────

#[test]
fn groq_and_openai_use_their_own_endpoint_and_model() {
    let groq = OpenAiCompatibleWhisperEngine::groq("k");
    assert_eq!(
        groq.endpoint(),
        "https://api.groq.com/openai/v1/audio/transcriptions"
    );
    assert_eq!(groq.model(), "whisper-large-v3-turbo");

    let openai = OpenAiCompatibleWhisperEngine::openai("k");
    assert_eq!(
        openai.endpoint(),
        "https://api.openai.com/v1/audio/transcriptions"
    );
    assert_eq!(openai.model(), "whisper-1");
}

fn whisper_answer(language: &str, segments: &[(f64, f64, &str)]) -> ApiResponse<f64> {
    ApiResponse {
        language: language.to_string(),
        segments: segments
            .iter()
            .map(|&(start, end, text)| ApiSegment { start, end, text: text.to_string() })
            .collect(),
    }
}

#[test]
fn a_response_becomes_a_transcript() {
    let t = openai_compatible::to_transcript(&whisper_answer(
        "french",
        &[(0.0, 1.5, " Bonjour"), (1.5, 3.0, "le monde ")],
    ));

    assert_eq!(t.language, "french");
    assert_eq!(t.segments.len(), 2);
    // Whisper préfixe ses segments d'une espace : elle est retirée.
    assert_eq!(t.segments[0].text, "Bonjour");
    assert_eq!(t.segments[1].text, "le monde");
}

#[test]
fn a_silent_recording_yields_no_segment() {
    let t = openai_compatible::to_transcript(&whisper_answer("en", &[]));

    assert_eq!(t.language, "en");
    assert!(t.segments.is_empty());
}

#[test]
fn the_timings_are_carried_over_untouched() {
    let t = openai_compatible::to_transcript(&whisper_answer("en", &[(12.34, 56.78, "x")]));

    assert_eq!(t.segments[0].start, 12.34);
    assert_eq!(t.segments[0].end, 56.78);
}

#[test]
fn both_factories_keep_the_api_key() {
    assert_eq!(OpenAiCompatibleWhisperEngine::groq("k1").api_key(), "k1");
    assert_eq!(OpenAiCompatibleWhisperEngine::openai("k2").api_key(), "k2");
}

#[test]
fn unicode_spaces_are_trimmed_too() {
    let t = openai_compatible::to_transcript(&whisper_answer("fr", &[(0.0, 1.0, "\u{a0}\tOui\u{3000}\n")]));

    assert_eq!(t.segments[0].text, "Oui");
}

#[test]
fn sentences_in_milliseconds_become_segments_in_seconds() {
    let answer = SentencesResponse {
        sentences: vec![
            Sentence { text: "  Bonjour ".to_string(), start: 0, end: 1500 },
            Sentence { text: "le monde".to_string(), start: 1500, end: 3250 },
        ],
    };

    let segments = to_segments(&answer);

    assert_eq!(segments.len(), 2);
    assert_eq!(segments[0].start as f64 / 1000.0, 0.0);
    assert_eq!(segments[0].end as f64 / 1000.0, 1.5);
    assert_eq!(segments[0].text, "Bonjour");
    assert_eq!(segments[1].end as f64 / 1000.0, 3.25);
}

#[test]
fn the_segments_keep_the_milliseconds_of_the_answer() {
    let answer = SentencesResponse {
        sentences: vec![Sentence { text: "le monde ".to_string(), start: 1500, end: 3250 }],
    };

    let segments = to_segments(&answer);

    assert_eq!(segments[0].start, 1500);
    assert_eq!(segments[0].end, 3250);
    assert_eq!(segments[0].text, "le monde");
}

#[test]
fn an_empty_sentence_list_yields_no_segment() {
    assert!(to_segments(&SentencesResponse { sentences: vec![] }).is_empty());
}

#[test]
fn a_mono_16k_recording_is_accepted() {
    assert!(light_gen_subz::pipeline::stt::local_whisper::check_wav_format(1, 16000).is_ok());
}

#[test]
fn a_stereo_recording_is_refused_with_its_format() {
    let err = light_gen_subz::pipeline::stt::local_whisper::check_wav_format(2, 16000).unwrap_err();

    assert_eq!(err, "WAV must be mono 16kHz (got: 2 channels, 16000Hz)");
}

#[test]
fn a_recording_at_another_rate_is_refused_with_its_format() {
    let err = light_gen_subz::pipeline::stt::local_whisper::check_wav_format(1, 44100).unwrap_err();

    assert!(err.contains("44100Hz"), "{err}");
}
