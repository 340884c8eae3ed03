use light_gen_subz::config::{
    SttEngineChoice, TranslationEngineChoice, ASSEMBLYAI_API_KEY, AZURE_TRANSLATOR_KEY, DEEPGRAM_API_KEY,
    DEEPL_API_KEY, GOOGLE_TRANSLATE_API_KEY, GROQ_API_KEY, OPENAI_API_KEY,
};
use light_gen_subz::pipeline::stt::{CloudTranscriber, Segment};
use light_gen_subz::pipeline::translate::CloudTranslator;
use light_gen_subz::pipeline::{
    api_key_required, cloud_transcriber, cloud_translator, srt_output_path, stt_key_requirement, stt_route,
    translated_output_path, translation_key_requirement, translation_route, zip_translations, PipelineError,
    SttRoute, TranslationRoute,
};

fn cue(start: f64, end: f64, text: &str) -> Segment<f64> {
    Segment {
        start,
        end,
        text: text.to_string(),
    }
}

// ── clés d'API exigées ───────────────────────────────────────────────────

#[test]
fn the_local_transcription_engine_needs_no_key() {
    assert!(stt_key_requirement(SttEngineChoice::Local).is_none());
}

#[test]
fn each_cloud_transcription_engine_names_its_key_and_provider() {
    let cases = [
        (SttEngineChoice::Groq, GROQ_API_KEY, "Groq"),
        (SttEngineChoice::OpenAi, OPENAI_API_KEY, "OpenAI"),
        (SttEngineChoice::Deepgram, DEEPGRAM_API_KEY, "Deepgram"),
        (SttEngineChoice::AssemblyAi, ASSEMBLYAI_API_KEY, "AssemblyAI"),
    ];

    for (choice, key, provider) in cases {
        assert_eq!(
            stt_key_requirement(choice),
            Some((key, provider)),
            "{choice:?}"
        );
    }
}

#[test]
fn neither_the_local_nor_the_disabled_translation_engine_needs_a_key() {
    assert!(translation_key_requirement(TranslationEngineChoice::Local).is_none());
    assert!(translation_key_requirement(TranslationEngineChoice::Disabled).is_none());
}

#[test]
fn each_cloud_translation_engine_names_its_key_and_provider() {
    let cases = [
        (TranslationEngineChoice::DeepL, DEEPL_API_KEY, "DeepL"),
        (TranslationEngineChoice::OpenAi, OPENAI_API_KEY, "OpenAI"),
        (
            TranslationEngineChoice::Google,
            GOOGLE_TRANSLATE_API_KEY,
            "Google Translate",
        ),
        (
            TranslationEngineChoice::Azure,
            AZURE_TRANSLATOR_KEY,
            "Azure Translator",
        ),
    ];

    for (choice, key, provider) in cases {
        assert_eq!(
            translation_key_requirement(choice),
            Some((key, provider)),
            "{choice:?}"
        );
    }
}

#[test]
fn transcription_and_translation_share_the_openai_key() {
    // Une seule clé OpenAI saisie doit servir aux deux usages.
    assert_eq!(
        stt_key_requirement(SttEngineChoice::OpenAi).unwrap().0,
        translation_key_requirement(TranslationEngineChoice::OpenAi)
            .unwrap()
            .0
    );
}

// ── chemins de sortie ────────────────────────────────────────────────────

#[test]
fn the_subtitles_land_next_to_the_media_file() {
    assert_eq!(srt_output_path("/home/me/clip.mp4"), "/home/me/clip.srt");
}

#[test]
fn a_media_file_without_an_extension_still_gets_one() {
    assert_eq!(srt_output_path("/home/me/clip"), "/home/me/clip.srt");
}

#[test]
fn a_dotted_media_name_only_loses_its_last_extension() {
    assert_eq!(srt_output_path("/home/me/s01.e02.mkv"), "/home/me/s01.e02.srt");
}

#[test]
fn the_translation_is_named_after_its_target_language() {
    assert_eq!(
        translated_output_path("/home/me/clip.srt", "fr"),
        "/home/me/clip.fr.srt"
    );
}

#[test]
fn translating_twice_does_not_overwrite_the_first_language() {
    let fr = translated_output_path("/home/me/clip.srt", "fr");
    let es = translated_output_path("/home/me/clip.srt", "es");

    assert_ne!(fr, es);
}

#[test]
fn a_path_with_no_usable_stem_falls_back_to_subtitles() {
    assert_eq!(translated_output_path("/", "fr"), "/subtitles.fr.srt");
}

// ── réassociation des traductions ────────────────────────────────────────

#[test]
fn the_translated_text_keeps_the_original_timings() {
    let cues = vec![cue(0.0, 1.5, "Hello"), cue(1.5, 3.0, "World")];

    let out = zip_translations(&cues, vec!["Bonjour".into(), "Monde".into()]).unwrap();

    assert_eq!(out.len(), 2);
    assert_eq!(out[0].start, 0.0);
    assert_eq!(out[0].end, 1.5);
    assert_eq!(out[0].text, "Bonjour");
    assert_eq!(out[1].start, 1.5);
    assert_eq!(out[1].text, "Monde");
}

#[test]
fn a_translation_that_lost_a_line_is_refused() {
    // Sinon tous les sous-titres suivants seraient décalés.
    let cues = vec![cue(0.0, 1.0, "a"), cue(1.0, 2.0, "b")];

    let err = zip_translations(&cues, vec!["A".into()]).unwrap_err();

    assert!(
        err.to_string().contains("returned 1 results for 2 cues"),
        "{err:?}"
    );
}

#[test]
fn a_translation_that_added_a_line_is_refused() {
    let cues = vec![cue(0.0, 1.0, "a")];

    assert!(zip_translations(&cues, vec!["A".into(), "B".into()]).is_err());
}

#[test]
fn an_empty_set_of_cues_zips_to_nothing() {
    assert!(zip_translations::<f64>(&[], vec![]).unwrap().is_empty());
}

// ── choix du moteur ──────────────────────────────────────────────────────

#[test]
fn a_missing_key_names_its_provider() {
    let err = api_key_required(Ok(None), "DeepL").unwrap_err();

    assert_eq!(
        err.to_string(),
        "no DeepL API key configured — add one in Settings"
    );
    assert_eq!(api_key_required(Ok(Some("k".to_string())), "DeepL").unwrap(), "k");
}

#[test]
fn the_local_engine_is_routed_without_a_key() {
    assert!(matches!(stt_route(SttEngineChoice::Local), SttRoute::Local));
    match stt_route(SttEngineChoice::Deepgram) {
        SttRoute::Cloud { key_name, provider, .. } => {
            assert_eq!(key_name, DEEPGRAM_API_KEY);
            assert_eq!(provider, "Deepgram");
        }
        SttRoute::Local => panic!("Deepgram is a cloud engine"),
    }
    match cloud_transcriber(SttEngineChoice::Groq, "gk") {
        CloudTranscriber::Whisper(engine) => assert_eq!(engine.model(), "whisper-large-v3-turbo"),
        _ => panic!("Groq speaks the OpenAI whisper protocol"),
    }
}

#[test]
fn an_empty_subtitle_file_is_refused_before_the_engine_is_looked_at() {
    let err = translation_route(TranslationEngineChoice::Disabled, 0).unwrap_err();
    assert_eq!(err.to_string(), "no subtitle cues to translate");

    let err = translation_route(TranslationEngineChoice::Disabled, 3).unwrap_err();
    assert_eq!(
        err.to_string(),
        "translation is disabled — enable it in Settings first"
    );
    assert!(matches!(
        translation_route(TranslationEngineChoice::Local, 3),
        Ok(TranslationRoute::Local)
    ));
}

#[test]
fn azure_needs_a_region() {
    let err = cloud_translator(TranslationEngineChoice::Azure, "key", "").err().unwrap();
    assert!(matches!(err, PipelineError::AzureRegionMissing));

    match cloud_translator(TranslationEngineChoice::Azure, "key", "westeurope") {
        Ok(CloudTranslator::Azure(engine)) => assert_eq!(engine.region(), "westeurope"),
        _ => panic!("expected an Azure engine"),
    }
}
