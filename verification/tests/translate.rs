use std::path::Path;

use light_gen_subz::pipeline::translate::azure_translate::{
    self, query_params, AzureTranslateEngine, Translation, TranslationResult,
};
use light_gen_subz::pipeline::translate::cloud_deepl::{
    self, deepl_target_lang, form_params, CloudDeepLEngine, DeepLResponse, DeepLTranslation,
};
use light_gen_subz::pipeline::translate::google_translate::{
    self, GoogleResponse, TranslateData, TranslationEntry, ENDPOINT,
};
use light_gen_subz::pipeline::translate::languages::flores_code_for;
use light_gen_subz::pipeline::translate::local_nllb::{
    accept_token, decoder_priming, encoder_input_ids, generated_tokens, last_position_logits, resolve_flores_pair,
    EOS_TOKEN_ID,
};
use light_gen_subz::pipeline::translate::nllb_models::{nllb_file_map, nllb_files, remote_url};
use light_gen_subz::pipeline::translate::openai_translate::{
    self, checked_translations, first_choice_content, system_prompt, ChatChoice, ChatMessage, ChatResponse,
    TranslationsPayload, MODEL,
};

// ── Azure ────────────────────────────────────────────────────────────────

#[test]
fn keeps_the_region_it_was_built_with() {
    let engine = AzureTranslateEngine::new("key", "westeurope");
    assert_eq!(engine.region(), "westeurope");
}

#[test]
fn the_api_version_is_pinned() {
    assert!(query_params("fr", None).contains(&("api-version", "3.0")));
}

#[test]
fn azure_translate_the_target_language_is_always_sent() {
    assert!(query_params("fr", None).contains(&("to", "fr")));
}

#[test]
fn azure_translate_the_source_language_is_omitted_when_unknown() {
    assert!(!query_params("fr", None).iter().any(|(k, _)| *k == "from"));
}

#[test]
fn azure_translate_the_source_language_is_sent_when_known() {
    assert!(query_params("fr", Some("en")).contains(&("from", "en")));
}

fn azure_results(results: &[&[&str]]) -> Vec<TranslationResult> {
    results
        .iter()
        .map(|texts| TranslationResult {
            translations: texts.iter().map(|t| Translation { text: t.to_string() }).collect(),
        })
        .collect()
}

#[test]
fn the_first_translation_of_each_result_is_kept() {
    let parsed = azure_results(&[&["Bonjour", "Hola"], &["Monde"]]);

    assert_eq!(azure_translate::extract_texts(parsed), vec!["Bonjour", "Monde"]);
}

#[test]
fn a_result_without_any_translation_is_dropped() {
    let parsed = azure_results(&[&[], &["Monde"]]);

    assert_eq!(azure_translate::extract_texts(parsed), vec!["Monde"]);
}

#[test]
fn each_line_becomes_a_text_object() {
    let body = azure_translate::request_body(&["Hello".to_string(), "World".to_string()]);

    let texts: Vec<_> = body.iter().map(|item| item.text.as_str()).collect();
    assert_eq!(texts, vec!["Hello", "World"]);
}

#[test]
fn azure_translate_an_empty_input_sends_an_empty_array() {
    assert!(azure_translate::request_body(&[]).is_empty());
}

#[test]
fn azure_translate_an_empty_response_yields_no_text() {
    assert!(azure_translate::extract_texts(vec![]).is_empty());
}

// ── DeepL ────────────────────────────────────────────────────────────────

#[test]
fn free_tier_keys_use_the_free_host() {
    let engine = CloudDeepLEngine::new("xxxxxxxx-xxxx-xxxx:fx");
    assert_eq!(engine.endpoint(), "https://api-free.deepl.com/v2/translate");
}

#[test]
fn paid_keys_use_the_paid_host() {
    let engine = CloudDeepLEngine::new("xxxxxxxx-xxxx-xxxx");
    assert_eq!(engine.endpoint(), "https://api.deepl.com/v2/translate");
}

#[test]
fn english_and_portuguese_need_a_region_variant() {
    assert_eq!(deepl_target_lang("en"), "EN-US");
    assert_eq!(deepl_target_lang("pt"), "PT-PT");
}

#[test]
fn other_targets_are_simply_upper_cased() {
    assert_eq!(deepl_target_lang("fr"), "FR");
    assert_eq!(deepl_target_lang("de"), "DE");
}

#[test]
fn the_incoming_code_case_does_not_matter() {
    assert_eq!(deepl_target_lang("EN"), "EN-US");
    assert_eq!(deepl_target_lang("Fr"), "FR");
}

#[test]
fn the_source_language_is_sent_upper_cased() {
    assert_eq!(cloud_deepl::deepl_source_lang("en"), "EN");
}

fn lines() -> Vec<String> {
    vec!["Hello".to_string(), "World".to_string()]
}

#[test]
fn each_line_becomes_its_own_text_parameter() {
    let input = lines();
    let params = form_params(&input, "FR", None);

    let texts: Vec<_> = params
        .iter()
        .filter(|(k, _)| *k == "text")
        .map(|(_, v)| *v)
        .collect();
    assert_eq!(texts, vec!["Hello", "World"]);
}

#[test]
fn cloud_deepl_the_target_language_is_always_sent() {
    let input = lines();
    let params = form_params(&input, "FR", None);

    assert!(params.contains(&("target_lang", "FR")));
}

#[test]
fn cloud_deepl_the_source_language_is_omitted_when_unknown() {
    let input = lines();
    let params = form_params(&input, "FR", None);

    assert!(!params.iter().any(|(k, _)| *k == "source_lang"));
}

#[test]
fn cloud_deepl_the_source_language_is_sent_when_known() {
    let input = lines();
    let params = form_params(&input, "FR", Some("EN"));

    assert!(params.contains(&("source_lang", "EN")));
}

#[test]
fn an_empty_input_still_carries_the_target_language() {
    let params = form_params(&[], "DE", None);

    assert_eq!(params, vec![("target_lang", "DE")]);
}

#[test]
fn the_key_goes_in_a_deepl_auth_header() {
    assert_eq!(cloud_deepl::auth_header("abc:fx"), "DeepL-Auth-Key abc:fx");
}

#[test]
fn cloud_deepl_the_response_yields_the_translations_in_order() {
    let parsed = DeepLResponse {
        translations: vec![
            DeepLTranslation { text: "Bonjour".to_string() },
            DeepLTranslation { text: "Monde".to_string() },
        ],
    };

    assert_eq!(cloud_deepl::extract_texts(parsed), vec!["Bonjour", "Monde"]);
}

#[test]
fn cloud_deepl_an_empty_response_yields_no_text() {
    let parsed = DeepLResponse { translations: vec![] };

    assert!(cloud_deepl::extract_texts(parsed).is_empty());
}

// ── Google ───────────────────────────────────────────────────────────────

#[test]
fn google_translate_the_response_yields_the_translations_in_order() {
    let parsed = GoogleResponse {
        data: TranslateData {
            translations: vec![
                TranslationEntry { translated_text: "Bonjour".to_string() },
                TranslationEntry { translated_text: "Monde".to_string() },
            ],
        },
    };

    assert_eq!(google_translate::extract_texts(parsed), vec!["Bonjour", "Monde"]);
}

#[test]
fn the_body_sends_every_line_under_q() {
    let body = google_translate::request_body(&lines(), "fr", None);

    assert_eq!(body.q, vec!["Hello", "World"]);
    assert_eq!(body.target, "fr");
}

#[test]
fn plain_text_is_requested_so_no_html_comes_back() {
    let body = google_translate::request_body(&lines(), "fr", None);

    assert_eq!(body.format, "text");
}

#[test]
fn google_translate_the_source_language_is_omitted_when_unknown() {
    let body = google_translate::request_body(&lines(), "fr", None);

    assert!(body.source.is_none());
}

#[test]
fn google_translate_the_source_language_is_sent_when_known() {
    let body = google_translate::request_body(&lines(), "fr", Some("en"));

    assert_eq!(body.source.as_deref(), Some("en"));
}

#[test]
fn google_translate_an_empty_input_sends_an_empty_array() {
    let body = google_translate::request_body(&[], "fr", None);

    assert!(body.q.is_empty());
}

#[test]
fn the_endpoint_is_the_v2_rest_api() {
    assert_eq!(
        ENDPOINT,
        "https://translation.googleapis.com/language/translate/v2"
    );
}

// ── NLLB local ───────────────────────────────────────────────────────────

#[test]
fn a_known_pair_resolves_to_flores_codes() {
    let (src, tgt) = resolve_flores_pair(Some("en"), "fr").unwrap();

    assert_eq!(src, flores_code_for("en").unwrap());
    assert_eq!(tgt, flores_code_for("fr").unwrap());
}

#[test]
fn a_missing_source_language_is_refused() {
    let err = resolve_flores_pair(None, "fr").unwrap_err();

    assert!(
        err.to_string().contains("requires a known source language"),
        "{err:?}"
    );
}

#[test]
fn an_unsupported_source_language_is_refused() {
    let err = resolve_flores_pair(Some("xx"), "fr").unwrap_err();

    assert!(
        err.to_string().contains("unsupported source language"),
        "{err:?}"
    );
}

#[test]
fn an_unsupported_target_language_is_refused() {
    let err = resolve_flores_pair(Some("en"), "xx").unwrap_err();

    assert!(
        err.to_string().contains("unsupported target language"),
        "{err:?}"
    );
}

#[test]
fn the_target_is_checked_before_the_source() {
    // Les deux sont mauvais : c'est la cible, choisie par l'utilisateur, qu'on signale.
    let err = resolve_flores_pair(Some("xx"), "yy").unwrap_err();

    assert!(err.to_string().contains("target"), "{err:?}");
}

#[test]
fn the_encoder_input_is_wrapped_by_the_language_and_eos_tokens() {
    let ids = encoder_input_ids(256_047, &[10, 20, 30]);

    assert_eq!(ids, vec![256_047, 10, 20, 30, EOS_TOKEN_ID]);
}

#[test]
fn an_empty_text_still_carries_its_markers() {
    assert_eq!(encoder_input_ids(256_047, &[]), vec![256_047, EOS_TOKEN_ID]);
}

#[test]
fn the_decoder_starts_on_eos_then_the_target_language() {
    assert_eq!(decoder_priming(256_057), vec![EOS_TOKEN_ID, 256_057]);
}

#[test]
fn the_priming_is_stripped_from_the_generated_tokens() {
    let decoder_ids = vec![EOS_TOKEN_ID, 256_057, 11, 22, 33];

    assert_eq!(generated_tokens(&decoder_ids), vec![11, 22, 33]);
}

#[test]
fn a_decoder_that_stopped_immediately_generated_nothing() {
    assert!(generated_tokens(&[EOS_TOKEN_ID, 256_057]).is_empty());
}

#[test]
fn the_last_decoded_position_is_the_one_read() {
    // Deux positions, vocabulaire de trois : on veut la seconde tranche.
    let logits = [1.0, 2.0, 3.0, 40.0, 50.0, 60.0];

    assert_eq!(last_position_logits(&logits, 2, 3), &[40.0, 50.0, 60.0]);
}

#[test]
fn a_single_decoded_position_reads_the_whole_slice() {
    let logits = [1.0, 2.0, 3.0];

    assert_eq!(last_position_logits(&logits, 1, 3), &logits[..]);
}

#[test]
fn decoding_stops_on_the_end_of_sequence_token() {
    let mut ids = decoder_priming(256_057);

    assert!(accept_token(&mut ids, 42));
    assert!(!accept_token(&mut ids, EOS_TOKEN_ID));
    assert_eq!(generated_tokens(&ids), vec![42]);
}

// ── fichiers du modèle NLLB ──────────────────────────────────────────────

#[test]
fn the_model_needs_an_encoder_a_decoder_and_a_tokenizer() {
    let files = nllb_file_map("/models/nllb");

    let names: Vec<_> = files
        .iter()
        .map(|(_, dest)| Path::new(dest).file_name().unwrap().to_str().unwrap().to_string())
        .collect();
    assert_eq!(names, ["encoder.onnx", "decoder.onnx", "tokenizer.json"]);
}

#[test]
fn the_quantized_onnx_weights_are_the_ones_fetched() {
    let files = nllb_file_map("/models/nllb");

    assert!(files[0].0.contains("encoder_model_quantized"));
    assert!(files[1].0.contains("decoder_model_quantized"));
}

#[test]
fn every_file_lands_in_the_given_directory() {
    let dir = Path::new("/models/nllb");

    for (_, dest) in nllb_file_map("/models/nllb") {
        assert_eq!(Path::new(&dest).parent().unwrap(), dir);
    }
}

#[test]
fn the_urls_point_at_the_distilled_600m_repository() {
    let url = remote_url("tokenizer.json");

    assert_eq!(
        url,
        "https://huggingface.co/Xenova/nllb-200-distilled-600M/resolve/main/tokenizer.json"
    );
}

#[test]
fn the_downloaded_files_are_the_ones_loaded() {
    let files = nllb_files("/models/nllb");
    let map = nllb_file_map("/models/nllb");

    assert_eq!(files.encoder, map[0].1);
    assert_eq!(files.decoder, map[1].1);
    assert_eq!(files.tokenizer, map[2].1);
}

// ── OpenAI ───────────────────────────────────────────────────────────────

#[test]
fn the_prompt_names_the_target_language() {
    let prompt = system_prompt("fr", None);

    assert!(prompt.contains("'fr'"), "{prompt}");
}

#[test]
fn the_prompt_asks_for_auto_detection_when_the_source_is_unknown() {
    let prompt = system_prompt("fr", None);

    assert!(prompt.contains("Detect the source language automatically"));
    assert!(!prompt.contains("The source language is"));
}

#[test]
fn the_prompt_states_the_source_language_when_known() {
    let prompt = system_prompt("fr", Some("en"));

    assert!(prompt.contains("The source language is 'en'"));
}

#[test]
fn the_prompt_pins_the_one_line_in_one_line_out_contract() {
    let prompt = system_prompt("fr", None);

    assert!(prompt.contains("EXACTLY the same number of strings"));
    assert!(prompt.contains("same order"));
    assert!(prompt.contains("Do not merge or split lines"));
}

#[test]
fn the_body_forces_a_json_object_response() {
    let body = openai_translate::request_body(&lines(), "fr", None).unwrap();

    assert_eq!(body.response_format, "json_object");
    assert_eq!(body.model, MODEL);
}

#[test]
fn the_lines_are_sent_as_a_json_array_in_the_user_message() {
    let body = openai_translate::request_body(&lines(), "fr", None).unwrap();

    assert_eq!(body.messages[1].role, "user");
    assert_eq!(body.messages[1].content, r#"["Hello","World"]"#);
}

#[test]
fn the_system_message_comes_first() {
    let body = openai_translate::request_body(&lines(), "fr", Some("en")).unwrap();

    assert_eq!(body.messages[0].role, "system");
    assert!(body.messages[0].content.contains("'en'"));
}

#[test]
fn a_response_without_a_choice_is_rejected() {
    let err = first_choice_content(ChatResponse { choices: vec![] }).unwrap_err();

    assert!(err.to_string().contains("no choices"), "{err:?}");
}

#[test]
fn a_mismatched_line_count_is_rejected() {
    // Le modèle a fusionné deux sous-titres : les timings ne colleraient plus.
    let payload = TranslationsPayload { translations: vec!["Bonjour Monde".to_string()] };

    let err = checked_translations(payload, 2).unwrap_err();

    assert!(
        err.to_string().contains("1 translations for 2 input lines"),
        "{err:?}"
    );
}

#[test]
fn the_translations_are_read_from_the_first_choice() {
    let parsed = ChatResponse {
        choices: vec![ChatChoice {
            message: ChatMessage { content: "{\"translations\":[\"Bonjour\",\"Monde\"]}".to_string() },
        }],
    };

    assert_eq!(
        first_choice_content(parsed).unwrap(),
        "{\"translations\":[\"Bonjour\",\"Monde\"]}"
    );
    let payload = TranslationsPayload { translations: vec!["Bonjour".to_string(), "Monde".to_string()] };
    assert_eq!(checked_translations(payload, 2).unwrap(), vec!["Bonjour", "Monde"]);
}
