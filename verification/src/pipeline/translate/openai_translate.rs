//! Translation through OpenAI's chat completions, with a JSON reply.
use vstd::prelude::*;

use crate::text::{concat3, decimal, decimal_string};
use super::cloud_deepl::strings_view;

verus! {

pub const ENDPOINT: &'static str = "https://api.openai.com/v1/chat/completions";
pub const MODEL: &'static str = "gpt-4o-mini";

/// The OpenAI translation engine and the key it authenticates with.
pub struct OpenAiTranslateEngine {
    api_key: String,
}

impl OpenAiTranslateEngine {
    pub closed spec fn spec_api_key(&self) -> Seq<char> {
        self.api_key@
    }

    pub fn new(api_key: &str) -> (r: Self)
        ensures
            r.spec_api_key() == api_key@,
    {
        OpenAiTranslateEngine { api_key: api_key.to_owned() }
    }

    pub fn api_key(&self) -> (r: &str)
        ensures
            r@ == self.spec_api_key(),
    {
        self.api_key.as_str()
    }
}

/// The part of the instructions about the source language.
pub open spec fn source_note(source_lang: Option<Seq<char>>) -> Seq<char> {
    match source_lang {
        Some(s) => "The source language is '"@ + s + "'."@,
        None => "Detect the source language automatically."@,
    }
}

/// The system instructions sent to the model: the target language, the
/// source language (or a request to detect it), and the contract of one
/// translated string per input line, in the same order, as JSON.
pub open spec fn prompt(target_lang: Seq<char>, source_lang: Option<Seq<char>>) -> Seq<char> {
    "You translate subtitle lines into language code '"@ + target_lang + "'. "@ + source_note(source_lang)
        + " You will receive a JSON array of strings, each one subtitle line. Return a JSON object {\"translations\": [...]} with EXACTLY the same number of strings, in the same order, translated. Keep each translation concise and matching the tone of the original. Do not merge or split lines."@
}

/// The instructions name the requested target language first, whatever the
/// source: they start with "You translate subtitle lines into language code
/// '<target>'. ", followed, when the source is known, by "The source language
/// is '<source>'.".
pub proof fn prompt_names_the_target_language(target_lang: Seq<char>, source_lang: Option<Seq<char>>)
    ensures
        ({
            let head = "You translate subtitle lines into language code '"@ + target_lang + "'. "@;
            let p = prompt(target_lang, source_lang);
            &&& head.len() <= p.len()
            &&& p.subrange(0, head.len() as int) == head
            &&& (source_lang matches Some(s) ==> ({
                let note = "The source language is '"@ + s + "'."@;
                &&& head.len() + note.len() <= p.len()
                &&& p.subrange(head.len() as int, (head.len() + note.len()) as int) == note
            }))
        }),
{
    let head = "You translate subtitle lines into language code '"@ + target_lang + "'. "@;
    let p = prompt(target_lang, source_lang);
    let rest = source_note(source_lang)
        + " You will receive a JSON array of strings, each one subtitle line. Return a JSON object {\"translations\": [...]} with EXACTLY the same number of strings, in the same order, translated. Keep each translation concise and matching the tone of the original. Do not merge or split lines."@;
    assert(p =~= head + rest);
    assert(p.subrange(0, head.len() as int) =~= head);
    if let Some(s) = source_lang {
        let note = "The source language is '"@ + s + "'."@;
        assert(p.subrange(head.len() as int, (head.len() + note.len()) as int) =~= note);
    }
}

pub fn system_prompt(target_lang: &str, source_lang: Option<&str>) -> (r: String)
    ensures
        r@ == prompt(target_lang@, match source_lang {
            Some(s) => Some(s@),
            None => None,
        }),
{
    let note = match source_lang {
        Some(s) => concat3("The source language is '", s, "'."),
        None => "Detect the source language automatically.".to_owned(),
    };
    let head = concat3("You translate subtitle lines into language code '", target_lang, "'. ");
    concat3(
        head.as_str(),
        note.as_str(),
        " You will receive a JSON array of strings, each one subtitle line. Return a JSON object {\"translations\": [...]} with EXACTLY the same number of strings, in the same order, translated. Keep each translation concise and matching the tone of the original. Do not merge or split lines.",
    )
}

/// What `serde_json::to_string` writes for a list of strings (a JSON array
/// of JSON strings).
pub uninterp spec fn json_string_list(lines: Seq<Seq<char>>) -> Seq<char>;

/// `serde_json::to_string` on the lines. Its only failures come from a
/// failing writer or value, and a list of strings written into memory has
/// neither: it always succeeds. The text is named, not stated.
#[verifier::external_body]
fn lines_as_json(texts: &[String]) -> (r: Result<String, serde_json::Error>)
    ensures
        r is Ok,
        r matches Ok(j) ==> j@ == json_string_list(strings_view(texts@)),
{
    serde_json::to_string(texts)
}

/// One message of a chat request.
#[derive(Debug, Clone)]
pub struct RequestMessage {
    pub role: &'static str,
    pub content: String,
}

/// A chat completions request asking for a JSON object reply.
#[derive(Debug, Clone)]
pub struct ChatRequest {
    pub model: &'static str,
    /// The `type` of the requested `response_format`.
    pub response_format: &'static str,
    pub messages: Vec<RequestMessage>,
}

/// The request: the model, a JSON object reply, the system instructions
/// first, then the lines as a JSON array in the user message.
pub fn request_body(texts: &[String], target_lang: &str, source_lang: Option<&str>) -> (r: Result<
    ChatRequest,
    OpenAiTranslateError,
>)
    ensures
        r matches Ok(req) ==> {
            &&& req.model@ == MODEL@
            &&& req.response_format@ == "json_object"@
            &&& req.messages@.len() == 2
            &&& req.messages@[0].role@ == "system"@
            &&& req.messages@[0].content@ == prompt(target_lang@, match source_lang {
                Some(s) => Some(s@),
                None => None,
            })
            &&& req.messages@[1].role@ == "user"@
            &&& req.messages@[1].content@ == json_string_list(strings_view(texts@))
        },
        r is Ok,
{
    let user = match lines_as_json(texts) {
        Ok(j) => j,
        Err(e) => {
            return Err(OpenAiTranslateError::SerializeLines(e));
        },
    };
    let mut messages: Vec<RequestMessage> = Vec::new();
    messages.push(RequestMessage { role: "system", content: system_prompt(target_lang, source_lang) });
    messages.push(RequestMessage { role: "user", content: user });
    Ok(ChatRequest { model: MODEL, response_format: "json_object", messages })
}

/// The assistant message of one choice.
#[derive(Debug, Clone)]
pub struct ChatMessage {
    pub content: String,
}

#[derive(Debug, Clone)]
pub struct ChatChoice {
    pub message: ChatMessage,
}

/// OpenAI's answer.
#[derive(Debug, Clone)]
pub struct ChatResponse {
    pub choices: Vec<ChatChoice>,
}

/// The JSON object the model is asked to reply with.
#[derive(Debug, Clone)]
pub struct TranslationsPayload {
    pub translations: Vec<String>,
}

/// Why a translation through OpenAI could not be done.
#[derive(Debug)]
pub enum OpenAiTranslateError {
    /// The input lines could not be written as JSON.
    SerializeLines(serde_json::Error),
    /// The answer holds no choice.
    NoChoices,
    /// The model broke the one-output-per-input contract.
    CountMismatch { returned: usize, expected: usize },
}

impl OpenAiTranslateError {
    pub open spec fn message(&self) -> Seq<char> {
        match self {
            OpenAiTranslateError::SerializeLines(_) => "serializing input lines"@,
            OpenAiTranslateError::NoChoices => "OpenAI API returned no choices"@,
            OpenAiTranslateError::CountMismatch { returned, expected } => "OpenAI returned "@ + decimal(*returned as nat)
                + " translations for "@ + decimal(*expected as nat) + " input lines"@,
        }
    }

    pub fn to_string(&self) -> (r: String)
        ensures
            r@ == self.message(),
    {
        match self {
            OpenAiTranslateError::SerializeLines(_) => "serializing input lines".to_owned(),
            OpenAiTranslateError::NoChoices => "OpenAI API returned no choices".to_owned(),
            OpenAiTranslateError::CountMismatch { returned, expected } => {
                let r = decimal_string(*returned);
                let e = decimal_string(*expected);
                let head = concat3("OpenAI returned ", r.as_str(), " translations for ");
                concat3(head.as_str(), e.as_str(), " input lines")
            },
        }
    }
}

/// The content of the first choice, which carries the translations.
pub fn first_choice_content(parsed: ChatResponse) -> (r: Result<String, OpenAiTranslateError>)
    ensures
        r is Ok <==> parsed.choices.len() > 0,
        parsed.choices.len() == 0 <==> (r matches Err(e) && e is NoChoices),
        r matches Ok(c) ==> c@ == parsed.choices[0].message.content@,
{
    if parsed.choices.len() == 0 {
        Err(OpenAiTranslateError::NoChoices)
    } else {
        Ok(parsed.choices[0].message.content.clone())
    }
}

/// The translations, provided the model returned exactly one per input line.
pub fn checked_translations(payload: TranslationsPayload, expected_len: usize) -> (r: Result<Vec<String>, OpenAiTranslateError>)
    ensures
        payload.translations.len() == expected_len <==> r is Ok,
        r matches Ok(t) ==> t@ == payload.translations@,
        r matches Err(e) ==> e == (OpenAiTranslateError::CountMismatch { returned: payload.translations.len(), expected: expected_len }),
{
    if payload.translations.len() == expected_len {
        Ok(payload.translations)
    } else {
        Err(OpenAiTranslateError::CountMismatch { returned: payload.translations.len(), expected: expected_len })
    }
}

} // verus!
