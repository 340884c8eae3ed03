//! Translation through Google Translate's v2 REST API.
use vstd::prelude::*;

use super::cloud_deepl::{opt_str_view, strings_view};

verus! {

pub const ENDPOINT: &'static str = "https://translation.googleapis.com/language/translate/v2";

/// The Google engine and the key it authenticates with.
pub struct GoogleTranslateEngine {
    api_key: String,
}

impl GoogleTranslateEngine {
    pub closed spec fn spec_api_key(&self) -> Seq<char> {
        self.api_key@
    }

    pub fn new(api_key: &str) -> (r: Self)
        ensures
            r.spec_api_key() == api_key@,
    {
        GoogleTranslateEngine { api_key: api_key.to_owned() }
    }

    pub fn api_key(&self) -> (r: &str)
        ensures
            r@ == self.spec_api_key(),
    {
        self.api_key.as_str()
    }
}

/// The JSON body of a request: every line under `q`, the target language,
/// plain text (so that no HTML comes back), and the source language when it
/// is known (absent otherwise).
#[derive(Debug, Clone)]
pub struct GoogleRequest {
    pub q: Vec<String>,
    pub target: String,
    pub format: &'static str,
    pub source: Option<String>,
}

/// The view of an optional string.
pub open spec fn opt_string_view(o: Option<String>) -> Option<Seq<char>> {
    match o {
        Some(s) => Some(s@),
        None => None,
    }
}

pub fn request_body(texts: &[String], target_lang: &str, source_lang: Option<&str>) -> (r: GoogleRequest)
    ensures
        strings_view(r.q@) == strings_view(texts@),
        r.target@ == target_lang@,
        r.format@ == "text"@,
        opt_string_view(r.source) == opt_str_view(source_lang),
{
    let mut q: Vec<String> = Vec::new();
    let mut i: usize = 0;
    while i < texts.len()
        invariant
            i <= texts@.len(),
            q@.len() == i,
            forall|j: int| 0 <= j < i ==> #[trigger] q@[j]@ == texts@[j]@,
        decreases texts@.len() - i,
    {
        q.push(texts[i].clone());
        i = i + 1;
    }
    assert(strings_view(q@) =~= strings_view(texts@));
    GoogleRequest {
        q,
        target: target_lang.to_owned(),
        format: "text",
        source: match source_lang {
            Some(s) => Some(s.to_owned()),
            None => None,
        },
    }
}

/// One translated line (`translatedText` on the wire).
#[derive(Debug, Clone)]
pub struct TranslationEntry {
    pub translated_text: String,
}

#[derive(Debug, Clone)]
pub struct TranslateData {
    pub translations: Vec<TranslationEntry>,
}

/// Google's answer.
#[derive(Debug, Clone)]
pub struct GoogleResponse {
    pub data: TranslateData,
}

/// The translated lines of an answer, in order.
pub fn extract_texts(parsed: GoogleResponse) -> (r: Vec<String>)
    ensures
        r.len() == parsed.data.translations.len(),
        forall|i: int| 0 <= i < r.len() ==> #[trigger] r[i]@ == parsed.data.translations[i].translated_text@,
{
    let entries = &parsed.data.translations;
    let mut out: Vec<String> = Vec::new();
    let mut i: usize = 0;
    while i < entries.len()
        invariant
            i <= entries.len(),
            out.len() == i,
            forall|j: int| 0 <= j < i ==> #[trigger] out[j]@ == entries[j].translated_text@,
        decreases entries.len() - i,
    {
        out.push(entries[i].translated_text.clone());
        i = i + 1;
    }
    out
}

} // verus!
