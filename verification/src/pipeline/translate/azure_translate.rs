//! Translation through Azure Translator.
use vstd::prelude::*;

use super::cloud_deepl::{opt_str_view, pairs_view};

verus! {

pub const ENDPOINT: &'static str = "https://api.cognitive.microsofttranslator.com/translate";

/// The Azure engine: its key and the resource region that goes with it.
pub struct AzureTranslateEngine {
    api_key: String,
    region: String,
}

impl AzureTranslateEngine {
    pub closed spec fn spec_api_key(&self) -> Seq<char> {
        self.api_key@
    }

    pub closed spec fn spec_region(&self) -> Seq<char> {
        self.region@
    }

    pub fn new(api_key: &str, region: &str) -> (r: Self)
        ensures
            r.spec_api_key() == api_key@,
            r.spec_region() == region@,
    {
        AzureTranslateEngine { api_key: api_key.to_owned(), region: region.to_owned() }
    }

    pub fn api_key(&self) -> (r: &str)
        ensures
            r@ == self.spec_api_key(),
    {
        self.api_key.as_str()
    }

    pub fn region(&self) -> (r: &str)
        ensures
            r@ == self.spec_region(),
    {
        self.region.as_str()
    }
}

/// The query of a request: the pinned API version, the target language, and
/// the source language when it is known.
pub open spec fn query_spec(target_lang: Seq<char>, source_lang: Option<Seq<char>>) -> Seq<(Seq<char>, Seq<char>)> {
    let base = seq![("api-version"@, "3.0"@), ("to"@, target_lang)];
    match source_lang {
        Some(s) => base.push(("from"@, s)),
        None => base,
    }
}

/// The query asks Azure for exactly the target language it was given,
/// whatever the source: API version 3.0, then `to` set to the target, then
/// `from` set to the source when one is known, and nothing else; no other
/// entry names a target language.
pub proof fn query_targets_the_requested_language(target_lang: Seq<char>, source_lang: Option<Seq<char>>)
    ensures
        ({
            let q = query_spec(target_lang, source_lang);
            &&& q.len() == 2 + (if source_lang is Some { 1int } else { 0int })
            &&& q[0] == ("api-version"@, "3.0"@)
            &&& q[1] == ("to"@, target_lang)
            &&& (source_lang matches Some(s) ==> q[2] == ("from"@, s))
            &&& forall|i: int| 0 <= i < q.len() && (#[trigger] q[i]).0 == "to"@ ==> q[i].1 == target_lang
        }),
{
    reveal_strlit("api-version");
    reveal_strlit("to");
    reveal_strlit("from");
    assert("api-version"@.len() != "to"@.len());
    assert("from"@.len() != "to"@.len());
}

pub fn query_params<'a>(target_lang: &'a str, source_lang: Option<&'a str>) -> (r: Vec<(&'a str, &'a str)>)
    ensures
        pairs_view(r@) == query_spec(target_lang@, opt_str_view(source_lang)),
{
    let mut query: Vec<(&'a str, &'a str)> = Vec::new();
    query.push(("api-version", "3.0"));
    query.push(("to", target_lang));
    match source_lang {
        Some(src) => {
            query.push(("from", src));
        },
        None => {},
    }
    assert(pairs_view(query@) =~= query_spec(target_lang@, opt_str_view(source_lang)));
    query
}

/// One line of a request body (`{"Text": ...}` on the wire).
#[derive(Debug, Clone)]
pub struct TextItem {
    pub text: String,
}

/// The request body: one text object per line, in order.
pub fn request_body(texts: &[String]) -> (r: Vec<TextItem>)
    ensures
        r@.len() == texts@.len(),
        forall|i: int| 0 <= i < r@.len() ==> #[trigger] r@[i].text@ == texts@[i]@,
{
    let mut body: Vec<TextItem> = Vec::new();
    let mut i: usize = 0;
    while i < texts.len()
        invariant
            i <= texts@.len(),
            body@.len() == i,
            forall|j: int| 0 <= j < i ==> #[trigger] body@[j].text@ == texts@[j]@,
        decreases texts@.len() - i,
    {
        body.push(TextItem { text: texts[i].clone() });
        i = i + 1;
    }
    body
}

/// One translation of a line.
#[derive(Debug, Clone)]
pub struct Translation {
    pub text: String,
}

/// The translations of one line (one per requested target language).
#[derive(Debug, Clone)]
pub struct TranslationResult {
    pub translations: Vec<Translation>,
}

/// The first translation of each result, in order; a result without any
/// translation contributes nothing.
pub open spec fn first_translations(results: Seq<TranslationResult>) -> Seq<Seq<char>>
    decreases results.len(),
{
    if results.len() == 0 {
        Seq::empty()
    } else {
        let rest = first_translations(results.drop_last());
        if results.last().translations.len() > 0 {
            rest.push(results.last().translations[0].text@)
        } else {
            rest
        }
    }
}

/// Only one target language is asked for: the first translation of each
/// result is kept.
pub fn extract_texts(parsed: Vec<TranslationResult>) -> (r: Vec<String>)
    ensures
        r@.map_values(|s: String| s@) == first_translations(parsed@),
{
    let mut out: Vec<String> = Vec::new();
    let mut i: usize = 0;
    while i < parsed.len()
        invariant
            i <= parsed.len(),
            out@.map_values(|s: String| s@) == first_translations(parsed@.take(i as int)),
        decreases parsed.len() - i,
    {
        assert(parsed@.take(i + 1).drop_last() =~= parsed@.take(i as int));
        assert(parsed@.take(i + 1).last() == parsed@[i as int]);
        if parsed[i].translations.len() > 0 {
            out.push(parsed[i].translations[0].text.clone());
            assert(out@.map_values(|s: String| s@) =~= first_translations(parsed@.take(i + 1)));
        }
        i = i + 1;
    }
    assert(parsed@.take(parsed.len() as int) =~= parsed@);
    out
}

} // verus!
