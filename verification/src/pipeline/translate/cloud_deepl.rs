//! Translation through the DeepL API.
use vstd::prelude::*;

use crate::text::{concat, ends_with, lower, str_ends_with, str_eq, to_ascii_lowercase, to_ascii_uppercase, upper};

verus! {

pub const FREE_ENDPOINT: &'static str = "https://api-free.deepl.com/v2/translate";
pub const PAID_ENDPOINT: &'static str = "https://api.deepl.com/v2/translate";

/// The DeepL engine and the key it authenticates with.
pub struct CloudDeepLEngine {
    api_key: String,
}

impl CloudDeepLEngine {
    pub closed spec fn spec_api_key(&self) -> Seq<char> {
        self.api_key@
    }

    pub fn new(api_key: &str) -> (r: Self)
        ensures
            r.spec_api_key() == api_key@,
    {
        CloudDeepLEngine { api_key: api_key.to_owned() }
    }

    pub fn api_key(&self) -> (r: &str)
        ensures
            r@ == self.spec_api_key(),
    {
        self.api_key.as_str()
    }

    /// DeepL serves free-tier keys (those ending in `:fx`) and paid keys on
    /// separate hosts.
    pub fn endpoint(&self) -> (r: &'static str)
        ensures
            r@ == if ends_with(self.spec_api_key(), ":fx"@) { FREE_ENDPOINT@ } else { PAID_ENDPOINT@ },
    {
        if str_ends_with(self.api_key.as_str(), ":fx") {
            FREE_ENDPOINT
        } else {
            PAID_ENDPOINT
        }
    }
}

/// The target language code DeepL is sent: English and Portuguese need a
/// regional variant, any other code is upper-cased; the incoming case does
/// not matter.
pub open spec fn deepl_target(code: Seq<char>) -> Seq<char> {
    if lower(code) == "en"@ {
        "EN-US"@
    } else if lower(code) == "pt"@ {
        "PT-PT"@
    } else {
        upper(lower(code))
    }
}

/// Two codes that differ only by letter case are sent as the same target.
pub proof fn target_ignores_letter_case(first: Seq<char>, second: Seq<char>)
    requires
        lower(first) == lower(second),
    ensures
        deepl_target(first) == deepl_target(second),
{
}

pub fn deepl_target_lang(code: &str) -> (r: String)
    ensures
        r@ == deepl_target(code@),
{
    let lowered = to_ascii_lowercase(code);
    if str_eq(lowered.as_str(), "en") {
        "EN-US".to_owned()
    } else if str_eq(lowered.as_str(), "pt") {
        "PT-PT".to_owned()
    } else {
        to_ascii_uppercase(lowered.as_str())
    }
}

/// The source language code DeepL is sent: upper-cased.
pub fn deepl_source_lang(code: &str) -> (r: String)
    ensures
        r@ == upper(code@),
{
    to_ascii_uppercase(code)
}

/// The form DeepL is sent: one `text` entry per line, in order, then the
/// target language, then the source language when it is known.
pub open spec fn form_spec(texts: Seq<Seq<char>>, target_lang: Seq<char>, source_lang: Option<Seq<char>>) -> Seq<(Seq<char>, Seq<char>)> {
    let lines = texts.map_values(|t: Seq<char>| ("text"@, t));
    let with_target = lines.push(("target_lang"@, target_lang));
    match source_lang {
        Some(s) => with_target.push(("source_lang"@, s)),
        None => with_target,
    }
}

/// The form asks DeepL for exactly the target language it was given,
/// whatever the source: every line as a `text` entry, in order, then
/// `target_lang` set to the target, then `source_lang` set to the source when
/// one is known, and nothing else; no other entry names a target language.
pub proof fn form_targets_the_requested_language(
    texts: Seq<Seq<char>>,
    target_lang: Seq<char>,
    source_lang: Option<Seq<char>>,
)
    ensures
        ({
            let f = form_spec(texts, target_lang, source_lang);
            &&& f.len() == texts.len() + 1 + (if source_lang is Some { 1int } else { 0int })
            &&& forall|i: int| 0 <= i < texts.len() ==> #[trigger] f[i] == ("text"@, texts[i])
            &&& f[texts.len() as int] == ("target_lang"@, target_lang)
            &&& (source_lang matches Some(s) ==> f[(texts.len() + 1) as int] == ("source_lang"@, s))
            &&& forall|i: int| 0 <= i < f.len() && (#[trigger] f[i]).0 == "target_lang"@ ==> f[i].1 == target_lang
        }),
{
    reveal_strlit("text");
    reveal_strlit("target_lang");
    reveal_strlit("source_lang");
    assert("text"@.len() != "target_lang"@.len());
    assert("source_lang"@[0] != "target_lang"@[0]);
}

/// The view of a list of pairs of strings.
pub open spec fn pairs_view(v: Seq<(&str, &str)>) -> Seq<(Seq<char>, Seq<char>)> {
    v.map_values(|p: (&str, &str)| (p.0@, p.1@))
}

/// The view of a list of strings.
pub open spec fn strings_view(v: Seq<String>) -> Seq<Seq<char>> {
    v.map_values(|s: String| s@)
}

/// The view of an optional string slice.
pub open spec fn opt_str_view(o: Option<&str>) -> Option<Seq<char>> {
    match o {
        Some(s) => Some(s@),
        None => None,
    }
}

pub fn form_params<'a>(
    texts: &'a [String],
    target_lang: &'a str,
    source_lang: Option<&'a str>,
) -> (r: Vec<(&'a str, &'a str)>)
    ensures
        pairs_view(r@) == form_spec(strings_view(texts@), target_lang@, opt_str_view(source_lang)),
{
    let mut params: Vec<(&'a str, &'a str)> = Vec::new();
    let mut i: usize = 0;
    while i < texts.len()
        invariant
            i <= texts.len(),
            params.len() == i,
            forall|j: int| 0 <= j < i ==> (#[trigger] params@[j]).0@ == "text"@ && params@[j].1@ == texts@[j]@,
        decreases texts.len() - i,
    {
        params.push(("text", texts[i].as_str()));
        i = i + 1;
    }
    let ghost lines = params@;
    params.push(("target_lang", target_lang));
    match source_lang {
        Some(src) => {
            params.push(("source_lang", src));
        },
        None => {},
    }
    proof {
        let expected = strings_view(texts@).map_values(|t: Seq<char>| ("text"@, t));
        assert(pairs_view(lines) =~= expected);
        assert(pairs_view(params@) =~= form_spec(strings_view(texts@), target_lang@, opt_str_view(source_lang)));
    }
    params
}

/// The authentication header value DeepL expects: `DeepL-Auth-Key <key>`.
pub fn auth_header(api_key: &str) -> (r: String)
    ensures
        r@ == "DeepL-Auth-Key "@ + api_key@,
{
    concat("DeepL-Auth-Key ", api_key)
}

/// One translated line of DeepL's answer.
#[derive(Debug, Clone)]
pub struct DeepLTranslation {
    pub text: String,
}

/// DeepL's answer.
#[derive(Debug, Clone)]
pub struct DeepLResponse {
    pub translations: Vec<DeepLTranslation>,
}

/// The translated lines of an answer, in order.
pub fn extract_texts(parsed: DeepLResponse) -> (r: Vec<String>)
    ensures
        r.len() == parsed.translations.len(),
        forall|i: int| 0 <= i < r.len() ==> #[trigger] r[i]@ == parsed.translations[i].text@,
{
    let mut out: Vec<String> = Vec::new();
    let mut i: usize = 0;
    while i < parsed.translations.len()
        invariant
            i <= parsed.translations.len(),
            out.len() == i,
            forall|j: int| 0 <= j < i ==> #[trigger] out[j]@ == parsed.translations[j].text@,
        decreases parsed.translations.len() - i,
    {
        out.push(parsed.translations[i].text.clone());
        i = i + 1;
    }
    out
}

} // verus!
