//! User settings (engine choices, interface language) and API keys kept in
//! the operating system's keychain.
use vstd::prelude::*;
use vstd::string::*;

use crate::paths::{join, path_join};
use crate::text::str_eq;

verus! {

/// Service name under which API keys are stored in the keychain.
pub const SERVICE_NAME: &'static str = "light-gen-subz";

pub const GROQ_API_KEY: &'static str = "groq_api_key";
pub const OPENAI_API_KEY: &'static str = "openai_api_key";
pub const DEEPGRAM_API_KEY: &'static str = "deepgram_api_key";
pub const ASSEMBLYAI_API_KEY: &'static str = "assemblyai_api_key";
pub const DEEPL_API_KEY: &'static str = "deepl_api_key";
pub const GOOGLE_TRANSLATE_API_KEY: &'static str = "google_translate_api_key";
pub const AZURE_TRANSLATOR_KEY: &'static str = "azure_translator_key";

/// Speech-to-text engine chosen in the settings.
#[derive(Debug, Clone, Copy, PartialEq, Eq, Structural)]
pub enum SttEngineChoice {
    Local,
    Groq,
    OpenAi,
    Deepgram,
    AssemblyAi,
}

/// Translation engine chosen in the settings (`Disabled`: no translation).
#[derive(Debug, Clone, Copy, PartialEq, Eq, Structural)]
pub enum TranslationEngineChoice {
    Disabled,
    Local,
    DeepL,
    OpenAi,
    Google,
    Azure,
}

/// Language of the user interface. English is the default: the application
/// spoke English before the choice existed.
#[derive(Debug, Clone, Copy, PartialEq, Eq, Structural)]
pub enum Language {
    En,
    Fr,
}

impl Default for SttEngineChoice {
    fn default() -> (r: Self)
        ensures
            r == SttEngineChoice::Local,
    {
        SttEngineChoice::Local
    }
}

impl Default for TranslationEngineChoice {
    fn default() -> (r: Self)
        ensures
            r == TranslationEngineChoice::Disabled,
    {
        TranslationEngineChoice::Disabled
    }
}

impl Default for Language {
    fn default() -> (r: Self)
        ensures
            r == Language::En,
    {
        Language::En
    }
}

/// The persisted settings.
#[derive(Debug, Clone)]
pub struct Settings {
    pub stt_engine: SttEngineChoice,
    pub translation_engine: TranslationEngineChoice,
    /// Azure Translator needs a resource region next to its key (not a secret).
    pub azure_translator_region: String,
    pub language: Language,
}

impl Settings {
    /// The settings are the defaults: local transcription, no translation,
    /// no Azure region, English interface.
    pub open spec fn is_default(&self) -> bool {
        &&& self.stt_engine == SttEngineChoice::Local
        &&& self.translation_engine == TranslationEngineChoice::Disabled
        &&& self.azure_translator_region@ == Seq::<char>::empty()
        &&& self.language == Language::En
    }
}

impl Default for Settings {
    fn default() -> (r: Self)
        ensures
            r.is_default(),
    {
        Settings {
            stt_engine: SttEngineChoice::Local,
            translation_engine: TranslationEngineChoice::Disabled,
            azure_translator_region: String::new(),
            language: Language::En,
        }
    }
}

// ── names on the wire (snake_case) ───────────────────────────────────────

/// The snake_case name under which a transcription engine is written.
pub open spec fn stt_wire_name(c: SttEngineChoice) -> Seq<char> {
    match c {
        SttEngineChoice::Local => "local"@,
        SttEngineChoice::Groq => "groq"@,
        SttEngineChoice::OpenAi => "open_ai"@,
        SttEngineChoice::Deepgram => "deepgram"@,
        SttEngineChoice::AssemblyAi => "assembly_ai"@,
    }
}

/// The snake_case name under which a translation engine is written.
pub open spec fn translation_wire_name(c: TranslationEngineChoice) -> Seq<char> {
    match c {
        TranslationEngineChoice::Disabled => "none"@,
        TranslationEngineChoice::Local => "local"@,
        TranslationEngineChoice::DeepL => "deep_l"@,
        TranslationEngineChoice::OpenAi => "open_ai"@,
        TranslationEngineChoice::Google => "google"@,
        TranslationEngineChoice::Azure => "azure"@,
    }
}

/// The two-letter code under which an interface language is written.
pub open spec fn language_wire_name(l: Language) -> Seq<char> {
    match l {
        Language::En => "en"@,
        Language::Fr => "fr"@,
    }
}

/// The transcription engine written as `name`, if any.
pub open spec fn stt_from_wire_spec(name: Seq<char>) -> Option<SttEngineChoice> {
    if name == "local"@ {
        Some(SttEngineChoice::Local)
    } else if name == "groq"@ {
        Some(SttEngineChoice::Groq)
    } else if name == "open_ai"@ {
        Some(SttEngineChoice::OpenAi)
    } else if name == "deepgram"@ {
        Some(SttEngineChoice::Deepgram)
    } else if name == "assembly_ai"@ {
        Some(SttEngineChoice::AssemblyAi)
    } else {
        None
    }
}

/// The translation engine written as `name`, if any.
pub open spec fn translation_from_wire_spec(name: Seq<char>) -> Option<TranslationEngineChoice> {
    if name == "none"@ {
        Some(TranslationEngineChoice::Disabled)
    } else if name == "local"@ {
        Some(TranslationEngineChoice::Local)
    } else if name == "deep_l"@ {
        Some(TranslationEngineChoice::DeepL)
    } else if name == "open_ai"@ {
        Some(TranslationEngineChoice::OpenAi)
    } else if name == "google"@ {
        Some(TranslationEngineChoice::Google)
    } else if name == "azure"@ {
        Some(TranslationEngineChoice::Azure)
    } else {
        None
    }
}

/// The interface language written as `name`, if any.
pub open spec fn language_from_wire_spec(name: Seq<char>) -> Option<Language> {
    if name == "en"@ {
        Some(Language::En)
    } else if name == "fr"@ {
        Some(Language::Fr)
    } else {
        None
    }
}

/// Reads a transcription engine from its snake_case name.
pub fn stt_from_wire(name: &str) -> (r: Option<SttEngineChoice>)
    ensures
        r == stt_from_wire_spec(name@),
{
    if str_eq(name, "local") {
        Some(SttEngineChoice::Local)
    } else if str_eq(name, "groq") {
        Some(SttEngineChoice::Groq)
    } else if str_eq(name, "open_ai") {
        Some(SttEngineChoice::OpenAi)
    } else if str_eq(name, "deepgram") {
        Some(SttEngineChoice::Deepgram)
    } else if str_eq(name, "assembly_ai") {
        Some(SttEngineChoice::AssemblyAi)
    } else {
        None
    }
}

/// Reads a translation engine from its snake_case name.
pub fn translation_from_wire(name: &str) -> (r: Option<TranslationEngineChoice>)
    ensures
        r == translation_from_wire_spec(name@),
{
    if str_eq(name, "none") {
        Some(TranslationEngineChoice::Disabled)
    } else if str_eq(name, "local") {
        Some(TranslationEngineChoice::Local)
    } else if str_eq(name, "deep_l") {
        Some(TranslationEngineChoice::DeepL)
    } else if str_eq(name, "open_ai") {
        Some(TranslationEngineChoice::OpenAi)
    } else if str_eq(name, "google") {
        Some(TranslationEngineChoice::Google)
    } else if str_eq(name, "azure") {
        Some(TranslationEngineChoice::Azure)
    } else {
        None
    }
}

/// Reads an interface language from its two-letter code.
pub fn language_from_wire(name: &str) -> (r: Option<Language>)
    ensures
        r == language_from_wire_spec(name@),
{
    if str_eq(name, "en") {
        Some(Language::En)
    } else if str_eq(name, "fr") {
        Some(Language::Fr)
    } else {
        None
    }
}

/// Every engine and language read back from the name it is written under
/// is itself: writing a setting and reading it back gives the same setting.
pub proof fn wire_names_round_trip(stt: SttEngineChoice, translation: TranslationEngineChoice, language: Language)
    ensures
        stt_from_wire_spec(stt_wire_name(stt)) == Some(stt),
        translation_from_wire_spec(translation_wire_name(translation)) == Some(translation),
        language_from_wire_spec(language_wire_name(language)) == Some(language),
{
    reveal_strlit("local");
    reveal_strlit("groq");
    reveal_strlit("open_ai");
    reveal_strlit("deepgram");
    reveal_strlit("assembly_ai");
    reveal_strlit("none");
    reveal_strlit("deep_l");
    reveal_strlit("google");
    reveal_strlit("azure");
    reveal_strlit("en");
    reveal_strlit("fr");
    assert("local"@.len() == 5 && "groq"@.len() == 4 && "open_ai"@.len() == 7 && "deepgram"@.len() == 8
        && "assembly_ai"@.len() == 11);
    assert("none"@.len() == 4 && "deep_l"@.len() == 6 && "google"@.len() == 6 && "azure"@.len() == 5);
    assert("deep_l"@[0] != "google"@[0]);
    assert("local"@[0] != "azure"@[0]);
    assert("en"@[0] != "fr"@[0]);
}

/// The keychain names of the API keys are pairwise distinct: no two
/// providers share a stored key (OpenAI's key serves both of its uses).
pub proof fn api_key_names_are_distinct()
    ensures
        ({
            let names = seq![GROQ_API_KEY@, OPENAI_API_KEY@, DEEPGRAM_API_KEY@, ASSEMBLYAI_API_KEY@, DEEPL_API_KEY@,
                GOOGLE_TRANSLATE_API_KEY@, AZURE_TRANSLATOR_KEY@];
            forall|i: int, j: int| 0 <= i < j < 7 ==> names[i] != names[j]
        }),
{
    reveal_strlit("groq_api_key");
    reveal_strlit("openai_api_key");
    reveal_strlit("deepgram_api_key");
    reveal_strlit("assemblyai_api_key");
    reveal_strlit("deepl_api_key");
    reveal_strlit("google_translate_api_key");
    reveal_strlit("azure_translator_key");
    let names = seq![GROQ_API_KEY@, OPENAI_API_KEY@, DEEPGRAM_API_KEY@, ASSEMBLYAI_API_KEY@, DEEPL_API_KEY@,
        GOOGLE_TRANSLATE_API_KEY@, AZURE_TRANSLATOR_KEY@];
    assert(names[0].len() == 12 && names[1].len() == 14 && names[2].len() == 16 && names[3].len() == 18
        && names[4].len() == 13 && names[5].len() == 24 && names[6].len() == 20);
}

// ── reading a settings file ──────────────────────────────────────────────

#[verifier::external_type_specification]
#[verifier::external_body]
pub struct ExJsonError(serde_json::Error);

/// One member of a JSON object as the settings reader sees it:
/// `(text, entries)`. `text` holds the member's contents when it is a JSON
/// string; `entries` holds, when it is a JSON object, each of its keys with
/// whether the value under that key is `null`. Both are `None` when the
/// member is absent or of another kind.
pub type MemberShape = (Option<String>, Option<Vec<(String, bool)>>);

/// The view of a [`MemberShape`].
pub open spec fn member_view(m: MemberShape) -> (Option<Seq<char>>, Option<Seq<(Seq<char>, bool)>>) {
    (
        match m.0 {
            Some(t) => Some(t@),
            None => None,
        },
        match m.1 {
            Some(e) => Some(e@.map_values(|kv: (String, bool)| (kv.0@, kv.1))),
            None => None,
        },
    )
}

/// What `serde_json` makes of member `key` of the JSON document `raw`:
/// `None` when `raw` is not JSON, else the member's shape as a
/// [`MemberShape`] view (an absent member, or a document that is not an
/// object, gives `(None, None)`).
pub uninterp spec fn json_member(raw: Seq<char>, key: Seq<char>) -> Option<(Option<Seq<char>>, Option<Seq<(Seq<char>, bool)>>)>;

/// The view of an optional string.
pub open spec fn opt_view(o: Option<String>) -> Option<Seq<char>> {
    match o {
        Some(s) => Some(s@),
        None => None,
    }
}

/// Parses `raw` with `serde_json::from_str` into a `serde_json::Value` and
/// reads member `key` of it with `Value::get`, converting a string member to
/// its text and an object member to its entries (each key with whether its
/// value is `null`). The contract ties the outcome to the name `json_member`.
#[verifier::external_body]
fn json_member_of(raw: &str, key: &str) -> (r: Result<MemberShape, serde_json::Error>)
    ensures
        match r {
            Ok(m) => json_member(raw@, key@) == Some(member_view(m)),
            Err(_) => json_member(raw@, key@) is None,
        },
{
    let value: serde_json::Value = serde_json::from_str(raw)?;
    Ok(match value.get(key) {
        Some(serde_json::Value::String(s)) => (Some(s.clone()), None),
        Some(serde_json::Value::Object(m)) => (None, Some(m.iter().map(|(k, v)| (k.clone(), v.is_null())).collect())),
        _ => (None, None),
    })
}

/// The variant name that `serde_json::from_value` reads a unit-variant enum
/// from: a JSON string, or an object with a single key whose value is `null`.
pub open spec fn variant_name(m: (Option<Seq<char>>, Option<Seq<(Seq<char>, bool)>>)) -> Option<Seq<char>> {
    match m.0 {
        Some(t) => Some(t),
        None => match m.1 {
            Some(e) => if e.len() == 1 && e[0].1 {
                Some(e[0].0)
            } else {
                None
            },
            None => None,
        },
    }
}

/// The member `key` of `raw` (nothing at all when `raw` is not JSON).
pub open spec fn member_of(raw: Seq<char>, key: Seq<char>) -> (Option<Seq<char>>, Option<Seq<(Seq<char>, bool)>>) {
    match json_member(raw, key) {
        Some(m) => m,
        None => (None, None),
    }
}

/// The string member `key` of `raw`, or nothing (member absent, not a
/// string, or `raw` not JSON).
pub open spec fn text_member(raw: Seq<char>, key: Seq<char>) -> Option<Seq<char>> {
    member_of(raw, key).0
}

/// The variant name held by member `key` of `raw`, if any.
pub open spec fn variant_member(raw: Seq<char>, key: Seq<char>) -> Option<Seq<char>> {
    variant_name(member_of(raw, key))
}

/// The transcription engine that a settings document selects (default on
/// anything missing or unknown).
pub open spec fn settings_stt(raw: Seq<char>) -> SttEngineChoice {
    match variant_member(raw, "stt_engine"@) {
        Some(t) => match stt_from_wire_spec(t) {
            Some(c) => c,
            None => SttEngineChoice::Local,
        },
        None => SttEngineChoice::Local,
    }
}

/// The translation engine that a settings document selects.
pub open spec fn settings_translation(raw: Seq<char>) -> TranslationEngineChoice {
    match variant_member(raw, "translation_engine"@) {
        Some(t) => match translation_from_wire_spec(t) {
            Some(c) => c,
            None => TranslationEngineChoice::Disabled,
        },
        None => TranslationEngineChoice::Disabled,
    }
}

/// The Azure region that a settings document holds (only a JSON string
/// counts).
pub open spec fn settings_region(raw: Seq<char>) -> Seq<char> {
    match text_member(raw, "azure_translator_region"@) {
        Some(t) => t,
        None => Seq::empty(),
    }
}

/// The interface language that a settings document selects.
pub open spec fn settings_language(raw: Seq<char>) -> Language {
    match variant_member(raw, "language"@) {
        Some(t) => match language_from_wire_spec(t) {
            Some(l) => l,
            None => Language::En,
        },
        None => Language::En,
    }
}

/// A settings document selects exactly the engine or language it names:
/// a member holding the snake_case name of a choice (as a string, or as a
/// single-key object) reads back as that very choice, for every choice; a
/// string member is read as the name it holds; the Azure region is the
/// region member's text, empty when that member is not a string.
pub proof fn each_choice_is_read_from_its_own_name(raw: Seq<char>)
    ensures
        forall|k: Seq<char>| (#[trigger] text_member(raw, k)) is Some ==> variant_member(raw, k) == text_member(raw, k),
        variant_member(raw, "stt_engine"@) == Some("local"@) ==> settings_stt(raw) == SttEngineChoice::Local,
        variant_member(raw, "stt_engine"@) == Some("groq"@) ==> settings_stt(raw) == SttEngineChoice::Groq,
        variant_member(raw, "stt_engine"@) == Some("open_ai"@) ==> settings_stt(raw) == SttEngineChoice::OpenAi,
        variant_member(raw, "stt_engine"@) == Some("deepgram"@) ==> settings_stt(raw) == SttEngineChoice::Deepgram,
        variant_member(raw, "stt_engine"@) == Some("assembly_ai"@) ==> settings_stt(raw) == SttEngineChoice::AssemblyAi,
        variant_member(raw, "translation_engine"@) == Some("none"@) ==> settings_translation(raw)
            == TranslationEngineChoice::Disabled,
        variant_member(raw, "translation_engine"@) == Some("local"@) ==> settings_translation(raw)
            == TranslationEngineChoice::Local,
        variant_member(raw, "translation_engine"@) == Some("deep_l"@) ==> settings_translation(raw)
            == TranslationEngineChoice::DeepL,
        variant_member(raw, "translation_engine"@) == Some("open_ai"@) ==> settings_translation(raw)
            == TranslationEngineChoice::OpenAi,
        variant_member(raw, "translation_engine"@) == Some("google"@) ==> settings_translation(raw)
            == TranslationEngineChoice::Google,
        variant_member(raw, "translation_engine"@) == Some("azure"@) ==> settings_translation(raw)
            == TranslationEngineChoice::Azure,
        text_member(raw, "azure_translator_region"@) matches Some(t) ==> settings_region(raw) == t,
        text_member(raw, "azure_translator_region"@) is None ==> settings_region(raw) == Seq::<char>::empty(),
        variant_member(raw, "language"@) == Some("en"@) ==> settings_language(raw) == Language::En,
        variant_member(raw, "language"@) == Some("fr"@) ==> settings_language(raw) == Language::Fr,
        forall|c: SttEngineChoice| variant_member(raw, "stt_engine"@) == Some(#[trigger] stt_wire_name(c))
            ==> settings_stt(raw) == c,
        forall|c: TranslationEngineChoice| variant_member(raw, "translation_engine"@) == Some(
            #[trigger] translation_wire_name(c),
        ) ==> settings_translation(raw) == c,
        forall|l: Language| variant_member(raw, "language"@) == Some(#[trigger] language_wire_name(l))
            ==> settings_language(raw) == l,
{
    wire_names_round_trip(SttEngineChoice::Local, TranslationEngineChoice::Disabled, Language::En);
    wire_names_round_trip(SttEngineChoice::Groq, TranslationEngineChoice::Local, Language::Fr);
    wire_names_round_trip(SttEngineChoice::OpenAi, TranslationEngineChoice::DeepL, Language::En);
    wire_names_round_trip(SttEngineChoice::Deepgram, TranslationEngineChoice::OpenAi, Language::En);
    wire_names_round_trip(SttEngineChoice::AssemblyAi, TranslationEngineChoice::Google, Language::En);
    wire_names_round_trip(SttEngineChoice::Local, TranslationEngineChoice::Azure, Language::En);
    assert forall|c: SttEngineChoice| variant_member(raw, "stt_engine"@) == Some(#[trigger] stt_wire_name(c))
        implies settings_stt(raw) == c by {
        wire_names_round_trip(c, TranslationEngineChoice::Disabled, Language::En);
    }
    assert forall|c: TranslationEngineChoice| variant_member(raw, "translation_engine"@) == Some(
        #[trigger] translation_wire_name(c),
    ) implies settings_translation(raw) == c by {
        wire_names_round_trip(SttEngineChoice::Local, c, Language::En);
    }
    assert forall|l: Language| variant_member(raw, "language"@) == Some(#[trigger] language_wire_name(l))
        implies settings_language(raw) == l by {
        wire_names_round_trip(SttEngineChoice::Local, TranslationEngineChoice::Disabled, l);
    }
}

/// Why reading settings or an API key failed.
#[derive(Debug)]
pub enum ConfigError {
    /// The settings file is not JSON.
    ParseSettings(serde_json::Error),
    /// The keychain entry could not be created.
    KeyringEntry(keyring::Error),
    /// The keychain refused to store the key.
    KeyringStore(keyring::Error),
    /// The keychain failed while reading the key.
    KeyringRead(keyring::Error),
}

impl ConfigError {
    /// The message of this error.
    pub fn to_string(&self) -> (r: String)
        ensures
            r@ == self.message(),
    {
        match self {
            ConfigError::ParseSettings(_) => "parsing settings file".to_owned(),
            ConfigError::KeyringEntry(_) => "creating keyring entry".to_owned(),
            ConfigError::KeyringStore(_) => "storing API key in keyring".to_owned(),
            ConfigError::KeyringRead(_) => "reading API key from keyring".to_owned(),
        }
    }

    pub open spec fn message(&self) -> Seq<char> {
        match self {
            ConfigError::ParseSettings(_) => "parsing settings file"@,
            ConfigError::KeyringEntry(_) => "creating keyring entry"@,
            ConfigError::KeyringStore(_) => "storing API key in keyring"@,
            ConfigError::KeyringRead(_) => "reading API key from keyring"@,
        }
    }
}

/// The variant name a member holds: its text when it is a string, the key
/// of a single-entry object whose value is `null`, else nothing.
fn variant_of(m: MemberShape) -> (r: Option<String>)
    ensures
        opt_view(r) == variant_name(member_view(m)),
{
    let (text, entries) = m;
    match text {
        Some(t) => Some(t),
        None => match entries {
            Some(e) => {
                if e.len() == 1 && e[0].1 {
                    Some(e[0].0.clone())
                } else {
                    None
                }
            },
            None => None,
        },
    }
}

/// Reads member `key` of `raw`, treating a failure as an absent member.
fn member(raw: &str, key: &str) -> (r: MemberShape)
    ensures
        member_view(r) == member_of(raw@, key@),
{
    match json_member_of(raw, key) {
        Ok(m) => m,
        Err(_) => (None, None),
    }
}

/// Reads a settings file field by field, leniently: a file written by a
/// newer version (unknown member, unknown value) still opens, the faulty
/// field taking its default. An engine or a language is read as
/// `serde_json::from_value` reads it (a name, or an object with that name as
/// its single key and `null` as its value); the region only from a string.
pub fn parse_settings(raw: &str) -> (r: Result<Settings, ConfigError>)
    ensures
        r is Err <==> json_member(raw@, "stt_engine"@) is None,
        r matches Err(e) ==> e is ParseSettings,
        r matches Ok(s) ==> {
            &&& s.stt_engine == settings_stt(raw@)
            &&& s.translation_engine == settings_translation(raw@)
            &&& s.azure_translator_region@ == settings_region(raw@)
            &&& s.language == settings_language(raw@)
        },
{
    let stt_member = match json_member_of(raw, "stt_engine") {
        Ok(m) => m,
        Err(e) => {
            return Err(ConfigError::ParseSettings(e));
        },
    };
    let stt_engine = match variant_of(stt_member) {
        Some(t) => match stt_from_wire(t.as_str()) {
            Some(c) => c,
            None => SttEngineChoice::Local,
        },
        None => SttEngineChoice::Local,
    };
    let translation_engine = match variant_of(member(raw, "translation_engine")) {
        Some(t) => match translation_from_wire(t.as_str()) {
            Some(c) => c,
            None => TranslationEngineChoice::Disabled,
        },
        None => TranslationEngineChoice::Disabled,
    };
    let azure_translator_region = match member(raw, "azure_translator_region").0 {
        Some(t) => t,
        None => String::new(),
    };
    let language = match variant_of(member(raw, "language")) {
        Some(l) => match language_from_wire(l.as_str()) {
            Some(l) => l,
            None => Language::En,
        },
        None => Language::En,
    };
    Ok(Settings { stt_engine, translation_engine, azure_translator_region, language })
}

/// What the settings file holds when there is one, the defaults when there
/// is none (`None`: no file).
pub fn settings_from_file(contents: Option<&str>) -> (r: Result<Settings, ConfigError>)
    ensures
        contents is None ==> (r matches Ok(s) && s.is_default()),
        contents matches Some(raw) ==> (r is Err <==> json_member(raw@, "stt_engine"@) is None),
        r matches Err(e) ==> e is ParseSettings,
        contents matches Some(raw) ==> (r matches Ok(s) ==> {
            &&& s.stt_engine == settings_stt(raw@)
            &&& s.translation_engine == settings_translation(raw@)
            &&& s.azure_translator_region@ == settings_region(raw@)
            &&& s.language == settings_language(raw@)
        }),
{
    match contents {
        None => Ok(Settings::default()),
        Some(raw) => parse_settings(raw),
    }
}

/// The settings file in the application's config directory.
pub fn settings_path(config_dir: &str) -> (r: String)
    ensures
        r@ == path_join(config_dir@, "settings.json"@),
{
    join(config_dir, "settings.json")
}

// ── API keys in the keychain ─────────────────────────────────────────────
//
// The keychain is the operating system's secret store: reading and writing
// it is input and output, done by the application. The library says where a
// key lives and what each answer of the keychain means.

#[verifier::external_type_specification]
#[verifier::external_body]
pub struct ExKeyringError(keyring::Error);

/// Where the API key named `key_name` lives in the keychain, as
/// `(service, user)`: under this application's service name, with the key
/// name as the user.
pub fn keychain_address(key_name: &str) -> (r: (&'static str, String))
    ensures
        r.0@ == SERVICE_NAME@,
        r.1@ == key_name@,
{
    (SERVICE_NAME, key_name.to_owned())
}

/// What reading a password from the keychain gave.
#[derive(Debug)]
pub enum PasswordRead {
    Found(String),
    /// The keychain holds no entry under that name.
    Missing,
    /// The keychain entry could not be opened.
    EntryFailed(keyring::Error),
    /// The keychain failed while reading the entry.
    Failed(keyring::Error),
}

/// What writing a password into the keychain gave.
#[derive(Debug)]
pub enum PasswordWrite {
    Stored,
    /// The keychain entry could not be opened.
    EntryFailed(keyring::Error),
    /// The keychain refused to store the password.
    Failed(keyring::Error),
}

/// The outcome of storing a key, given what the keychain answered.
pub fn api_key_stored(write: PasswordWrite) -> (r: Result<(), ConfigError>)
    ensures
        write is Stored <==> r is Ok,
        write is EntryFailed ==> (r matches Err(e) && e is KeyringEntry),
        write is Failed ==> (r matches Err(e) && e is KeyringStore),
{
    match write {
        PasswordWrite::Stored => Ok(()),
        PasswordWrite::EntryFailed(e) => Err(ConfigError::KeyringEntry(e)),
        PasswordWrite::Failed(e) => Err(ConfigError::KeyringStore(e)),
    }
}

/// The outcome of a key lookup, given what the keychain answered: a found
/// key, no key, or the failure.
pub fn api_key_from_read(read: PasswordRead) -> (r: Result<Option<String>, ConfigError>)
    ensures
        read matches PasswordRead::Found(p) ==> (r matches Ok(Some(k)) && k == p),
        read is Missing ==> r matches Ok(None),
        read is EntryFailed ==> (r matches Err(e) && e is KeyringEntry),
        read is Failed ==> (r matches Err(e) && e is KeyringRead),
{
    match read {
        PasswordRead::Found(p) => Ok(Some(p)),
        PasswordRead::Missing => Ok(None),
        PasswordRead::EntryFailed(e) => Err(ConfigError::KeyringEntry(e)),
        PasswordRead::Failed(e) => Err(ConfigError::KeyringRead(e)),
    }
}

/// Whether a lookup found a key.
pub open spec fn lookup_found(r: Result<Option<String>, ConfigError>) -> bool {
    r matches Ok(Some(_))
}

/// Whether a lookup found a key (a failing keychain counts as no key).
pub fn key_found(r: &Result<Option<String>, ConfigError>) -> (b: bool)
    ensures
        b == lookup_found(*r),
{
    match r {
        Ok(Some(_)) => true,
        _ => false,
    }
}

} // verus!
