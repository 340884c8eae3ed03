//! Translation engines: what each one is configured with, what it sends and
//! how its answer becomes translated lines.
use vstd::prelude::*;

pub mod azure_translate;
pub mod cloud_deepl;
pub mod google_translate;
pub mod languages;
pub mod local_nllb;
pub mod nllb_models;
pub mod openai_translate;

use azure_translate::AzureTranslateEngine;
use cloud_deepl::CloudDeepLEngine;
use google_translate::GoogleTranslateEngine;
use openai_translate::OpenAiTranslateEngine;

verus! {

/// A configured cloud translation engine.
pub enum CloudTranslator {
    DeepL(CloudDeepLEngine),
    OpenAi(OpenAiTranslateEngine),
    Google(GoogleTranslateEngine),
    Azure(AzureTranslateEngine),
}

} // verus!
