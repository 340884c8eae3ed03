//! The files of the local NLLB translation model: where they come from and
//! where they are kept.
use vstd::prelude::*;

use crate::paths::{join, path_join};
use crate::text::concat3;

verus! {

pub const HF_BASE: &'static str = "https://huggingface.co/Xenova/nllb-200-distilled-600M/resolve/main";

pub const ENCODER_REMOTE: &'static str = "onnx/encoder_model_quantized.onnx";
pub const DECODER_REMOTE: &'static str = "onnx/decoder_model_quantized.onnx";
pub const TOKENIZER_REMOTE: &'static str = "tokenizer.json";

pub const ENCODER_FILE: &'static str = "encoder.onnx";
pub const DECODER_FILE: &'static str = "decoder.onnx";
pub const TOKENIZER_FILE: &'static str = "tokenizer.json";

/// The local paths of the three model files.
#[derive(Debug, Clone)]
pub struct NllbFiles {
    pub encoder: String,
    pub decoder: String,
    pub tokenizer: String,
}

/// The directory of the model under the application's data directory.
pub fn nllb_dir_in(data_dir: &str) -> (r: String)
    ensures
        r@ == path_join(path_join(data_dir@, "translate-models"@), "nllb-200-distilled-600M"@),
{
    let models = join(data_dir, "translate-models");
    join(models.as_str(), "nllb-200-distilled-600M")
}

/// The three files of the model, as (remote path, local destination):
/// the quantized encoder and decoder, then the tokenizer, all in `dir`.
pub fn nllb_file_map(dir: &str) -> (r: [(&'static str, String); 3])
    ensures
        r[0].0@ == ENCODER_REMOTE@ && r[0].1@ == path_join(dir@, ENCODER_FILE@),
        r[1].0@ == DECODER_REMOTE@ && r[1].1@ == path_join(dir@, DECODER_FILE@),
        r[2].0@ == TOKENIZER_REMOTE@ && r[2].1@ == path_join(dir@, TOKENIZER_FILE@),
{
    [
        (ENCODER_REMOTE, join(dir, ENCODER_FILE)),
        (DECODER_REMOTE, join(dir, DECODER_FILE)),
        (TOKENIZER_REMOTE, join(dir, TOKENIZER_FILE)),
    ]
}

/// The model files once in `dir`.
pub fn nllb_files(dir: &str) -> (r: NllbFiles)
    ensures
        r.encoder@ == path_join(dir@, ENCODER_FILE@),
        r.decoder@ == path_join(dir@, DECODER_FILE@),
        r.tokenizer@ == path_join(dir@, TOKENIZER_FILE@),
{
    NllbFiles {
        encoder: join(dir, ENCODER_FILE),
        decoder: join(dir, DECODER_FILE),
        tokenizer: join(dir, TOKENIZER_FILE),
    }
}

/// The full address of a model file on HuggingFace.
pub fn remote_url(remote: &str) -> (r: String)
    ensures
        r@ == HF_BASE@ + "/"@ + remote@,
{
    concat3(HF_BASE, "/", remote)
}

} // verus!
