//! Token sequences of the local NLLB-200 translation model (ONNX
//! encoder/decoder, greedy decoding) and the choice of its language codes.
use vstd::prelude::*;

use crate::text::concat;
use super::languages::{flores_code_for, flores_for};

verus! {

/// The end-of-sequence token, which also starts the decoder.
pub const EOS_TOKEN_ID: i64 = 2;
/// Decoding stops after this many generated tokens at the latest.
pub const MAX_NEW_TOKENS: usize = 200;

/// Why a language pair cannot be translated locally.
#[derive(Debug)]
pub enum NllbError {
    /// The target language is not offered.
    UnsupportedTarget(String),
    /// NLLB has no automatic detection: the source language must be known.
    MissingSource,
    /// The source language is not offered.
    UnsupportedSource(String),
}

impl NllbError {
    pub open spec fn message(&self) -> Seq<char> {
        match self {
            NllbError::UnsupportedTarget(t) => "unsupported target language: "@ + t@,
            NllbError::MissingSource => "local translation requires a known source language"@,
            NllbError::UnsupportedSource(s) => "unsupported source language: "@ + s@,
        }
    }

    pub fn to_string(&self) -> (r: String)
        ensures
            r@ == self.message(),
    {
        match self {
            NllbError::UnsupportedTarget(t) => concat("unsupported target language: ", t.as_str()),
            NllbError::MissingSource => "local translation requires a known source language".to_owned(),
            NllbError::UnsupportedSource(s) => concat("unsupported source language: ", s.as_str()),
        }
    }
}

/// The FLORES codes of the source and target languages. The target, chosen
/// by the user, is checked first; then the source must be known and offered.
pub fn resolve_flores_pair(source_lang: Option<&str>, target_lang: &str) -> (r: Result<(&'static str, &'static str), NllbError>)
    ensures
        flores_for(target_lang@) is None ==> (r matches Err(NllbError::UnsupportedTarget(t)) && t@ == target_lang@),
        flores_for(target_lang@) is Some && source_lang is None ==> (r matches Err(e) && e is MissingSource),
        flores_for(target_lang@) is Some ==> (source_lang matches Some(s) ==> (flores_for(s@) is None ==> (
            r matches Err(NllbError::UnsupportedSource(c)) && c@ == s@))),
        r matches Ok((src, tgt)) ==> (source_lang matches Some(s) && flores_for(s@) == Some(src@) && flores_for(target_lang@)
            == Some(tgt@)),
        flores_for(target_lang@) is Some ==> (source_lang matches Some(s) ==> (flores_for(s@) is Some ==> r is Ok)),
{
    let tgt = match flores_code_for(target_lang) {
        Some(t) => t,
        None => {
            return Err(NllbError::UnsupportedTarget(target_lang.to_owned()));
        },
    };
    let code = match source_lang {
        Some(c) => c,
        None => {
            return Err(NllbError::MissingSource);
        },
    };
    match flores_code_for(code) {
        Some(src) => Ok((src, tgt)),
        None => Err(NllbError::UnsupportedSource(code.to_owned())),
    }
}

/// The encoder input: `[source language] tokens… [eos]`. The tokenizer's own
/// post-processor fixes one source language, so the text is tokenized
/// without special tokens and these are put in place here.
pub fn encoder_input_ids(src_lang_id: i64, token_ids: &[u32]) -> (r: Vec<i64>)
    ensures
        r@ == seq![src_lang_id] + token_ids@.map_values(|t: u32| t as i64) + seq![EOS_TOKEN_ID],
{
    let mut ids: Vec<i64> = Vec::new();
    ids.push(src_lang_id);
    let mut i: usize = 0;
    while i < token_ids.len()
        invariant
            i <= token_ids.len(),
            ids@ == seq![src_lang_id] + token_ids@.take(i as int).map_values(|t: u32| t as i64),
        decreases token_ids.len() - i,
    {
        ids.push(token_ids[i] as i64);
        assert(token_ids@.take(i + 1).map_values(|t: u32| t as i64) =~= token_ids@.take(i as int).map_values(
            |t: u32| t as i64,
        ).push(token_ids@[i as int] as i64));
        i = i + 1;
    }
    assert(token_ids@.take(token_ids.len() as int) =~= token_ids@);
    ids.push(EOS_TOKEN_ID);
    ids
}

/// The decoder's start: `[eos, target language]`, NLLB's generation
/// convention (decoder start token, then the forced first token).
pub fn decoder_priming(tgt_lang_id: i64) -> (r: Vec<i64>)
    ensures
        r@ == seq![EOS_TOKEN_ID, tgt_lang_id],
{
    let mut ids: Vec<i64> = Vec::new();
    ids.push(EOS_TOKEN_ID);
    ids.push(tgt_lang_id);
    assert(ids@ =~= seq![EOS_TOKEN_ID, tgt_lang_id]);
    ids
}

/// One greedy decoding step: the end-of-sequence token stops decoding and
/// leaves the sequence as it is; any other token is appended.
pub fn accept_token(decoder_ids: &mut Vec<i64>, next_id: i64) -> (go_on: bool)
    ensures
        go_on == (next_id != EOS_TOKEN_ID),
        go_on ==> final(decoder_ids)@ == old(decoder_ids)@.push(next_id),
        !go_on ==> final(decoder_ids)@ == old(decoder_ids)@,
{
    if next_id == EOS_TOKEN_ID {
        false
    } else {
        decoder_ids.push(next_id);
        true
    }
}

/// The tokens actually generated: the decoder sequence without its
/// `[eos, target language]` start.
pub fn generated_tokens(decoder_ids: &[i64]) -> (r: Vec<u32>)
    requires
        decoder_ids@.len() >= 2,
    ensures
        r@ == decoder_ids@.skip(2).map_values(|id: i64| id as u32),
{
    let mut out: Vec<u32> = Vec::new();
    let mut i: usize = 2;
    while i < decoder_ids.len()
        invariant
            2 <= i <= decoder_ids.len(),
            out@ == decoder_ids@.subrange(2, i as int).map_values(|id: i64| id as u32),
        decreases decoder_ids.len() - i,
    {
        out.push(decoder_ids[i] as u32);
        assert(decoder_ids@.subrange(2, i + 1).map_values(|id: i64| id as u32) =~= decoder_ids@.subrange(
            2,
            i as int,
        ).map_values(|id: i64| id as u32).push(decoder_ids@[i as int] as u32));
        i = i + 1;
    }
    assert(decoder_ids@.subrange(2, decoder_ids.len() as int) =~= decoder_ids@.skip(2));
    out
}

/// What greedy decoding appends after the `[eos, target language]` start is
/// exactly what comes out as the generated tokens.
pub proof fn priming_is_stripped_from_the_output(tgt_lang_id: i64, generated: Seq<i64>)
    ensures
        (seq![EOS_TOKEN_ID, tgt_lang_id] + generated).skip(2).map_values(|id: i64| id as u32)
            == generated.map_values(|id: i64| id as u32),
{
    assert((seq![EOS_TOKEN_ID, tgt_lang_id] + generated).skip(2) =~= generated);
}

/// The logits of the last decoded position in the flattened
/// `[1, dec_len, vocab]` tensor.
pub fn last_position_logits<T>(logits: &[T], dec_len: usize, vocab_size: usize) -> (r: &[T])
    requires
        dec_len >= 1,
        dec_len * vocab_size <= logits@.len(),
    ensures
        r@ == logits@.subrange((dec_len - 1) * vocab_size, dec_len * vocab_size),
{
    let n = logits.len();
    proof {
        let d = dec_len as int;
        let v = vocab_size as int;
        assert((d - 1) * v + v == d * v && 0 <= (d - 1) * v) by (nonlinear_arith)
            requires
                d >= 1,
                v >= 0,
        ;
        assert(n == logits@.len());
    }
    let start = (dec_len - 1) * vocab_size;
    &logits[start..start + vocab_size]
}

} // verus!
