//! The whisper.cpp models the local engine can use, hosted on the official
//! HuggingFace repository.
use vstd::prelude::*;

use crate::paths::{join, path_join, path_with_extension, with_extension};
use crate::text::str_eq;

verus! {

/// A ggml model of whisper.cpp.
#[derive(Debug, Clone, Copy)]
pub struct ModelInfo {
    pub name: &'static str,
    pub filename: &'static str,
    pub url: &'static str,
    pub approx_size_mb: u32,
}

/// The view of a model: name, file name, address, approximate size in MB.
pub open spec fn model_row(m: ModelInfo) -> (Seq<char>, Seq<char>, Seq<char>, u32) {
    (m.name@, m.filename@, m.url@, m.approx_size_mb)
}

/// The known models, smallest first.
pub open spec fn model_table() -> Seq<(Seq<char>, Seq<char>, Seq<char>, u32)> {
    seq![
        ("base"@, "ggml-base-q5_1.bin"@, "https://huggingface.co/ggerganov/whisper.cpp/resolve/main/ggml-base-q5_1.bin"@, 60u32),
        ("small"@, "ggml-small-q5_1.bin"@, "https://huggingface.co/ggerganov/whisper.cpp/resolve/main/ggml-small-q5_1.bin"@, 190u32),
        ("medium"@, "ggml-medium-q5_0.bin"@, "https://huggingface.co/ggerganov/whisper.cpp/resolve/main/ggml-medium-q5_0.bin"@, 540u32),
    ]
}

/// Where the models are hosted.
pub const REPOSITORY: &'static str = "https://huggingface.co/ggerganov/whisper.cpp/";

/// `prefix` starts `s`.
pub open spec fn starts_with(s: Seq<char>, prefix: Seq<char>) -> bool {
    prefix.len() <= s.len() && s.take(prefix.len() as int) == prefix
}

/// The known models are consistent: each model's file is a ggml file of that
/// very model (`ggml-<name>-….bin`), each has its own file name, is hosted on
/// the official repository under that file name, and declares a plausible
/// size, growing from one model to the next.
pub proof fn known_models_are_consistent()
    ensures
        model_table().len() == 3,
        forall|i: int| 0 <= i < 3 ==> starts_with(#[trigger] model_table()[i].1, "ggml-"@ + model_table()[i].0 + "-"@),
        forall|i: int| 0 <= i < 3 ==> crate::text::ends_with(#[trigger] model_table()[i].1, ".bin"@),
        forall|i: int, j: int| 0 <= i < j < 3 ==> model_table()[i].0 != model_table()[j].0,
        forall|i: int, j: int| 0 <= i < j < 3 ==> model_table()[i].1 != model_table()[j].1,
        forall|i: int| 0 <= i < 3 ==> starts_with(#[trigger] model_table()[i].2, REPOSITORY@),
        forall|i: int| 0 <= i < 3 ==> crate::text::ends_with(#[trigger] model_table()[i].2, model_table()[i].1),
        forall|i: int| 0 <= i < 3 ==> 0 < #[trigger] model_table()[i].3 < 5000,
        forall|i: int, j: int| 0 <= i < j < 3 ==> model_table()[i].3 < model_table()[j].3,
{
    reveal_strlit("ggml-base-q5_1.bin");
    reveal_strlit("ggml-small-q5_1.bin");
    reveal_strlit("ggml-medium-q5_0.bin");
    reveal_strlit("https://huggingface.co/ggerganov/whisper.cpp/");
    reveal_strlit("https://huggingface.co/ggerganov/whisper.cpp/resolve/main/ggml-base-q5_1.bin");
    reveal_strlit("https://huggingface.co/ggerganov/whisper.cpp/resolve/main/ggml-small-q5_1.bin");
    reveal_strlit("https://huggingface.co/ggerganov/whisper.cpp/resolve/main/ggml-medium-q5_0.bin");
    reveal_strlit("base");
    reveal_strlit("small");
    reveal_strlit("medium");
    reveal_strlit("ggml-");
    reveal_strlit("-");
    reveal_strlit(".bin");
    let t = model_table();
    assert(t[0].1.take(10) =~= "ggml-"@ + t[0].0 + "-"@);
    assert(t[1].1.take(11) =~= "ggml-"@ + t[1].0 + "-"@);
    assert(t[2].1.take(12) =~= "ggml-"@ + t[2].0 + "-"@);
    assert(t[0].1.subrange(14, 18) =~= ".bin"@);
    assert(t[1].1.subrange(15, 19) =~= ".bin"@);
    assert(t[2].1.subrange(16, 20) =~= ".bin"@);
    assert(t[0].0.len() != t[1].0.len() && t[1].0.len() != t[2].0.len() && t[0].0.len() != t[2].0.len());
    assert(t[0].1.len() == 18 && t[1].1.len() == 19 && t[2].1.len() == 20);
    assert(REPOSITORY@.len() == 45);
    assert(t[0].2.len() == 76 && t[1].2.len() == 77 && t[2].2.len() == 78);
    assert(t[0].2.take(45) =~= REPOSITORY@);
    assert(t[1].2.take(45) =~= REPOSITORY@);
    assert(t[2].2.take(45) =~= REPOSITORY@);
    assert(t[0].2.subrange(58, 76) =~= t[0].1);
    assert(t[1].2.subrange(58, 77) =~= t[1].1);
    assert(t[2].2.subrange(58, 78) =~= t[2].1);
}

/// The known models. `small` is the default: a good balance of accuracy,
/// speed and size.
pub fn known_models() -> (r: Vec<ModelInfo>)
    ensures
        r@.map_values(|m: ModelInfo| model_row(m)) == model_table(),
{
    let r = vec![
        ModelInfo {
            name: "base",
            filename: "ggml-base-q5_1.bin",
            url: "https://huggingface.co/ggerganov/whisper.cpp/resolve/main/ggml-base-q5_1.bin",
            approx_size_mb: 60,
        },
        ModelInfo {
            name: "small",
            filename: "ggml-small-q5_1.bin",
            url: "https://huggingface.co/ggerganov/whisper.cpp/resolve/main/ggml-small-q5_1.bin",
            approx_size_mb: 190,
        },
        ModelInfo {
            name: "medium",
            filename: "ggml-medium-q5_0.bin",
            url: "https://huggingface.co/ggerganov/whisper.cpp/resolve/main/ggml-medium-q5_0.bin",
            approx_size_mb: 540,
        },
    ];
    assert(r@.map_values(|m: ModelInfo| model_row(m)) =~= model_table());
    r
}

/// The default model: the known model named `small`.
pub fn default_model() -> (r: ModelInfo)
    ensures
        model_row(r) == model_table()[1],
        r.name@ == "small"@,
        starts_with(r.filename@, "ggml-small-"@),
{
    let models = known_models();
    let ghost rows = models@.map_values(|m: ModelInfo| model_row(m));
    proof {
        reveal_strlit("base");
        reveal_strlit("small");
        assert(model_table()[0].0 == "base"@);
        assert(model_table()[1].0 == "small"@);
        assert("base"@.len() == 4);
        assert("small"@.len() == 5);
        assert(rows[0].0 != "small"@);
        assert(rows[1].0 == "small"@);
    }
    let mut i: usize = 0;
    while i < models.len()
        invariant
            rows == models@.map_values(|m: ModelInfo| model_row(m)),
            rows == model_table(),
            i <= models.len(),
            forall|j: int| 0 <= j < i ==> rows[j].0 != "small"@,
            rows[0].0 != "small"@,
            rows[1].0 == "small"@,
        decreases models.len() - i,
    {
        assert(rows[i as int] == model_row(models@[i as int]));
        if str_eq(models[i].name, "small") {
            assert(i == 1);
            proof {
                known_models_are_consistent();
                reveal_strlit("small");
                reveal_strlit("ggml-");
                reveal_strlit("-");
                reveal_strlit("ggml-small-");
                assert("ggml-"@ + "small"@ + "-"@ =~= "ggml-small-"@);
                assert(starts_with(model_table()[1].1, "ggml-"@ + model_table()[1].0 + "-"@));
            }
            return models[i];
        }
        i = i + 1;
    }
    proof {
        assert(rows.len() == models@.len());
        assert(1 < i);
        assert(rows[1].0 != "small"@);
        assert(false);
    }
    models[1]
}

/// The directory of the models under the application's data directory.
pub fn models_dir_in(data_dir: &str) -> (r: String)
    ensures
        r@ == path_join(data_dir@, "models"@),
{
    join(data_dir, "models")
}

/// Where `model` is kept in `models_dir`.
pub fn local_path(models_dir: &str, model: &ModelInfo) -> (r: String)
    ensures
        r@ == path_join(models_dir@, model.filename@),
{
    join(models_dir, model.filename)
}

/// Where a model is written while it downloads, before being renamed.
pub fn partial_download_path(dest: &str) -> (r: String)
    ensures
        r@ == path_with_extension(dest@, "part"@),
{
    proof {
        reveal_strlit("part");
    }
    with_extension(dest, "part")
}

/// Where the checksum of a downloaded model is written.
pub fn checksum_sidecar_path(model_path: &str) -> (r: String)
    ensures
        r@ == path_with_extension(model_path@, "sha256"@),
{
    proof {
        reveal_strlit("sha256");
    }
    with_extension(model_path, "sha256")
}

/// The lower-case hexadecimal digit of `d` (below 16).
pub open spec fn hex_digit(d: u8) -> char {
    if d < 10 {
        (('0' as u32) + d) as char
    } else {
        (('a' as u32) + d - 10) as char
    }
}

/// The lower-case hexadecimal form of `bytes`: two digits per byte, most
/// significant first (what `{:x}` prints for a digest).
pub open spec fn hex(bytes: Seq<u8>) -> Seq<char>
    decreases bytes.len(),
{
    if bytes.len() == 0 {
        Seq::empty()
    } else {
        hex(bytes.drop_last()) + seq![hex_digit(bytes.last() / 16), hex_digit(bytes.last() % 16)]
    }
}

fn hex_digit_exec(d: u8) -> (c: char)
    requires
        d < 16,
    ensures
        c == hex_digit(d),
{
    if d < 10 {
        (d + 48) as char
    } else {
        (d + 87) as char
    }
}

/// The checksum written next to a downloaded model: the digest in
/// lower-case hexadecimal.
pub fn checksum_hex(digest: &[u8]) -> (r: String)
    ensures
        r@ == hex(digest@),
{
    let mut out = String::new();
    let mut i: usize = 0;
    while i < digest.len()
        invariant
            i <= digest@.len(),
            out@ == hex(digest@.take(i as int)),
        decreases digest@.len() - i,
    {
        let b = digest[i];
        crate::text::push_char(&mut out, hex_digit_exec(b / 16));
        crate::text::push_char(&mut out, hex_digit_exec(b % 16));
        proof {
            let t = digest@.take(i + 1);
            assert(t.drop_last() =~= digest@.take(i as int));
            assert(t.last() == b);
            assert(out@ =~= hex(t));
        }
        i = i + 1;
    }
    assert(digest@.take(digest@.len() as int) =~= digest@);
    out
}

// ── checksum of a download ───────────────────────────────────────────────

/// The running SHA-256 of a model download. `sha2::Sha256` cannot be
/// declared to Verus (its type arguments are bounded by traits of other
/// crates), so it is held in a field that Verus does not see; what the hasher
/// has taken in is the name `absorbed`.
#[verifier::external_body]
pub struct ModelChecksum {
    hasher: sha2::Sha256,
}

/// The bytes a checksum has taken in so far, in order.
pub uninterp spec fn absorbed(c: ModelChecksum) -> Seq<u8>;

/// The SHA-256 digest of `data`, as `sha2` computes it.
pub uninterp spec fn sha256(data: Seq<u8>) -> Seq<u8>;

/// `sha2::Sha256::new`: a hasher that has taken in nothing.
#[verifier::external_body]
fn sha256_new() -> (r: ModelChecksum)
    ensures
        absorbed(r) == Seq::<u8>::empty(),
{
    ModelChecksum { hasher: <sha2::Sha256 as sha2::Digest>::new() }
}

/// `sha2::Digest::update`: the hasher takes in `chunk` after what it holds.
#[verifier::external_body]
fn sha256_update(c: &mut ModelChecksum, chunk: &[u8])
    ensures
        absorbed(*final(c)) == absorbed(*old(c)) + chunk@,
{
    sha2::Digest::update(&mut c.hasher, chunk)
}

/// `sha2::Digest::finalize`: the 32-byte SHA-256 digest of everything the
/// hasher took in.
#[verifier::external_body]
fn sha256_finalize(c: ModelChecksum) -> (r: Vec<u8>)
    ensures
        r@ == sha256(absorbed(c)),
        r@.len() == 32,
{
    sha2::Digest::finalize(c.hasher).to_vec()
}

/// A checksum that has taken in nothing yet.
pub fn checksum_start() -> (r: ModelChecksum)
    ensures
        absorbed(r) == Seq::<u8>::empty(),
{
    sha256_new()
}

/// Takes in the next chunk of the download.
pub fn checksum_absorb(c: &mut ModelChecksum, chunk: &[u8])
    ensures
        absorbed(*final(c)) == absorbed(*old(c)) + chunk@,
{
    sha256_update(c, chunk)
}

/// The checksum written next to a downloaded model: the SHA-256 of every
/// byte taken in, in lower-case hexadecimal.
pub fn checksum_finish(c: ModelChecksum) -> (r: String)
    ensures
        r@ == hex(sha256(absorbed(c))),
        r@.len() == 64,
{
    let digest = sha256_finalize(c);
    let r = checksum_hex(digest.as_slice());
    proof {
        lemma_hex_len(digest@);
    }
    r
}

/// Two hexadecimal digits per byte.
proof fn lemma_hex_len(bytes: Seq<u8>)
    ensures
        hex(bytes).len() == 2 * bytes.len(),
    decreases bytes.len(),
{
    if bytes.len() > 0 {
        lemma_hex_len(bytes.drop_last());
    }
}

} // verus!
