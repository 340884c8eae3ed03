//! Where the audio track extracted with ffmpeg goes, and how ffmpeg is told
//! to produce what whisper.cpp expects.
use vstd::prelude::*;

use crate::paths::{file_stem, join, path_file_stem, path_join};
use crate::text::concat;

verus! {

/// The conversion whisper.cpp needs: 16 kHz, mono, signed 16-bit PCM.
pub const FFMPEG_AUDIO_ARGS: [&'static str; 6] = ["-ar", "16000", "-ac", "1", "-c:a", "pcm_s16le"];

/// The file name of the extracted track: the source's stem (`"audio"` when
/// it has none) with `.wav`.
pub open spec fn wav_file_name(stem: Option<Seq<char>>) -> Seq<char> {
    match stem {
        Some(s) => s + ".wav"@,
        None => "audio.wav"@,
    }
}

/// Two sources with different stems get different track names: they do not
/// overwrite each other in the cache.
pub proof fn distinct_stems_do_not_collide(first: Seq<char>, second: Seq<char>)
    requires
        first != second,
    ensures
        wav_file_name(Some(first)) != wav_file_name(Some(second)),
{
    let a = first + ".wav"@;
    let b = second + ".wav"@;
    assert(wav_file_name(Some(first)) == a);
    assert(wav_file_name(Some(second)) == b);
    assert(a.len() == first.len() + ".wav"@.len());
    assert(b.len() == second.len() + ".wav"@.len());
    if a == b {
        assert(first.len() == second.len());
        assert(a.subrange(0, first.len() as int) =~= first);
        assert(b.subrange(0, second.len() as int) =~= second);
    }
}

/// `<cache>/<source stem>.wav`.
pub fn wav_output_path(input_path: &str, cache_dir: &str) -> (r: String)
    ensures
        r@ == path_join(cache_dir@, wav_file_name(path_file_stem(input_path@))),
{
    let name = match file_stem(input_path) {
        Some(stem) => concat(stem.as_str(), ".wav"),
        None => "audio.wav".to_owned(),
    };
    join(cache_dir, name.as_str())
}

/// The arguments ffmpeg is run with: overwrite, read `input_path`, convert
/// as whisper.cpp needs, write `out_path`.
pub fn ffmpeg_command_args(input_path: &str, out_path: &str) -> (r: Vec<String>)
    ensures
        r@.map_values(|s: String| s@) == seq!["-y"@, "-i"@, input_path@, "-ar"@, "16000"@, "-ac"@, "1"@, "-c:a"@, "pcm_s16le"@, out_path@],
{
    let mut args: Vec<String> = Vec::new();
    args.push("-y".to_owned());
    args.push("-i".to_owned());
    args.push(input_path.to_owned());
    let audio = FFMPEG_AUDIO_ARGS;
    assert(audio@.map_values(|s: &str| s@) =~= seq!["-ar"@, "16000"@, "-ac"@, "1"@, "-c:a"@, "pcm_s16le"@]);
    let mut i: usize = 0;
    while i < 6
        invariant
            audio@.map_values(|s: &str| s@) == seq!["-ar"@, "16000"@, "-ac"@, "1"@, "-c:a"@, "pcm_s16le"@],
            audio@.len() == 6,
            0 <= i <= 6,
            args@.len() == 3 + i,
            args@[0]@ == "-y"@,
            args@[1]@ == "-i"@,
            args@[2]@ == input_path@,
            forall|j: int| 0 <= j < i ==> #[trigger] args@[3 + j]@ == audio@[j]@,
        decreases 6 - i,
    {
        args.push(audio[i].to_owned());
        i = i + 1;
    }
    let ghost before = args@;
    args.push(out_path.to_owned());
    proof {
        let expected = seq!["-y"@, "-i"@, input_path@, "-ar"@, "16000"@, "-ac"@, "1"@, "-c:a"@, "pcm_s16le"@, out_path@];
        let audio_view = seq!["-ar"@, "16000"@, "-ac"@, "1"@, "-c:a"@, "pcm_s16le"@];
        assert forall|k: int| 0 <= k < 10 implies #[trigger] args@[k]@ == expected[k] by {
            if 3 <= k < 9 {
                assert(before[k] == args@[k]);
                assert(before[3 + (k - 3)]@ == audio@[k - 3]@);
                assert(audio@.map_values(|s: &str| s@)[k - 3] == audio@[k - 3]@);
                assert(audio_view[k - 3] == expected[k]);
            }
        }
        assert(args@.map_values(|s: String| s@) =~= expected);
    }
    args
}

} // verus!
