use light_gen_subz::pipeline::audio_extract::{ffmpeg_command_args, wav_output_path, FFMPEG_AUDIO_ARGS};

#[test]
fn the_wav_takes_the_source_name_inside_the_cache() {
    assert_eq!(wav_output_path("/home/me/clip.mp4", "/cache"), "/cache/clip.wav");
}

#[test]
fn a_dotted_source_name_only_loses_its_last_extension() {
    assert_eq!(
        wav_output_path("/home/me/s01.e02.mkv", "/cache"),
        "/cache/s01.e02.wav"
    );
}

#[test]
fn a_source_without_a_usable_stem_falls_back_to_audio() {
    assert_eq!(wav_output_path("/", "/cache"), "/cache/audio.wav");
}

#[test]
fn two_sources_do_not_collide_in_the_cache() {
    let a = wav_output_path("/a/clip.mp4", "/cache");
    let b = wav_output_path("/a/other.mp4", "/cache");

    assert_ne!(a, b);
}

#[test]
fn the_conversion_matches_what_whisper_expects() {
    // whisper.cpp n'accepte que du PCM 16 bits mono à 16 kHz.
    let args = FFMPEG_AUDIO_ARGS;
    let after = |flag: &str| {
        args.iter()
            .position(|a| *a == flag)
            .map(|i| args[i + 1])
            .unwrap_or_else(|| panic!("{flag} absent"))
    };
    assert_eq!(after("-ar"), "16000");
    assert_eq!(after("-ac"), "1");
    assert_eq!(after("-c:a"), "pcm_s16le");
}

#[test]
fn ffmpeg_reads_the_source_and_writes_the_wav_last() {
    let args = ffmpeg_command_args("/home/me/clip.mp4", "/cache/clip.wav");

    assert_eq!(
        args,
        vec!["-y", "-i", "/home/me/clip.mp4", "-ar", "16000", "-ac", "1", "-c:a", "pcm_s16le", "/cache/clip.wav"]
    );
}
