use light_gen_subz::commands::MEDIA_EXTENSIONS;

#[test]
fn the_media_filter_covers_video_and_audio() {
    for ext in ["mp4", "mkv", "mov", "webm"] {
        assert!(MEDIA_EXTENSIONS.contains(&ext), "vidéo manquante : {ext}");
    }
    for ext in ["mp3", "wav", "m4a", "flac", "ogg"] {
        assert!(MEDIA_EXTENSIONS.contains(&ext), "audio manquant : {ext}");
    }
}

#[test]
fn the_media_filter_has_no_duplicate() {
    let unique: std::collections::HashSet<_> = MEDIA_EXTENSIONS.iter().collect();

    assert_eq!(unique.len(), MEDIA_EXTENSIONS.len());
}

#[test]
fn the_extensions_are_lower_case_and_dotless() {
    for ext in MEDIA_EXTENSIONS {
        assert!(!ext.starts_with('.'), "{ext} ne doit pas porter de point");
        assert_eq!(ext, ext.to_lowercase(), "{ext} doit être en minuscules");
    }
}
