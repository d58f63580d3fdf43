use powerplayer::error::AppError;
use powerplayer::media::{
    cached_lyrics_path, find_lrc_for_track, is_supported_audio_path, lrc_sibling_path,
    lyrics_cache_dir, parse_artist_title_from_stem, to_asset_url,
};
use powerplayer::resample::{adapt_channels, resample_frame_count, source_frame};
use powerplayer::stems::{StemKind, StemSeparator};
use powerplayer::wav::wav_file_bytes;

#[test]
fn filename_repair_extracts_artist_and_title() {
    let parsed = parse_artist_title_from_stem("Daft Punk - One More Time");
    assert_eq!(
        parsed,
        Some(("Daft Punk".to_string(), "One More Time".to_string()))
    );
}

#[test]
fn filename_repair_rejects_incomplete_stems() {
    assert_eq!(parse_artist_title_from_stem("NoSeparator"), None);
    assert_eq!(parse_artist_title_from_stem(" - OnlyTitle"), None);
    assert_eq!(parse_artist_title_from_stem("OnlyArtist - "), None);
}

#[test]
fn sibling_lyrics_sit_next_to_the_track() {
    assert_eq!(
        lrc_sibling_path("/music/album/song.flac").as_deref(),
        Some("/music/album/song.lrc")
    );
    assert_eq!(lrc_sibling_path("song").as_deref(), Some("song.lrc"));
    assert_eq!(lrc_sibling_path("/music/dir/"), None);
}

#[test]
fn cached_lyrics_are_content_addressed() {
    let path = cached_lyrics_path("/home/u", "/tmp/song.flac");
    assert_eq!(
        path,
        "/home/u/.lyrics_cache/5e417f2c0f1b4c6c85d0c7cc36aecf23a1fbb0e2c7d8fd851302c573a18f1103.lrc"
    );
    assert_eq!(lyrics_cache_dir("/home/u"), "/home/u/.lyrics_cache");
}

#[test]
fn falls_back_to_cached_lrc_file() {
    let found = find_lrc_for_track("/tmp/song.flac", false, true, "/home/u");
    assert_eq!(
        found.as_deref(),
        Some("/home/u/.lyrics_cache/5e417f2c0f1b4c6c85d0c7cc36aecf23a1fbb0e2c7d8fd851302c573a18f1103.lrc")
    );
    let sidecar = find_lrc_for_track("/tmp/song.flac", true, true, "/home/u");
    assert_eq!(sidecar.as_deref(), Some("/tmp/song.lrc"));
    assert_eq!(find_lrc_for_track("/tmp/song.flac", false, false, "/home/u"), None);
}

#[test]
fn asset_urls_use_forward_slashes() {
    assert_eq!(
        to_asset_url("C:\\cache\\art.jpg"),
        "asset://C:/cache/art.jpg"
    );
    assert_eq!(to_asset_url("/tmp/a.jpg"), "asset:///tmp/a.jpg");
}

#[test]
fn supported_audio_extensions_ignore_case() {
    assert!(is_supported_audio_path("/music/a.flac"));
    assert!(is_supported_audio_path("/music/a.FLAC"));
    assert!(is_supported_audio_path("b.Mp3"));
    assert!(is_supported_audio_path("c.m4a"));
    assert!(is_supported_audio_path("d.ogg"));
    assert!(is_supported_audio_path("e.wav"));
    assert!(!is_supported_audio_path("/music/a.txt"));
    assert!(!is_supported_audio_path("/music/.flac"));
    assert!(!is_supported_audio_path("/music/noext"));
}

#[test]
fn stem_kind_names() {
    assert_eq!(StemKind::Vocals.as_str(), "vocals");
    assert_eq!(StemKind::Drums.as_str(), "drums");
    assert_eq!(StemKind::Bass.as_str(), "bass");
    assert_eq!(StemKind::Other.as_str(), "other");
}

#[test]
fn stem_cache_paths_are_content_addressed() {
    let sep = StemSeparator::new("/cache/stems".to_string());
    assert!(sep.prefer_gpu());
    let paths = sep.expected_paths("/fake/track.flac");
    // The digest of the path starts with 44a77c37fe16940a.
    assert_eq!(paths.vocals, "/cache/stems/44a77c37fe16940a/vocals.wav");
    assert_eq!(paths.drums, "/cache/stems/44a77c37fe16940a/drums.wav");
    assert_eq!(paths.bass, "/cache/stems/44a77c37fe16940a/bass.wav");
    assert_eq!(paths.other, "/cache/stems/44a77c37fe16940a/other.wav");
}

#[test]
fn resample_changes_frame_count() {
    // Four stereo frames at 48 kHz come out as eight at 96 kHz.
    assert_eq!(resample_frame_count(4, 48_000, 96_000), 8);
    assert_eq!(resample_frame_count(48_000, 48_000, 44_100), 44_100);
    // The exact rule is round(n * out / in).
    assert_eq!(resample_frame_count(3, 48_000, 44_100), 3);
    assert_eq!(source_frame(7, 48_000, 96_000), 3);
}

#[test]
fn channel_adaptation_folds_cyclically() {
    let mono: Vec<u32> = vec![10, 20, 30];
    let stereo = adapt_channels(&mono, 1, 2);
    assert_eq!(stereo, vec![10, 10, 20, 20, 30, 30]);
    let back = adapt_channels(&stereo, 2, 2);
    assert_eq!(back, stereo);
    let folded = adapt_channels(&stereo, 2, 3);
    assert_eq!(folded, vec![10, 10, 10, 20, 20, 20, 30, 30, 30]);
}

#[test]
fn write_and_verify_wav() {
    let samples: Vec<u32> = [0.0f32, 0.5, -0.5, 1.0]
        .iter()
        .map(|s| s.to_bits())
        .collect();
    let bytes = wav_file_bytes(&samples, 44_100, 2);
    assert_eq!(&bytes[0..4], b"RIFF");
    assert_eq!(&bytes[8..12], b"WAVE");
    assert_eq!(bytes.len(), 44 + 16);
    // Format tag 3 marks IEEE float.
    assert_eq!(bytes[20], 3);
    assert_eq!(&bytes[44..48], &0.0f32.to_bits().to_le_bytes());
    assert_eq!(&bytes[48..52], &0.5f32.to_bits().to_le_bytes());
    assert_eq!(&bytes[52..56], &(-0.5f32).to_bits().to_le_bytes());
}

#[test]
fn app_error_carries_code_and_message() {
    let err = AppError::db("database unavailable".to_string());
    assert_eq!(err.code(), "DB_ERROR");
    assert_eq!(err.message(), "database unavailable");
    assert_eq!(AppError::dsp(String::new()).code(), "DSP_ERROR");
    assert_eq!(AppError::fs(String::new()).code(), "FS_ERROR");
}
