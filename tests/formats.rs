use audio_player::{detect_format, has_suffix, same_text, AudioFormat, FormatError};

#[test]
fn detected_audio_subtypes() {
    assert_eq!(detect_format("audio", "mpeg", "/x"), Ok(AudioFormat::Mp3));
    assert_eq!(detect_format("audio", "wav", "/x"), Ok(AudioFormat::Wav));
    assert_eq!(detect_format("audio", "x-wav", "/x"), Ok(AudioFormat::Wav));
    assert_eq!(detect_format("audio", "ogg", "/x"), Ok(AudioFormat::Opus));
    assert_eq!(detect_format("audio", "flac", "/x"), Ok(AudioFormat::Flac));
    assert_eq!(detect_format("audio", "x-flac", "/x.mp3"), Ok(AudioFormat::Flac));
}

#[test]
fn extension_fallback() {
    assert_eq!(detect_format("application", "octet-stream", "/m/a.mp3"), Ok(AudioFormat::Mp3));
    assert_eq!(detect_format("text", "plain", "/m/a.wav"), Ok(AudioFormat::Wav));
    assert_eq!(detect_format("application", "ogg", "/m/a.opus"), Ok(AudioFormat::Opus));
}

#[test]
fn rejected_files() {
    assert_eq!(detect_format("text", "plain", "/m/a.txt"), Err(FormatError::NotAudio));
    assert_eq!(detect_format("application", "x-flac", "/m/a.flac"), Err(FormatError::NotAudio));
    assert_eq!(detect_format("audio", "aac", "/m/a.mp3"), Err(FormatError::Unsupported));
    assert_eq!(detect_format("audio", "MPEG", "/m/a"), Err(FormatError::Unsupported));
}

#[test]
fn text_helpers() {
    assert!(same_text("wav", "wav"));
    assert!(!same_text("wav", "wave"));
    assert!(!same_text("wav", "waw"));
    assert!(has_suffix("song.mp3", ".mp3"));
    assert!(has_suffix(".mp3", ".mp3"));
    assert!(!has_suffix("mp3", ".mp3"));
    assert!(!has_suffix("song.mp3x", ".mp3"));
    assert!(has_suffix("äöü.opus", ".opus"));
}
