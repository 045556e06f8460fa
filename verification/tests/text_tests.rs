use music_scan::greet;
use music_scan::text::classify_extension;
use music_scan::text::classify_file_name;
use music_scan::text::extension;
use music_scan::text::to_lower_char;

#[test]
fn every_allow_listed_extension_is_audio() {
    for ext in ["mp3", "wav", "ogg", "m4a", "aac", "flac"] {
        assert!(classify_extension(ext), "{} must classify as audio", ext);
    }
}

#[test]
fn classification_ignores_ascii_case() {
    assert!(classify_extension("FLAC"));
    assert!(classify_extension("Mp3"));
    assert!(classify_extension("WaV"));
}

#[test]
fn other_extensions_are_not_audio() {
    assert!(!classify_extension("txt"));
    assert!(!classify_extension("mp4"));
    assert!(!classify_extension(""));
    assert!(!classify_extension("mp33"));
}

#[test]
fn extension_is_the_text_after_the_last_dot() {
    assert_eq!(extension("song.mp3"), Some("mp3".to_string()));
    assert_eq!(extension("archive.tar.gz"), Some("gz".to_string()));
    assert_eq!(extension("noext"), None);
    assert_eq!(extension("trailing."), Some(String::new()));
    assert_eq!(extension(".mp3"), Some("mp3".to_string()));
    assert_eq!(extension(""), None);
}

#[test]
fn file_names_classify_by_their_extension() {
    assert!(classify_file_name("song.mp3"));
    assert!(classify_file_name("track.FLAC"));
    assert!(!classify_file_name("note.txt"));
    assert!(!classify_file_name("noext"));
    assert!(!classify_file_name("trailing."));
}

#[test]
fn lowering_touches_only_ascii_uppercase() {
    assert_eq!(to_lower_char('A'), 'a');
    assert_eq!(to_lower_char('Z'), 'z');
    assert_eq!(to_lower_char('a'), 'a');
    assert_eq!(to_lower_char('3'), '3');
    assert_eq!(to_lower_char('.'), '.');
    assert_eq!(to_lower_char('_'), '_');
}

#[test]
fn greeting_echoes_the_name() {
    assert_eq!(greet("Verus"), "Hello, Verus! You've been greeted from Rust!");
}
