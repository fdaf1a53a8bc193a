use voiceforge::export::{default_export_path, export_file_name, ExportError};
use voiceforge::text::{append_decimal, join_path};

#[test]
fn test_default_export_path_basic() {
    let path = default_export_path("/home/user/music", "song", &Vec::new());
    assert_eq!(path, "/home/user/music/song_processed.wav");
}

#[test]
fn test_default_export_path_collision() {
    let existing = vec!["song_processed.wav".to_string(), "song.mp3".to_string()];
    let result = default_export_path("/tmp/voiceforge_test_export_collision", "song", &existing);
    assert_eq!(
        result, "/tmp/voiceforge_test_export_collision/song_processed_2.wav",
        "should append _2 when default exists"
    );
}

#[test]
fn test_default_export_path_skips_every_taken_name() {
    let existing = vec![
        "song_processed_3.wav".to_string(),
        "song_processed.wav".to_string(),
        "song_processed_2.wav".to_string(),
        "song_processed_5.wav".to_string(),
    ];
    assert_eq!(default_export_path("", "song", &existing), "song_processed_4.wav");
    assert_eq!(default_export_path("out/", "song", &existing), "out/song_processed_4.wav");
}

#[test]
fn test_default_export_path_falls_back_when_all_taken() {
    let mut existing: Vec<String> = Vec::new();
    for n in 1..=9999u32 {
        existing.push(export_file_name("a", n));
    }
    assert_eq!(default_export_path(".", "a", &existing), "./a_processed.wav");
    existing.pop();
    assert_eq!(default_export_path(".", "a", &existing), "./a_processed_9999.wav");
}

#[test]
fn test_export_file_names() {
    assert_eq!(export_file_name("song", 1), "song_processed.wav");
    assert_eq!(export_file_name("song", 2), "song_processed_2.wav");
    assert_eq!(export_file_name("song", 10), "song_processed_10.wav");
    assert_eq!(export_file_name("", 4294967295), "_processed_4294967295.wav");
    assert_eq!(export_file_name("output", 0), "output_processed_0.wav");
}

#[test]
fn test_join_path_forms() {
    assert_eq!(join_path("", "x.wav"), "x.wav");
    assert_eq!(join_path("/", "x.wav"), "/x.wav");
    assert_eq!(join_path("a/b", "x.wav"), "a/b/x.wav");
    assert_eq!(join_path("a/b/", "x.wav"), "a/b/x.wav");
    assert_eq!(join_path("müsik", "x.wav"), "müsik/x.wav");
}

#[test]
fn test_append_decimal() {
    let mut text = String::from("n=");
    append_decimal(&mut text, 0);
    append_decimal(&mut text, 907);
    append_decimal(&mut text, u64::MAX);
    assert_eq!(text, "n=090718446744073709551615");
}

#[test]
fn test_export_error_text() {
    let e = ExportError("cannot create file: denied".to_string());
    assert_eq!(e.describe(), "export error: cannot create file: denied");
}
