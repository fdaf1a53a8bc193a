use std::cmp::Ordering;

use voiceforge::listing::{
    bytes_before, comes_before, display_path, filter_entries, is_shown, resolve_dir, split_input,
    DirEntry, Listed,
};
use voiceforge::sorting::{list_matches, order_of};

fn entry(name: &str, is_dir: bool) -> DirEntry {
    DirEntry { name: name.to_string(), is_dir }
}

fn listed(path: &str, is_dir: bool) -> Listed {
    Listed { path: path.to_string(), is_dir }
}

fn paths_of(list: Vec<Listed>) -> Vec<String> {
    list.into_iter().map(|l| l.path).collect()
}

#[test]
fn test_split_input_at_last_slash() {
    assert_eq!(split_input("src/ma"), ("src/".to_string(), "ma".to_string()));
    assert_eq!(split_input("a/b/c"), ("a/b/".to_string(), "c".to_string()));
    assert_eq!(split_input("a/b/"), ("a/b/".to_string(), "".to_string()));
    assert_eq!(split_input("/"), ("/".to_string(), "".to_string()));
    assert_eq!(split_input("song"), (".".to_string(), "song".to_string()));
    assert_eq!(split_input(""), (".".to_string(), "".to_string()));
    assert_eq!(split_input("müsik/ä"), ("müsik/".to_string(), "ä".to_string()));
    assert_eq!(split_input("~/x"), ("~/".to_string(), "x".to_string()));
}

#[test]
fn test_resolve_dir() {
    assert_eq!(resolve_dir("~/", Some("/home/u")), "/home/u/");
    assert_eq!(resolve_dir("~/music/", Some("/home/u")), "/home/u/music/");
    assert_eq!(resolve_dir("~/music/", None), ".");
    assert_eq!(resolve_dir("", Some("/home/u")), ".");
    assert_eq!(resolve_dir("", None), ".");
    assert_eq!(resolve_dir(".", None), ".");
    assert_eq!(resolve_dir("src/", Some("/home/u")), "src/");
    assert_eq!(resolve_dir("~", Some("/home/u")), "~");
    assert_eq!(resolve_dir("~x/", Some("/home/u")), "~x/");
}

#[test]
fn test_is_shown() {
    assert!(is_shown("main.rs", ""));
    assert!(is_shown("main.rs", "ma"));
    assert!(is_shown("main.rs", "main.rs"));
    assert!(!is_shown("main.rs", "main.rs2"));
    assert!(!is_shown("main.rs", "Ma"));
    assert!(!is_shown(".git", ""));
    assert!(!is_shown(".git", "g"));
    assert!(is_shown(".git", "."));
    assert!(is_shown(".git", ".g"));
    assert!(!is_shown("git", "."));
    assert!(is_shown("", ""));
    assert!(is_shown("ärger", "ä"));
}

#[test]
fn test_display_path() {
    assert_eq!(display_path(".", "a.wav", false), "a.wav");
    assert_eq!(display_path(".", "src", true), "src/");
    assert_eq!(display_path("src/", "a.wav", false), "src/a.wav");
    assert_eq!(display_path("src/", "dsp", true), "src/dsp/");
    assert_eq!(display_path("./", "a", false), "./a");
    assert_eq!(display_path("", "a", true), "a/");
}

#[test]
fn test_bytes_before() {
    assert!(bytes_before(b"", b"a"));
    assert!(!bytes_before(b"", b""));
    assert!(!bytes_before(b"a", b""));
    assert!(bytes_before(b"a", b"b"));
    assert!(!bytes_before(b"b", b"a"));
    assert!(bytes_before(b"ab", b"abc"));
    assert!(!bytes_before(b"abc", b"ab"));
    assert!(!bytes_before(b"abc", b"abc"));
    assert!(bytes_before(b"Z", b"a"));
    assert!(bytes_before(b"a\x7f", b"a\x80"));
}

#[test]
fn test_order_of_suggestions() {
    let dir_b = listed("b/", true);
    let dir_a = listed("a/", true);
    let file_a = listed("a", false);
    let file_b = listed("b", false);
    assert!(comes_before(&dir_b, &file_a));
    assert!(!comes_before(&file_a, &dir_b));
    assert!(comes_before(&dir_a, &dir_b));
    assert!(comes_before(&file_a, &file_b));
    assert!(!comes_before(&file_a, &file_a));
    assert_eq!(order_of(&dir_b, &file_a), Ordering::Less);
    assert_eq!(order_of(&file_a, &dir_b), Ordering::Greater);
    assert_eq!(order_of(&file_b, &file_a), Ordering::Greater);
    assert_eq!(order_of(&file_a, &file_a), Ordering::Equal);
    assert_eq!(order_of(&file_a, &file_b), "a".cmp("b"));
}

#[test]
fn test_filter_keeps_entry_order() {
    let entries = vec![
        entry("zeta.wav", false),
        entry(".hidden", false),
        entry("zoo", true),
        entry("alpha", true),
        entry("zebra.mp3", false),
    ];
    assert_eq!(
        filter_entries(".", "z", &entries),
        vec![listed("zeta.wav", false), listed("zoo/", true), listed("zebra.mp3", false)]
    );
}

#[test]
fn test_list_matches_sorts_directories_first() {
    let entries = vec![
        entry("zeta.wav", false),
        entry(".hidden", false),
        entry("zoo", true),
        entry("alpha", true),
        entry("beta.flac", false),
        entry("Zed", true),
        entry("alpha.wav", false),
    ];
    assert_eq!(
        paths_of(list_matches(".", "", &entries)),
        vec!["Zed/", "alpha/", "zoo/", "alpha.wav", "beta.flac", "zeta.wav"]
    );
    assert_eq!(
        paths_of(list_matches("music/", "z", &entries)),
        vec!["music/zoo/", "music/zeta.wav"]
    );
    assert_eq!(paths_of(list_matches(".", ".", &entries)), vec![".hidden"]);
    assert_eq!(paths_of(list_matches(".", "q", &entries)), Vec::<String>::new());
    assert_eq!(paths_of(list_matches(".", "", &Vec::new())), Vec::<String>::new());
}

#[test]
fn test_list_matches_keeps_duplicates() {
    let entries = vec![entry("b", false), entry("a", false), entry("b", false)];
    assert_eq!(paths_of(list_matches(".", "", &entries)), vec!["a", "b", "b"]);
}
