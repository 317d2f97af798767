use fidelitas::{parse_media_dir, MediaCatalog, MediaFile, ParseMediaConfig};

fn defaults() -> ParseMediaConfig {
    let exts: Vec<String> =
        ["mp3", "ogg", "opus", "wav", "m4a"].iter().map(|e| e.to_string()).collect();
    ParseMediaConfig::new(&exts)
}

fn file(path: &str, name: &str, readable: bool) -> MediaFile {
    MediaFile { path: path.to_string(), file_name: name.to_string(), readable }
}

fn entries(c: &MediaCatalog) -> Vec<(u64, String)> {
    c.items().iter().map(|i| (i.id, i.path.clone())).collect()
}

#[test]
fn catalog_assigns_ids_in_walk_order() {
    let files = vec![
        file("m/a.mp3", "a.mp3", true),
        file("m/notes.txt", "notes.txt", true),
        file("m/sub/b.ogg", "b.ogg", true),
        file("m/sub/c.wav", "c.wav", true),
    ];
    let (next, catalog) = parse_media_dir(0, &files, &defaults());
    assert_eq!(next, 3);
    assert_eq!(
        entries(&catalog),
        vec![
            (0, "m/a.mp3".to_string()),
            (1, "m/sub/b.ogg".to_string()),
            (2, "m/sub/c.wav".to_string()),
        ]
    );
    assert_eq!(catalog.lookup(1), Some("m/sub/b.ogg".to_string()));
    assert_eq!(catalog.lookup(3), None);
    assert_eq!(catalog.len(), 3);
}

#[test]
fn catalog_starts_at_the_given_id() {
    let files = vec![file("x.opus", "x.opus", true), file("y.m4a", "y.m4a", true)];
    let (next, catalog) = parse_media_dir(40, &files, &defaults());
    assert_eq!(next, 42);
    assert_eq!(entries(&catalog), vec![(40, "x.opus".to_string()), (41, "y.m4a".to_string())]);
}

#[test]
fn catalog_skips_unreadable_files() {
    let files = vec![file("bad.mp3", "bad.mp3", false), file("good.mp3", "good.mp3", true)];
    let (next, catalog) = parse_media_dir(0, &files, &defaults());
    assert_eq!(next, 1);
    assert_eq!(entries(&catalog), vec![(0, "good.mp3".to_string())]);
}

#[test]
fn catalog_of_no_media_is_empty() {
    let files = vec![file("readme", "readme", true), file("cover.jpg", "cover.jpg", true)];
    let (next, catalog) = parse_media_dir(5, &files, &defaults());
    assert_eq!(next, 5);
    assert_eq!(catalog.len(), 0);
    let (next, catalog) = parse_media_dir(0, &Vec::new(), &defaults());
    assert_eq!(next, 0);
    assert_eq!(catalog.len(), 0);
}

#[test]
fn extension_must_match_exactly() {
    let c = defaults();
    assert!(c.is_media_file_name("song.mp3"));
    assert!(c.is_media_file_name("a.b.ogg"));
    assert!(c.is_media_file_name("..mp3"));
    assert!(!c.is_media_file_name("song.MP3"));
    assert!(!c.is_media_file_name(".mp3"));
    assert!(!c.is_media_file_name("song.mp3.txt"));
    assert!(!c.is_media_file_name("song.mp33"));
    assert!(!c.is_media_file_name("songmp3"));
    assert!(!c.is_media_file_name("song."));
    assert!(!c.is_media_file_name(""));
}

#[test]
fn extra_extensions_are_accepted() {
    let c = ParseMediaConfig::new(&vec!["flac".to_string(), "MP3".to_string()]);
    assert!(c.is_media_file_name("x.flac"));
    assert!(c.is_media_file_name("x.MP3"));
    assert!(!c.is_media_file_name("x.mp3"));
}
