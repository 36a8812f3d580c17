use swirl::{get_file_name, scan_pattern, ScanError, Track, TrackCatalog};

fn paths(v: &[&str]) -> Vec<String> {
    v.iter().map(|s| s.to_string()).collect()
}

#[test]
fn file_name_is_last_segment() {
    assert_eq!(get_file_name("/music/a.mp3"), "a.mp3");
    assert_eq!(get_file_name("C:\\music\\b.mp3"), "b.mp3");
    assert_eq!(get_file_name("/music\\mixed/c.mp3"), "c.mp3");
}

#[test]
fn file_name_without_separator_is_whole_path() {
    assert_eq!(get_file_name("song.mp3"), "song.mp3");
    assert_eq!(get_file_name(""), "");
}

#[test]
fn file_name_of_trailing_separator_is_empty() {
    assert_eq!(get_file_name("/music/"), "");
    assert_eq!(get_file_name("/"), "");
}

#[test]
fn track_new_names_by_final_segment() {
    let t = Track::new("/home/u/music/x y.mp3".to_string());
    assert_eq!(t.path, "/home/u/music/x y.mp3");
    assert_eq!(t.name, "x y.mp3");
}

#[test]
fn scan_pattern_appends_audio_glob() {
    assert_eq!(scan_pattern("/music"), "/music/*.mp3");
    assert_eq!(scan_pattern(""), "/*.mp3");
}

#[test]
fn catalog_has_one_track_per_match() {
    let c = TrackCatalog::from_paths(&paths(&["/d/b.mp3", "/d/a.mp3", "/d/c.mp3"]));
    assert_eq!(c.tracks.len(), 3);
    let names: Vec<&str> = c.tracks.iter().map(|t| t.name.as_str()).collect();
    assert_eq!(names, vec!["b.mp3", "a.mp3", "c.mp3"]);
    for t in &c.tracks {
        assert_eq!(t.name, get_file_name(&t.path));
    }
}

#[test]
fn catalog_of_no_matches_is_empty() {
    let c = TrackCatalog::from_listing(&Ok(Vec::new()));
    assert!(c.tracks.is_empty());
}

#[test]
fn catalog_of_unreadable_directory_is_empty() {
    let c = TrackCatalog::from_listing(&Err(ScanError::Unreadable));
    assert!(c.tracks.is_empty());
}

#[test]
fn catalog_built_twice_is_the_same() {
    let listing = Ok(paths(&["/m/a.mp3", "/m/b.mp3"]));
    let c1 = TrackCatalog::from_listing(&listing);
    let c2 = TrackCatalog::from_listing(&listing);
    let v1: Vec<(String, String)> = c1.tracks.iter().map(|t| (t.name.clone(), t.path.clone())).collect();
    let v2: Vec<(String, String)> = c2.tracks.iter().map(|t| (t.name.clone(), t.path.clone())).collect();
    assert_eq!(v1, v2);
}

#[test]
fn catalog_contains_only_its_paths() {
    let c = TrackCatalog::from_paths(&paths(&["/m/a.mp3"]));
    assert!(c.contains(&"/m/a.mp3".to_string()));
    assert!(!c.contains(&"/m/b.mp3".to_string()));
    assert!(!TrackCatalog::empty().contains(&"/m/a.mp3".to_string()));
}
