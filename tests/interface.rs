use tapedeck::cassette::CassetteWidget;
use tapedeck::library::{is_audio_extension, Album, MusicLibrary, TrackMetadata};
use tapedeck::text::text_le_exec;
use tapedeck::theme::{AppState, Color, Theme};

fn track(title: &str, artist: &str, album: &str, number: Option<u32>) -> TrackMetadata {
    TrackMetadata {
        title: title.to_string(),
        artist: artist.to_string(),
        album: album.to_string(),
        track_number: number,
        duration: Some(1000),
        file_path: format!("/music/{}.flac", title),
    }
}

#[test]
fn cassette_turns_only_while_playing() {
    let mut c = CassetteWidget::new();
    assert_eq!(c.get_wheel_char(), '|');
    c.update();
    assert_eq!(c.frame(), 0);
    c.set_playing(true);
    let mut seen = Vec::new();
    for _ in 0..4 {
        c.update();
        seen.push(c.get_wheel_char());
    }
    assert_eq!(seen, vec!['/', '-', '\\', '|']);
    assert!(c.shows_wheel_at(4, 6));
    assert!(!c.shows_wheel_at(0, 0));
    c.set_playing(false);
    assert!(!c.shows_wheel_at(4, 6));
    assert_eq!(c.get_cassette_art().len(), 12);
    assert_eq!(c.get_wheel_positions(), vec![(4, 6), (4, 11), (7, 6), (7, 11)]);
}

#[test]
fn themes_cycle_back_to_start() {
    let mut s = AppState::new();
    assert_eq!(s.current_theme, Theme::System);
    s.cycle_theme();
    assert_eq!(s.current_theme, Theme::Dark);
    for _ in 0..13 {
        s.cycle_theme();
    }
    assert_eq!(s.current_theme, Theme::Dark);
    s.toggle_rainbow_mode();
    s.toggle_shortcuts();
    s.toggle_directory_selector();
    assert!(s.rainbow_mode);
    assert!(!s.show_shortcuts);
    assert!(s.show_directory_selector);
    assert!(s.show_albums);
}

#[test]
fn display_names() {
    let t = track("Intro", "A", "B", Some(12));
    assert_eq!(t.display_title(), "12. Intro");
    assert_eq!(track("Intro", "A", "B", None).display_title(), "Intro");
    assert_eq!(t.display_artist(), "A");
    assert_eq!(t.display_album(), "B");
    let a = Album::new("Blue".to_string(), "Band".to_string());
    assert_eq!(a.display_name(), "Band - Blue");
    let u = Album::new("Blue".to_string(), "Unknown Artist".to_string());
    assert_eq!(u.display_name(), "Blue");
}

#[test]
fn album_keeps_track_order() {
    let mut a = Album::new("X".to_string(), "Y".to_string());
    a.add_track(track("three", "Y", "X", Some(3)));
    a.add_track(track("one", "Y", "X", Some(1)));
    a.add_track(track("none", "Y", "X", None));
    a.add_track(track("other one", "Y", "X", Some(1)));
    let titles: Vec<String> = a.tracks.iter().map(|t| t.title.clone()).collect();
    assert_eq!(titles, vec!["none", "one", "other one", "three"]);
}

#[test]
fn text_order() {
    assert!(text_le_exec("abc", "abd"));
    assert!(text_le_exec("ab", "abc"));
    assert!(!text_le_exec("b", "abc"));
    assert!(text_le_exec("", ""));
}

fn sample_library() -> MusicLibrary {
    let mut lib = MusicLibrary::new();
    lib.begin_scan("/music".to_string());
    lib.add_scanned_track(track("z2", "Zed", "Last", Some(2)));
    lib.add_scanned_track(track("a1", "Abe", "First", Some(1)));
    lib.add_scanned_track(track("z1", "Zed", "Last", Some(1)));
    lib.add_scanned_track(track("m1", "Unknown Artist", "Middle", None));
    lib
}

#[test]
fn scanned_tracks_group_into_sorted_albums() {
    let lib = sample_library();
    let names: Vec<String> = lib.albums.iter().map(|a| a.display_name()).collect();
    assert_eq!(names, vec!["Abe - First", "Middle", "Zed - Last"]);
    assert_eq!(lib.all_tracks.len(), 4);
    let last: Vec<String> = lib.albums[2].tracks.iter().map(|t| t.title.clone()).collect();
    assert_eq!(last, vec!["z1", "z2"]);
    assert_eq!(lib.music_directory, Some("/music".to_string()));
}

#[test]
fn navigation_wraps_round() {
    let mut lib = sample_library();
    assert_eq!(lib.album_count(), 3);
    assert!(!lib.is_empty());
    lib.prev_album();
    assert_eq!(lib.current_album_index, 2);
    lib.next_track();
    assert_eq!(lib.current_track_index, 1);
    lib.next_track();
    assert_eq!(lib.current_track_index, 0);
    lib.prev_track();
    assert_eq!(lib.current_track_index, 1);
    assert_eq!(lib.get_current_track_path(), Some("/music/z2.flac".to_string()));
    lib.next_album();
    assert_eq!((lib.current_album_index, lib.current_track_index), (0, 0));
    lib.set_album(7);
    assert_eq!(lib.current_album_index, 0);
    lib.set_album(2);
    lib.set_track(1);
    assert_eq!(lib.current_track_index, 1);
    lib.set_track(5);
    assert_eq!(lib.current_track_index, 1);
    assert_eq!(lib.track_count(), 2);
    assert_eq!(lib.get_album_tracks(0).map(|v| v.len()), Some(1));
    assert!(lib.get_album_tracks(3).is_none());
    assert_eq!(lib.get_current_track().map(|t| t.title.clone()), Some("z2".to_string()));
    assert_eq!(lib.get_current_album().map(|a| a.name.clone()), Some("Last".to_string()));
}

#[test]
fn empty_library_navigation_changes_nothing() {
    let mut lib = MusicLibrary::new();
    lib.next_album();
    lib.prev_album();
    lib.next_track();
    lib.prev_track();
    assert_eq!((lib.current_album_index, lib.current_track_index), (0, 0));
    assert!(lib.is_empty());
    assert_eq!(lib.track_count(), 0);
    assert!(lib.get_current_track_path().is_none());
}

#[test]
fn audio_extensions_in_any_case() {
    assert!(is_audio_extension("mp3"));
    assert!(is_audio_extension("FLAC"));
    assert!(is_audio_extension("M4a"));
    assert!(!is_audio_extension("txt"));
    assert!(!is_audio_extension(""));
}

#[test]
fn theme_palettes() {
    let dark = Theme::Dark.colors();
    assert_eq!(dark.background, Color::Black);
    assert_eq!(dark.highlight, Color::Magenta);
    let system = Theme::System.colors();
    assert_eq!(system.background, Color::Rgb(0, 15, 20));
    assert_eq!(system.accent, Color::Rgb(255, 255, 0));
    assert_ne!(Theme::Light.colors(), dark);
}
