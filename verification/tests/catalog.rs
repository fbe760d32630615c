use spotify_tui::spotify::{
    bearer_header, build_playlist_entries, choose_device_id, format_duration, is_dj_playlist,
    liked_songs_uri, saved_track_uris, Album, Artist, Device, PlaylistKind, PlaylistSummary, Track,
};

fn device(id: Option<&str>, name: &str, active: bool) -> Device {
    Device { id: id.map(|s| s.to_string()), name: name.to_string(), is_active: active }
}

fn summary(name: &str, uri: &str, total: u32) -> PlaylistSummary {
    PlaylistSummary { name: name.to_string(), uri: uri.to_string(), total_tracks: total }
}

fn song(uri: &str) -> Track {
    Track {
        id: "i".to_string(),
        name: "n".to_string(),
        artists: vec![Artist { name: "a".to_string() }],
        album: Album { name: "b".to_string(), images: vec![] },
        duration_ms: 1,
        uri: uri.to_string(),
    }
}

#[test]
fn durations_as_minutes_and_seconds() {
    assert_eq!(format_duration(0), "0:00");
    assert_eq!(format_duration(999), "0:00");
    assert_eq!(format_duration(65_000), "1:05");
    assert_eq!(format_duration(61_500), "1:01");
    assert_eq!(format_duration(600_000), "10:00");
    assert_eq!(format_duration(3_599_999), "59:59");
    assert_eq!(format_duration(7_260_000), "121:00");
}

#[test]
fn headers_and_uris() {
    assert_eq!(bearer_header("tok"), "Bearer tok");
    assert_eq!(liked_songs_uri("alice"), "spotify:user:alice:collection");
}

#[test]
fn device_choice_prefers_active() {
    assert_eq!(choose_device_id(&vec![]), None);
    let ds = vec![device(Some("a"), "A", false), device(Some("b"), "B", true), device(Some("c"), "C", true)];
    assert_eq!(choose_device_id(&ds), Some("b".to_string()));
    let ds = vec![device(Some("a"), "A", false), device(Some("b"), "B", false)];
    assert_eq!(choose_device_id(&ds), Some("a".to_string()));
    let ds = vec![device(None, "A", false), device(Some("b"), "B", false)];
    assert_eq!(choose_device_id(&ds), None);
    let ds = vec![device(Some("a"), "A", false), device(None, "B", true)];
    assert_eq!(choose_device_id(&ds), None);
}

#[test]
fn saved_uris_or_error() {
    assert_eq!(saved_track_uris(&vec![]), Err("No liked songs found".to_string()));
    assert_eq!(
        saved_track_uris(&vec![song("spotify:track:1"), song("spotify:track:2")]),
        Ok(vec!["spotify:track:1".to_string(), "spotify:track:2".to_string()])
    );
}

#[test]
fn dj_detection() {
    assert!(is_dj_playlist("spotify:user:spotify:playlist:1", "anything"));
    assert!(is_dj_playlist("spotify:playlist:9", "dj"));
    assert!(!is_dj_playlist("spotify:playlist:9", "DJ"));
    assert!(!is_dj_playlist("spotify:user:spotif", "djs"));
}

#[test]
fn sidebar_with_placeholder_dj() {
    let items = vec![summary("Road trip", "spotify:playlist:1", 12), summary("Chill", "spotify:playlist:2", 3)];
    let e = build_playlist_entries(Some(42), items);
    assert_eq!(e.len(), 4);
    assert_eq!(e[0].name, "❤️  Liked Songs");
    assert_eq!(e[0].uri, "liked_songs");
    assert_eq!(e[0].total_tracks, 42);
    assert_eq!(e[0].kind, PlaylistKind::LikedSongs);
    assert_eq!(e[1].name, "🎧  AI DJ");
    assert_eq!(e[1].uri, "dj");
    assert_eq!(e[1].total_tracks, 0);
    assert_eq!(e[1].kind, PlaylistKind::Dj);
    assert_eq!(e[2].name, "Road trip");
    assert_eq!(e[2].kind, PlaylistKind::Normal);
    assert_eq!(e[3].total_tracks, 3);
}

#[test]
fn sidebar_with_listed_dj() {
    let items = vec![summary("Mix", "spotify:playlist:1", 1), summary("Dj", "spotify:playlist:9", 50)];
    let e = build_playlist_entries(None, items);
    assert_eq!(e.len(), 3);
    assert_eq!(e[0].total_tracks, 0);
    assert_eq!(e[1].name, "Mix");
    assert_eq!(e[2].name, "🎧  Dj");
    assert_eq!(e[2].uri, "spotify:playlist:9");
    assert_eq!(e[2].kind, PlaylistKind::Dj);
    let items = vec![summary("Daily", "spotify:user:spotify:playlist:3", 5)];
    let e = build_playlist_entries(Some(1), items);
    assert_eq!(e.len(), 2);
    assert_eq!(e[1].name, "🎧  Daily");
}
