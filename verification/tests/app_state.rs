use spotify_tui::app::{
    settings_item_count, ActivePanel, App, InputMode, RepeatMode, SettingsSection, SettingsState,
};
use spotify_tui::spotify::{Album, Artist, PlaybackState, PlaylistEntry, PlaylistKind, Track};

fn track(name: &str) -> Track {
    Track {
        id: format!("id-{name}"),
        name: name.to_string(),
        artists: vec![Artist { name: "Artist".to_string() }],
        album: Album { name: "Album".to_string(), images: vec![] },
        duration_ms: 180_000,
        uri: format!("spotify:track:{name}"),
    }
}

fn entry(name: &str) -> PlaylistEntry {
    PlaylistEntry {
        name: name.to_string(),
        uri: format!("spotify:playlist:{name}"),
        total_tracks: 3,
        kind: PlaylistKind::Normal,
    }
}

fn playback(repeat: &str, shuffle: bool) -> PlaybackState {
    PlaybackState {
        is_playing: true,
        progress_ms: Some(1000),
        item: None,
        device: None,
        shuffle_state: shuffle,
        repeat_state: repeat.to_string(),
    }
}

#[test]
fn sections_are_listed_in_tab_order() {
    assert_eq!(
        SettingsSection::all(),
        vec![
            SettingsSection::Theme,
            SettingsSection::Layout,
            SettingsSection::NowPlaying,
            SettingsSection::Keybindings
        ]
    );
}

#[test]
fn section_labels() {
    assert_eq!(SettingsSection::Theme.label(), "🎨  Theme");
    assert_eq!(SettingsSection::Layout.label(), "📐  Layout");
    assert_eq!(SettingsSection::NowPlaying.label(), "🎵  Now Playing");
    assert_eq!(SettingsSection::Keybindings.label(), "⌨️   Keybindings");
}

#[test]
fn item_counts_per_section() {
    assert_eq!(settings_item_count(&SettingsSection::Theme), 5);
    assert_eq!(settings_item_count(&SettingsSection::Layout), 3);
    assert_eq!(settings_item_count(&SettingsSection::NowPlaying), 7);
    assert_eq!(settings_item_count(&SettingsSection::Keybindings), 11);
}

#[test]
fn settings_state_starts_at_first_item() {
    let s = SettingsState::new();
    assert_eq!(s.section_selected, 0);
    assert_eq!(s.item_selected, 0);
    assert_eq!(s.edit_buffer, "");
    assert!(!s.editing);
    assert_eq!(s.current_section(), SettingsSection::Theme);
}

#[test]
fn current_section_follows_selection() {
    let mut s = SettingsState::new();
    s.section_selected = 3;
    assert_eq!(s.current_section(), SettingsSection::Keybindings);
    s.section_selected = 2;
    assert_eq!(s.current_section(), SettingsSection::NowPlaying);
}

#[test]
fn repeat_mode_names_and_icons() {
    assert_eq!(RepeatMode::Off.as_str(), "off");
    assert_eq!(RepeatMode::Context.as_str(), "context");
    assert_eq!(RepeatMode::Track.as_str(), "track");
    assert_eq!(RepeatMode::Off.icon(), "🔁");
    assert_eq!(RepeatMode::Context.icon(), "🔁");
    assert_eq!(RepeatMode::Track.icon(), "🔂");
}

#[test]
fn repeat_mode_cycles_in_three_steps() {
    assert_eq!(RepeatMode::Off.next(), RepeatMode::Context);
    assert_eq!(RepeatMode::Context.next(), RepeatMode::Track);
    assert_eq!(RepeatMode::Track.next(), RepeatMode::Off);
    for m in [RepeatMode::Off, RepeatMode::Context, RepeatMode::Track] {
        assert_eq!(m.next().next().next(), m);
    }
}

#[test]
fn new_app_is_empty() {
    let a = App::new();
    assert_eq!(a.active_panel, ActivePanel::NowPlaying);
    assert_eq!(a.input_mode, InputMode::Normal);
    assert!(a.playback.is_none());
    assert!(a.search_results.is_empty());
    assert!(a.playlists.is_empty());
    assert!(!a.shuffle);
    assert_eq!(a.repeat, RepeatMode::Off);
    assert!(a.status_message.is_none());
    assert!(!a.should_quit);
}

#[test]
fn set_status_replaces_message() {
    let mut a = App::new();
    a.set_status("one".to_string());
    a.set_status("two".to_string());
    assert_eq!(a.status_message.as_deref(), Some("two"));
}

#[test]
fn selected_items_are_none_out_of_range() {
    let mut a = App::new();
    assert!(a.selected_search_track().is_none());
    assert!(a.selected_playlist().is_none());
    a.search_results = vec![track("a"), track("b")];
    a.search_selected = 1;
    assert_eq!(a.selected_search_track().unwrap().name, "b");
    a.search_selected = 2;
    assert!(a.selected_search_track().is_none());
    a.playlists = vec![entry("p")];
    assert_eq!(a.selected_playlist().unwrap().name, "p");
}

#[test]
fn sync_reads_repeat_names_back() {
    let mut a = App::new();
    for m in [RepeatMode::Off, RepeatMode::Context, RepeatMode::Track] {
        a.sync_playback_state(&playback(m.as_str(), true));
        assert_eq!(a.repeat, m);
        assert!(a.shuffle);
    }
    a.sync_playback_state(&playback("something else", false));
    assert_eq!(a.repeat, RepeatMode::Off);
    assert!(!a.shuffle);
}

#[test]
fn scroll_wraps_in_search_results() {
    let mut a = App::new();
    a.active_panel = ActivePanel::Search;
    a.search_results = vec![track("a"), track("b"), track("c")];
    a.scroll_down();
    assert_eq!(a.search_selected, 1);
    a.scroll_down();
    a.scroll_down();
    assert_eq!(a.search_selected, 0);
    a.scroll_up();
    assert_eq!(a.search_selected, 2);
}

#[test]
fn scroll_up_undoes_scroll_down() {
    let mut a = App::new();
    a.active_panel = ActivePanel::Playlists;
    a.playlists = vec![entry("a"), entry("b"), entry("c"), entry("d")];
    for start in 0..4 {
        a.playlist_selected = start;
        a.scroll_down();
        a.scroll_up();
        assert_eq!(a.playlist_selected, start);
        a.scroll_up();
        a.scroll_down();
        assert_eq!(a.playlist_selected, start);
    }
}

#[test]
fn scrolling_a_full_list_comes_back() {
    let mut a = App::new();
    a.active_panel = ActivePanel::Settings;
    a.settings.section_selected = 3;
    a.settings.item_selected = 4;
    for _ in 0..11 {
        a.scroll_down();
    }
    assert_eq!(a.settings.item_selected, 4);
}

#[test]
fn scroll_on_empty_list_or_now_playing_changes_nothing() {
    let mut a = App::new();
    a.active_panel = ActivePanel::Search;
    a.scroll_down();
    a.scroll_up();
    assert_eq!(a.search_selected, 0);
    a.active_panel = ActivePanel::NowPlaying;
    a.search_results = vec![track("x")];
    a.scroll_down();
    assert_eq!(a.search_selected, 0);
}

#[test]
fn scroll_down_brings_selection_back_into_range() {
    let mut a = App::new();
    a.active_panel = ActivePanel::Search;
    a.search_results = vec![track("a"), track("b")];
    a.search_selected = 7;
    a.scroll_down();
    assert_eq!(a.search_selected, 0);
}

#[test]
fn settings_scroll_uses_section_size() {
    let mut a = App::new();
    a.active_panel = ActivePanel::Settings;
    a.settings.section_selected = 1;
    a.scroll_up();
    assert_eq!(a.settings.item_selected, 2);
    a.scroll_down();
    assert_eq!(a.settings.item_selected, 0);
}
