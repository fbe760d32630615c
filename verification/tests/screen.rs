use spotify_tui::app::{ActivePanel, App, InputMode, RepeatMode};
use spotify_tui::config::{Config, Layout};
use spotify_tui::spotify::{Album, Artist, Device, PlaybackState, PlaylistEntry, PlaylistKind, Track};
use spotify_tui::view::{
    bool_val, border_kind, hints_text, main_layout, no_playback_message, now_playing_panel,
    playlist_count_text, search_highlight, search_input_text, search_placeholder, search_row,
    search_title, setting_row, settings_rows, settings_title, status_text, truncate, BorderKind,
    InfoLine, NowPlayingPanel,
};

fn track(name: &str, artist: Option<&str>, ms: u64) -> Track {
    Track {
        id: "i".to_string(),
        name: name.to_string(),
        artists: artist.map(|a| vec![Artist { name: a.to_string() }]).unwrap_or_default(),
        album: Album { name: "The Album".to_string(), images: vec![] },
        duration_ms: ms,
        uri: "u".to_string(),
    }
}

#[test]
fn border_kinds() {
    assert_eq!(border_kind("rounded"), BorderKind::Rounded);
    assert_eq!(border_kind("double"), BorderKind::Double);
    assert_eq!(border_kind("thick"), BorderKind::Thick);
    assert_eq!(border_kind("plain"), BorderKind::Plain);
    assert_eq!(border_kind("Rounded"), BorderKind::Plain);
}

#[test]
fn switch_texts() {
    assert_eq!(bool_val(true), "✅ on");
    assert_eq!(bool_val(false), "☐  off");
}

#[test]
fn truncation_and_padding() {
    assert_eq!(truncate("abc", 5), "abc  ");
    assert_eq!(truncate("abcde", 5), "abcde");
    assert_eq!(truncate("abcdefgh", 5), "abcd…");
    assert_eq!(truncate("", 0), "");
    assert_eq!(truncate("héllo wörld", 7), "héllo…");
}

#[test]
fn layout_sizes() {
    let l = main_layout(&Layout { sidebar_width_pct: 5, now_playing_height: 2, show_hints: false });
    assert_eq!(l.now_playing_height, 4);
    assert_eq!(l.hints_height, 0);
    assert_eq!(l.sidebar_pct, 10);
    assert_eq!(l.content_pct, 90);
    let l = main_layout(&Layout { sidebar_width_pct: 95, now_playing_height: 7, show_hints: true });
    assert_eq!(l.now_playing_height, 7);
    assert_eq!(l.hints_height, 1);
    assert_eq!(l.sidebar_pct, 90);
    assert_eq!(l.content_pct, 10);
}

#[test]
fn sidebar_count() {
    let e = PlaylistEntry {
        name: "x".to_string(),
        uri: "u".to_string(),
        total_tracks: 17,
        kind: PlaylistKind::Normal,
    };
    assert_eq!(playlist_count_text(&e), "  (17)");
}

#[test]
fn search_columns() {
    let (name, artist, dur) = search_row(&track("Song", Some("Band"), 125_000));
    assert_eq!(name, format!("  {:30}", "Song"));
    assert_eq!(artist, format!("{:25}", "Band"));
    assert_eq!(dur, "2:05");
    let long = "a".repeat(40);
    let (name, artist, _) = search_row(&track(&long, None, 0));
    assert_eq!(name, format!("  {}…", "a".repeat(29)));
    assert_eq!(artist, format!("{:25}", "?"));
}

#[test]
fn search_box_texts() {
    let mut a = App::new();
    let c = Config::default();
    a.search_query = "abba".to_string();
    assert_eq!(search_input_text(&a), " 🔍 abba");
    a.input_mode = InputMode::Typing;
    assert_eq!(search_input_text(&a), " 🔍 abba█");
    assert_eq!(search_title(&c), " Search (press / to type) ");
    assert_eq!(search_placeholder(&a, &c), "  Press / to search for tracks...");
    assert_eq!(search_highlight(&a), None);
    a.search_results = vec![track("x", None, 1)];
    assert_eq!(search_placeholder(&a, &c), "");
    assert_eq!(search_highlight(&a), Some(0));
}

#[test]
fn hints_and_status() {
    let mut a = App::new();
    let c = Config::default();
    assert_eq!(
        hints_text(&a, &c),
        " [/] Search  [] Play/Pause  [n] Next  [p] Prev  [s] Shuffle  [r] Repeat  [Tab] Panel  [c] Settings  [q] Quit"
    );
    a.input_mode = InputMode::Typing;
    assert_eq!(hints_text(&a, &c), " [Enter] Search  [Esc] Cancel");
    assert_eq!(status_text(&a), "");
    a.status_message = Some("ok".to_string());
    assert_eq!(status_text(&a), "ok");
}

#[test]
fn now_playing_without_playback() {
    let a = App::new();
    let c = Config::default();
    assert!(matches!(now_playing_panel(&a, &c), NowPlayingPanel::NoPlayback));
    assert_eq!(no_playback_message(), "  No active playback. Open Spotify on a device first.");
}

#[test]
fn now_playing_with_track() {
    let mut a = App::new();
    let mut c = Config::default();
    c.now_playing.show_device = true;
    a.shuffle = true;
    a.repeat = RepeatMode::Context;
    a.playback = Some(PlaybackState {
        is_playing: false,
        progress_ms: Some(61_000),
        item: Some(track("Tune", Some("Singer"), 0)),
        device: Some(Device { id: None, name: "Laptop".to_string(), is_active: true }),
        shuffle_state: true,
        repeat_state: "context".to_string(),
    });
    match now_playing_panel(&a, &c) {
        NowPlayingPanel::Track { info, progress } => {
            assert_eq!(info.len(), 4);
            match &info[0] {
                InfoLine::Track { icon, name } => {
                    assert_eq!(icon, "⏸");
                    assert_eq!(name, "Tune");
                },
                other => panic!("unexpected {other:?}"),
            }
            assert!(matches!(&info[1], InfoLine::Artist { name } if name == "Singer"));
            assert!(matches!(&info[2], InfoLine::Album { name } if name == "The Album"));
            assert!(matches!(&info[3], InfoLine::Device { text } if text == "📱 Laptop"));
            let p = progress.unwrap();
            assert_eq!(p.bar, Some((61_000, 1)));
            assert_eq!(p.time, Some(("1:01".to_string(), "0:00".to_string())));
            let ind = p.indicators.unwrap();
            assert_eq!(ind.shuffle_text, " 🔀 ON ");
            assert!(ind.shuffle_on);
            assert_eq!(ind.repeat_text, "🔁 playlist");
            assert!(ind.repeat_on);
        },
        other => panic!("unexpected {other:?}"),
    }
    c.now_playing.show_progress_bar = false;
    c.now_playing.show_time = false;
    c.now_playing.show_shuffle_repeat = false;
    c.now_playing.show_track_name = false;
    match now_playing_panel(&a, &c) {
        NowPlayingPanel::Track { info, progress } => {
            assert_eq!(info.len(), 3);
            assert!(progress.is_none());
        },
        other => panic!("unexpected {other:?}"),
    }
    a.playback.as_mut().unwrap().item = None;
    assert!(matches!(now_playing_panel(&a, &c), NowPlayingPanel::NoTrack));
}

#[test]
fn setting_rows_show_edit_buffer() {
    let r = setting_row("Quit", "q", true, true, "x");
    assert_eq!(r.label, format!("  {:<30}", "Quit"));
    assert_eq!(r.value, "x_");
    assert!(r.selected && r.editing);
    let r = setting_row("Quit", "q", false, true, "x");
    assert_eq!(r.value, "q");
    assert!(!r.editing);
}

#[test]
fn settings_screen_rows() {
    let mut a = App::new();
    let c = Config::default();
    a.active_panel = ActivePanel::Settings;
    let rows = settings_rows(&a, &c);
    assert_eq!(rows.len(), 5);
    assert_eq!(rows[0].value, "30,215,96");
    assert!(rows[0].selected);
    assert_eq!(rows[4].value, "plain");
    a.settings.section_selected = 1;
    a.settings.item_selected = 2;
    a.settings.editing = true;
    let rows = settings_rows(&a, &c);
    assert_eq!(rows.len(), 3);
    assert_eq!(rows[0].value, "30");
    assert_eq!(rows[2].value, "✅ on");
    assert!(!rows[2].editing);
    a.settings.section_selected = 3;
    a.settings.item_selected = 7;
    a.settings.edit_buffer = "T".to_string();
    let rows = settings_rows(&a, &c);
    assert_eq!(rows.len(), 11);
    assert_eq!(rows[7].label, format!("  {:<30}", "Next panel"));
    assert_eq!(rows[7].value, "T_");
    assert_eq!(rows[6].value, "r");
    assert_eq!(
        settings_title(&spotify_tui::app::SettingsSection::NowPlaying),
        "  Press Enter to toggle  "
    );
}
