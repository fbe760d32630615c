use spotify_tui::app::{ActivePanel, App, InputMode, RepeatMode};
use spotify_tui::config::Config;
use spotify_tui::control::{
    apply_outcome, build_snapshot, handle_key, key_intent, parse_key, playlist_plan, Command,
    Intent, Key, Outcome, PlaylistPlan,
};
use spotify_tui::spotify::{Album, Artist, PlaybackState, PlaylistEntry, PlaylistKind, Track};

fn track(name: &str) -> Track {
    Track {
        id: format!("id-{name}"),
        name: name.to_string(),
        artists: vec![Artist { name: "Someone".to_string() }],
        album: Album { name: "Record".to_string(), images: vec![] },
        duration_ms: 200_000,
        uri: format!("spotify:track:{name}"),
    }
}

fn entry(name: &str, uri: &str, kind: PlaylistKind) -> PlaylistEntry {
    PlaylistEntry { name: name.to_string(), uri: uri.to_string(), total_tracks: 1, kind }
}

fn playing(is_playing: bool) -> PlaybackState {
    PlaybackState {
        is_playing,
        progress_ms: None,
        item: Some(track("now")),
        device: None,
        shuffle_state: false,
        repeat_state: "off".to_string(),
    }
}

#[test]
fn parse_key_names_and_chars() {
    assert_eq!(parse_key("Tab"), Key::Tab);
    assert_eq!(parse_key("Enter"), Key::Enter);
    assert_eq!(parse_key("Esc"), Key::Esc);
    assert_eq!(parse_key("Up"), Key::Up);
    assert_eq!(parse_key("Down"), Key::Down);
    assert_eq!(parse_key("Left"), Key::Left);
    assert_eq!(parse_key("Right"), Key::Right);
    assert_eq!(parse_key("q"), Key::Char('q'));
    assert_eq!(parse_key(" "), Key::Char(' '));
    assert_eq!(parse_key("é"), Key::Char('é'));
    assert_eq!(parse_key("ß"), Key::Char('ß'));
    assert_eq!(parse_key("qq"), Key::Null);
    assert_eq!(parse_key(""), Key::Null);
    assert_eq!(parse_key("tab"), Key::Null);
}

#[test]
fn default_bindings_intents() {
    let c = Config::default();
    assert_eq!(key_intent(&c, Key::Char('q')), Intent::Quit);
    assert_eq!(key_intent(&c, Key::Char('c')), Intent::OpenSettings);
    assert_eq!(key_intent(&c, Key::Char('/')), Intent::StartSearch);
    assert_eq!(key_intent(&c, Key::Tab), Intent::NextPanel);
    assert_eq!(key_intent(&c, Key::Char('j')), Intent::ScrollDown);
    assert_eq!(key_intent(&c, Key::Down), Intent::ScrollDown);
    assert_eq!(key_intent(&c, Key::Char('k')), Intent::ScrollUp);
    assert_eq!(key_intent(&c, Key::Up), Intent::ScrollUp);
    assert_eq!(key_intent(&c, Key::Char(' ')), Intent::PlayPause);
    assert_eq!(key_intent(&c, Key::Char('n')), Intent::NextTrack);
    assert_eq!(key_intent(&c, Key::Char('p')), Intent::PreviousTrack);
    assert_eq!(key_intent(&c, Key::Char('s')), Intent::ToggleShuffle);
    assert_eq!(key_intent(&c, Key::Char('r')), Intent::CycleRepeat);
    assert_eq!(key_intent(&c, Key::Enter), Intent::Select);
    assert_eq!(key_intent(&c, Key::Char('z')), Intent::Ignore);
    assert_eq!(key_intent(&c, Key::Other), Intent::Ignore);
}

#[test]
fn rebound_panel_and_select_keys() {
    let mut c = Config::default();
    c.keys.panel_next = "x".to_string();
    c.keys.select = "o".to_string();
    assert_eq!(key_intent(&c, Key::Char('x')), Intent::NextPanel);
    assert_eq!(key_intent(&c, Key::Tab), Intent::Ignore);
    assert_eq!(key_intent(&c, Key::Char('o')), Intent::Select);
    assert_eq!(key_intent(&c, Key::Enter), Intent::Ignore);

    let mut a = App::new();
    let start = a.active_panel.clone();
    handle_key(&mut a, &mut c, Key::Tab);
    assert_eq!(a.active_panel, start);
    handle_key(&mut a, &mut c, Key::Char('x'));
    assert_ne!(a.active_panel, start);
    handle_key(&mut a, &mut c, Key::Char('x'));
    handle_key(&mut a, &mut c, Key::Char('x'));
    assert_eq!(a.active_panel, start);
}

#[test]
fn earlier_bindings_win() {
    let mut c = Config::default();
    c.keys.search = "c".to_string();
    assert_eq!(key_intent(&c, Key::Char('c')), Intent::OpenSettings);
    c.keys.quit = "c".to_string();
    assert_eq!(key_intent(&c, Key::Char('c')), Intent::Quit);
}

#[test]
fn quit_key_sets_should_quit() {
    let mut a = App::new();
    let mut c = Config::default();
    let cmd = handle_key(&mut a, &mut c, Key::Char('q'));
    assert!(matches!(cmd, Command::Nothing));
    assert!(a.should_quit);
}

#[test]
fn tab_cycles_main_panels() {
    let mut a = App::new();
    let mut c = Config::default();
    handle_key(&mut a, &mut c, Key::Tab);
    assert_eq!(a.active_panel, ActivePanel::Search);
    handle_key(&mut a, &mut c, Key::Tab);
    assert_eq!(a.active_panel, ActivePanel::Playlists);
    handle_key(&mut a, &mut c, Key::Tab);
    assert_eq!(a.active_panel, ActivePanel::NowPlaying);
}

#[test]
fn typing_a_search_and_confirming() {
    let mut a = App::new();
    let mut c = Config::default();
    handle_key(&mut a, &mut c, Key::Char('/'));
    assert_eq!(a.active_panel, ActivePanel::Search);
    assert_eq!(a.input_mode, InputMode::Typing);
    for ch in "abcx".chars() {
        handle_key(&mut a, &mut c, Key::Char(ch));
    }
    handle_key(&mut a, &mut c, Key::Backspace);
    assert_eq!(a.search_query, "abc");
    a.search_selected = 5;
    let cmd = handle_key(&mut a, &mut c, Key::Enter);
    match cmd {
        Command::Search { query } => assert_eq!(query, "abc"),
        other => panic!("unexpected {other:?}"),
    }
    assert_eq!(a.input_mode, InputMode::Normal);
    assert_eq!(a.search_selected, 0);
    apply_outcome(&mut a, Outcome::SearchDone { result: Ok(vec![track("a"), track("b")]) });
    assert_eq!(a.search_results.len(), 2);
    assert_eq!(a.status_message.as_deref(), Some("Found 2 tracks"));
    assert!(a.selected_search_track().is_some());
}

#[test]
fn typing_backspace_takes_back_a_char() {
    let mut a = App::new();
    let mut c = Config::default();
    handle_key(&mut a, &mut c, Key::Char('/'));
    handle_key(&mut a, &mut c, Key::Char('h'));
    let before = a.search_query.clone();
    handle_key(&mut a, &mut c, Key::Char('é'));
    handle_key(&mut a, &mut c, Key::Backspace);
    assert_eq!(a.search_query, before);
    handle_key(&mut a, &mut c, Key::Backspace);
    handle_key(&mut a, &mut c, Key::Backspace);
    assert_eq!(a.search_query, "");
}

#[test]
fn escape_cancels_search() {
    let mut a = App::new();
    let mut c = Config::default();
    handle_key(&mut a, &mut c, Key::Char('/'));
    handle_key(&mut a, &mut c, Key::Esc);
    assert_eq!(a.input_mode, InputMode::Normal);
    assert_eq!(a.status_message.as_deref(), Some("Search cancelled"));
}

#[test]
fn search_failure_is_reported() {
    let mut a = App::new();
    apply_outcome(&mut a, Outcome::SearchDone { result: Err("timeout".to_string()) });
    assert_eq!(a.status_message.as_deref(), Some("Search failed: timeout"));
}

#[test]
fn play_pause_asks_by_playback_state() {
    let mut a = App::new();
    let mut c = Config::default();
    match handle_key(&mut a, &mut c, Key::Char(' ')) {
        Command::TogglePlayback { playing } => assert!(!playing),
        other => panic!("unexpected {other:?}"),
    }
    a.playback = Some(playing(true));
    match handle_key(&mut a, &mut c, Key::Char(' ')) {
        Command::TogglePlayback { playing } => assert!(playing),
        other => panic!("unexpected {other:?}"),
    }
    apply_outcome(&mut a, Outcome::PlaybackToggled { was_playing: true, result: Ok(()) });
    assert!(!a.playback.as_ref().unwrap().is_playing);
    assert_eq!(a.status_message.as_deref(), Some("⏸ Paused"));
    apply_outcome(&mut a, Outcome::PlaybackToggled { was_playing: false, result: Ok(()) });
    assert!(a.playback.as_ref().unwrap().is_playing);
    assert_eq!(a.status_message.as_deref(), Some("▶ Playing"));
}

#[test]
fn skip_and_shuffle_and_repeat_outcomes() {
    let mut a = App::new();
    apply_outcome(&mut a, Outcome::Skipped { forward: true, result: Ok(()) });
    assert_eq!(a.status_message.as_deref(), Some("⏭ Next track"));
    apply_outcome(&mut a, Outcome::Skipped { forward: false, result: Ok(()) });
    assert_eq!(a.status_message.as_deref(), Some("⏮ Previous track"));
    apply_outcome(&mut a, Outcome::ShuffleSet { on: true, result: Ok(()) });
    assert!(a.shuffle);
    assert_eq!(a.status_message.as_deref(), Some("🔀 Shuffle ON"));
    apply_outcome(&mut a, Outcome::ShuffleSet { on: false, result: Ok(()) });
    assert_eq!(a.status_message.as_deref(), Some("🔀 Shuffle OFF"));
    apply_outcome(&mut a, Outcome::RepeatSet { mode: RepeatMode::Context, result: Ok(()) });
    assert_eq!(a.repeat, RepeatMode::Context);
    assert_eq!(a.status_message.as_deref(), Some("🔁 Repeat: Playlist"));
    apply_outcome(&mut a, Outcome::RepeatSet { mode: RepeatMode::Track, result: Ok(()) });
    assert_eq!(a.status_message.as_deref(), Some("🔂 Repeat: Track"));
    apply_outcome(&mut a, Outcome::RepeatSet { mode: RepeatMode::Off, result: Ok(()) });
    assert_eq!(a.status_message.as_deref(), Some("🔁 Repeat OFF"));
}

#[test]
fn failed_commands_only_report() {
    let mut a = App::new();
    a.shuffle = true;
    a.repeat = RepeatMode::Track;
    apply_outcome(&mut a, Outcome::ShuffleSet { on: false, result: Err("403".to_string()) });
    assert!(a.shuffle);
    assert_eq!(a.status_message.as_deref(), Some("Error: 403"));
    apply_outcome(&mut a, Outcome::RepeatSet { mode: RepeatMode::Off, result: Err("no".to_string()) });
    assert_eq!(a.repeat, RepeatMode::Track);
    apply_outcome(&mut a, Outcome::TrackStarted { name: "x".to_string(), result: Err("e".to_string()) });
    assert_eq!(a.status_message.as_deref(), Some("Error: e"));
}

#[test]
fn shuffle_and_repeat_keys_ask_for_next_state() {
    let mut a = App::new();
    let mut c = Config::default();
    match handle_key(&mut a, &mut c, Key::Char('s')) {
        Command::SetShuffle { on } => assert!(on),
        other => panic!("unexpected {other:?}"),
    }
    match handle_key(&mut a, &mut c, Key::Char('r')) {
        Command::SetRepeat { mode } => assert_eq!(mode, RepeatMode::Context),
        other => panic!("unexpected {other:?}"),
    }
    assert!(matches!(handle_key(&mut a, &mut c, Key::Char('n')), Command::NextTrack));
    assert!(matches!(handle_key(&mut a, &mut c, Key::Char('p')), Command::PreviousTrack));
}

#[test]
fn enter_plays_selected_track() {
    let mut a = App::new();
    let mut c = Config::default();
    a.active_panel = ActivePanel::Search;
    a.search_results = vec![track("one"), track("two")];
    a.search_selected = 1;
    match handle_key(&mut a, &mut c, Key::Enter) {
        Command::PlayTrack { uri, name } => {
            assert_eq!(uri, "spotify:track:two");
            assert_eq!(name, "two");
        },
        other => panic!("unexpected {other:?}"),
    }
    apply_outcome(&mut a, Outcome::TrackStarted { name: "two".to_string(), result: Ok(()) });
    assert_eq!(a.status_message.as_deref(), Some("▶ Playing: two"));
}

#[test]
fn enter_on_empty_list_does_nothing() {
    let mut a = App::new();
    let mut c = Config::default();
    a.active_panel = ActivePanel::Playlists;
    assert!(matches!(handle_key(&mut a, &mut c, Key::Enter), Command::Nothing));
    a.active_panel = ActivePanel::NowPlaying;
    assert!(matches!(handle_key(&mut a, &mut c, Key::Enter), Command::Nothing));
}

#[test]
fn playlist_plans() {
    assert!(matches!(
        playlist_plan(&entry("Liked", "liked_songs", PlaylistKind::LikedSongs)),
        PlaylistPlan::LikedSongs
    ));
    match playlist_plan(&entry("AI DJ", "dj", PlaylistKind::Dj)) {
        PlaylistPlan::Unavailable { reason } => {
            assert_eq!(reason, "Start the DJ from Spotify first, then control it here")
        },
        other => panic!("unexpected {other:?}"),
    }
    match playlist_plan(&entry("DJ", "spotify:playlist:37i9", PlaylistKind::Dj)) {
        PlaylistPlan::Context { uri } => assert_eq!(uri, "spotify:playlist:37i9"),
        other => panic!("unexpected {other:?}"),
    }
    match playlist_plan(&entry("Mix", "spotify:playlist:1", PlaylistKind::Normal)) {
        PlaylistPlan::Context { uri } => assert_eq!(uri, "spotify:playlist:1"),
        other => panic!("unexpected {other:?}"),
    }
}

#[test]
fn starting_a_playlist_resets_shuffle_and_repeat() {
    let mut a = App::new();
    let mut c = Config::default();
    a.active_panel = ActivePanel::Playlists;
    a.playlists = vec![entry("AI DJ", "dj", PlaylistKind::Dj)];
    a.shuffle = true;
    a.repeat = RepeatMode::Track;
    let cmd = handle_key(&mut a, &mut c, Key::Enter);
    let (name, reason) = match cmd {
        Command::PlayPlaylist { name, plan: PlaylistPlan::Unavailable { reason } } => (name, reason),
        other => panic!("unexpected {other:?}"),
    };
    apply_outcome(&mut a, Outcome::PlaylistStarted { name, result: Err(reason) });
    assert!(!a.shuffle);
    assert_eq!(a.repeat, RepeatMode::Off);
    assert_eq!(
        a.status_message.as_deref(),
        Some("Start the DJ from Spotify first, then control it here")
    );
    apply_outcome(&mut a, Outcome::PlaylistStarted { name: "Mix".to_string(), result: Ok(()) });
    assert_eq!(a.status_message.as_deref(), Some("▶ Playing: Mix"));
}

#[test]
fn settings_navigation() {
    let mut a = App::new();
    let mut c = Config::default();
    handle_key(&mut a, &mut c, Key::Char('c'));
    assert_eq!(a.active_panel, ActivePanel::Settings);
    handle_key(&mut a, &mut c, Key::Left);
    assert_eq!(a.settings.section_selected, 3);
    handle_key(&mut a, &mut c, Key::Right);
    assert_eq!(a.settings.section_selected, 0);
    handle_key(&mut a, &mut c, Key::Char('j'));
    handle_key(&mut a, &mut c, Key::Down);
    assert_eq!(a.settings.item_selected, 2);
    handle_key(&mut a, &mut c, Key::Right);
    assert_eq!(a.settings.section_selected, 1);
    assert_eq!(a.settings.item_selected, 0);
    handle_key(&mut a, &mut c, Key::Char('k'));
    assert_eq!(a.settings.item_selected, 2);
    handle_key(&mut a, &mut c, Key::Esc);
    assert_eq!(a.active_panel, ActivePanel::NowPlaying);
}

#[test]
fn settings_toggle_saves() {
    let mut a = App::new();
    let mut c = Config::default();
    a.active_panel = ActivePanel::Settings;
    a.settings.section_selected = 2;
    a.settings.item_selected = 6;
    let cmd = handle_key(&mut a, &mut c, Key::Enter);
    assert!(matches!(cmd, Command::SaveConfig));
    assert!(c.now_playing.show_device);
    assert_eq!(a.status_message.as_deref(), Some("✅ Saved"));
}

#[test]
fn opening_and_confirming_a_value_changes_nothing() {
    let mut a = App::new();
    let mut c = Config::default();
    a.active_panel = ActivePanel::Settings;
    a.settings.section_selected = 0;
    a.settings.item_selected = 1;
    assert!(matches!(handle_key(&mut a, &mut c, Key::Enter), Command::Nothing));
    assert_eq!(a.input_mode, InputMode::EditingValue);
    assert!(a.settings.editing);
    assert_eq!(a.settings.edit_buffer, "18,18,18");
    assert!(matches!(handle_key(&mut a, &mut c, Key::Enter), Command::SaveConfig));
    assert_eq!(a.input_mode, InputMode::Normal);
    assert_eq!(c.theme.background, [18, 18, 18]);
    assert_eq!(a.status_message.as_deref(), Some("✅ Setting saved"));
}

#[test]
fn editing_a_value_and_refusal() {
    let mut a = App::new();
    let mut c = Config::default();
    a.active_panel = ActivePanel::Settings;
    handle_key(&mut a, &mut c, Key::Enter);
    for _ in 0..9 {
        handle_key(&mut a, &mut c, Key::Backspace);
    }
    for ch in "1,2".chars() {
        handle_key(&mut a, &mut c, Key::Char(ch));
    }
    let cmd = handle_key(&mut a, &mut c, Key::Enter);
    assert!(matches!(cmd, Command::Nothing));
    assert_eq!(c.theme.accent, [30, 215, 96]);
    assert_eq!(
        a.status_message.as_deref(),
        Some("❌ Invalid value — for colors use: r,g,b (e.g. 30,215,96)")
    );
    assert!(!a.settings.editing);
    assert_eq!(a.settings.edit_buffer, "");
}

#[test]
fn editing_escape_keeps_config() {
    let mut a = App::new();
    let mut c = Config::default();
    a.active_panel = ActivePanel::Settings;
    a.settings.section_selected = 3;
    handle_key(&mut a, &mut c, Key::Enter);
    handle_key(&mut a, &mut c, Key::Char('z'));
    assert_eq!(a.settings.edit_buffer, "qz");
    handle_key(&mut a, &mut c, Key::Backspace);
    assert_eq!(a.settings.edit_buffer, "q");
    assert!(matches!(handle_key(&mut a, &mut c, Key::Esc), Command::Nothing));
    assert_eq!(c.keys.quit, "q");
    assert_eq!(a.input_mode, InputMode::Normal);
    assert_eq!(a.settings.edit_buffer, "");
}

#[test]
fn startup_outcomes() {
    let mut a = App::new();
    apply_outcome(&mut a, Outcome::PlaybackLoaded { result: Err("401".to_string()) });
    assert_eq!(a.status_message.as_deref(), Some("Playback error: 401"));
    apply_outcome(&mut a, Outcome::PlaylistsLoaded { result: Err("500".to_string()) });
    assert_eq!(a.status_message.as_deref(), Some("Playlists error: 500"));
    apply_outcome(&mut a, Outcome::PlaybackLoaded { result: Ok(None) });
    assert!(a.playback.is_none());
    let mut pb = playing(true);
    pb.shuffle_state = true;
    pb.repeat_state = "track".to_string();
    apply_outcome(&mut a, Outcome::PlaybackLoaded { result: Ok(Some(pb)) });
    assert!(a.shuffle);
    assert_eq!(a.repeat, RepeatMode::Track);
    assert!(a.playback.is_some());
    apply_outcome(
        &mut a,
        Outcome::PlaylistsLoaded { result: Ok(vec![entry("x", "u", PlaylistKind::Normal)]) },
    );
    assert_eq!(a.playlists.len(), 1);
}

#[test]
fn poll_syncs_playback() {
    let mut a = App::new();
    let mut pb = playing(false);
    pb.repeat_state = "context".to_string();
    apply_outcome(&mut a, Outcome::PlaybackPolled { playback: pb });
    assert_eq!(a.repeat, RepeatMode::Context);
    assert!(!a.playback.unwrap().is_playing);
}

#[test]
fn snapshot_copies_everything() {
    let mut a = App::new();
    a.active_panel = ActivePanel::Search;
    a.input_mode = InputMode::Typing;
    a.search_query = "abc".to_string();
    a.search_results = vec![track("a")];
    a.search_selected = 0;
    a.playlists = vec![entry("p", "u", PlaylistKind::Normal)];
    a.playlist_selected = 0;
    a.shuffle = true;
    a.repeat = RepeatMode::Track;
    a.settings.section_selected = 2;
    a.settings.item_selected = 3;
    a.settings.edit_buffer = "buf".to_string();
    a.settings.editing = true;
    a.status_message = Some("hi".to_string());
    a.playback = Some(playing(true));
    let s = build_snapshot(&a);
    assert_eq!(format!("{s:?}"), format!("{a:?}"));
}

#[test]
fn keys_typed_into_search_do_not_play() {
    let mut a = App::new();
    let mut c = Config::default();
    handle_key(&mut a, &mut c, Key::Char('/'));
    for ch in [' ', 'q', 'n', 'p', 's', 'r', 'c'] {
        assert!(matches!(handle_key(&mut a, &mut c, Key::Char(ch)), Command::Nothing));
    }
    assert!(!a.should_quit);
    assert_eq!(a.search_query, " qnpsrc");
    assert_eq!(a.active_panel, ActivePanel::Search);
}

#[test]
fn starting_a_search_clears_the_old_query() {
    let mut a = App::new();
    let mut c = Config::default();
    a.search_query = "old".to_string();
    handle_key(&mut a, &mut c, Key::Char('/'));
    assert_eq!(a.search_query, "");
}

#[test]
fn settings_screen_never_plays_or_quits() {
    let mut a = App::new();
    let mut c = Config::default();
    a.active_panel = ActivePanel::Settings;
    for key in [Key::Char('q'), Key::Char(' '), Key::Char('n'), Key::Char('s'), Key::Tab] {
        let cmd = handle_key(&mut a, &mut c, key);
        assert!(matches!(cmd, Command::Nothing));
    }
    assert!(!a.should_quit);
    assert_eq!(a.active_panel, ActivePanel::Settings);
}

#[test]
fn a_readme_color_is_accepted() {
    let mut a = App::new();
    let mut c = Config::default();
    a.active_panel = ActivePanel::Settings;
    handle_key(&mut a, &mut c, Key::Enter);
    for _ in 0..20 {
        handle_key(&mut a, &mut c, Key::Backspace);
    }
    for ch in "138,43,226".chars() {
        handle_key(&mut a, &mut c, Key::Char(ch));
    }
    assert!(matches!(handle_key(&mut a, &mut c, Key::Enter), Command::SaveConfig));
    assert_eq!(c.theme.accent, [138, 43, 226]);
}
