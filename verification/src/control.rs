use vstd::prelude::*;
use vstd::string::StringExecFns;

use crate::app::{
    item_count, repeat_after, repeat_from_name, section_count, ActivePanel, App,
    AppView, InputMode, RepeatMode, SettingsSection,
};
use crate::config::{Config, ConfigView, KeysView};
use crate::settings::{
    applied, apply_setting, get_setting_value, is_toggle, setting_value, toggle_setting, toggled,
    toggles,
};
use crate::spotify::{
    clone_entries, clone_opt_string, clone_tracks, track_views, PlaybackState, PlaylistEntry,
    PlaylistKind, Track,
};
use crate::text::{chars_of, clear_string, decimal, pop_char, push_char, str_equal};

verus! {

// ── Keys ─────────────────────────────────────────────────────────────────────

/// A key the user pressed.
#[derive(Clone, Copy, Debug, PartialEq, Eq, Structural)]
pub enum Key {
    Char(char),
    Tab,
    Enter,
    Esc,
    Up,
    Down,
    Left,
    Right,
    Backspace,
    /// The key that a binding names when it names none of the others.
    Null,
    /// Any other key.
    Other,
}

/// The key a binding names: "Tab", "Enter", "Esc", "Up", "Down", "Left" and "Right" name
/// those keys, a single character names its key, and anything else names `Null`.
pub open spec fn parsed_key(s: Seq<char>) -> Key {
    if s == "Tab"@ {
        Key::Tab
    } else if s == "Enter"@ {
        Key::Enter
    } else if s == "Esc"@ {
        Key::Esc
    } else if s == "Up"@ {
        Key::Up
    } else if s == "Down"@ {
        Key::Down
    } else if s == "Left"@ {
        Key::Left
    } else if s == "Right"@ {
        Key::Right
    } else if s.len() == 1 {
        Key::Char(s[0])
    } else {
        Key::Null
    }
}

/// The key a binding names.
pub fn parse_key(s: &str) -> (r: Key)
    ensures
        r == parsed_key(s@),
{
    if str_equal(s, "Tab") {
        Key::Tab
    } else if str_equal(s, "Enter") {
        Key::Enter
    } else if str_equal(s, "Esc") {
        Key::Esc
    } else if str_equal(s, "Up") {
        Key::Up
    } else if str_equal(s, "Down") {
        Key::Down
    } else if str_equal(s, "Left") {
        Key::Left
    } else if str_equal(s, "Right") {
        Key::Right
    } else {
        let cs = chars_of(s);
        if cs.len() == 1 {
            Key::Char(cs[0])
        } else {
            Key::Null
        }
    }
}

/// What a key does on the main screen.
#[derive(Clone, Copy, Debug, PartialEq, Eq, Structural)]
pub enum Intent {
    Quit,
    OpenSettings,
    StartSearch,
    NextPanel,
    ScrollDown,
    ScrollUp,
    PlayPause,
    NextTrack,
    PreviousTrack,
    ToggleShuffle,
    CycleRepeat,
    Select,
    Ignore,
}

/// What a key does on the main screen under the given bindings. Earlier bindings win:
/// quit, then `c` for the settings, search, next panel, scrolling (also by the arrow keys),
/// play/pause, next, previous, shuffle, repeat, and select.
pub open spec fn normal_intent(k: KeysView, key: Key) -> Intent {
    if key == parsed_key(k.quit) {
        Intent::Quit
    } else if key == Key::Char('c') {
        Intent::OpenSettings
    } else if key == parsed_key(k.search) {
        Intent::StartSearch
    } else if key == parsed_key(k.panel_next) {
        Intent::NextPanel
    } else if key == parsed_key(k.scroll_down) || key == Key::Down {
        Intent::ScrollDown
    } else if key == parsed_key(k.scroll_up) || key == Key::Up {
        Intent::ScrollUp
    } else if key == parsed_key(k.play_pause) {
        Intent::PlayPause
    } else if key == parsed_key(k.next) {
        Intent::NextTrack
    } else if key == parsed_key(k.previous) {
        Intent::PreviousTrack
    } else if key == parsed_key(k.shuffle) {
        Intent::ToggleShuffle
    } else if key == parsed_key(k.repeat) {
        Intent::CycleRepeat
    } else if key == parsed_key(k.select) {
        Intent::Select
    } else {
        Intent::Ignore
    }
}

/// What a key does on the main screen under the bindings of `cfg`.
pub fn key_intent(cfg: &Config, key: Key) -> (r: Intent)
    ensures
        r == normal_intent(cfg.keys@, key),
{
    let k = &cfg.keys;
    if key == parse_key(k.quit.as_str()) {
        Intent::Quit
    } else if key == Key::Char('c') {
        Intent::OpenSettings
    } else if key == parse_key(k.search.as_str()) {
        Intent::StartSearch
    } else if key == parse_key(k.panel_next.as_str()) {
        Intent::NextPanel
    } else if key == parse_key(k.scroll_down.as_str()) || key == Key::Down {
        Intent::ScrollDown
    } else if key == parse_key(k.scroll_up.as_str()) || key == Key::Up {
        Intent::ScrollUp
    } else if key == parse_key(k.play_pause.as_str()) {
        Intent::PlayPause
    } else if key == parse_key(k.next.as_str()) {
        Intent::NextTrack
    } else if key == parse_key(k.previous.as_str()) {
        Intent::PreviousTrack
    } else if key == parse_key(k.shuffle.as_str()) {
        Intent::ToggleShuffle
    } else if key == parse_key(k.repeat.as_str()) {
        Intent::CycleRepeat
    } else if key == parse_key(k.select.as_str()) {
        Intent::Select
    } else {
        Intent::Ignore
    }
}


// ── Commands ─────────────────────────────────────────────────────────────────

/// How a chosen sidebar entry is started.
#[derive(Debug)]
pub enum PlaylistPlan {
    /// Play the Liked Songs library.
    LikedSongs,
    /// Play the playlist (or context) with this URI.
    Context { uri: String },
    /// Nothing can be played; the reason is shown to the user.
    Unavailable { reason: String },
}

/// The value a plan stands for.
pub enum PlanView {
    LikedSongs,
    Context { uri: Seq<char> },
    Unavailable { reason: Seq<char> },
}

impl View for PlaylistPlan {
    type V = PlanView;

    open spec fn view(&self) -> PlanView {
        match self {
            PlaylistPlan::LikedSongs => PlanView::LikedSongs,
            PlaylistPlan::Context { uri } => PlanView::Context { uri: uri@ },
            PlaylistPlan::Unavailable { reason } => PlanView::Unavailable { reason: reason@ },
        }
    }
}

/// What the caller must do after a key: talk to the player or save the configuration.
/// The result is handed back as an `Outcome`.
#[derive(Debug)]
pub enum Command {
    Nothing,
    /// Write the configuration to its file.
    SaveConfig,
    /// Search the catalog for tracks.
    Search { query: String },
    /// Pause if `playing`, else resume.
    TogglePlayback { playing: bool },
    NextTrack,
    PreviousTrack,
    SetShuffle { on: bool },
    SetRepeat { mode: RepeatMode },
    /// Play one track.
    PlayTrack { uri: String, name: String },
    /// Switch shuffle and repeat off, then start a sidebar entry as `plan` says.
    PlayPlaylist { name: String, plan: PlaylistPlan },
}

/// The value a command stands for.
pub enum CommandView {
    Nothing,
    SaveConfig,
    Search { query: Seq<char> },
    TogglePlayback { playing: bool },
    NextTrack,
    PreviousTrack,
    SetShuffle { on: bool },
    SetRepeat { mode: RepeatMode },
    PlayTrack { uri: Seq<char>, name: Seq<char> },
    PlayPlaylist { name: Seq<char>, plan: PlanView },
}

impl View for Command {
    type V = CommandView;

    open spec fn view(&self) -> CommandView {
        match self {
            Command::Nothing => CommandView::Nothing,
            Command::SaveConfig => CommandView::SaveConfig,
            Command::Search { query } => CommandView::Search { query: query@ },
            Command::TogglePlayback { playing } => CommandView::TogglePlayback { playing: *playing },
            Command::NextTrack => CommandView::NextTrack,
            Command::PreviousTrack => CommandView::PreviousTrack,
            Command::SetShuffle { on } => CommandView::SetShuffle { on: *on },
            Command::SetRepeat { mode } => CommandView::SetRepeat { mode: *mode },
            Command::PlayTrack { uri, name } => CommandView::PlayTrack { uri: uri@, name: name@ },
            Command::PlayPlaylist { name, plan } => CommandView::PlayPlaylist {
                name: name@,
                plan: plan@,
            },
        }
    }
}

/// The message shown when the DJ entry is chosen before the DJ was started elsewhere.
pub open spec fn dj_unavailable_message() -> Seq<char> {
    "Start the DJ from Spotify first, then control it here"@
}

/// How a sidebar entry is started: Liked Songs as the library, the placeholder DJ entry
/// (whose URI is `dj`) not at all, and every other entry by its URI.
pub open spec fn plan_of(e: PlaylistEntry) -> PlanView {
    match e.kind {
        PlaylistKind::LikedSongs => PlanView::LikedSongs,
        PlaylistKind::Dj => if e.uri@ == "dj"@ {
            PlanView::Unavailable { reason: dj_unavailable_message() }
        } else {
            PlanView::Context { uri: e.uri@ }
        },
        PlaylistKind::Normal => PlanView::Context { uri: e.uri@ },
    }
}

/// How a sidebar entry is started.
pub fn playlist_plan(e: &PlaylistEntry) -> (r: PlaylistPlan)
    ensures
        r@ == plan_of(*e),
{
    match e.kind {
        PlaylistKind::LikedSongs => PlaylistPlan::LikedSongs,
        PlaylistKind::Dj => {
            if str_equal(e.uri.as_str(), "dj") {
                PlaylistPlan::Unavailable {
                    reason: String::from_str("Start the DJ from Spotify first, then control it here"),
                }
            } else {
                PlaylistPlan::Context { uri: e.uri.clone() }
            }
        },
        PlaylistKind::Normal => PlaylistPlan::Context { uri: e.uri.clone() },
    }
}

// ── What a key does ──────────────────────────────────────────────────────────

/// A sequence without its last element, if it has one (as `String::pop` leaves it).
pub open spec fn without_last(s: Seq<char>) -> Seq<char> {
    if s.len() > 0 {
        s.drop_last()
    } else {
        s
    }
}

/// What a key does while a setting's value is being edited.
pub open spec fn editing_step(a: AppView, c: ConfigView, key: Key) -> (
    AppView,
    ConfigView,
    CommandView,
) {
    match key {
        Key::Esc => (
            AppView {
                editing: false,
                edit_buffer: Seq::empty(),
                input_mode: InputMode::Normal,
                ..a
            },
            c,
            CommandView::Nothing,
        ),
        Key::Enter => {
            let r = applied(c, a.section(), a.item_selected as int, a.edit_buffer);
            (
                AppView {
                    editing: false,
                    edit_buffer: Seq::empty(),
                    input_mode: InputMode::Normal,
                    status_message: Some(
                        if r.1 {
                            "✅ Setting saved"@
                        } else {
                            "❌ Invalid value — for colors use: r,g,b (e.g. 30,215,96)"@
                        },
                    ),
                    ..a
                },
                r.0,
                if r.1 {
                    CommandView::SaveConfig
                } else {
                    CommandView::Nothing
                },
            )
        },
        Key::Backspace => (
            AppView { edit_buffer: without_last(a.edit_buffer), ..a },
            c,
            CommandView::Nothing,
        ),
        Key::Char(ch) => (
            AppView { edit_buffer: a.edit_buffer.push(ch), ..a },
            c,
            CommandView::Nothing,
        ),
        _ => (a, c, CommandView::Nothing),
    }
}

/// What a key does while a search is being typed.
pub open spec fn typing_step(a: AppView, key: Key) -> (AppView, CommandView) {
    match key {
        Key::Esc => (
            AppView {
                input_mode: InputMode::Normal,
                status_message: Some("Search cancelled"@),
                ..a
            },
            CommandView::Nothing,
        ),
        Key::Enter => (
            AppView { input_mode: InputMode::Normal, search_selected: 0, ..a },
            CommandView::Search { query: a.search_query },
        ),
        Key::Char(ch) => (
            AppView { search_query: a.search_query.push(ch), ..a },
            CommandView::Nothing,
        ),
        Key::Backspace => (
            AppView { search_query: without_last(a.search_query), ..a },
            CommandView::Nothing,
        ),
        _ => (a, CommandView::Nothing),
    }
}

/// What a key does on the settings screen when nothing is being edited.
pub open spec fn settings_step(a: AppView, c: ConfigView, key: Key) -> (
    AppView,
    ConfigView,
    CommandView,
) {
    if key == Key::Esc || key == Key::Char('c') {
        (AppView { active_panel: ActivePanel::NowPlaying, ..a }, c, CommandView::Nothing)
    } else if key == Key::Left {
        (
            AppView {
                section_selected: if a.section_selected > 0 {
                    (a.section_selected - 1) as usize
                } else {
                    (section_count() - 1) as usize
                },
                item_selected: 0,
                ..a
            },
            c,
            CommandView::Nothing,
        )
    } else if key == Key::Right {
        (
            AppView {
                section_selected: ((a.section_selected + 1) % (section_count() as int)) as usize,
                item_selected: 0,
                ..a
            },
            c,
            CommandView::Nothing,
        )
    } else if key == Key::Down || key == Key::Char('j') {
        (a.scrolled_down(), c, CommandView::Nothing)
    } else if key == Key::Up || key == Key::Char('k') {
        (a.scrolled_up(), c, CommandView::Nothing)
    } else if key == Key::Enter {
        if toggles(a.section(), a.item_selected as int) {
            (
                a.with_status("✅ Saved"@),
                toggled(c, a.section(), a.item_selected as int),
                CommandView::SaveConfig,
            )
        } else {
            (
                AppView {
                    edit_buffer: setting_value(c, a.section(), a.item_selected as int),
                    editing: true,
                    input_mode: InputMode::EditingValue,
                    ..a
                },
                c,
                CommandView::Nothing,
            )
        }
    } else {
        (a, c, CommandView::Nothing)
    }
}

/// Whether the player is playing, as far as the interface knows.
pub open spec fn is_playing(a: AppView) -> bool {
    match a.playback {
        Some(p) => p.is_playing,
        None => false,
    }
}

/// The panel after the active one in the cycle now playing → search → playlists.
pub open spec fn panel_after(p: ActivePanel) -> ActivePanel {
    match p {
        ActivePanel::NowPlaying => ActivePanel::Search,
        ActivePanel::Search => ActivePanel::Playlists,
        ActivePanel::Playlists => ActivePanel::NowPlaying,
        ActivePanel::Settings => ActivePanel::NowPlaying,
    }
}

/// What Enter starts on the main screen: the selected search result, or the selected
/// sidebar entry.
pub open spec fn select_command(a: AppView) -> CommandView {
    match a.active_panel {
        ActivePanel::Search => if a.search_selected < a.search_results.len() {
            CommandView::PlayTrack {
                uri: a.search_results[a.search_selected as int].uri@,
                name: a.search_results[a.search_selected as int].name@,
            }
        } else {
            CommandView::Nothing
        },
        ActivePanel::Playlists => if a.playlist_selected < a.playlists.len() {
            CommandView::PlayPlaylist {
                name: a.playlists[a.playlist_selected as int].name@,
                plan: plan_of(a.playlists[a.playlist_selected as int]),
            }
        } else {
            CommandView::Nothing
        },
        _ => CommandView::Nothing,
    }
}

/// What a key does on the main screen.
pub open spec fn normal_step(a: AppView, c: ConfigView, key: Key) -> (AppView, CommandView) {
    match normal_intent(c.keys, key) {
        Intent::Quit => (AppView { should_quit: true, ..a }, CommandView::Nothing),
        Intent::OpenSettings => (
            AppView { active_panel: ActivePanel::Settings, ..a },
            CommandView::Nothing,
        ),
        Intent::StartSearch => (
            AppView {
                active_panel: ActivePanel::Search,
                input_mode: InputMode::Typing,
                search_query: Seq::empty(),
                ..a
            },
            CommandView::Nothing,
        ),
        Intent::NextPanel => (
            AppView { active_panel: panel_after(a.active_panel), ..a },
            CommandView::Nothing,
        ),
        Intent::ScrollDown => (a.scrolled_down(), CommandView::Nothing),
        Intent::ScrollUp => (a.scrolled_up(), CommandView::Nothing),
        Intent::PlayPause => (a, CommandView::TogglePlayback { playing: is_playing(a) }),
        Intent::NextTrack => (a, CommandView::NextTrack),
        Intent::PreviousTrack => (a, CommandView::PreviousTrack),
        Intent::ToggleShuffle => (a, CommandView::SetShuffle { on: !a.shuffle }),
        Intent::CycleRepeat => (a, CommandView::SetRepeat { mode: repeat_after(a.repeat) }),
        Intent::Select => (a, select_command(a)),
        Intent::Ignore => (a, CommandView::Nothing),
    }
}

/// What a key does: the next state of the interface and of the configuration, and the
/// command for the caller. Editing a value comes first, then typing a search, then the
/// settings screen, then the main screen.
pub open spec fn key_step(a: AppView, c: ConfigView, key: Key) -> (
    AppView,
    ConfigView,
    CommandView,
) {
    if a.input_mode == InputMode::EditingValue {
        editing_step(a, c, key)
    } else if a.input_mode == InputMode::Typing {
        let r = typing_step(a, key);
        (r.0, c, r.1)
    } else if a.active_panel == ActivePanel::Settings {
        settings_step(a, c, key)
    } else {
        let r = normal_step(a, c, key);
        (r.0, c, r.1)
    }
}

fn handle_editing_key(app: &mut App, cfg: &mut Config, key: Key) -> (cmd: Command)
    requires
        old(app).wf(),
    ensures
        final(app).wf(),
        (final(app)@, final(cfg)@, cmd@) == editing_step(old(app)@, old(cfg)@, key),
{
    match key {
        Key::Esc => {
            app.settings.editing = false;
            clear_string(&mut app.settings.edit_buffer);
            app.input_mode = InputMode::Normal;
            Command::Nothing
        },
        Key::Enter => {
            let section = app.settings.current_section();
            let item = app.settings.item_selected;
            let ok = apply_setting(&section, item, app.settings.edit_buffer.as_str(), cfg);
            app.settings.editing = false;
            clear_string(&mut app.settings.edit_buffer);
            app.input_mode = InputMode::Normal;
            if ok {
                app.set_status(String::from_str("✅ Setting saved"));
                Command::SaveConfig
            } else {
                app.set_status(
                    String::from_str("❌ Invalid value — for colors use: r,g,b (e.g. 30,215,96)"),
                );
                Command::Nothing
            }
        },
        Key::Backspace => {
            pop_char(&mut app.settings.edit_buffer);
            Command::Nothing
        },
        Key::Char(c) => {
            push_char(&mut app.settings.edit_buffer, c);
            Command::Nothing
        },
        _ => Command::Nothing,
    }
}

fn handle_typing_key(app: &mut App, key: Key) -> (cmd: Command)
    requires
        old(app).wf(),
    ensures
        final(app).wf(),
        (final(app)@, cmd@) == typing_step(old(app)@, key),
{
    match key {
        Key::Esc => {
            app.input_mode = InputMode::Normal;
            app.set_status(String::from_str("Search cancelled"));
            Command::Nothing
        },
        Key::Enter => {
            app.input_mode = InputMode::Normal;
            app.search_selected = 0;
            Command::Search { query: app.search_query.clone() }
        },
        Key::Char(c) => {
            push_char(&mut app.search_query, c);
            Command::Nothing
        },
        Key::Backspace => {
            pop_char(&mut app.search_query);
            Command::Nothing
        },
        _ => Command::Nothing,
    }
}

fn handle_settings_key(app: &mut App, cfg: &mut Config, key: Key) -> (cmd: Command)
    requires
        old(app).wf(),
    ensures
        final(app).wf(),
        (final(app)@, final(cfg)@, cmd@) == settings_step(old(app)@, old(cfg)@, key),
{
    if key == Key::Esc || key == Key::Char('c') {
        app.active_panel = ActivePanel::NowPlaying;
        Command::Nothing
    } else if key == Key::Left {
        let sections = SettingsSection::all();
        if app.settings.section_selected > 0 {
            app.settings.section_selected -= 1;
        } else {
            app.settings.section_selected = sections.len() - 1;
        }
        app.settings.item_selected = 0;
        Command::Nothing
    } else if key == Key::Right {
        let sections = SettingsSection::all();
        app.settings.section_selected = (app.settings.section_selected + 1) % sections.len();
        app.settings.item_selected = 0;
        Command::Nothing
    } else if key == Key::Down || key == Key::Char('j') {
        app.scroll_down();
        Command::Nothing
    } else if key == Key::Up || key == Key::Char('k') {
        app.scroll_up();
        Command::Nothing
    } else if key == Key::Enter {
        let section = app.settings.current_section();
        let item = app.settings.item_selected;
        if is_toggle(&section, item) {
            toggle_setting(&section, item, cfg);
            app.set_status(String::from_str("✅ Saved"));
            Command::SaveConfig
        } else {
            let current = get_setting_value(&section, item, cfg);
            app.settings.edit_buffer = current;
            app.settings.editing = true;
            app.input_mode = InputMode::EditingValue;
            Command::Nothing
        }
    } else {
        Command::Nothing
    }
}

fn select_on_main_screen(app: &App) -> (cmd: Command)
    ensures
        cmd@ == select_command(app@),
{
    match app.active_panel {
        ActivePanel::Search => {
            match app.selected_search_track() {
                Some(t) => Command::PlayTrack { uri: t.uri.clone(), name: t.name.clone() },
                None => Command::Nothing,
            }
        },
        ActivePanel::Playlists => {
            match app.selected_playlist() {
                Some(p) => Command::PlayPlaylist { name: p.name.clone(), plan: playlist_plan(p) },
                None => Command::Nothing,
            }
        },
        _ => Command::Nothing,
    }
}

fn handle_normal_key(app: &mut App, cfg: &Config, key: Key) -> (cmd: Command)
    requires
        old(app).wf(),
    ensures
        final(app).wf(),
        (final(app)@, cmd@) == normal_step(old(app)@, cfg@, key),
{
    match key_intent(cfg, key) {
        Intent::Quit => {
            app.should_quit = true;
            Command::Nothing
        },
        Intent::OpenSettings => {
            app.active_panel = ActivePanel::Settings;
            Command::Nothing
        },
        Intent::StartSearch => {
            app.active_panel = ActivePanel::Search;
            app.input_mode = InputMode::Typing;
            clear_string(&mut app.search_query);
            Command::Nothing
        },
        Intent::NextPanel => {
            app.active_panel = match app.active_panel {
                ActivePanel::NowPlaying => ActivePanel::Search,
                ActivePanel::Search => ActivePanel::Playlists,
                ActivePanel::Playlists => ActivePanel::NowPlaying,
                ActivePanel::Settings => ActivePanel::NowPlaying,
            };
            Command::Nothing
        },
        Intent::ScrollDown => {
            app.scroll_down();
            Command::Nothing
        },
        Intent::ScrollUp => {
            app.scroll_up();
            Command::Nothing
        },
        Intent::PlayPause => {
            let playing = match &app.playback {
                Some(p) => p.is_playing,
                None => false,
            };
            Command::TogglePlayback { playing }
        },
        Intent::NextTrack => Command::NextTrack,
        Intent::PreviousTrack => Command::PreviousTrack,
        Intent::ToggleShuffle => Command::SetShuffle { on: !app.shuffle },
        Intent::CycleRepeat => Command::SetRepeat { mode: app.repeat.next() },
        Intent::Select => select_on_main_screen(app),
        Intent::Ignore => Command::Nothing,
    }
}

/// Acts on a key: updates the interface and the configuration as `key_step` says, and
/// returns what the caller must do.
pub fn handle_key(app: &mut App, cfg: &mut Config, key: Key) -> (cmd: Command)
    requires
        old(app).wf(),
    ensures
        final(app).wf(),
        (final(app)@, final(cfg)@, cmd@) == key_step(old(app)@, old(cfg)@, key),
{
    if app.input_mode == InputMode::EditingValue {
        handle_editing_key(app, cfg, key)
    } else if app.input_mode == InputMode::Typing {
        handle_typing_key(app, key)
    } else if app.active_panel == ActivePanel::Settings {
        handle_settings_key(app, cfg, key)
    } else {
        handle_normal_key(app, cfg, key)
    }
}


// ── What the player answered ─────────────────────────────────────────────────

/// The result of a command or of a query that the caller carried out, handed back to the
/// interface. An error is its message.
#[derive(Debug)]
pub enum Outcome {
    /// The playback state read at start-up.
    PlaybackLoaded { result: Result<Option<PlaybackState>, String> },
    /// The sidebar entries read at start-up.
    PlaylistsLoaded { result: Result<Vec<PlaylistEntry>, String> },
    /// The playback state read by the periodic poll.
    PlaybackPolled { playback: PlaybackState },
    /// The tracks a search found.
    SearchDone { result: Result<Vec<Track>, String> },
    /// Playback was paused (if `was_playing`) or resumed.
    PlaybackToggled { was_playing: bool, result: Result<(), String> },
    /// The player skipped to the next track (if `forward`) or the previous one.
    Skipped { forward: bool, result: Result<(), String> },
    ShuffleSet { on: bool, result: Result<(), String> },
    RepeatSet { mode: RepeatMode, result: Result<(), String> },
    /// A track was started.
    TrackStarted { name: String, result: Result<(), String> },
    /// A sidebar entry was started.
    PlaylistStarted { name: String, result: Result<(), String> },
}

/// The message of an error, if there was one.
pub open spec fn error_of(r: Result<(), String>) -> Option<Seq<char>> {
    match r {
        Ok(_) => None,
        Err(e) => Some(e@),
    }
}

/// The state after the player reported `pb`: its shuffle and repeat taken over, and `pb`
/// shown.
pub open spec fn synced(a: AppView, pb: PlaybackState) -> AppView {
    AppView {
        shuffle: pb.shuffle_state,
        repeat: repeat_from_name(pb.repeat_state@),
        playback: Some(pb@),
        ..a
    }
}

/// The status line after a repeat mode was set.
pub open spec fn repeat_label(m: RepeatMode) -> Seq<char> {
    match m {
        RepeatMode::Off => "🔁 Repeat OFF"@,
        RepeatMode::Context => "🔁 Repeat: Playlist"@,
        RepeatMode::Track => "🔂 Repeat: Track"@,
    }
}

/// What an outcome does to the interface.
pub open spec fn outcome_step(a: AppView, o: Outcome) -> AppView {
    match o {
        Outcome::PlaybackLoaded { result } => match result {
            Ok(Some(pb)) => synced(a, pb),
            Ok(None) => a,
            Err(e) => a.with_status("Playback error: "@ + e@),
        },
        Outcome::PlaylistsLoaded { result } => match result {
            Ok(pl) => AppView { playlists: pl@, ..a },
            Err(e) => a.with_status("Playlists error: "@ + e@),
        },
        Outcome::PlaybackPolled { playback } => synced(a, playback),
        Outcome::SearchDone { result } => match result {
            Ok(ts) => AppView {
                search_results: track_views(ts@),
                status_message: Some("Found "@ + decimal(ts@.len()) + " tracks"@),
                ..a
            },
            Err(e) => a.with_status("Search failed: "@ + e@),
        },
        Outcome::PlaybackToggled { was_playing, result } => match error_of(result) {
            None => AppView {
                playback: match a.playback {
                    Some(p) => Some(crate::spotify::PlaybackStateView { is_playing: !was_playing, ..p }),
                    None => None,
                },
                status_message: Some(
                    if was_playing {
                        "⏸ Paused"@
                    } else {
                        "▶ Playing"@
                    },
                ),
                ..a
            },
            Some(e) => a.with_status("Error: "@ + e),
        },
        Outcome::Skipped { forward, result } => match error_of(result) {
            None => a.with_status(
                if forward {
                    "⏭ Next track"@
                } else {
                    "⏮ Previous track"@
                },
            ),
            Some(e) => a.with_status("Error: "@ + e),
        },
        Outcome::ShuffleSet { on, result } => match error_of(result) {
            None => AppView {
                shuffle: on,
                status_message: Some(
                    if on {
                        "🔀 Shuffle ON"@
                    } else {
                        "🔀 Shuffle OFF"@
                    },
                ),
                ..a
            },
            Some(e) => a.with_status("Error: "@ + e),
        },
        Outcome::RepeatSet { mode, result } => match error_of(result) {
            None => AppView { repeat: mode, status_message: Some(repeat_label(mode)), ..a },
            Some(e) => a.with_status("Error: "@ + e),
        },
        Outcome::TrackStarted { name, result } => match error_of(result) {
            None => a.with_status("▶ Playing: "@ + name@),
            Some(e) => a.with_status("Error: "@ + e),
        },
        Outcome::PlaylistStarted { name, result } => {
            let b = AppView { shuffle: false, repeat: RepeatMode::Off, ..a };
            match error_of(result) {
                None => b.with_status("▶ Playing: "@ + name@),
                Some(e) => b.with_status(e),
            }
        },
    }
}

/// `prefix` followed by the characters of `s`.
fn prefixed(prefix: &str, s: &str) -> (r: String)
    ensures
        r@ == prefix@ + s@,
{
    String::from_str(prefix).concat(s)
}

/// Takes over shuffle and repeat from a reported playback state and shows it.
fn show_playback(app: &mut App, pb: PlaybackState)
    requires
        old(app).wf(),
    ensures
        final(app).wf(),
        final(app)@ == synced(old(app)@, pb),
{
    app.sync_playback_state(&pb);
    app.playback = Some(pb);
}

/// Updates the interface with what the player answered, as `outcome_step` says.
pub fn apply_outcome(app: &mut App, outcome: Outcome)
    requires
        old(app).wf(),
    ensures
        final(app).wf(),
        final(app)@ == outcome_step(old(app)@, outcome),
{
    let ghost o = outcome;
    match outcome {
        Outcome::PlaybackLoaded { result } => match result {
            Ok(Some(pb)) => show_playback(app, pb),
            Ok(None) => {},
            Err(e) => app.set_status(prefixed("Playback error: ", e.as_str())),
        },
        Outcome::PlaylistsLoaded { result } => match result {
            Ok(pl) => {
                assert(pl@.len() == pl.len());
                app.playlists = pl;
            },
            Err(e) => app.set_status(prefixed("Playlists error: ", e.as_str())),
        },
        Outcome::PlaybackPolled { playback } => show_playback(app, playback),
        Outcome::SearchDone { result } => match result {
            Ok(tracks) => {
                let n = tracks.len();
                let mut msg = String::from_str("Found ");
                crate::text::push_chars(&mut msg, &crate::text::decimal_chars(n as u64));
                let msg = msg.concat(" tracks");
                app.set_status(msg);
                assert(tracks@.len() == tracks.len());
                app.search_results = tracks;
            },
            Err(e) => app.set_status(prefixed("Search failed: ", e.as_str())),
        },
        Outcome::PlaybackToggled { was_playing, result } => match result {
            Ok(_) => {
                if let Some(pb) = &mut app.playback {
                    pb.is_playing = !was_playing;
                }
                app.set_status(
                    String::from_str(
                        if was_playing {
                            "⏸ Paused"
                        } else {
                            "▶ Playing"
                        },
                    ),
                );
            },
            Err(e) => app.set_status(prefixed("Error: ", e.as_str())),
        },
        Outcome::Skipped { forward, result } => match result {
            Ok(_) => app.set_status(
                String::from_str(
                    if forward {
                        "⏭ Next track"
                    } else {
                        "⏮ Previous track"
                    },
                ),
            ),
            Err(e) => app.set_status(prefixed("Error: ", e.as_str())),
        },
        Outcome::ShuffleSet { on, result } => match result {
            Ok(_) => {
                app.shuffle = on;
                app.set_status(
                    String::from_str(
                        if on {
                            "🔀 Shuffle ON"
                        } else {
                            "🔀 Shuffle OFF"
                        },
                    ),
                );
            },
            Err(e) => app.set_status(prefixed("Error: ", e.as_str())),
        },
        Outcome::RepeatSet { mode, result } => match result {
            Ok(_) => {
                let label = match mode {
                    RepeatMode::Off => "🔁 Repeat OFF",
                    RepeatMode::Context => "🔁 Repeat: Playlist",
                    RepeatMode::Track => "🔂 Repeat: Track",
                };
                app.repeat = mode;
                app.set_status(String::from_str(label));
            },
            Err(e) => app.set_status(prefixed("Error: ", e.as_str())),
        },
        Outcome::TrackStarted { name, result } => match result {
            Ok(_) => app.set_status(prefixed("▶ Playing: ", name.as_str())),
            Err(e) => app.set_status(prefixed("Error: ", e.as_str())),
        },
        Outcome::PlaylistStarted { name, result } => {
            app.shuffle = false;
            app.repeat = RepeatMode::Off;
            match result {
                Ok(_) => app.set_status(prefixed("▶ Playing: ", name.as_str())),
                Err(e) => app.set_status(e),
            }
        },
    }
}

/// A copy of the interface state for drawing.
pub fn build_snapshot(a: &App) -> (s: App)
    requires
        a.wf(),
    ensures
        s.wf(),
        s@ == a@,
{
    let mut snap = App::new();
    snap.shuffle = a.shuffle;
    snap.repeat = a.repeat;
    snap.playback = match &a.playback {
        Some(p) => Some(p.clone()),
        None => None,
    };
    snap.search_query = a.search_query.clone();
    snap.search_results = clone_tracks(&a.search_results);
    snap.search_selected = a.search_selected;
    snap.playlists = clone_entries(&a.playlists);
    snap.playlist_selected = a.playlist_selected;
    snap.active_panel = a.active_panel;
    snap.input_mode = a.input_mode;
    snap.status_message = clone_opt_string(&a.status_message);
    snap.should_quit = a.should_quit;
    snap.settings.section_selected = a.settings.section_selected;
    snap.settings.item_selected = a.settings.item_selected;
    snap.settings.edit_buffer = a.settings.edit_buffer.clone();
    snap.settings.editing = a.settings.editing;
    assert(snap.search_results@.len() == snap.search_results.len());
    assert(snap.playlists@.len() == snap.playlists.len());
    snap
}


// ── Laws ─────────────────────────────────────────────────────────────────────

/// Every key leaves the configuration as it was, unless it asks for the configuration to
/// be saved.
pub proof fn lemma_config_changes_are_saved(a: AppView, c: ConfigView, key: Key)
    ensures
        key_step(a, c, key).1 != c ==> key_step(a, c, key).2 == CommandView::SaveConfig,
{
    if a.input_mode == InputMode::EditingValue && key == Key::Enter {
        let r = applied(c, a.section(), a.item_selected as int, a.edit_buffer);
        if !r.1 {
            crate::settings::lemma_refused_value_changes_nothing(
                c,
                a.section(),
                a.item_selected as int,
                a.edit_buffer,
            );
        }
    }
}

/// Opening the editor of a value and confirming it without typing leaves the configuration
/// as it was, returns to normal input, and saves.
pub proof fn lemma_open_and_confirm_changes_nothing(a: AppView, c: ConfigView)
    requires
        a.wf(),
        a.input_mode == InputMode::Normal,
        a.active_panel == ActivePanel::Settings,
        a.item_selected < item_count(a.section()),
        !toggles(a.section(), a.item_selected as int),
        crate::settings::layout_in_bounds(c.layout),
        c.theme.accent.len() == 3,
        c.theme.background.len() == 3,
        c.theme.muted.len() == 3,
        c.theme.highlight_bg.len() == 3,
    ensures
        ({
            let s1 = key_step(a, c, Key::Enter);
            let s2 = key_step(s1.0, s1.1, Key::Enter);
            &&& s1.1 == c
            &&& s1.0.input_mode == InputMode::EditingValue
            &&& s2.1 == c
            &&& s2.0.input_mode == InputMode::Normal
            &&& s2.2 == CommandView::SaveConfig
        }),
{
    crate::settings::lemma_confirm_unchanged_value(c, a.section(), a.item_selected as int);
}

/// While a search is typed, Backspace takes back the character just typed.
pub proof fn lemma_typing_backspace_undoes_char(a: AppView, c: ConfigView, ch: char)
    requires
        a.input_mode == InputMode::Typing,
    ensures
        key_step(key_step(a, c, Key::Char(ch)).0, c, Key::Backspace).0 == a,
{
    assert(a.search_query.push(ch).drop_last() =~= a.search_query);
}

/// While a value is edited, Backspace takes back the character just typed.
pub proof fn lemma_editing_backspace_undoes_char(a: AppView, c: ConfigView, ch: char)
    requires
        a.input_mode == InputMode::EditingValue,
    ensures
        key_step(key_step(a, c, Key::Char(ch)).0, c, Key::Backspace).0 == a,
{
    assert(a.edit_buffer.push(ch).drop_last() =~= a.edit_buffer);
}

/// Esc while editing a value leaves the configuration as it was.
pub proof fn lemma_editing_escape_keeps_config(a: AppView, c: ConfigView)
    requires
        a.input_mode == InputMode::EditingValue,
    ensures
        key_step(a, c, Key::Esc).1 == c,
        key_step(a, c, Key::Esc).0.input_mode == InputMode::Normal,
        key_step(a, c, Key::Esc).2 == CommandView::Nothing,
{
}

/// The next-panel binding goes round the three panels of the main screen: each press
/// moves to the next panel and changes nothing else, and three presses come back to the
/// panel where they started. This holds when no binding tried before it (quit, `c`,
/// search) names the same key.
pub proof fn lemma_panel_cycle(a: AppView, c: ConfigView)
    requires
        a.input_mode == InputMode::Normal,
        a.active_panel != ActivePanel::Settings,
        parsed_key(c.keys.panel_next) != parsed_key(c.keys.quit),
        parsed_key(c.keys.panel_next) != Key::Char('c'),
        parsed_key(c.keys.panel_next) != parsed_key(c.keys.search),
    ensures
        ({
            let key = parsed_key(c.keys.panel_next);
            let s1 = key_step(a, c, key);
            let s2 = key_step(s1.0, s1.1, key);
            let s3 = key_step(s2.0, s2.1, key);
            &&& s1.0 == AppView { active_panel: panel_after(a.active_panel), ..a }
            &&& s1.1 == c
            &&& s1.2 == CommandView::Nothing
            &&& s1.0.active_panel != a.active_panel
            &&& s3.0 == a
            &&& s3.1 == c
        }),
{
}

/// On the settings screen, Right after Left comes back to the same section.
pub proof fn lemma_section_left_right(a: AppView, c: ConfigView)
    requires
        a.wf(),
        a.input_mode == InputMode::Normal,
        a.active_panel == ActivePanel::Settings,
    ensures
        ({
            let s1 = settings_step(a, c, Key::Left);
            let s2 = settings_step(s1.0, s1.1, Key::Right);
            &&& s2.0.section_selected == a.section_selected
            &&& s2.0.item_selected == 0
            &&& s2.1 == c
        }),
{
}

/// Whether an outcome reports a playback command that failed.
pub open spec fn is_failed_playback_command(o: Outcome) -> bool {
    match o {
        Outcome::PlaybackToggled { result, .. } => result is Err,
        Outcome::Skipped { result, .. } => result is Err,
        Outcome::ShuffleSet { result, .. } => result is Err,
        Outcome::RepeatSet { result, .. } => result is Err,
        Outcome::TrackStarted { result, .. } => result is Err,
        _ => false,
    }
}

/// A playback command that failed changes nothing but the status line, which then shows a
/// message.
pub proof fn lemma_failure_only_reports(a: AppView, o: Outcome)
    requires
        is_failed_playback_command(o),
    ensures
        outcome_step(a, o) == a.with_status(outcome_step(a, o).status_message.unwrap()),
        outcome_step(a, o).status_message is Some,
{
}

/// After a search is confirmed and its results arrive, the first result is selected.
pub proof fn lemma_search_selects_first(a: AppView, c: ConfigView, tracks: Vec<Track>)
    requires
        a.input_mode == InputMode::Typing,
        tracks@.len() > 0,
    ensures
        ({
            let s = key_step(a, c, Key::Enter).0;
            let b = outcome_step(s, Outcome::SearchDone { result: Ok(tracks) });
            &&& b.search_selected == 0
            &&& b.search_selected < b.search_results.len()
            &&& b.input_mode == InputMode::Normal
        }),
{
}

/// Whether a command only concerns the configuration (or nothing at all).
pub open spec fn is_local_command(c: CommandView) -> bool {
    c == CommandView::Nothing || c == CommandView::SaveConfig
}

/// While a search is typed, no key but Enter asks anything of the player, and no key
/// changes the configuration.
pub proof fn lemma_typing_is_inert(a: AppView, c: ConfigView, key: Key)
    requires
        a.input_mode == InputMode::Typing,
        key != Key::Enter,
    ensures
        key_step(a, c, key).2 == CommandView::Nothing,
        key_step(a, c, key).1 == c,
{
}

/// The settings screen, and the editing of a value, never ask anything of the player.
pub proof fn lemma_settings_never_play(a: AppView, c: ConfigView, key: Key)
    requires
        a.input_mode == InputMode::EditingValue || (a.input_mode == InputMode::Normal
            && a.active_panel == ActivePanel::Settings),
    ensures
        is_local_command(key_step(a, c, key).2),
{
}

/// The interface asks to quit only after the quit binding was pressed on the main screen.
pub proof fn lemma_quit_only_by_binding(a: AppView, c: ConfigView, key: Key)
    requires
        !a.should_quit,
        key_step(a, c, key).0.should_quit,
    ensures
        a.input_mode == InputMode::Normal,
        a.active_panel != ActivePanel::Settings,
        normal_intent(c.keys, key) == Intent::Quit,
{
}

/// Confirming a color that does not read as three numbers from 0 to 255 leaves the
/// configuration as it was and says so in the status line.
pub proof fn lemma_invalid_color_reported(a: AppView, c: ConfigView)
    requires
        a.input_mode == InputMode::EditingValue,
        a.section() == crate::app::SettingsSection::Theme,
        a.item_selected < 4,
        crate::settings::rgb_value(a.edit_buffer) is None,
    ensures
        key_step(a, c, Key::Enter).1 == c,
        key_step(a, c, Key::Enter).0.status_message == Some(
            "❌ Invalid value — for colors use: r,g,b (e.g. 30,215,96)"@,
        ),
        key_step(a, c, Key::Enter).2 == CommandView::Nothing,
{
}

/// The select binding starts what is highlighted on the main screen, and changes nothing
/// else: on the playlists panel the sidebar entry at the playlist selection, on the search
/// panel the search result at the search selection; nothing when the selection lies past
/// its list or the now-playing panel is active. This holds when no binding tried before it
/// names the same key.
pub proof fn lemma_select_starts_highlighted(a: AppView, c: ConfigView)
    requires
        a.input_mode == InputMode::Normal,
        a.active_panel != ActivePanel::Settings,
        ({
            let key = parsed_key(c.keys.select);
            &&& key != parsed_key(c.keys.quit)
            &&& key != Key::Char('c')
            &&& key != parsed_key(c.keys.search)
            &&& key != parsed_key(c.keys.panel_next)
            &&& key != parsed_key(c.keys.scroll_down)
            &&& key != Key::Down
            &&& key != parsed_key(c.keys.scroll_up)
            &&& key != Key::Up
            &&& key != parsed_key(c.keys.play_pause)
            &&& key != parsed_key(c.keys.next)
            &&& key != parsed_key(c.keys.previous)
            &&& key != parsed_key(c.keys.shuffle)
            &&& key != parsed_key(c.keys.repeat)
        }),
    ensures
        ({
            let s = key_step(a, c, parsed_key(c.keys.select));
            let p = a.playlist_selected as int;
            let t = a.search_selected as int;
            &&& s.0 == a
            &&& s.1 == c
            &&& a.active_panel == ActivePanel::Playlists && p < a.playlists.len() ==> s.2
                == CommandView::PlayPlaylist {
                name: a.playlists[p].name@,
                plan: plan_of(a.playlists[p]),
            }
            &&& a.active_panel == ActivePanel::Search && t < a.search_results.len() ==> s.2
                == CommandView::PlayTrack {
                uri: a.search_results[t].uri@,
                name: a.search_results[t].name@,
            }
            &&& a.active_panel == ActivePanel::Playlists && p >= a.playlists.len() ==> s.2
                == CommandView::Nothing
            &&& a.active_panel == ActivePanel::Search && t >= a.search_results.len() ==> s.2
                == CommandView::Nothing
            &&& a.active_panel == ActivePanel::NowPlaying ==> s.2 == CommandView::Nothing
        }),
{
}

/// On the settings screen the arrow keys move through the items as `j` and `k` do: Up one
/// row up (from the first row to the last), Down one row down (from the last to the
/// first). Nothing else changes and nothing is asked of the player.
pub proof fn lemma_settings_arrows(a: AppView, c: ConfigView)
    requires
        a.wf(),
        a.input_mode == InputMode::Normal,
        a.active_panel == ActivePanel::Settings,
        a.item_selected < item_count(a.section()),
    ensures
        key_step(a, c, Key::Up) == key_step(a, c, Key::Char('k')),
        key_step(a, c, Key::Down) == key_step(a, c, Key::Char('j')),
        key_step(a, c, Key::Up) == (
            AppView {
                item_selected: if a.item_selected == 0 {
                    (item_count(a.section()) - 1) as usize
                } else {
                    (a.item_selected - 1) as usize
                },
                ..a
            },
            c,
            CommandView::Nothing,
        ),
        key_step(a, c, Key::Down) == (
            AppView {
                item_selected: if a.item_selected + 1 == item_count(a.section()) {
                    0usize
                } else {
                    (a.item_selected + 1) as usize
                },
                ..a
            },
            c,
            CommandView::Nothing,
        ),
{
    let n = item_count(a.section());
    if a.item_selected + 1 < n {
        vstd::arithmetic::div_mod::lemma_small_mod((a.item_selected + 1) as nat, n);
    } else {
        vstd::arithmetic::div_mod::lemma_mod_self_0(n as int);
    }
}

/// A shuffle setting the player confirmed is what the interface shows from then on: its
/// shuffle becomes the one set, whatever it was before, and the status line says which.
/// Nothing else changes.
pub proof fn lemma_shuffle_confirmed(a: AppView, on: bool)
    ensures
        outcome_step(a, Outcome::ShuffleSet { on, result: Ok(()) }) == (AppView {
            shuffle: on,
            status_message: Some(
                if on {
                    "🔀 Shuffle ON"@
                } else {
                    "🔀 Shuffle OFF"@
                },
            ),
            ..a
        }),
        outcome_step(a, Outcome::ShuffleSet { on, result: Ok(()) }).shuffle == on,
{
}

/// The shuffle binding asks the player for the opposite of the shuffle shown, and once the
/// player confirms, the interface shows it flipped; two such rounds bring it back.
pub proof fn lemma_shuffle_key_flips(a: AppView, c: ConfigView, key: Key)
    requires
        a.input_mode == InputMode::Normal,
        a.active_panel != ActivePanel::Settings,
        normal_intent(c.keys, key) == Intent::ToggleShuffle,
    ensures
        ({
            let s1 = key_step(a, c, key);
            let b1 = outcome_step(s1.0, Outcome::ShuffleSet { on: !a.shuffle, result: Ok(()) });
            let s2 = key_step(b1, c, key);
            let b2 = outcome_step(s2.0, Outcome::ShuffleSet { on: a.shuffle, result: Ok(()) });
            &&& s1.2 == CommandView::SetShuffle { on: !a.shuffle }
            &&& b1.shuffle == !a.shuffle
            &&& s2.2 == CommandView::SetShuffle { on: a.shuffle }
            &&& b2.shuffle == a.shuffle
        }),
{
}

} // verus!
