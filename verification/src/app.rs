use vstd::prelude::*;

use crate::spotify::{PlaybackState, PlaybackStateView, PlaylistEntry, Track, TrackView};
use crate::spotify::track_views;
use crate::text::str_equal;

verus! {

/// The panel that keys act on.
#[derive(Clone, Copy, Debug, PartialEq, Eq, Structural)]
pub enum ActivePanel {
    NowPlaying,
    Search,
    Playlists,
    Settings,
}

/// What typed characters go to.
#[derive(Clone, Copy, Debug, PartialEq, Eq, Structural)]
pub enum InputMode {
    Normal,
    Typing,
    /// Editing the value of a setting.
    EditingValue,
}

// ── Settings menu state ──────────────────────────────────────────────────────

/// A section of the settings screen.
#[derive(Clone, Copy, Debug, PartialEq, Eq, Structural)]
pub enum SettingsSection {
    Theme,
    Layout,
    NowPlaying,
    Keybindings,
}

/// The sections of the settings screen, in the order of their tabs.
pub open spec fn all_sections() -> Seq<SettingsSection> {
    seq![
        SettingsSection::Theme,
        SettingsSection::Layout,
        SettingsSection::NowPlaying,
        SettingsSection::Keybindings,
    ]
}

/// The number of settings sections.
pub open spec fn section_count() -> nat {
    4
}

/// The tab label of a section.
pub open spec fn section_label(s: SettingsSection) -> Seq<char> {
    match s {
        SettingsSection::Theme => "🎨  Theme"@,
        SettingsSection::Layout => "📐  Layout"@,
        SettingsSection::NowPlaying => "🎵  Now Playing"@,
        SettingsSection::Keybindings => "⌨️   Keybindings"@,
    }
}

/// How many items each settings section holds.
pub open spec fn item_count(s: SettingsSection) -> nat {
    match s {
        SettingsSection::Theme => 5,
        SettingsSection::Layout => 3,
        SettingsSection::NowPlaying => 7,
        SettingsSection::Keybindings => 11,
    }
}

impl SettingsSection {
    /// Every section, in the order of their tabs.
    pub fn all() -> (r: Vec<SettingsSection>)
        ensures
            r@ == all_sections(),
    {
        let r = vec![
            SettingsSection::Theme,
            SettingsSection::Layout,
            SettingsSection::NowPlaying,
            SettingsSection::Keybindings,
        ];
        assert(r@ =~= all_sections());
        r
    }

    /// The tab label of this section.
    pub fn label(&self) -> (r: &'static str)
        ensures
            r@ == section_label(*self),
    {
        match self {
            SettingsSection::Theme => "🎨  Theme",
            SettingsSection::Layout => "📐  Layout",
            SettingsSection::NowPlaying => "🎵  Now Playing",
            SettingsSection::Keybindings => "⌨️   Keybindings",
        }
    }
}

/// How many items are in each settings section.
pub fn settings_item_count(section: &SettingsSection) -> (r: usize)
    ensures
        r == item_count(*section),
{
    match section {
        SettingsSection::Theme => 5,
        SettingsSection::Layout => 3,
        SettingsSection::NowPlaying => 7,
        SettingsSection::Keybindings => 11,
    }
}

/// Where the settings screen stands.
#[derive(Debug)]
pub struct SettingsState {
    pub section_selected: usize,
    pub item_selected: usize,
    /// The text being typed while a value is edited.
    pub edit_buffer: String,
    /// Whether a value is being edited.
    pub editing: bool,
}

impl SettingsState {
    /// The first item of the first section, with nothing being edited.
    pub fn new() -> (r: Self)
        ensures
            r.section_selected == 0,
            r.item_selected == 0,
            r.edit_buffer@ == Seq::<char>::empty(),
            !r.editing,
    {
        SettingsState {
            section_selected: 0,
            item_selected: 0,
            edit_buffer: String::new(),
            editing: false,
        }
    }

    /// The selected section.
    pub fn current_section(&self) -> (r: SettingsSection)
        requires
            self.section_selected < section_count(),
        ensures
            r == all_sections()[self.section_selected as int],
    {
        let mut all = SettingsSection::all();
        all.remove(self.section_selected)
    }
}

// ── Repeat mode ──────────────────────────────────────────────────────────────

/// How playback repeats.
#[derive(Clone, Copy, Debug, PartialEq, Eq, Structural)]
pub enum RepeatMode {
    Off,
    Context,
    Track,
}

/// The name of a repeat mode in the player's interface.
pub open spec fn repeat_name(m: RepeatMode) -> Seq<char> {
    match m {
        RepeatMode::Off => "off"@,
        RepeatMode::Context => "context"@,
        RepeatMode::Track => "track"@,
    }
}

/// The mode after `m` in the cycle off → context → track → off.
pub open spec fn repeat_after(m: RepeatMode) -> RepeatMode {
    match m {
        RepeatMode::Off => RepeatMode::Context,
        RepeatMode::Context => RepeatMode::Track,
        RepeatMode::Track => RepeatMode::Off,
    }
}

/// The icon of a repeat mode.
pub open spec fn repeat_icon(m: RepeatMode) -> Seq<char> {
    match m {
        RepeatMode::Off => "🔁"@,
        RepeatMode::Context => "🔁"@,
        RepeatMode::Track => "🔂"@,
    }
}

/// The repeat mode that the player reports by name; an unknown name reads as off.
pub open spec fn repeat_from_name(s: Seq<char>) -> RepeatMode {
    if s == "context"@ {
        RepeatMode::Context
    } else if s == "track"@ {
        RepeatMode::Track
    } else {
        RepeatMode::Off
    }
}

impl RepeatMode {
    /// The name of the mode.
    pub fn as_str(&self) -> (r: &'static str)
        ensures
            r@ == repeat_name(*self),
    {
        match self {
            RepeatMode::Off => "off",
            RepeatMode::Context => "context",
            RepeatMode::Track => "track",
        }
    }

    /// The next mode of the cycle.
    pub fn next(&self) -> (r: RepeatMode)
        ensures
            r == repeat_after(*self),
    {
        match self {
            RepeatMode::Off => RepeatMode::Context,
            RepeatMode::Context => RepeatMode::Track,
            RepeatMode::Track => RepeatMode::Off,
        }
    }

    /// The icon of the mode.
    pub fn icon(&self) -> (r: &'static str)
        ensures
            r@ == repeat_icon(*self),
    {
        match self {
            RepeatMode::Off => "🔁",
            RepeatMode::Context => "🔁",
            RepeatMode::Track => "🔂",
        }
    }
}

/// Three steps of the repeat cycle come back to where they started.
pub proof fn lemma_repeat_cycle(m: RepeatMode)
    ensures
        repeat_after(repeat_after(repeat_after(m))) == m,
        repeat_after(m) != m,
{
}

/// Reading back the name of a repeat mode gives that mode.
pub proof fn lemma_repeat_name_round_trip(m: RepeatMode)
    ensures
        repeat_from_name(repeat_name(m)) == m,
{
    reveal_strlit("off");
    reveal_strlit("context");
    reveal_strlit("track");
    assert("off"@ != "context"@) by {
        assert("off"@.len() != "context"@.len());
    }
    assert("off"@ != "track"@) by {
        assert("off"@[0] != "track"@[0]);
    }
    assert("track"@ != "context"@) by {
        assert("track"@.len() != "context"@.len());
    }
}

// ── App ──────────────────────────────────────────────────────────────────────

/// The whole state of the interface.
#[derive(Debug)]
pub struct App {
    pub active_panel: ActivePanel,
    pub input_mode: InputMode,
    // Now playing
    pub playback: Option<PlaybackState>,
    // Search
    pub search_query: String,
    pub search_results: Vec<Track>,
    pub search_selected: usize,
    // Playlists
    pub playlists: Vec<PlaylistEntry>,
    pub playlist_selected: usize,
    // Shuffle / repeat
    pub shuffle: bool,
    pub repeat: RepeatMode,
    // Settings
    pub settings: SettingsState,
    // Status bar
    pub status_message: Option<String>,
    pub should_quit: bool,
}

/// The value an interface state stands for.
pub struct AppView {
    pub active_panel: ActivePanel,
    pub input_mode: InputMode,
    pub playback: Option<PlaybackStateView>,
    pub search_query: Seq<char>,
    pub search_results: Seq<TrackView>,
    pub search_selected: usize,
    pub playlists: Seq<PlaylistEntry>,
    pub playlist_selected: usize,
    pub shuffle: bool,
    pub repeat: RepeatMode,
    pub section_selected: usize,
    pub item_selected: usize,
    pub edit_buffer: Seq<char>,
    pub editing: bool,
    pub status_message: Option<Seq<char>>,
    pub should_quit: bool,
}

impl View for App {
    type V = AppView;

    open spec fn view(&self) -> AppView {
        AppView {
            active_panel: self.active_panel,
            input_mode: self.input_mode,
            playback: match self.playback {
                Some(p) => Some(p@),
                None => None,
            },
            search_query: self.search_query@,
            search_results: track_views(self.search_results@),
            search_selected: self.search_selected,
            playlists: self.playlists@,
            playlist_selected: self.playlist_selected,
            shuffle: self.shuffle,
            repeat: self.repeat,
            section_selected: self.settings.section_selected,
            item_selected: self.settings.item_selected,
            edit_buffer: self.settings.edit_buffer@,
            editing: self.settings.editing,
            status_message: match self.status_message {
                Some(m) => Some(m@),
                None => None,
            },
            should_quit: self.should_quit,
        }
    }
}

/// The selection after moving down one row of a cyclic list of `len` rows.
pub open spec fn next_index(sel: usize, len: nat) -> usize {
    if len == 0 {
        sel
    } else {
        ((sel + 1) % (len as int)) as usize
    }
}

/// The selection after moving up one row of a cyclic list of `len` rows.
pub open spec fn prev_index(sel: usize, len: nat) -> usize {
    if len == 0 {
        sel
    } else if sel == 0 {
        (len - 1) as usize
    } else {
        (sel - 1) as usize
    }
}

impl AppView {
    /// What every state of the interface keeps: a settings section that exists, lists that
    /// fit in memory, and selections that can move one row down.
    pub open spec fn wf(self) -> bool {
        &&& self.section_selected < section_count()
        &&& self.search_selected < usize::MAX
        &&& self.playlist_selected < usize::MAX
        &&& self.item_selected < usize::MAX
        &&& self.search_results.len() <= usize::MAX
        &&& self.playlists.len() <= usize::MAX
    }

    /// The selected settings section.
    pub open spec fn section(self) -> SettingsSection {
        all_sections()[self.section_selected as int]
    }

    /// Every selection lies within its list.
    pub open spec fn selections_in_range(self) -> bool {
        &&& (self.search_results.len() > 0 ==> self.search_selected < self.search_results.len())
        &&& (self.playlists.len() > 0 ==> self.playlist_selected < self.playlists.len())
        &&& self.item_selected < item_count(self.section())
    }

    /// The state after moving one row down in the active panel.
    pub open spec fn scrolled_down(self) -> AppView {
        match self.active_panel {
            ActivePanel::Search => AppView {
                search_selected: next_index(self.search_selected, self.search_results.len()),
                ..self
            },
            ActivePanel::Playlists => AppView {
                playlist_selected: next_index(self.playlist_selected, self.playlists.len()),
                ..self
            },
            ActivePanel::Settings => AppView {
                item_selected: next_index(self.item_selected, item_count(self.section())),
                ..self
            },
            ActivePanel::NowPlaying => self,
        }
    }

    /// The state after moving one row up in the active panel.
    pub open spec fn scrolled_up(self) -> AppView {
        match self.active_panel {
            ActivePanel::Search => AppView {
                search_selected: prev_index(self.search_selected, self.search_results.len()),
                ..self
            },
            ActivePanel::Playlists => AppView {
                playlist_selected: prev_index(self.playlist_selected, self.playlists.len()),
                ..self
            },
            ActivePanel::Settings => AppView {
                item_selected: prev_index(self.item_selected, item_count(self.section())),
                ..self
            },
            ActivePanel::NowPlaying => self,
        }
    }

    /// The state with a message in the status bar.
    pub open spec fn with_status(self, msg: Seq<char>) -> AppView {
        AppView { status_message: Some(msg), ..self }
    }
}

impl App {
    /// What every state of the interface keeps (see `AppView::wf`).
    pub open spec fn wf(&self) -> bool {
        self@.wf()
    }

    /// The starting state: the now-playing panel, nothing found, no playlists, shuffle and
    /// repeat off, and no status message.
    pub fn new() -> (r: Self)
        ensures
            r.wf(),
            r.active_panel == ActivePanel::NowPlaying,
            r.input_mode == InputMode::Normal,
            r.playback is None,
            r.search_query@ == Seq::<char>::empty(),
            r.search_results@.len() == 0,
            r.search_selected == 0,
            r.playlists@.len() == 0,
            r.playlist_selected == 0,
            !r.shuffle,
            r.repeat == RepeatMode::Off,
            r.settings.section_selected == 0,
            r.settings.item_selected == 0,
            r.settings.edit_buffer@ == Seq::<char>::empty(),
            !r.settings.editing,
            r.status_message is None,
            !r.should_quit,
    {
        App {
            active_panel: ActivePanel::NowPlaying,
            input_mode: InputMode::Normal,
            playback: None,
            search_query: String::new(),
            search_results: Vec::new(),
            search_selected: 0,
            playlists: Vec::new(),
            playlist_selected: 0,
            shuffle: false,
            repeat: RepeatMode::Off,
            settings: SettingsState::new(),
            status_message: None,
            should_quit: false,
        }
    }

    /// Shows a message in the status bar.
    pub fn set_status(&mut self, msg: String)
        ensures
            final(self)@ == old(self)@.with_status(msg@),
    {
        self.status_message = Some(msg);
    }

    /// The selected search result, if there is one.
    pub fn selected_search_track(&self) -> (r: Option<&Track>)
        ensures
            r == (if self.search_selected < self.search_results@.len() {
                Some(&self.search_results@[self.search_selected as int])
            } else {
                None
            }),
    {
        if self.search_selected < self.search_results.len() {
            Some(&self.search_results[self.search_selected])
        } else {
            None
        }
    }

    /// The selected sidebar entry, if there is one.
    pub fn selected_playlist(&self) -> (r: Option<&PlaylistEntry>)
        ensures
            r == (if self.playlist_selected < self.playlists@.len() {
                Some(&self.playlists@[self.playlist_selected as int])
            } else {
                None
            }),
    {
        if self.playlist_selected < self.playlists.len() {
            Some(&self.playlists[self.playlist_selected])
        } else {
            None
        }
    }

    /// Takes shuffle and repeat over from what the player reports.
    pub fn sync_playback_state(&mut self, pb: &PlaybackState)
        ensures
            final(self)@ == (AppView {
                shuffle: pb.shuffle_state,
                repeat: repeat_from_name(pb.repeat_state@),
                ..old(self)@
            }),
    {
        self.shuffle = pb.shuffle_state;
        let s = pb.repeat_state.as_str();
        self.repeat = if str_equal(s, "context") {
            RepeatMode::Context
        } else if str_equal(s, "track") {
            RepeatMode::Track
        } else {
            RepeatMode::Off
        };
    }

    /// Moves the selection of the active panel one row down, from the last row to the first.
    pub fn scroll_down(&mut self)
        requires
            old(self).wf(),
        ensures
            final(self).wf(),
            final(self)@ == old(self)@.scrolled_down(),
    {
        match self.active_panel {
            ActivePanel::Search => {
                if !self.search_results.is_empty() {
                    self.search_selected = (self.search_selected + 1) % self.search_results.len();
                }
            },
            ActivePanel::Playlists => {
                if !self.playlists.is_empty() {
                    self.playlist_selected = (self.playlist_selected + 1) % self.playlists.len();
                }
            },
            ActivePanel::Settings => {
                let max = settings_item_count(&self.settings.current_section());
                if max > 0 {
                    self.settings.item_selected = (self.settings.item_selected + 1) % max;
                }
            },
            _ => {},
        }
    }

    /// Moves the selection of the active panel one row up, from the first row to the last.
    pub fn scroll_up(&mut self)
        requires
            old(self).wf(),
        ensures
            final(self).wf(),
            final(self)@ == old(self)@.scrolled_up(),
    {
        match self.active_panel {
            ActivePanel::Search => {
                if !self.search_results.is_empty() {
                    if self.search_selected == 0 {
                        self.search_selected = self.search_results.len() - 1;
                    } else {
                        self.search_selected -= 1;
                    }
                }
            },
            ActivePanel::Playlists => {
                if !self.playlists.is_empty() {
                    if self.playlist_selected == 0 {
                        self.playlist_selected = self.playlists.len() - 1;
                    } else {
                        self.playlist_selected -= 1;
                    }
                }
            },
            ActivePanel::Settings => {
                let max = settings_item_count(&self.settings.current_section());
                if max > 0 {
                    if self.settings.item_selected == 0 {
                        self.settings.item_selected = max - 1;
                    } else {
                        self.settings.item_selected -= 1;
                    }
                }
            },
            _ => {},
        }
    }
}


/// The number of rows of the list that scrolling moves through in the active panel.
pub open spec fn panel_len(a: AppView) -> nat {
    match a.active_panel {
        ActivePanel::Search => a.search_results.len(),
        ActivePanel::Playlists => a.playlists.len(),
        ActivePanel::Settings => item_count(a.section()),
        ActivePanel::NowPlaying => 0,
    }
}

/// The state after moving `n` rows down.
pub open spec fn scrolled_down_n(a: AppView, n: nat) -> AppView
    decreases n,
{
    if n == 0 {
        a
    } else {
        scrolled_down_n(a, (n - 1) as nat).scrolled_down()
    }
}

proof fn lemma_index_moves(sel: usize, len: nat)
    requires
        0 < len <= usize::MAX,
        sel < len,
    ensures
        next_index(sel, len) < len,
        prev_index(sel, len) < len,
        prev_index(next_index(sel, len), len) == sel,
        next_index(prev_index(sel, len), len) == sel,
{
    let l = len as int;
    if sel + 1 < len {
        vstd::arithmetic::div_mod::lemma_small_mod((sel + 1) as nat, len);
    } else {
        vstd::arithmetic::div_mod::lemma_mod_self_0(l);
    }
    if sel == 0 {
        vstd::arithmetic::div_mod::lemma_mod_self_0(l);
    } else {
        vstd::arithmetic::div_mod::lemma_small_mod(sel as nat, len);
    }
}

proof fn lemma_active_index_moves(a: AppView)
    requires
        a.wf(),
        a.selections_in_range(),
    ensures
        a.active_panel == ActivePanel::Search && a.search_results.len() > 0 ==> {
            &&& next_index(a.search_selected, a.search_results.len()) < a.search_results.len()
            &&& prev_index(a.search_selected, a.search_results.len()) < a.search_results.len()
            &&& prev_index(next_index(a.search_selected, a.search_results.len()), a.search_results.len()) == a.search_selected
            &&& next_index(prev_index(a.search_selected, a.search_results.len()), a.search_results.len()) == a.search_selected
        },
        a.active_panel == ActivePanel::Playlists && a.playlists.len() > 0 ==> {
            &&& next_index(a.playlist_selected, a.playlists.len()) < a.playlists.len()
            &&& prev_index(a.playlist_selected, a.playlists.len()) < a.playlists.len()
            &&& prev_index(next_index(a.playlist_selected, a.playlists.len()), a.playlists.len()) == a.playlist_selected
            &&& next_index(prev_index(a.playlist_selected, a.playlists.len()), a.playlists.len()) == a.playlist_selected
        },
        a.active_panel == ActivePanel::Settings ==> {
            &&& next_index(a.item_selected, item_count(a.section())) < item_count(a.section())
            &&& prev_index(a.item_selected, item_count(a.section())) < item_count(a.section())
            &&& prev_index(next_index(a.item_selected, item_count(a.section())), item_count(a.section())) == a.item_selected
            &&& next_index(prev_index(a.item_selected, item_count(a.section())), item_count(a.section())) == a.item_selected
        },
{
    match a.active_panel {
        ActivePanel::Search => {
            if a.search_results.len() > 0 {
                lemma_index_moves(a.search_selected, a.search_results.len());
            }
        },
        ActivePanel::Playlists => {
            if a.playlists.len() > 0 {
                lemma_index_moves(a.playlist_selected, a.playlists.len());
            }
        },
        ActivePanel::Settings => {
            lemma_index_moves(a.item_selected, item_count(a.section()));
        },
        ActivePanel::NowPlaying => {},
    }
}

/// Moving one row up undoes moving one row down, and the other way round, while every
/// selection lies within its list.
pub proof fn lemma_scroll_round_trip(a: AppView)
    requires
        a.wf(),
        a.selections_in_range(),
    ensures
        a.scrolled_down().scrolled_up() == a,
        a.scrolled_up().scrolled_down() == a,
{
    lemma_active_index_moves(a);
}

/// Scrolling keeps the state well formed and every selection within its list.
pub proof fn lemma_scroll_keeps_range(a: AppView)
    requires
        a.wf(),
        a.selections_in_range(),
    ensures
        a.scrolled_down().wf(),
        a.scrolled_down().selections_in_range(),
        a.scrolled_up().wf(),
        a.scrolled_up().selections_in_range(),
{
    lemma_active_index_moves(a);
}

/// Moving down once brings a selection that lay outside its list back into it.
pub proof fn lemma_scroll_down_lands_in_range(a: AppView)
    requires
        a.wf(),
        panel_len(a) > 0,
    ensures
        a.active_panel == ActivePanel::Search ==> a.scrolled_down().search_selected
            < a.search_results.len(),
        a.active_panel == ActivePanel::Playlists ==> a.scrolled_down().playlist_selected
            < a.playlists.len(),
        a.active_panel == ActivePanel::Settings ==> a.scrolled_down().item_selected < item_count(
            a.section(),
        ),
{
}

/// The selection that scrolling moves in the active panel.
pub open spec fn active_selection(a: AppView) -> int {
    match a.active_panel {
        ActivePanel::Search => a.search_selected as int,
        ActivePanel::Playlists => a.playlist_selected as int,
        ActivePanel::Settings => a.item_selected as int,
        ActivePanel::NowPlaying => 0,
    }
}

/// `a` with the selection of its active panel set to `x`.
pub open spec fn with_active_selection(a: AppView, x: usize) -> AppView {
    match a.active_panel {
        ActivePanel::Search => AppView { search_selected: x, ..a },
        ActivePanel::Playlists => AppView { playlist_selected: x, ..a },
        ActivePanel::Settings => AppView { item_selected: x, ..a },
        ActivePanel::NowPlaying => a,
    }
}

proof fn lemma_scrolled_down_n(a: AppView, n: nat)
    requires
        a.wf(),
        a.selections_in_range(),
    ensures
        scrolled_down_n(a, n).wf(),
        scrolled_down_n(a, n).selections_in_range(),
        panel_len(a) > 0 ==> scrolled_down_n(a, n) == with_active_selection(
            a,
            ((active_selection(a) + n) % (panel_len(a) as int)) as usize,
        ),
        panel_len(a) == 0 ==> scrolled_down_n(a, n) == a,
    decreases n,
{
    if n > 0 {
        let m = (n - 1) as nat;
        lemma_scrolled_down_n(a, m);
        let b = scrolled_down_n(a, m);
        lemma_scroll_keeps_range(b);
        if panel_len(a) > 0 {
            let len = panel_len(a) as int;
            let x = active_selection(a);
            assert(0 <= (x + m) % len < len) by {
                vstd::arithmetic::div_mod::lemma_mod_bound(x + m, len);
            }
            assert(0 <= (x + n) % len < len) by {
                vstd::arithmetic::div_mod::lemma_mod_bound(x + n, len);
            }
            assert(((x + m) % len + 1) % len == (x + n) % len) by {
                vstd::arithmetic::div_mod::lemma_add_mod_noop(x + m, 1, len);
                vstd::arithmetic::div_mod::lemma_mod_twice(x + m, len);
                if len > 1 {
                    vstd::arithmetic::div_mod::lemma_small_mod(1nat, len as nat);
                } else {
                    assert(len == 1);
                    assert((x + n) % 1 == 0);
                    assert(((x + m) % 1 + 1) % 1 == 0);
                }
            }
            assert(active_selection(b) == (x + m) % len);
            assert(b.scrolled_down() == with_active_selection(a, ((x + n) % len) as usize));
        }
    } else if panel_len(a) > 0 {
        let x = active_selection(a);
        vstd::arithmetic::div_mod::lemma_small_mod(x as nat, panel_len(a));
        assert(with_active_selection(a, (x % (panel_len(a) as int)) as usize) == a);
    }
}

/// Moving down as many rows as the active list holds comes back to the starting state.
pub proof fn lemma_scroll_full_cycle(a: AppView)
    requires
        a.wf(),
        a.selections_in_range(),
    ensures
        scrolled_down_n(a, panel_len(a)) == a,
{
    lemma_scrolled_down_n(a, panel_len(a));
    if panel_len(a) > 0 {
        let len = panel_len(a) as int;
        let x = active_selection(a);
        assert((x + len) % len == x) by {
            vstd::arithmetic::div_mod::lemma_add_mod_noop(x, len, len);
            vstd::arithmetic::div_mod::lemma_mod_self_0(len);
            vstd::arithmetic::div_mod::lemma_small_mod(x as nat, len as nat);
        }
    }
}

} // verus!
