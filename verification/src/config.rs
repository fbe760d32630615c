use vstd::prelude::*;
use vstd::string::StringExecFns;

verus! {

// ─── Top-level config ────────────────────────────────────────────────────────

/// Everything the user can configure.
#[derive(Debug, Clone)]
pub struct Config {
    pub theme: Theme,
    pub keys: Keys,
    pub layout: Layout,
    pub now_playing: NowPlayingConfig,
}

impl Default for Config {
    fn default() -> (r: Self)
        ensures
            r.theme.is_default(),
            r.keys.is_default(),
            r.layout.is_default(),
            r.now_playing.is_default(),
    {
        Config {
            theme: Theme::default(),
            keys: Keys::default(),
            layout: Layout::default(),
            now_playing: NowPlayingConfig::default(),
        }
    }
}

// ─── Theme ───────────────────────────────────────────────────────────────────

/// Colors, as `[r, g, b]`, and the border style.
#[derive(Debug, Clone)]
pub struct Theme {
    /// Accent color as [r, g, b]
    pub accent: [u8; 3],
    /// Background color as [r, g, b]
    pub background: [u8; 3],
    /// Muted/secondary text color as [r, g, b]
    pub muted: [u8; 3],
    /// Selected item highlight background as [r, g, b]
    pub highlight_bg: [u8; 3],
    /// Border style: "plain" | "rounded" | "double" | "thick"
    pub border_style: String,
}

impl Theme {
    /// Spotify green on near black, grey muted text, a slightly lighter highlight, plain
    /// borders.
    pub open spec fn is_default(&self) -> bool {
        &&& self.accent@ == seq![30u8, 215, 96]
        &&& self.background@ == seq![18u8, 18, 18]
        &&& self.muted@ == seq![120u8, 120, 120]
        &&& self.highlight_bg@ == seq![40u8, 40, 40]
        &&& self.border_style@ == "plain"@
    }
}

impl Default for Theme {
    fn default() -> (r: Self)
        ensures
            r.is_default(),
    {
        let r = Theme {
            accent: [30, 215, 96],
            background: [18, 18, 18],
            muted: [120, 120, 120],
            highlight_bg: [40, 40, 40],
            border_style: String::from_str("plain"),
        };
        assert(r.accent@ =~= seq![30u8, 215, 96]);
        assert(r.background@ =~= seq![18u8, 18, 18]);
        assert(r.muted@ =~= seq![120u8, 120, 120]);
        assert(r.highlight_bg@ =~= seq![40u8, 40, 40]);
        r
    }
}

// ─── Keybindings ─────────────────────────────────────────────────────────────

/// The key bound to each action: a single character, or the name of a special key.
#[derive(Debug, Clone)]
pub struct Keys {
    pub quit: String,
    pub search: String,
    pub play_pause: String,
    pub next: String,
    pub previous: String,
    pub shuffle: String,
    pub repeat: String,
    pub panel_next: String,
    pub scroll_down: String,
    pub scroll_up: String,
    pub select: String,
}

impl Keys {
    /// The bindings that a configuration file without a `[keys]` table gets.
    pub open spec fn is_default(&self) -> bool {
        &&& self.quit@ == "q"@
        &&& self.search@ == "/"@
        &&& self.play_pause@ == " "@
        &&& self.next@ == "n"@
        &&& self.previous@ == "p"@
        &&& self.shuffle@ == "s"@
        &&& self.repeat@ == "r"@
        &&& self.panel_next@ == "Tab"@
        &&& self.scroll_down@ == "j"@
        &&& self.scroll_up@ == "k"@
        &&& self.select@ == "Enter"@
    }
}

impl Default for Keys {
    fn default() -> (r: Self)
        ensures
            r.is_default(),
    {
        Keys {
            quit: String::from_str("q"),
            search: String::from_str("/"),
            play_pause: String::from_str(" "),
            next: String::from_str("n"),
            previous: String::from_str("p"),
            shuffle: String::from_str("s"),
            repeat: String::from_str("r"),
            panel_next: String::from_str("Tab"),
            scroll_down: String::from_str("j"),
            scroll_up: String::from_str("k"),
            select: String::from_str("Enter"),
        }
    }
}

// ─── Layout ──────────────────────────────────────────────────────────────────

/// Sizes of the screen's parts.
#[derive(Debug, Clone)]
pub struct Layout {
    /// Width % of the playlist sidebar (rest goes to search/content)
    pub sidebar_width_pct: u16,
    /// Height of the now-playing bar in terminal rows
    pub now_playing_height: u16,
    /// Show the keybind hints bar at the bottom
    pub show_hints: bool,
}

impl Layout {
    /// A sidebar of 30%, a now-playing bar of 5 rows, and the hints bar shown.
    pub open spec fn is_default(&self) -> bool {
        self.sidebar_width_pct == 30 && self.now_playing_height == 5 && self.show_hints
    }
}

impl Default for Layout {
    fn default() -> (r: Self)
        ensures
            r.is_default(),
    {
        Layout { sidebar_width_pct: 30, now_playing_height: 5, show_hints: true }
    }
}

// ─── Now Playing display options ─────────────────────────────────────────────

/// Which parts of the now-playing bar are shown.
#[derive(Debug, Clone)]
pub struct NowPlayingConfig {
    pub show_track_name: bool,
    pub show_artist: bool,
    pub show_album: bool,
    pub show_progress_bar: bool,
    pub show_time: bool,
    pub show_shuffle_repeat: bool,
    pub show_device: bool,
}

impl NowPlayingConfig {
    /// Everything shown but the device.
    pub open spec fn is_default(&self) -> bool {
        &&& self.show_track_name
        &&& self.show_artist
        &&& self.show_album
        &&& self.show_progress_bar
        &&& self.show_time
        &&& self.show_shuffle_repeat
        &&& !self.show_device
    }
}

impl Default for NowPlayingConfig {
    fn default() -> (r: Self)
        ensures
            r.is_default(),
    {
        NowPlayingConfig {
            show_track_name: true,
            show_artist: true,
            show_album: true,
            show_progress_bar: true,
            show_time: true,
            show_shuffle_repeat: true,
            show_device: false,
        }
    }
}


// ─── Views ───────────────────────────────────────────────────────────────────

/// The value a theme stands for: its colors and the characters of its border style.
pub struct ThemeView {
    pub accent: Seq<u8>,
    pub background: Seq<u8>,
    pub muted: Seq<u8>,
    pub highlight_bg: Seq<u8>,
    pub border_style: Seq<char>,
}

impl View for Theme {
    type V = ThemeView;

    open spec fn view(&self) -> ThemeView {
        ThemeView {
            accent: self.accent@,
            background: self.background@,
            muted: self.muted@,
            highlight_bg: self.highlight_bg@,
            border_style: self.border_style@,
        }
    }
}

/// The value a set of keybindings stands for: the characters of each binding.
pub struct KeysView {
    pub quit: Seq<char>,
    pub search: Seq<char>,
    pub play_pause: Seq<char>,
    pub next: Seq<char>,
    pub previous: Seq<char>,
    pub shuffle: Seq<char>,
    pub repeat: Seq<char>,
    pub panel_next: Seq<char>,
    pub scroll_down: Seq<char>,
    pub scroll_up: Seq<char>,
    pub select: Seq<char>,
}

impl View for Keys {
    type V = KeysView;

    open spec fn view(&self) -> KeysView {
        KeysView {
            quit: self.quit@,
            search: self.search@,
            play_pause: self.play_pause@,
            next: self.next@,
            previous: self.previous@,
            shuffle: self.shuffle@,
            repeat: self.repeat@,
            panel_next: self.panel_next@,
            scroll_down: self.scroll_down@,
            scroll_up: self.scroll_up@,
            select: self.select@,
        }
    }
}

/// The value a configuration stands for.
pub struct ConfigView {
    pub theme: ThemeView,
    pub keys: KeysView,
    pub layout: Layout,
    pub now_playing: NowPlayingConfig,
}

impl View for Config {
    type V = ConfigView;

    open spec fn view(&self) -> ConfigView {
        ConfigView {
            theme: self.theme@,
            keys: self.keys@,
            layout: self.layout,
            now_playing: self.now_playing,
        }
    }
}

/// The color at a position (0 to 3) of the theme list of the settings screen.
pub open spec fn color_at(t: ThemeView, i: int) -> Seq<u8> {
    if i == 0 {
        t.accent
    } else if i == 1 {
        t.background
    } else if i == 2 {
        t.muted
    } else {
        t.highlight_bg
    }
}

/// `t` with the color at position `i` (0 to 3) replaced by `c`.
pub open spec fn theme_with_color(t: ThemeView, i: int, c: Seq<u8>) -> ThemeView {
    if i == 0 {
        ThemeView { accent: c, ..t }
    } else if i == 1 {
        ThemeView { background: c, ..t }
    } else if i == 2 {
        ThemeView { muted: c, ..t }
    } else if i == 3 {
        ThemeView { highlight_bg: c, ..t }
    } else {
        t
    }
}

/// The binding at a position (0 to 10) of the keybindings list of the settings screen.
pub open spec fn key_at(k: KeysView, i: int) -> Seq<char> {
    if i == 0 {
        k.quit
    } else if i == 1 {
        k.search
    } else if i == 2 {
        k.play_pause
    } else if i == 3 {
        k.next
    } else if i == 4 {
        k.previous
    } else if i == 5 {
        k.shuffle
    } else if i == 6 {
        k.repeat
    } else if i == 7 {
        k.panel_next
    } else if i == 8 {
        k.scroll_down
    } else if i == 9 {
        k.scroll_up
    } else {
        k.select
    }
}

/// `k` with the binding at position `i` (0 to 10) replaced by `s`.
pub open spec fn keys_with(k: KeysView, i: int, s: Seq<char>) -> KeysView {
    if i == 0 {
        KeysView { quit: s, ..k }
    } else if i == 1 {
        KeysView { search: s, ..k }
    } else if i == 2 {
        KeysView { play_pause: s, ..k }
    } else if i == 3 {
        KeysView { next: s, ..k }
    } else if i == 4 {
        KeysView { previous: s, ..k }
    } else if i == 5 {
        KeysView { shuffle: s, ..k }
    } else if i == 6 {
        KeysView { repeat: s, ..k }
    } else if i == 7 {
        KeysView { panel_next: s, ..k }
    } else if i == 8 {
        KeysView { scroll_down: s, ..k }
    } else if i == 9 {
        KeysView { scroll_up: s, ..k }
    } else if i == 10 {
        KeysView { select: s, ..k }
    } else {
        k
    }
}

} // verus!
