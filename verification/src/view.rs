use vstd::prelude::*;
use vstd::string::StringExecFns;
use vstd::string::StringSliceAdditionalSpecFns;
use vstd::utf8::{decode_utf8, encode_utf8, is_char_boundary};

use crate::app::{App, AppView, InputMode, RepeatMode, SettingsSection};
use crate::config::{Config, ConfigView, KeysView, Layout};
use crate::settings::{clamp, fmt_rgb, rgb_text};
use crate::spotify::{duration_text, format_duration, PlaylistEntry, Track, TrackView};
use crate::text::{
    chars_of, decimal, decimal_chars, push_char, push_chars, str_equal, string_of, trim,
    trim_chars,
};

verus! {

// ── Small pieces ─────────────────────────────────────────────────────────────

/// How borders are drawn.
#[derive(Clone, Copy, Debug, PartialEq, Eq, Structural)]
pub enum BorderKind {
    Plain,
    Rounded,
    Double,
    Thick,
}

/// The border a configured style names; an unknown style is plain.
pub open spec fn border_kind_of(s: Seq<char>) -> BorderKind {
    if s == "rounded"@ {
        BorderKind::Rounded
    } else if s == "double"@ {
        BorderKind::Double
    } else if s == "thick"@ {
        BorderKind::Thick
    } else {
        BorderKind::Plain
    }
}

/// The border a configured style names.
pub fn border_kind(s: &str) -> (r: BorderKind)
    ensures
        r == border_kind_of(s@),
{
    if str_equal(s, "rounded") {
        BorderKind::Rounded
    } else if str_equal(s, "double") {
        BorderKind::Double
    } else if str_equal(s, "thick") {
        BorderKind::Thick
    } else {
        BorderKind::Plain
    }
}

/// How a switch of the settings screen reads.
pub open spec fn bool_text(b: bool) -> Seq<char> {
    if b {
        "✅ on"@
    } else {
        "☐  off"@
    }
}

/// How a switch of the settings screen reads.
pub fn bool_val(b: bool) -> (r: &'static str)
    ensures
        r@ == bool_text(b),
{
    if b {
        "✅ on"
    } else {
        "☐  off"
    }
}

/// `s` followed by spaces up to `width` characters, as `format!("{:<width$}", s)` writes it.
pub open spec fn padded(s: Seq<char>, width: nat) -> Seq<char> {
    if s.len() >= width {
        s
    } else {
        s + Seq::new((width - s.len()) as nat, |i: int| ' ')
    }
}

/// Pads characters with spaces up to `width`.
pub fn pad_chars(s: &Vec<char>, width: usize) -> (r: String)
    ensures
        r@ == padded(s@, width as nat),
{
    let mut r = string_of(s);
    let mut n = s.len();
    while n < width
        invariant
            n >= s@.len(),
            n <= width || n == s@.len(),
            r@ == s@ + Seq::new((n - s@.len()) as nat, |i: int| ' '),
        decreases width - n,
    {
        push_char(&mut r, ' ');
        n = n + 1;
        assert(r@ =~= s@ + Seq::new((n - s@.len()) as nat, |i: int| ' '));
    }
    proof {
        if s@.len() >= width {
            assert(r@ =~= s@);
        } else {
            assert(n == width);
        }
    }
    r
}

/// A text cut to fit `max` columns, as the search list shows names: when its UTF-8 form is
/// longer than `max` bytes, its first `max - 1` bytes and `…`; else the text padded with
/// spaces to `max` characters.
pub open spec fn truncated(s: Seq<char>, max: nat) -> Seq<char> {
    let b = encode_utf8(s);
    if b.len() > max {
        decode_utf8(b.subrange(0, max - 1)) + seq!['…']
    } else {
        padded(s, max)
    }
}

/// Whether `truncated` can cut `s` at `max`: a text that must be cut needs a character
/// boundary after its first `max - 1` bytes.
pub open spec fn can_truncate(s: Seq<char>, max: nat) -> bool {
    encode_utf8(s).len() > max ==> max >= 1 && is_char_boundary(encode_utf8(s), max - 1)
}

/// Cuts a text to fit `max` columns.
pub fn truncate(s: &str, max: usize) -> (r: String)
    requires
        can_truncate(s@, max as nat),
    ensures
        r@ == truncated(s@, max as nat),
{
    let bytes = s.as_bytes();
    if bytes.len() > max {
        let (head, _) = s.split_at(max - 1);
        proof {
            vstd::utf8::encode_utf8_decode_utf8(head@);
            assert(head.spec_bytes() == encode_utf8(head@));
            assert(encode_utf8(head@) =~= encode_utf8(s@).subrange(0, max - 1));
            assert(head@ == decode_utf8(encode_utf8(s@).subrange(0, max - 1)));
        }
        let mut cs = chars_of(head);
        cs.push('…');
        assert(cs@ =~= decode_utf8(encode_utf8(s@).subrange(0, max - 1)) + seq!['…']);
        assert(encode_utf8(s@).len() > max);
        string_of(&cs)
    } else {
        assert(encode_utf8(s@).len() <= max);
        pad_chars(&chars_of(s), max)
    }
}

// ── The main screen ──────────────────────────────────────────────────────────

/// The sizes of the main screen's parts.
#[derive(Debug, Clone, Copy)]
pub struct MainLayout {
    /// Rows of the now-playing bar.
    pub now_playing_height: u16,
    /// Rows of the hints bar.
    pub hints_height: u16,
    /// Percent of the width that the sidebar takes.
    pub sidebar_pct: u16,
    /// Percent of the width that the search panel takes.
    pub content_pct: u16,
}

/// The sizes of the main screen's parts: a now-playing bar of at least 4 rows, a hints bar
/// of one row when it is shown, and a sidebar of 10% to 90% of the width.
pub fn main_layout(layout: &Layout) -> (r: MainLayout)
    ensures
        r.now_playing_height == if layout.now_playing_height < 4 {
            4
        } else {
            layout.now_playing_height
        },
        r.hints_height == if layout.show_hints {
            1u16
        } else {
            0u16
        },
        r.sidebar_pct == clamp(layout.sidebar_width_pct as int, 10, 90),
        r.content_pct == 100 - r.sidebar_pct,
{
    let h = layout.now_playing_height;
    let w = layout.sidebar_width_pct;
    let sidebar: u16 = if w < 10 {
        10
    } else if w > 90 {
        90
    } else {
        w
    };
    MainLayout {
        now_playing_height: if h < 4 {
            4
        } else {
            h
        },
        hints_height: if layout.show_hints {
            1
        } else {
            0
        },
        sidebar_pct: sidebar,
        content_pct: 100 - sidebar,
    }
}

/// The track count a sidebar entry shows after its name.
pub fn playlist_count_text(e: &PlaylistEntry) -> (r: String)
    ensures
        r@ == "  ("@ + decimal(e.total_tracks as nat) + ")"@,
{
    let mut r = String::from_str("  (");
    push_chars(&mut r, &decimal_chars(e.total_tracks as u64));
    r.concat(")")
}

/// The name of a track's first artist, or `?` when it lists none.
pub open spec fn first_artist(t: TrackView) -> Seq<char> {
    if t.artists.len() > 0 {
        t.artists[0].name@
    } else {
        "?"@
    }
}

/// The three columns of a search result: the name cut to 30 columns after two spaces, the
/// first artist cut to 25 columns, and the duration.
pub open spec fn search_row_of(t: TrackView) -> (Seq<char>, Seq<char>, Seq<char>) {
    (
        "  "@ + padded(truncated(t.name@, 30), 30),
        padded(truncated(first_artist(t), 25), 25),
        duration_text(t.duration_ms as nat),
    )
}

/// Whether a search result can be shown (its name and first artist can be cut).
pub open spec fn row_fits(t: TrackView) -> bool {
    can_truncate(t.name@, 30) && can_truncate(first_artist(t), 25)
}

/// The columns of a search result.
pub fn search_row(t: &Track) -> (r: (String, String, String))
    requires
        row_fits(t@),
    ensures
        (r.0@, r.1@, r.2@) == search_row_of(t@),
{
    let name = truncate(t.name.as_str(), 30);
    let name_col = String::from_str("  ").concat(pad_chars(&chars_of(name.as_str()), 30).as_str());
    let artist = if t.artists.len() > 0 {
        t.artists[0].name.as_str()
    } else {
        "?"
    };
    let artist_t = truncate(artist, 25);
    let artist_col = pad_chars(&chars_of(artist_t.as_str()), 25);
    (name_col, artist_col, format_duration(t.duration_ms))
}

/// The line of the search box: the query, with a cursor while it is typed.
pub fn search_input_text(app: &App) -> (r: String)
    ensures
        r@ == " 🔍 "@ + app.search_query@ + if app.input_mode == InputMode::Typing {
            "█"@
        } else {
            ""@
        },
{
    let r = String::from_str(" 🔍 ").concat(app.search_query.as_str());
    if app.input_mode == InputMode::Typing {
        r.concat("█")
    } else {
        r.concat("")
    }
}

/// The title of the search box.
pub fn search_title(cfg: &Config) -> (r: String)
    ensures
        r@ == " Search (press "@ + cfg.keys.search@ + " to type) "@,
{
    String::from_str(" Search (press ").concat(cfg.keys.search.as_str()).concat(" to type) ")
}

/// The line shown in place of results when there are none; empty otherwise.
pub fn search_placeholder(app: &App, cfg: &Config) -> (r: String)
    ensures
        r@ == if app.search_results@.len() == 0 {
            "  Press "@ + cfg.keys.search@ + " to search for tracks..."@
        } else {
            ""@
        },
{
    if app.search_results.len() == 0 {
        String::from_str("  Press ").concat(cfg.keys.search.as_str()).concat(
            " to search for tracks...",
        )
    } else {
        String::from_str("")
    }
}

/// The highlighted search result: none while there are no results.
pub fn search_highlight(app: &App) -> (r: Option<usize>)
    ensures
        r == if app.search_results@.len() == 0 {
            None
        } else {
            Some(app.search_selected)
        },
{
    if app.search_results.len() == 0 {
        None
    } else {
        Some(app.search_selected)
    }
}

/// The hints bar: the keys of the main screen, or those of the search box while a search is
/// typed.
pub open spec fn hints_text_of(typing: bool, k: KeysView) -> Seq<char> {
    if typing {
        " [Enter] Search  [Esc] Cancel"@
    } else {
        " ["@ + k.search + "] Search  ["@ + trim(k.play_pause) + "] Play/Pause  ["@ + k.next
            + "] Next  ["@ + k.previous + "] Prev  ["@ + k.shuffle + "] Shuffle  ["@ + k.repeat
            + "] Repeat  [Tab] Panel  [c] Settings  ["@ + k.quit + "] Quit"@
    }
}

/// The hints bar.
pub fn hints_text(app: &App, cfg: &Config) -> (r: String)
    ensures
        r@ == hints_text_of(app.input_mode == InputMode::Typing, cfg.keys@),
{
    if app.input_mode == InputMode::Typing {
        String::from_str(" [Enter] Search  [Esc] Cancel")
    } else {
        let k = &cfg.keys;
        let pp = string_of(&trim_chars(&chars_of(k.play_pause.as_str())));
        String::from_str(" [").concat(k.search.as_str()).concat("] Search  [").concat(
            pp.as_str(),
        ).concat("] Play/Pause  [").concat(k.next.as_str()).concat("] Next  [").concat(
            k.previous.as_str(),
        ).concat("] Prev  [").concat(k.shuffle.as_str()).concat("] Shuffle  [").concat(
            k.repeat.as_str(),
        ).concat("] Repeat  [Tab] Panel  [c] Settings  [").concat(k.quit.as_str()).concat(
            "] Quit",
        )
    }
}

/// The status line, empty when there is no message.
pub fn status_text(app: &App) -> (r: &str)
    ensures
        r@ == match app.status_message {
            Some(m) => m@,
            None => ""@,
        },
{
    match &app.status_message {
        Some(m) => m.as_str(),
        None => "",
    }
}


// ── The now-playing bar ──────────────────────────────────────────────────────

/// A line of track information in the now-playing bar.
#[derive(Debug)]
pub enum InfoLine {
    /// The play state icon and the track's name.
    Track { icon: String, name: String },
    Artist { name: String },
    Album { name: String },
    /// The device that plays.
    Device { text: String },
}

/// The value an information line stands for.
pub enum InfoLineView {
    Track { icon: Seq<char>, name: Seq<char> },
    Artist { name: Seq<char> },
    Album { name: Seq<char> },
    Device { text: Seq<char> },
}

impl View for InfoLine {
    type V = InfoLineView;

    open spec fn view(&self) -> InfoLineView {
        match self {
            InfoLine::Track { icon, name } => InfoLineView::Track { icon: icon@, name: name@ },
            InfoLine::Artist { name } => InfoLineView::Artist { name: name@ },
            InfoLine::Album { name } => InfoLineView::Album { name: name@ },
            InfoLine::Device { text } => InfoLineView::Device { text: text@ },
        }
    }
}

/// The shuffle and repeat indicators.
#[derive(Debug)]
pub struct Indicators {
    pub shuffle_text: &'static str,
    /// Whether shuffle is on (and shown highlighted).
    pub shuffle_on: bool,
    pub repeat_text: &'static str,
    /// Whether repeat is on (and shown highlighted).
    pub repeat_on: bool,
}

/// The right side of the now-playing bar; each part is present when it is shown.
#[derive(Debug)]
pub struct ProgressPanel {
    /// The progress and the duration, in milliseconds, for the progress bar.
    pub bar: Option<(u64, u64)>,
    /// The progress and the duration as `m:ss`.
    pub time: Option<(String, String)>,
    pub indicators: Option<Indicators>,
}

/// What the now-playing bar shows.
#[derive(Debug)]
pub enum NowPlayingPanel {
    /// Nothing plays anywhere.
    NoPlayback,
    /// A device is active but reports no track.
    NoTrack,
    /// A track: the lines of information, and the right side unless all of it is hidden.
    Track { info: Vec<InfoLine>, progress: Option<ProgressPanel> },
}

/// The message shown when nothing plays.
pub fn no_playback_message() -> (r: &'static str)
    ensures
        r@ == "  No active playback. Open Spotify on a device first."@,
{
    "  No active playback. Open Spotify on a device first."
}

/// The information lines about a playing track, as the options select them: the track's
/// name after the play state icon, the first artist, the album, and the device.
pub open spec fn info_lines_of(
    is_playing: bool,
    t: TrackView,
    device: Option<crate::spotify::Device>,
    np: crate::config::NowPlayingConfig,
) -> Seq<InfoLineView> {
    (if np.show_track_name {
        seq![
            InfoLineView::Track {
                icon: if is_playing {
                    "▶"@
                } else {
                    "⏸"@
                },
                name: t.name@,
            },
        ]
    } else {
        Seq::empty()
    }) + (if np.show_artist {
        seq![InfoLineView::Artist { name: first_artist(t) }]
    } else {
        Seq::empty()
    }) + (if np.show_album {
        seq![InfoLineView::Album { name: t.album.name@ }]
    } else {
        Seq::empty()
    }) + (if np.show_device && device is Some {
        seq![InfoLineView::Device { text: "📱 "@ + device.unwrap().name@ }]
    } else {
        Seq::empty()
    })
}

/// The text of the shuffle indicator.
pub open spec fn shuffle_indicator(on: bool) -> Seq<char> {
    if on {
        " 🔀 ON "@
    } else {
        " 🔀 off"@
    }
}

/// The text of the repeat indicator.
pub open spec fn repeat_indicator(m: RepeatMode) -> Seq<char> {
    match m {
        RepeatMode::Off => "🔁 off"@,
        RepeatMode::Context => "🔁 playlist"@,
        RepeatMode::Track => "🔂 track"@,
    }
}

/// Whether a now-playing panel is what the bar shows for `a` under the options `np`.
pub open spec fn now_playing_is(
    r: NowPlayingPanel,
    a: AppView,
    np: crate::config::NowPlayingConfig,
) -> bool {
    match a.playback {
        None => r is NoPlayback,
        Some(pb) => match pb.item {
            None => r is NoTrack,
            Some(t) => {
                let progress: u64 = match pb.progress_ms {
                    Some(p) => p,
                    None => 0,
                };
                let duration: u64 = if t.duration_ms < 1 {
                    1
                } else {
                    t.duration_ms
                };
                match r {
                    NowPlayingPanel::Track { info, progress: right } => {
                        &&& info@.map_values(|l: InfoLine| l@) == info_lines_of(
                            pb.is_playing,
                            t,
                            pb.device,
                            np,
                        )
                        &&& (right is None <==> !np.show_progress_bar && !np.show_time
                            && !np.show_shuffle_repeat)
                        &&& right matches Some(p) ==> {
                            &&& (p.bar is Some <==> np.show_progress_bar)
                            &&& p.bar matches Some(b) ==> b == (progress, duration)
                            &&& (p.time is Some <==> np.show_time)
                            &&& p.time matches Some(tt) ==> tt.0@ == duration_text(progress as nat)
                                && tt.1@ == duration_text(duration as nat)
                            &&& (p.indicators is Some <==> np.show_shuffle_repeat)
                            &&& p.indicators matches Some(ind) ==> {
                                &&& ind.shuffle_text@ == shuffle_indicator(a.shuffle)
                                &&& ind.shuffle_on == a.shuffle
                                &&& ind.repeat_text@ == repeat_indicator(a.repeat)
                                &&& ind.repeat_on == (a.repeat != RepeatMode::Off)
                            }
                        }
                    },
                    _ => false,
                }
            },
        },
    }
}

fn track_info(
    is_playing: bool,
    t: &Track,
    device: &Option<crate::spotify::Device>,
    np: &crate::config::NowPlayingConfig,
) -> (r: Vec<InfoLine>)
    ensures
        r@.map_values(|l: InfoLine| l@) == info_lines_of(is_playing, t@, *device, *np),
{
    let mut lines: Vec<InfoLine> = Vec::new();
    let ghost want = info_lines_of(is_playing, t@, *device, *np);
    if np.show_track_name {
        lines.push(
            InfoLine::Track {
                icon: String::from_str(
                    if is_playing {
                        "▶"
                    } else {
                        "⏸"
                    },
                ),
                name: t.name.clone(),
            },
        );
    }
    if np.show_artist {
        let name = if t.artists.len() > 0 {
            t.artists[0].name.clone()
        } else {
            String::from_str("?")
        };
        lines.push(InfoLine::Artist { name });
    }
    if np.show_album {
        lines.push(InfoLine::Album { name: t.album.name.clone() });
    }
    if np.show_device {
        if let Some(dev) = device {
            lines.push(InfoLine::Device { text: String::from_str("📱 ").concat(dev.name.as_str()) });
        }
    }
    assert(lines@.map_values(|l: InfoLine| l@) =~= want);
    lines
}

/// What the now-playing bar shows.
pub fn now_playing_panel(app: &App, cfg: &Config) -> (r: NowPlayingPanel)
    ensures
        now_playing_is(r, app@, cfg.now_playing),
{
    let np = &cfg.now_playing;
    match &app.playback {
        None => NowPlayingPanel::NoPlayback,
        Some(pb) => match &pb.item {
            None => NowPlayingPanel::NoTrack,
            Some(track) => {
                let info = track_info(pb.is_playing, track, &pb.device, np);
                let progress: u64 = match pb.progress_ms {
                    Some(p) => p,
                    None => 0,
                };
                let duration: u64 = if track.duration_ms < 1 {
                    1
                } else {
                    track.duration_ms
                };
                let right = if !np.show_progress_bar && !np.show_time && !np.show_shuffle_repeat {
                    None
                } else {
                    Some(
                        ProgressPanel {
                            bar: if np.show_progress_bar {
                                Some((progress, duration))
                            } else {
                                None
                            },
                            time: if np.show_time {
                                Some((format_duration(progress), format_duration(duration)))
                            } else {
                                None
                            },
                            indicators: if np.show_shuffle_repeat {
                                Some(
                                    Indicators {
                                        shuffle_text: if app.shuffle {
                                            " 🔀 ON "
                                        } else {
                                            " 🔀 off"
                                        },
                                        shuffle_on: app.shuffle,
                                        repeat_text: match app.repeat {
                                            RepeatMode::Off => "🔁 off",
                                            RepeatMode::Context => "🔁 playlist",
                                            RepeatMode::Track => "🔂 track",
                                        },
                                        repeat_on: app.repeat != RepeatMode::Off,
                                    },
                                )
                            } else {
                                None
                            },
                        },
                    )
                };
                NowPlayingPanel::Track { info, progress: right }
            },
        },
    }
}

// ── The settings screen ──────────────────────────────────────────────────────

/// A row of the settings screen, as drawn.
#[derive(Debug)]
pub struct SettingRow {
    /// The label after two spaces, padded to 30 columns.
    pub label: String,
    /// The value, or the text being typed followed by `_`.
    pub value: String,
    pub selected: bool,
    /// Whether the row's value is being edited.
    pub editing: bool,
}

/// The labels of the rows of a section.
pub open spec fn row_labels(s: SettingsSection) -> Seq<Seq<char>> {
    match s {
        SettingsSection::Theme => seq![
            "Accent color (r,g,b)"@,
            "Background color (r,g,b)"@,
            "Muted color (r,g,b)"@,
            "Highlight bg (r,g,b)"@,
            "Border style"@,
        ],
        SettingsSection::Layout => seq!["Sidebar width %"@, "Now playing height"@, "Show hints bar"@],
        SettingsSection::NowPlaying => seq![
            "Show track name"@,
            "Show artist"@,
            "Show album"@,
            "Show progress bar"@,
            "Show time"@,
            "Show shuffle/repeat"@,
            "Show device name"@,
        ],
        SettingsSection::Keybindings => seq![
            "Quit"@,
            "Search"@,
            "Play / Pause"@,
            "Next track"@,
            "Prev track"@,
            "Shuffle"@,
            "Repeat"@,
            "Next panel"@,
            "Scroll down"@,
            "Scroll up"@,
            "Select"@,
        ],
    }
}

/// The values of the rows of a section.
pub open spec fn row_values(s: SettingsSection, c: ConfigView) -> Seq<Seq<char>> {
    match s {
        SettingsSection::Theme => seq![
            rgb_text(c.theme.accent),
            rgb_text(c.theme.background),
            rgb_text(c.theme.muted),
            rgb_text(c.theme.highlight_bg),
            c.theme.border_style,
        ],
        SettingsSection::Layout => seq![
            decimal(c.layout.sidebar_width_pct as nat),
            decimal(c.layout.now_playing_height as nat),
            bool_text(c.layout.show_hints),
        ],
        SettingsSection::NowPlaying => seq![
            bool_text(c.now_playing.show_track_name),
            bool_text(c.now_playing.show_artist),
            bool_text(c.now_playing.show_album),
            bool_text(c.now_playing.show_progress_bar),
            bool_text(c.now_playing.show_time),
            bool_text(c.now_playing.show_shuffle_repeat),
            bool_text(c.now_playing.show_device),
        ],
        SettingsSection::Keybindings => seq![
            c.keys.quit,
            c.keys.search,
            c.keys.play_pause,
            c.keys.next,
            c.keys.previous,
            c.keys.shuffle,
            c.keys.repeat,
            c.keys.panel_next,
            c.keys.scroll_down,
            c.keys.scroll_up,
            c.keys.select,
        ],
    }
}

/// Whether a row shows the text being typed while its value is edited (switches never do).
pub open spec fn row_shows_editing(s: SettingsSection, i: int) -> bool {
    match s {
        SettingsSection::Theme => true,
        SettingsSection::Layout => i != 2,
        SettingsSection::NowPlaying => false,
        SettingsSection::Keybindings => true,
    }
}

/// The title of a section's list.
pub open spec fn section_title(s: SettingsSection) -> Seq<char> {
    match s {
        SettingsSection::Theme => "  Press Enter to edit · type value · Enter to confirm  "@,
        SettingsSection::Layout => "  Enter to edit number · Enter to toggle boolean  "@,
        SettingsSection::NowPlaying => "  Press Enter to toggle  "@,
        SettingsSection::Keybindings => "  Press Enter · type new key · Enter to save  "@,
    }
}

/// The title of a section's list.
pub fn settings_title(s: &SettingsSection) -> (r: &'static str)
    ensures
        r@ == section_title(*s),
{
    match s {
        SettingsSection::Theme => "  Press Enter to edit · type value · Enter to confirm  ",
        SettingsSection::Layout => "  Enter to edit number · Enter to toggle boolean  ",
        SettingsSection::NowPlaying => "  Press Enter to toggle  ",
        SettingsSection::Keybindings => "  Press Enter · type new key · Enter to save  ",
    }
}

/// Whether `row` is row `i` of the selected section of the settings screen.
pub open spec fn row_is(row: SettingRow, a: AppView, c: ConfigView, i: int) -> bool {
    let s = a.section();
    let selected = a.item_selected as int == i;
    let editing = a.editing && selected && row_shows_editing(s, i);
    &&& row.label@ == "  "@ + padded(row_labels(s)[i], 30)
    &&& row.value@ == if editing {
        a.edit_buffer + seq!['_']
    } else {
        row_values(s, c)[i]
    }
    &&& row.selected == selected
    &&& row.editing == editing
}

/// One row, drawn.
pub fn setting_row(label: &str, value: &str, selected: bool, editing: bool, edit_buffer: &str) -> (r:
    SettingRow)
    ensures
        r.label@ == "  "@ + padded(label@, 30),
        r.value@ == if selected && editing {
            edit_buffer@ + seq!['_']
        } else {
            value@
        },
        r.selected == selected,
        r.editing == (selected && editing),
{
    let label_text = String::from_str("  ").concat(pad_chars(&chars_of(label), 30).as_str());
    let value_text = if selected && editing {
        let mut v = String::from_str(edit_buffer);
        push_char(&mut v, '_');
        v
    } else {
        String::from_str(value)
    };
    SettingRow { label: label_text, value: value_text, selected, editing: selected && editing }
}

/// The labels and values of the rows of a section.
fn section_rows(s: &SettingsSection, cfg: &Config) -> (r: Vec<(&'static str, String)>)
    ensures
        r@.len() == row_labels(*s).len(),
        row_values(*s, cfg@).len() == row_labels(*s).len(),
        forall|i: int| 0 <= i < r@.len() ==> (#[trigger] r@[i]).0@ == row_labels(*s)[i] && r@[i].1@
            == row_values(*s, cfg@)[i],
{
    let mut r: Vec<(&'static str, String)> = Vec::new();
    match s {
        SettingsSection::Theme => {
            let t = &cfg.theme;
            r.push(("Accent color (r,g,b)", fmt_rgb(t.accent)));
            r.push(("Background color (r,g,b)", fmt_rgb(t.background)));
            r.push(("Muted color (r,g,b)", fmt_rgb(t.muted)));
            r.push(("Highlight bg (r,g,b)", fmt_rgb(t.highlight_bg)));
            r.push(("Border style", t.border_style.clone()));
        },
        SettingsSection::Layout => {
            let l = &cfg.layout;
            r.push(("Sidebar width %", crate::text::decimal_string(l.sidebar_width_pct as u64)));
            r.push(("Now playing height", crate::text::decimal_string(l.now_playing_height as u64)));
            r.push(("Show hints bar", String::from_str(bool_val(l.show_hints))));
        },
        SettingsSection::NowPlaying => {
            let np = &cfg.now_playing;
            r.push(("Show track name", String::from_str(bool_val(np.show_track_name))));
            r.push(("Show artist", String::from_str(bool_val(np.show_artist))));
            r.push(("Show album", String::from_str(bool_val(np.show_album))));
            r.push(("Show progress bar", String::from_str(bool_val(np.show_progress_bar))));
            r.push(("Show time", String::from_str(bool_val(np.show_time))));
            r.push(("Show shuffle/repeat", String::from_str(bool_val(np.show_shuffle_repeat))));
            r.push(("Show device name", String::from_str(bool_val(np.show_device))));
        },
        SettingsSection::Keybindings => {
            let k = &cfg.keys;
            r.push(("Quit", k.quit.clone()));
            r.push(("Search", k.search.clone()));
            r.push(("Play / Pause", k.play_pause.clone()));
            r.push(("Next track", k.next.clone()));
            r.push(("Prev track", k.previous.clone()));
            r.push(("Shuffle", k.shuffle.clone()));
            r.push(("Repeat", k.repeat.clone()));
            r.push(("Next panel", k.panel_next.clone()));
            r.push(("Scroll down", k.scroll_down.clone()));
            r.push(("Scroll up", k.scroll_up.clone()));
            r.push(("Select", k.select.clone()));
        },
    }
    r
}

/// The rows of the selected section of the settings screen.
pub fn settings_rows(app: &App, cfg: &Config) -> (r: Vec<SettingRow>)
    requires
        app.wf(),
    ensures
        r@.len() == row_labels(app@.section()).len(),
        forall|i: int| 0 <= i < r@.len() ==> row_is(#[trigger] r@[i], app@, cfg@, i),
{
    let s = app.settings.current_section();
    let rows = section_rows(&s, cfg);
    let mut r: Vec<SettingRow> = Vec::new();
    let mut i: usize = 0;
    while i < rows.len()
        invariant
            s == app@.section(),
            i <= rows@.len(),
            rows@.len() == row_labels(s).len(),
            row_values(s, cfg@).len() == row_labels(s).len(),
            forall|j: int| 0 <= j < rows@.len() ==> (#[trigger] rows@[j]).0@ == row_labels(s)[j]
                && rows@[j].1@ == row_values(s, cfg@)[j],
            r@.len() == i,
            forall|j: int| 0 <= j < i ==> row_is(#[trigger] r@[j], app@, cfg@, j),
        decreases rows.len() - i,
    {
        let shows_editing = match s {
            SettingsSection::Theme => true,
            SettingsSection::Layout => i != 2,
            SettingsSection::NowPlaying => false,
            SettingsSection::Keybindings => true,
        };
        let row = setting_row(
            rows[i].0,
            rows[i].1.as_str(),
            app.settings.item_selected == i,
            app.settings.editing && shows_editing,
            app.settings.edit_buffer.as_str(),
        );
        r.push(row);
        i = i + 1;
    }
    r
}

/// The artist line of the now-playing bar names the first artist the playing track lists
/// ("?" when it lists none), the artist its search row shows too. The line is there exactly
/// when artists are shown, right after the track line when that is shown, and no other line
/// is an artist line.
pub proof fn lemma_now_playing_first_artist(
    r: NowPlayingPanel,
    a: AppView,
    np: crate::config::NowPlayingConfig,
)
    requires
        now_playing_is(r, a, np),
        a.playback matches Some(pb) && pb.item is Some,
    ensures
        ({
            let t = a.playback.unwrap().item.unwrap();
            let artist = if t.artists.len() > 0 {
                t.artists[0].name@
            } else {
                "?"@
            };
            let k: int = if np.show_track_name {
                1
            } else {
                0
            };
            &&& r is Track
            &&& np.show_artist ==> k < r->info@.len() && r->info@[k]@ == (InfoLineView::Artist {
                name: artist,
            })
            &&& forall|i: int|
                0 <= i < r->info@.len() && (#[trigger] r->info@[i])@ is Artist ==> np.show_artist
                    && i == k && r->info@[i]@ == (InfoLineView::Artist { name: artist })
            &&& search_row_of(t).1 == padded(truncated(artist, 25), 25)
        }),
{
    let pb = a.playback.unwrap();
    let t = pb.item.unwrap();
    let lines = info_lines_of(pb.is_playing, t, pb.device, np);
    let info = r->info;
    assert(info@.map_values(|l: InfoLine| l@) == lines);
    assert(info@.len() == lines.len());
    assert forall|i: int| 0 <= i < info@.len() implies #[trigger] info@[i]@ == lines[i] by {
        assert(info@.map_values(|l: InfoLine| l@)[i] == lines[i]);
    }
}

/// Flipping a switch of the settings screen flips the value its own row shows, from on to
/// off or back, and leaves every other row of every section as it was.
pub proof fn lemma_toggle_flips_its_row(c: ConfigView, s: SettingsSection, i: int)
    requires
        0 <= i < crate::app::item_count(s),
        crate::settings::toggles(s, i),
    ensures
        ({
            let d = crate::settings::toggled(c, s, i);
            &&& row_values(s, c)[i] == bool_text(true) || row_values(s, c)[i] == bool_text(false)
            &&& row_values(s, d)[i] == bool_text(row_values(s, c)[i] != bool_text(true))
            &&& row_values(s, d)[i] != row_values(s, c)[i]
            &&& forall|j: int|
                0 <= j < crate::app::item_count(s) && j != i ==> #[trigger] row_values(s, d)[j]
                    == row_values(s, c)[j]
            &&& forall|s2: SettingsSection| s2 != s ==> #[trigger] row_values(s2, d) == row_values(
                s2,
                c,
            )
            &&& d.theme == c.theme
            &&& d.keys == c.keys
        }),
{
    reveal_strlit("✅ on");
    reveal_strlit("☐  off");
    assert(bool_text(true) != bool_text(false)) by {
        assert(bool_text(true).len() != bool_text(false).len());
    }
}

} // verus!
