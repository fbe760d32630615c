use vstd::prelude::*;
use vstd::string::StringExecFns;

use crate::app::{item_count, SettingsSection};
use crate::config::{
    color_at, key_at, keys_with, theme_with_color, Config, ConfigView, Layout, NowPlayingConfig,
    ThemeView,
};
use crate::text::{
    chars_of, decimal, decimal_chars, keep_non_empty, non_empty, parse_bounded, parse_unsigned,
    push_char, push_chars, split_chars, split_seq, trim_all, trim_each, Separator,
};

verus! {

// ─── Colors as text ──────────────────────────────────────────────────────────

/// A color written as `r,g,b`.
pub open spec fn rgb_text(c: Seq<u8>) -> Seq<char> {
    decimal(c[0] as nat) + seq![','] + decimal(c[1] as nat) + seq![','] + decimal(c[2] as nat)
}

/// Writes a color as `r,g,b`.
pub fn fmt_rgb(c: [u8; 3]) -> (r: String)
    ensures
        r@ == rgb_text(c@),
{
    let mut r = String::new();
    push_chars(&mut r, &decimal_chars(c[0] as u64));
    push_char(&mut r, ',');
    push_chars(&mut r, &decimal_chars(c[1] as u64));
    push_char(&mut r, ',');
    push_chars(&mut r, &decimal_chars(c[2] as u64));
    assert(r@ =~= rgb_text(c@));
    r
}

/// The numbers of a color as typed: the pieces between commas and spaces, trimmed, with
/// the empty ones left out.
pub open spec fn rgb_tokens(s: Seq<char>) -> Seq<Seq<char>> {
    non_empty(trim_all(split_seq(s, Separator::CommaOrSpace)))
}

/// The color that a typed value denotes: exactly three numbers, each from 0 to 255,
/// separated by commas and spaces ("r,g,b", "r, g, b" or "r g b").
pub open spec fn rgb_value(s: Seq<char>) -> Option<Seq<u8>> {
    let t = rgb_tokens(s);
    if t.len() == 3 && parse_unsigned(t[0], 255) is Some && parse_unsigned(t[1], 255) is Some
        && parse_unsigned(t[2], 255) is Some {
        Some(
            seq![
                parse_unsigned(t[0], 255).unwrap() as u8,
                parse_unsigned(t[1], 255).unwrap() as u8,
                parse_unsigned(t[2], 255).unwrap() as u8,
            ],
        )
    } else {
        None
    }
}

/// Reads a color typed as "r,g,b", "r, g, b" or "r g b".
pub fn parse_rgb(s: &str) -> (r: Option<[u8; 3]>)
    ensures
        r matches Some(c) ==> rgb_value(s@) == Some(c@),
        r is None ==> rgb_value(s@) is None,
{
    let cs = chars_of(s);
    let pieces = split_chars(&cs, Separator::CommaOrSpace);
    let trimmed = trim_each(&pieces);
    let parts = keep_non_empty(&trimmed);
    proof {
        assert(crate::text::views(parts@) == rgb_tokens(s@));
    }
    if parts.len() != 3 {
        return None;
    }
    let ghost t = rgb_tokens(s@);
    assert(parts@[0]@ == t[0] && parts@[1]@ == t[1] && parts@[2]@ == t[2]);
    let r = match parse_bounded(&parts[0], 255) {
        Some(a) => a,
        None => {
            return None;
        },
    };
    let g = match parse_bounded(&parts[1], 255) {
        Some(a) => a,
        None => {
            return None;
        },
    };
    let b = match parse_bounded(&parts[2], 255) {
        Some(a) => a,
        None => {
            return None;
        },
    };
    let c: [u8; 3] = [r as u8, g as u8, b as u8];
    assert(c@ =~= rgb_value(s@).unwrap());
    Some(c)
}

// ─── Toggles ─────────────────────────────────────────────────────────────────

/// Whether Enter on an item flips it, rather than opening its value for editing.
pub open spec fn toggles(section: SettingsSection, item: int) -> bool {
    match section {
        SettingsSection::NowPlaying => true,
        SettingsSection::Layout => item == 2,
        _ => false,
    }
}

/// Whether Enter on an item flips it, rather than opening its value for editing.
pub fn is_toggle(section: &SettingsSection, item: usize) -> (r: bool)
    ensures
        r == toggles(*section, item as int),
{
    match section {
        SettingsSection::NowPlaying => true,
        SettingsSection::Layout => item == 2,
        _ => false,
    }
}

/// The now-playing options with the one at position `i` (0 to 6) flipped.
pub open spec fn now_playing_toggled(np: NowPlayingConfig, i: int) -> NowPlayingConfig {
    if i == 0 {
        NowPlayingConfig { show_track_name: !np.show_track_name, ..np }
    } else if i == 1 {
        NowPlayingConfig { show_artist: !np.show_artist, ..np }
    } else if i == 2 {
        NowPlayingConfig { show_album: !np.show_album, ..np }
    } else if i == 3 {
        NowPlayingConfig { show_progress_bar: !np.show_progress_bar, ..np }
    } else if i == 4 {
        NowPlayingConfig { show_time: !np.show_time, ..np }
    } else if i == 5 {
        NowPlayingConfig { show_shuffle_repeat: !np.show_shuffle_repeat, ..np }
    } else if i == 6 {
        NowPlayingConfig { show_device: !np.show_device, ..np }
    } else {
        np
    }
}

/// The configuration after flipping an item of the settings screen.
pub open spec fn toggled(c: ConfigView, section: SettingsSection, item: int) -> ConfigView {
    match section {
        SettingsSection::NowPlaying => ConfigView {
            now_playing: now_playing_toggled(c.now_playing, item),
            ..c
        },
        SettingsSection::Layout => if item == 2 {
            ConfigView { layout: Layout { show_hints: !c.layout.show_hints, ..c.layout }, ..c }
        } else {
            c
        },
        _ => c,
    }
}

/// Flips an item of the settings screen.
pub fn toggle_setting(section: &SettingsSection, item: usize, cfg: &mut Config)
    ensures
        final(cfg)@ == toggled(old(cfg)@, *section, item as int),
{
    match section {
        SettingsSection::NowPlaying => {
            let np = &mut cfg.now_playing;
            if item == 0 {
                np.show_track_name = !np.show_track_name;
            } else if item == 1 {
                np.show_artist = !np.show_artist;
            } else if item == 2 {
                np.show_album = !np.show_album;
            } else if item == 3 {
                np.show_progress_bar = !np.show_progress_bar;
            } else if item == 4 {
                np.show_time = !np.show_time;
            } else if item == 5 {
                np.show_shuffle_repeat = !np.show_shuffle_repeat;
            } else if item == 6 {
                np.show_device = !np.show_device;
            }
        },
        SettingsSection::Layout => {
            if item == 2 {
                cfg.layout.show_hints = !cfg.layout.show_hints;
            }
        },
        _ => {},
    }
}

// ─── Editing values ──────────────────────────────────────────────────────────

/// `v` held between `lo` and `hi`, as `Ord::clamp` does.
pub open spec fn clamp(v: int, lo: int, hi: int) -> int {
    if v < lo {
        lo
    } else if v > hi {
        hi
    } else {
        v
    }
}

/// The configuration after a typed value was confirmed for an item, and whether the value
/// was accepted.
///
/// A color must read as three numbers from 0 to 255, or nothing changes and the value is
/// refused. The border style and the keybindings take the text as it is. A sidebar width
/// is held between 10 and 90, a now-playing height raised to at least 4, and a number that
/// does not read leaves the layout as it was, though the value counts as accepted. The
/// now-playing section has nothing to edit and refuses every value.
pub open spec fn applied(c: ConfigView, section: SettingsSection, item: int, value: Seq<char>) -> (
    ConfigView,
    bool,
) {
    match section {
        SettingsSection::Theme => if 0 <= item < 4 {
            match rgb_value(value) {
                Some(v) => (ConfigView { theme: theme_with_color(c.theme, item, v), ..c }, true),
                None => (c, false),
            }
        } else if item == 4 {
            (ConfigView { theme: ThemeView { border_style: value, ..c.theme }, ..c }, true)
        } else {
            (c, true)
        },
        SettingsSection::Layout => if item == 0 {
            match parse_unsigned(value, 65535) {
                Some(v) => (
                    ConfigView {
                        layout: Layout {
                            sidebar_width_pct: clamp(v as int, 10, 90) as u16,
                            ..c.layout
                        },
                        ..c
                    },
                    true,
                ),
                None => (c, true),
            }
        } else if item == 1 {
            match parse_unsigned(value, 65535) {
                Some(v) => (
                    ConfigView {
                        layout: Layout {
                            now_playing_height: if v < 4 {
                                4
                            } else {
                                v as u16
                            },
                            ..c.layout
                        },
                        ..c
                    },
                    true,
                ),
                None => (c, true),
            }
        } else {
            (c, true)
        },
        SettingsSection::Keybindings => (
            ConfigView { keys: keys_with(c.keys, item, value), ..c },
            true,
        ),
        SettingsSection::NowPlaying => (c, false),
    }
}

/// Confirms a typed value for an item of the settings screen; tells whether it was
/// accepted.
pub fn apply_setting(section: &SettingsSection, item: usize, value: &str, cfg: &mut Config) -> (r:
    bool)
    ensures
        (final(cfg)@, r) == applied(old(cfg)@, *section, item as int, value@),
{
    match section {
        SettingsSection::Theme => {
            if item < 4 {
                match parse_rgb(value) {
                    Some(v) => {
                        if item == 0 {
                            cfg.theme.accent = v;
                        } else if item == 1 {
                            cfg.theme.background = v;
                        } else if item == 2 {
                            cfg.theme.muted = v;
                        } else {
                            cfg.theme.highlight_bg = v;
                        }
                    },
                    None => {
                        return false;
                    },
                }
            } else if item == 4 {
                cfg.theme.border_style = String::from_str(value);
            }
        },
        SettingsSection::Layout => {
            if item == 0 {
                if let Some(v) = parse_bounded(&chars_of(value), 65535) {
                    let v = v as u16;
                    cfg.layout.sidebar_width_pct = if v < 10 {
                        10
                    } else if v > 90 {
                        90
                    } else {
                        v
                    };
                }
            } else if item == 1 {
                if let Some(v) = parse_bounded(&chars_of(value), 65535) {
                    let v = v as u16;
                    cfg.layout.now_playing_height = if v < 4 {
                        4
                    } else {
                        v
                    };
                }
            }
        },
        SettingsSection::Keybindings => {
            let k = &mut cfg.keys;
            if item == 0 {
                k.quit = String::from_str(value);
            } else if item == 1 {
                k.search = String::from_str(value);
            } else if item == 2 {
                k.play_pause = String::from_str(value);
            } else if item == 3 {
                k.next = String::from_str(value);
            } else if item == 4 {
                k.previous = String::from_str(value);
            } else if item == 5 {
                k.shuffle = String::from_str(value);
            } else if item == 6 {
                k.repeat = String::from_str(value);
            } else if item == 7 {
                k.panel_next = String::from_str(value);
            } else if item == 8 {
                k.scroll_down = String::from_str(value);
            } else if item == 9 {
                k.scroll_up = String::from_str(value);
            } else if item == 10 {
                k.select = String::from_str(value);
            }
        },
        _ => {
            return false;
        },
    }
    true
}

/// The text an item's editor starts with: its current value, or nothing for items that are
/// toggled or do not exist.
pub open spec fn setting_value(c: ConfigView, section: SettingsSection, item: int) -> Seq<char> {
    match section {
        SettingsSection::Theme => if 0 <= item < 4 {
            rgb_text(color_at(c.theme, item))
        } else if item == 4 {
            c.theme.border_style
        } else {
            Seq::empty()
        },
        SettingsSection::Layout => if item == 0 {
            decimal(c.layout.sidebar_width_pct as nat)
        } else if item == 1 {
            decimal(c.layout.now_playing_height as nat)
        } else {
            Seq::empty()
        },
        SettingsSection::Keybindings => if 0 <= item <= 10 {
            key_at(c.keys, item)
        } else {
            Seq::empty()
        },
        SettingsSection::NowPlaying => Seq::empty(),
    }
}

/// The current value of an item, as its editor starts with it.
pub fn get_setting_value(section: &SettingsSection, item: usize, cfg: &Config) -> (r: String)
    ensures
        r@ == setting_value(cfg@, *section, item as int),
{
    match section {
        SettingsSection::Theme => {
            if item == 0 {
                fmt_rgb(cfg.theme.accent)
            } else if item == 1 {
                fmt_rgb(cfg.theme.background)
            } else if item == 2 {
                fmt_rgb(cfg.theme.muted)
            } else if item == 3 {
                fmt_rgb(cfg.theme.highlight_bg)
            } else if item == 4 {
                cfg.theme.border_style.clone()
            } else {
                String::new()
            }
        },
        SettingsSection::Layout => {
            if item == 0 {
                crate::text::decimal_string(cfg.layout.sidebar_width_pct as u64)
            } else if item == 1 {
                crate::text::decimal_string(cfg.layout.now_playing_height as u64)
            } else {
                String::new()
            }
        },
        SettingsSection::Keybindings => {
            let k = &cfg.keys;
            if item == 0 {
                k.quit.clone()
            } else if item == 1 {
                k.search.clone()
            } else if item == 2 {
                k.play_pause.clone()
            } else if item == 3 {
                k.next.clone()
            } else if item == 4 {
                k.previous.clone()
            } else if item == 5 {
                k.shuffle.clone()
            } else if item == 6 {
                k.repeat.clone()
            } else if item == 7 {
                k.panel_next.clone()
            } else if item == 8 {
                k.scroll_down.clone()
            } else if item == 9 {
                k.scroll_up.clone()
            } else if item == 10 {
                k.select.clone()
            } else {
                String::new()
            }
        },
        _ => String::new(),
    }
}


// ─── Laws ────────────────────────────────────────────────────────────────────

/// Flipping an item twice leaves the configuration as it was.
pub proof fn lemma_toggle_twice(c: ConfigView, section: SettingsSection, item: int)
    ensures
        toggled(toggled(c, section, item), section, item) == c,
{
}

/// Flipping an item that is toggled changes the configuration.
pub proof fn lemma_toggle_changes(c: ConfigView, section: SettingsSection, item: int)
    requires
        toggles(section, item),
        0 <= item < item_count(section),
    ensures
        toggled(c, section, item) != c,
{
}

/// A color written as `r,g,b` reads back as that color.
pub proof fn lemma_rgb_round_trip(c: Seq<u8>)
    requires
        c.len() == 3,
    ensures
        rgb_value(rgb_text(c)) == Some(c),
{
    let d0 = decimal(c[0] as nat);
    let d1 = decimal(c[1] as nat);
    let d2 = decimal(c[2] as nat);
    crate::text::lemma_decimal_value(c[0] as nat);
    crate::text::lemma_decimal_value(c[1] as nat);
    crate::text::lemma_decimal_value(c[2] as nat);
    let sep = Separator::CommaOrSpace;
    assert(crate::text::separates(sep, ','));
    assert forall|i: int| 0 <= i < d0.len() implies !crate::text::separates(sep, #[trigger] d0[i]) by {
        assert(crate::text::is_digit(d0[i]));
    }
    assert forall|i: int| 0 <= i < d1.len() implies !crate::text::separates(sep, #[trigger] d1[i]) by {
        assert(crate::text::is_digit(d1[i]));
    }
    assert forall|i: int| 0 <= i < d2.len() implies !crate::text::separates(sep, #[trigger] d2[i]) by {
        assert(crate::text::is_digit(d2[i]));
    }
    crate::text::lemma_split_no_separator(d0, sep);
    crate::text::lemma_split_append(d0, ',', d1, sep);
    let a = d0 + seq![','] + d1;
    crate::text::lemma_split_append(a, ',', d2, sep);
    assert(rgb_text(c) =~= a + seq![','] + d2);
    let pieces = split_seq(rgb_text(c), sep);
    assert(pieces =~= seq![d0, d1, d2]);
    crate::text::lemma_trim_digits(d0);
    crate::text::lemma_trim_digits(d1);
    crate::text::lemma_trim_digits(d2);
    let t = trim_all(pieces);
    assert(t =~= seq![d0, d1, d2]);
    assert(t.drop_last() =~= seq![d0, d1]);
    assert(t.drop_last().drop_last() =~= seq![d0]);
    assert(t.drop_last().drop_last().drop_last() =~= Seq::<Seq<char>>::empty());
    let t1 = t.drop_last().drop_last();
    let t2 = t.drop_last();
    assert(non_empty(t1.drop_last()) =~= Seq::<Seq<char>>::empty());
    assert(t1.last() == d0);
    assert(non_empty(t1) =~= seq![d0]);
    assert(t2.drop_last() == t1);
    assert(t2.last() == d1);
    assert(non_empty(t2) =~= seq![d0, d1]);
    assert(t.last() == d2);
    assert(non_empty(t) =~= seq![d0, d1, d2]);
    assert(rgb_tokens(rgb_text(c)) =~= seq![d0, d1, d2]);
    crate::text::lemma_parse_decimal(c[0] as nat, 255);
    crate::text::lemma_parse_decimal(c[1] as nat, 255);
    crate::text::lemma_parse_decimal(c[2] as nat, 255);
    assert(rgb_value(rgb_text(c)).unwrap() =~= c);
}

/// The layout sizes that the settings screen can produce: a sidebar width from 10 to 90
/// and a now-playing height of at least 4.
pub open spec fn layout_in_bounds(l: Layout) -> bool {
    10 <= l.sidebar_width_pct <= 90 && l.now_playing_height >= 4
}

/// Confirming the text an editor starts with leaves the configuration as it was, for every
/// item that is edited (not toggled), as long as the layout sizes are ones the settings
/// screen can produce.
pub proof fn lemma_confirm_unchanged_value(c: ConfigView, section: SettingsSection, item: int)
    requires
        0 <= item < item_count(section),
        !toggles(section, item),
        layout_in_bounds(c.layout),
        c.theme.accent.len() == 3,
        c.theme.background.len() == 3,
        c.theme.muted.len() == 3,
        c.theme.highlight_bg.len() == 3,
    ensures
        applied(c, section, item, setting_value(c, section, item)) == (c, true),
{
    match section {
        SettingsSection::Theme => {
            if item < 4 {
                lemma_rgb_round_trip(color_at(c.theme, item));
            }
        },
        SettingsSection::Layout => {
            if item == 0 {
                crate::text::lemma_parse_decimal(c.layout.sidebar_width_pct as nat, 65535);
            } else {
                crate::text::lemma_parse_decimal(c.layout.now_playing_height as nat, 65535);
            }
        },
        _ => {},
    }
}

/// Whatever value is confirmed, a layout within the sizes the settings screen produces
/// stays within them.
pub proof fn lemma_apply_keeps_layout_in_bounds(
    c: ConfigView,
    section: SettingsSection,
    item: int,
    value: Seq<char>,
)
    requires
        layout_in_bounds(c.layout),
    ensures
        layout_in_bounds(applied(c, section, item, value).0.layout),
{
}

/// A refused value leaves the configuration as it was.
pub proof fn lemma_refused_value_changes_nothing(
    c: ConfigView,
    section: SettingsSection,
    item: int,
    value: Seq<char>,
)
    requires
        !applied(c, section, item, value).1,
    ensures
        applied(c, section, item, value).0 == c,
{
}

} // verus!
