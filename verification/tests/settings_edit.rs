use spotify_tui::app::SettingsSection;
use spotify_tui::config::{Config, Keys, Layout, NowPlayingConfig, Theme};
use spotify_tui::settings::{
    apply_setting, fmt_rgb, get_setting_value, is_toggle, parse_rgb, toggle_setting,
};

fn same_config(a: &Config, b: &Config) -> bool {
    a.theme.accent == b.theme.accent
        && a.theme.background == b.theme.background
        && a.theme.muted == b.theme.muted
        && a.theme.highlight_bg == b.theme.highlight_bg
        && a.theme.border_style == b.theme.border_style
        && format!("{:?}", a.keys) == format!("{:?}", b.keys)
        && format!("{:?}", a.layout) == format!("{:?}", b.layout)
        && format!("{:?}", a.now_playing) == format!("{:?}", b.now_playing)
}

#[test]
fn default_config_values() {
    let c = Config::default();
    assert_eq!(c.theme.accent, [30, 215, 96]);
    assert_eq!(c.theme.background, [18, 18, 18]);
    assert_eq!(c.theme.muted, [120, 120, 120]);
    assert_eq!(c.theme.highlight_bg, [40, 40, 40]);
    assert_eq!(c.theme.border_style, "plain");
    assert_eq!(c.keys.quit, "q");
    assert_eq!(c.keys.search, "/");
    assert_eq!(c.keys.play_pause, " ");
    assert_eq!(c.keys.panel_next, "Tab");
    assert_eq!(c.keys.select, "Enter");
    assert_eq!(c.layout.sidebar_width_pct, 30);
    assert_eq!(c.layout.now_playing_height, 5);
    assert!(c.layout.show_hints);
    assert!(c.now_playing.show_track_name);
    assert!(!c.now_playing.show_device);
}

#[test]
fn part_defaults_match_whole_default() {
    let c = Config::default();
    let t = Theme::default();
    let k = Keys::default();
    let l = Layout::default();
    let n = NowPlayingConfig::default();
    assert_eq!(c.theme.accent, t.accent);
    assert_eq!(format!("{:?}", c.keys), format!("{:?}", k));
    assert_eq!(format!("{:?}", c.layout), format!("{:?}", l));
    assert_eq!(format!("{:?}", c.now_playing), format!("{:?}", n));
}

#[test]
fn parse_rgb_accepts_the_three_forms() {
    assert_eq!(parse_rgb("30,215,96"), Some([30, 215, 96]));
    assert_eq!(parse_rgb("30, 215, 96"), Some([30, 215, 96]));
    assert_eq!(parse_rgb("30 215 96"), Some([30, 215, 96]));
    assert_eq!(parse_rgb("  1 ,2,3  "), Some([1, 2, 3]));
    assert_eq!(parse_rgb("1,,2,,3"), Some([1, 2, 3]));
    assert_eq!(parse_rgb("1\t,2,3"), Some([1, 2, 3]));
    assert_eq!(parse_rgb("+1,2,3"), Some([1, 2, 3]));
    assert_eq!(parse_rgb("007,0,255"), Some([7, 0, 255]));
}

#[test]
fn parse_rgb_refuses_bad_values() {
    assert_eq!(parse_rgb(""), None);
    assert_eq!(parse_rgb("1,2"), None);
    assert_eq!(parse_rgb("1,2,3,4"), None);
    assert_eq!(parse_rgb("256,0,0"), None);
    assert_eq!(parse_rgb("a,b,c"), None);
    assert_eq!(parse_rgb("-1,2,3"), None);
    assert_eq!(parse_rgb("+,2,3"), None);
    assert_eq!(parse_rgb("1;2;3"), None);
    assert_eq!(parse_rgb("99999999999999999999,1,1"), None);
}

#[test]
fn fmt_rgb_writes_commas() {
    assert_eq!(fmt_rgb([30, 215, 96]), "30,215,96");
    assert_eq!(fmt_rgb([0, 0, 0]), "0,0,0");
    assert_eq!(fmt_rgb([255, 100, 7]), "255,100,7");
}

#[test]
fn rgb_text_reads_back() {
    for c in [[0u8, 0, 0], [255, 255, 255], [30, 215, 96], [9, 10, 99], [100, 1, 200]] {
        assert_eq!(parse_rgb(&fmt_rgb(c)), Some(c));
    }
}

#[test]
fn toggles_are_now_playing_items_and_show_hints() {
    for i in 0..7 {
        assert!(is_toggle(&SettingsSection::NowPlaying, i));
    }
    assert!(is_toggle(&SettingsSection::Layout, 2));
    assert!(!is_toggle(&SettingsSection::Layout, 0));
    assert!(!is_toggle(&SettingsSection::Theme, 0));
    assert!(!is_toggle(&SettingsSection::Keybindings, 3));
}

#[test]
fn toggling_twice_restores() {
    let orig = Config::default();
    for (section, items) in [(SettingsSection::NowPlaying, 7), (SettingsSection::Layout, 3)] {
        for i in 0..items {
            let mut c = orig.clone();
            toggle_setting(&section, i, &mut c);
            if is_toggle(&section, i) {
                assert!(!same_config(&c, &orig));
            }
            toggle_setting(&section, i, &mut c);
            assert!(same_config(&c, &orig));
        }
    }
}

#[test]
fn toggle_flips_the_named_option() {
    let mut c = Config::default();
    toggle_setting(&SettingsSection::NowPlaying, 6, &mut c);
    assert!(c.now_playing.show_device);
    toggle_setting(&SettingsSection::Layout, 2, &mut c);
    assert!(!c.layout.show_hints);
}

#[test]
fn apply_color_and_refusal() {
    let mut c = Config::default();
    assert!(apply_setting(&SettingsSection::Theme, 0, "1,2,3", &mut c));
    assert_eq!(c.theme.accent, [1, 2, 3]);
    assert!(apply_setting(&SettingsSection::Theme, 3, "4 5 6", &mut c));
    assert_eq!(c.theme.highlight_bg, [4, 5, 6]);
    let before = c.clone();
    assert!(!apply_setting(&SettingsSection::Theme, 1, "red", &mut c));
    assert!(same_config(&c, &before));
}

#[test]
fn apply_border_and_keys_take_text() {
    let mut c = Config::default();
    assert!(apply_setting(&SettingsSection::Theme, 4, "rounded", &mut c));
    assert_eq!(c.theme.border_style, "rounded");
    assert!(apply_setting(&SettingsSection::Keybindings, 0, "x", &mut c));
    assert_eq!(c.keys.quit, "x");
    assert!(apply_setting(&SettingsSection::Keybindings, 10, "Tab", &mut c));
    assert_eq!(c.keys.select, "Tab");
    let before = c.clone();
    assert!(apply_setting(&SettingsSection::Keybindings, 11, "z", &mut c));
    assert!(same_config(&c, &before));
}

#[test]
fn apply_layout_clamps_and_ignores_garbage() {
    let mut c = Config::default();
    assert!(apply_setting(&SettingsSection::Layout, 0, "5", &mut c));
    assert_eq!(c.layout.sidebar_width_pct, 10);
    assert!(apply_setting(&SettingsSection::Layout, 0, "95", &mut c));
    assert_eq!(c.layout.sidebar_width_pct, 90);
    assert!(apply_setting(&SettingsSection::Layout, 0, "45", &mut c));
    assert_eq!(c.layout.sidebar_width_pct, 45);
    assert!(apply_setting(&SettingsSection::Layout, 1, "2", &mut c));
    assert_eq!(c.layout.now_playing_height, 4);
    assert!(apply_setting(&SettingsSection::Layout, 1, "12", &mut c));
    assert_eq!(c.layout.now_playing_height, 12);
    assert!(apply_setting(&SettingsSection::Layout, 1, "tall", &mut c));
    assert_eq!(c.layout.now_playing_height, 12);
    assert!(apply_setting(&SettingsSection::Layout, 0, "70000", &mut c));
    assert_eq!(c.layout.sidebar_width_pct, 45);
}

#[test]
fn now_playing_values_are_refused() {
    let mut c = Config::default();
    let before = c.clone();
    assert!(!apply_setting(&SettingsSection::NowPlaying, 0, "on", &mut c));
    assert!(same_config(&c, &before));
}

#[test]
fn setting_values_as_the_editor_starts() {
    let c = Config::default();
    assert_eq!(get_setting_value(&SettingsSection::Theme, 0, &c), "30,215,96");
    assert_eq!(get_setting_value(&SettingsSection::Theme, 4, &c), "plain");
    assert_eq!(get_setting_value(&SettingsSection::Theme, 5, &c), "");
    assert_eq!(get_setting_value(&SettingsSection::Layout, 0, &c), "30");
    assert_eq!(get_setting_value(&SettingsSection::Layout, 1, &c), "5");
    assert_eq!(get_setting_value(&SettingsSection::Layout, 2, &c), "");
    assert_eq!(get_setting_value(&SettingsSection::Keybindings, 2, &c), " ");
    assert_eq!(get_setting_value(&SettingsSection::Keybindings, 7, &c), "Tab");
    assert_eq!(get_setting_value(&SettingsSection::NowPlaying, 0, &c), "");
}

#[test]
fn confirming_the_current_value_changes_nothing() {
    let orig = Config::default();
    for (section, items) in [
        (SettingsSection::Theme, 5),
        (SettingsSection::Layout, 3),
        (SettingsSection::Keybindings, 11),
    ] {
        for i in 0..items {
            if is_toggle(&section, i) {
                continue;
            }
            let mut c = orig.clone();
            let v = get_setting_value(&section, i, &c);
            assert!(apply_setting(&section, i, &v, &mut c));
            assert!(same_config(&c, &orig));
        }
    }
}

#[test]
fn layout_stays_in_bounds_whatever_is_typed() {
    let mut c = Config::default();
    for v in ["0", "1", "9", "10", "90", "91", "65535", "x", "", "+4"] {
        apply_setting(&SettingsSection::Layout, 0, v, &mut c);
        apply_setting(&SettingsSection::Layout, 1, v, &mut c);
        assert!(c.layout.sidebar_width_pct >= 10 && c.layout.sidebar_width_pct <= 90);
        assert!(c.layout.now_playing_height >= 4);
    }
}
