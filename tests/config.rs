use oceania_theme::codec::string_from_col;
use oceania_theme::color::{ColorSlot, PaletteColors, Rgb};
use oceania_theme::toml_io::find_string_entry;
use oceania_theme::config::{
    load_palette, load_selected_theme, palette_file_text, palette_override_path,
    resolve_config_root, theme_selector_path, SelectedTheme, ThemeFile,
};

fn sample_colors() -> PaletteColors {
    PaletteColors {
        bg1: Rgb::new(0x20, 0x21, 0x22),
        bg2: Rgb::new(0x30, 0x31, 0x32),
        bg3: Rgb::new(0x40, 0x41, 0x42),
        txt: Rgb::new(0xf0, 0xf1, 0xf2),
        red: Rgb::new(0xe0, 0x10, 0x10),
        orange: Rgb::new(0xe0, 0x80, 0x10),
        yellow: Rgb::new(0xe0, 0xe0, 0x10),
        green: Rgb::new(0x10, 0xe0, 0x10),
        blue: Rgb::new(0x10, 0x10, 0xe0),
        purple: Rgb::new(0x80, 0x10, 0xe0),
        pink: Rgb::new(0xe0, 0x80, 0xe0),
    }
}

#[test]
fn config_root_prefers_explicit_root() {
    let r = resolve_config_root(Some("/etc/xdg".to_string()), Some("/home/u".to_string()));
    assert_eq!(r, Some("/etc/xdg".to_string()));
}

#[test]
fn config_root_falls_back_to_home() {
    let r = resolve_config_root(None, Some("/home/u".to_string()));
    assert_eq!(r, Some("/home/u/.config".to_string()));
}

#[test]
fn config_root_missing_without_home() {
    assert_eq!(resolve_config_root(None, None), None);
}

#[test]
fn config_file_paths() {
    assert_eq!(theme_selector_path("/home/u/.config"), "/home/u/.config/Oceania/cfg.toml");
    assert_eq!(palette_override_path("/home/u/.config"), "/home/u/.config/Oceania/theme.toml");
}

#[test]
fn selector_without_file_is_light() {
    assert_eq!(load_selected_theme(None), SelectedTheme::Light);
}

#[test]
fn selector_dark() {
    assert_eq!(load_selected_theme(Some("theme = \"dark\"\n".to_string())), SelectedTheme::Dark);
}

#[test]
fn selector_custom() {
    assert_eq!(load_selected_theme(Some("theme = \"custom\"\n".to_string())), SelectedTheme::Custom);
}

#[test]
fn selector_other_value_is_light() {
    assert_eq!(load_selected_theme(Some("theme = \"anything-else\"\n".to_string())), SelectedTheme::Light);
    assert_eq!(load_selected_theme(Some("theme = \"light\"\n".to_string())), SelectedTheme::Light);
}

#[test]
fn selector_is_case_sensitive() {
    assert_eq!(load_selected_theme(Some("theme = \"Dark\"\n".to_string())), SelectedTheme::Light);
}

#[test]
fn selector_missing_key_is_light() {
    assert_eq!(load_selected_theme(Some("other = \"dark\"\n".to_string())), SelectedTheme::Light);
    assert_eq!(load_selected_theme(Some(String::new())), SelectedTheme::Light);
}

#[test]
fn selector_non_string_value_is_light() {
    assert_eq!(load_selected_theme(Some("theme = 3\n".to_string())), SelectedTheme::Light);
}

#[test]
fn selector_malformed_file_is_light() {
    assert_eq!(load_selected_theme(Some("theme = = dark [".to_string())), SelectedTheme::Light);
}

#[test]
fn selector_from_value() {
    assert_eq!(SelectedTheme::from_value(Some("dark".to_string())), SelectedTheme::Dark);
    assert_eq!(SelectedTheme::from_value(Some("custom".to_string())), SelectedTheme::Custom);
    assert_eq!(SelectedTheme::from_value(Some("x".to_string())), SelectedTheme::Light);
    assert_eq!(SelectedTheme::from_value(None), SelectedTheme::Light);
}

#[test]
fn palette_without_file_is_default() {
    let p = load_palette(None);
    assert_eq!(p, PaletteColors::default_colors());
    let expected = [
        (ColorSlot::Bg1, "181926"),
        (ColorSlot::Bg2, "1e2030"),
        (ColorSlot::Bg3, "24273a"),
        (ColorSlot::Txt, "cad3f5"),
        (ColorSlot::Red, "ed8796"),
        (ColorSlot::Orange, "f5a97f"),
        (ColorSlot::Yellow, "eed49f"),
        (ColorSlot::Green, "a6da95"),
        (ColorSlot::Blue, "8aadf4"),
        (ColorSlot::Purple, "c6a0f6"),
        (ColorSlot::Pink, "f5bde6"),
    ];
    for (slot, hex) in expected {
        assert_eq!(string_from_col(&p.get(slot)), hex);
    }
}

#[test]
fn palette_save_then_load() {
    let colors = sample_colors();
    let text = palette_file_text(&colors).expect("a palette has a file text");
    assert_eq!(load_palette(Some(text)), colors);
}

#[test]
fn palette_save_then_load_low_channels() {
    let mut colors = sample_colors();
    colors.set(ColorSlot::Red, Rgb::new(0, 5, 15));
    let text = palette_file_text(&colors).unwrap();
    assert_eq!(load_palette(Some(text)), colors);
}

#[test]
fn palette_text_holds_each_key() {
    let text = palette_file_text(&PaletteColors::default_colors()).unwrap();
    assert!(text.contains("bg_color1 = \"181926\""));
    assert!(text.contains("txt_color = \"cad3f5\""));
    assert!(text.contains("pink = \"f5bde6\""));
}

#[test]
fn palette_with_missing_key_is_default() {
    let text = "bg_color1 = \"202122\"\n".to_string();
    assert_eq!(load_palette(Some(text)), PaletteColors::default_colors());
}

#[test]
fn palette_malformed_file_is_default() {
    assert_eq!(load_palette(Some("not [ toml".to_string())), PaletteColors::default_colors());
}

#[test]
fn palette_malformed_color_falls_back_for_that_slot() {
    let mut text = palette_file_text(&sample_colors()).unwrap();
    text = text.replace("\"e01010\"", "\"zz1010\"");
    let loaded = load_palette(Some(text));
    let mut expected = sample_colors();
    expected.set(ColorSlot::Red, PaletteColors::default_colors().red);
    assert_eq!(loaded, expected);
}

#[test]
fn theme_file_reads_each_slot() {
    let text = palette_file_text(&sample_colors()).unwrap();
    let file = ThemeFile::from_toml(&text).unwrap();
    assert_eq!(file.bg_color2, "303132");
    assert_eq!(file.decode(ColorSlot::Purple), Ok(Rgb::new(0x80, 0x10, 0xe0)));
    assert_eq!(file.colors_or_default(), sample_colors());
}

#[test]
fn theme_file_ignores_other_keys() {
    let mut text = palette_file_text(&sample_colors()).unwrap();
    text.push_str("extra = 7\n");
    assert!(ThemeFile::from_toml(&text).is_some());
}

#[test]
fn theme_file_needs_string_values() {
    let text = palette_file_text(&sample_colors()).unwrap().replace("pink = \"e080e0\"", "pink = 5");
    assert!(ThemeFile::from_toml(&text).is_none());
}

#[test]
fn theme_file_from_colors_and_back() {
    let file = ThemeFile::from_colors(&sample_colors());
    assert_eq!(file.txt_color, "f0f1f2");
    let text = file.to_toml().unwrap();
    let again = ThemeFile::from_toml(&text).unwrap();
    assert_eq!(again.colors_or_default(), sample_colors());
}

fn entry(key: &str, value: Option<&str>) -> (String, Option<String>) {
    (key.to_string(), value.map(|v| v.to_string()))
}

#[test]
fn selector_from_entries_reads_theme_key() {
    let entries = vec![entry("other", Some("x")), entry("theme", Some("custom"))];
    assert_eq!(SelectedTheme::from_entries(&entries), SelectedTheme::Custom);
    let entries = vec![entry("theme", None)];
    assert_eq!(SelectedTheme::from_entries(&entries), SelectedTheme::Light);
    assert_eq!(SelectedTheme::from_entries(&Vec::new()), SelectedTheme::Light);
}

#[test]
fn string_entry_takes_first_match() {
    let entries = vec![entry("a", Some("1")), entry("b", None), entry("a", Some("2"))];
    assert_eq!(find_string_entry(&entries, &"a".to_string()), Some("1".to_string()));
    assert_eq!(find_string_entry(&entries, &"b".to_string()), None);
    assert_eq!(find_string_entry(&entries, &"c".to_string()), None);
}

#[test]
fn theme_file_from_entries() {
    let keys = [
        "bg_color1", "bg_color2", "bg_color3", "txt_color", "red", "orange", "yellow", "green",
        "blue", "purple", "pink",
    ];
    let mut entries: Vec<(String, Option<String>)> = keys.iter().map(|k| entry(k, Some("101112"))).collect();
    entries.push(entry("unused", None));
    let file = ThemeFile::from_entries(&entries).unwrap();
    assert_eq!(file.pink, "101112");
    assert_eq!(file.colors_or_default().bg1, Rgb::new(0x10, 0x11, 0x12));
    entries[4] = entry("red", None);
    assert!(ThemeFile::from_entries(&entries).is_none());
}
