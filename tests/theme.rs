use oceania_theme::color::{ColorSlot, PaletteColors, Rgb};
use oceania_theme::config::SelectedTheme;
use oceania_theme::editor::{Action, Configurator, Message};
use oceania_theme::theme::{button_style_from_col, generate_theme, make_custom_theme, ThemeSet};

#[test]
fn generate_light_palette() {
    let light = generate_theme(SelectedTheme::Light).unwrap();
    assert_eq!(light.application.background, Rgb::new(0xE0, 0xF5, 0xFF));
    assert_eq!(light.application.primary, Rgb::new(0x00, 0x77, 0xFF));
    assert_eq!(light.sidebar.bg_color, Some(Rgb::new(0xD2, 0xF0, 0xFF)));
    assert_eq!(light.secondary.border_radius, 20);
    assert_eq!(light.list.menu.sel_bg_color, Rgb::new(0x00, 0xF1, 0xD6));
}

#[test]
fn generate_dark_palette() {
    let dark = generate_theme(SelectedTheme::Dark).unwrap();
    assert_eq!(dark.application.background, Rgb::new(0x00, 0x19, 0x36));
    assert_eq!(dark.application.danger, Rgb::new(0xC5, 0x3A, 0x00));
    assert_eq!(dark.secondary.bg_color, Some(Rgb::new(0x00, 0x29, 0x58)));
    assert_eq!(dark.list.border_width, 20);
}

#[test]
fn generate_custom_is_none() {
    assert!(generate_theme(SelectedTheme::Custom).is_none());
}

#[test]
fn custom_variant_uses_palette() {
    let c = PaletteColors::default_colors();
    let t = make_custom_theme(&c);
    assert_eq!(t.application.background, c.bg1);
    assert_eq!(t.application.text, c.txt);
    assert_eq!(t.application.primary, c.blue);
    assert_eq!(t.application.success, c.green);
    assert_eq!(t.application.danger, c.red);
    assert_eq!(t.secondary.bg_color, Some(c.bg3));
    assert_eq!(t.sidebar.bg_color, Some(c.bg2));
    assert_eq!(t.sidebar.txt_color, c.txt);
    assert_eq!(t.sidebar.border_color, c.bg1);
    assert_eq!(t.sidebar.border_radius, 25);
    assert_eq!(t.sidebar.border_width, 0);
}

#[test]
fn derive_is_deterministic() {
    let c = PaletteColors::default_colors();
    assert_eq!(ThemeSet::derive(Some(&c)), ThemeSet::derive(Some(&c)));
    assert_eq!(ThemeSet::derive(None), ThemeSet::derive(None));
}

#[test]
fn derive_without_palette_uses_defaults() {
    let c = PaletteColors::default_colors();
    assert_eq!(ThemeSet::derive(None), ThemeSet::derive(Some(&c)));
}

#[test]
fn edits_leave_light_and_dark_alone() {
    let mut c = PaletteColors::default_colors();
    let before = ThemeSet::derive(Some(&c));
    c.set(ColorSlot::Bg1, Rgb::new(1, 2, 3));
    c.set(ColorSlot::Blue, Rgb::new(4, 5, 6));
    let after = ThemeSet::derive(Some(&c));
    assert_eq!(after.light, before.light);
    assert_eq!(after.dark, before.dark);
    assert_eq!(after.light, generate_theme(SelectedTheme::Light).unwrap());
    assert_eq!(after.dark, generate_theme(SelectedTheme::Dark).unwrap());
    assert_eq!(after.custom.application.background, Rgb::new(1, 2, 3));
    assert_ne!(after.custom, before.custom);
}

#[test]
fn active_picks_selected_variant() {
    let set = ThemeSet::derive(None);
    assert_eq!(set.active(SelectedTheme::Light), set.light);
    assert_eq!(set.active(SelectedTheme::Dark), set.dark);
    assert_eq!(set.active(SelectedTheme::Custom), set.custom);
}

#[test]
fn swatch_style_is_the_color() {
    let c = Rgb::new(0x12, 0x34, 0x56);
    let s = button_style_from_col(&c);
    assert_eq!(s.bg_color, Some(c));
    assert_eq!(s.txt_color, c);
    assert_eq!(s.border_color, c);
    assert_eq!(s.border_radius, 25);
}

#[test]
fn session_defaults_without_files() {
    let s = Configurator::load(None, None);
    assert_eq!(s.colors, PaletteColors::default_colors());
    assert_eq!(s.theme_type, SelectedTheme::Light);
    assert_eq!(s.open_picker, None);
    assert_eq!(s.theme(), generate_theme(SelectedTheme::Light).unwrap());
}

#[test]
fn session_renders_selected_custom() {
    let s = Configurator::load(Some("theme = \"custom\"".to_string()), None);
    assert_eq!(s.theme(), make_custom_theme(&PaletteColors::default_colors()));
}

#[test]
fn session_edits_open_slot() {
    let mut s = Configurator::load(None, None);
    assert!(matches!(s.update(Message::OpenPicker(ColorSlot::Green)), Action::Nothing));
    s.update(Message::SubmitColor(Rgb::new(9, 9, 9)));
    assert_eq!(s.colors.green, Rgb::new(9, 9, 9));
    assert_eq!(s.colors.red, PaletteColors::default_colors().red);
    s.update(Message::ClosePicker);
    assert_eq!(s.open_picker, None);
}

#[test]
fn session_drops_color_without_picker() {
    let mut s = Configurator::load(None, None);
    s.update(Message::SubmitColor(Rgb::new(9, 9, 9)));
    assert_eq!(s.colors, PaletteColors::default_colors());
}

#[test]
fn session_save_writes_palette() {
    let mut s = Configurator::load(None, None);
    s.update(Message::OpenPicker(ColorSlot::Pink));
    s.update(Message::SubmitColor(Rgb::new(0x11, 0x22, 0x33)));
    match s.update(Message::Save) {
        Action::WritePalette(text) => {
            let again = Configurator::load(None, Some(text));
            assert_eq!(again.colors, s.colors);
            assert_eq!(again.colors.pink, Rgb::new(0x11, 0x22, 0x33));
        }
        _ => panic!("saving a palette writes it"),
    }
}
