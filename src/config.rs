//! Where the configuration lives, which theme it selects, and the palette file.
use vstd::prelude::*;

use crate::codec::{col_from_str, color_hex, lemma_color_round_trip, parse_color, string_from_col, ColorError};
use crate::color::{default_palette, ColorSlot, PaletteColors, Rgb};
use crate::toml_io::{
    find_string_entry, parse_toml_entries, render_toml_strings, string_entry, toml_entries,
    toml_text,
};

verus! {

/// The directory that holds the configuration: the explicit config root where one is
/// given, else `<home>/.config`; `None` where neither is known.
pub fn resolve_config_root(config_home: Option<String>, home: Option<String>) -> (r: Option<String>)
    ensures
        config_home is Some ==> r.deep_view() == config_home.deep_view(),
        config_home is None && home is Some ==> r.deep_view() == Some(home->0@ + "/.config"@),
        config_home is None && home is None ==> r is None,
{
    match config_home {
        Some(c) => Some(c),
        None => match home {
            Some(h) => Some(h.concat("/.config")),
            None => None,
        },
    }
}

/// The file that selects the theme variant.
pub fn theme_selector_path(root: &str) -> (r: String)
    ensures
        r@ == root@ + "/Oceania/cfg.toml"@,
{
    String::from_str(root).concat("/Oceania/cfg.toml")
}

/// The file that holds the user's palette.
pub fn palette_override_path(root: &str) -> (r: String)
    ensures
        r@ == root@ + "/Oceania/theme.toml"@,
{
    String::from_str(root).concat("/Oceania/theme.toml")
}

/// Which of the three theme variants the interface renders.
#[derive(Clone, Copy, Debug, PartialEq, Eq, Structural)]
pub enum SelectedTheme {
    Light,
    Dark,
    Custom,
}

/// The variant that a `theme` value names: exactly `dark` or `custom`; anything
/// else, and no value, means light.
pub open spec fn selected_theme_of(value: Option<Seq<char>>) -> SelectedTheme {
    if value == Some("dark"@) {
        SelectedTheme::Dark
    } else if value == Some("custom"@) {
        SelectedTheme::Custom
    } else {
        SelectedTheme::Light
    }
}

/// The variant that the selector file's text selects. No file, and a text that is
/// not a TOML document, select light.
pub open spec fn selected_theme_of_config(text: Option<Seq<char>>) -> SelectedTheme {
    match text {
        None => SelectedTheme::Light,
        Some(t) => match toml_entries(t) {
            None => SelectedTheme::Light,
            Some(entries) => selected_theme_of(string_entry(entries, "theme"@)),
        },
    }
}

impl SelectedTheme {
    /// The variant that a `theme` value names.
    pub fn from_value(value: Option<String>) -> (r: SelectedTheme)
        ensures
            r == selected_theme_of(value.deep_view()),
    {
        match value {
            None => SelectedTheme::Light,
            Some(v) => {
                let dark = String::from_str("dark");
                let custom = String::from_str("custom");
                if v == dark {
                    SelectedTheme::Dark
                } else if v == custom {
                    SelectedTheme::Custom
                } else {
                    SelectedTheme::Light
                }
            },
        }
    }
}

impl SelectedTheme {
    /// The variant that a selector document's entries select, by their `theme` entry.
    pub fn from_entries(entries: &Vec<(String, Option<String>)>) -> (r: SelectedTheme)
        ensures
            r == selected_theme_of(string_entry(entries.deep_view(), "theme"@)),
    {
        let key = String::from_str("theme");
        SelectedTheme::from_value(find_string_entry(entries, &key))
    }
}

/// Reads the selector file's text (`None` where there is no file).
pub fn load_selected_theme(config_text: Option<String>) -> (r: SelectedTheme)
    ensures
        r == selected_theme_of_config(config_text.deep_view()),
{
    match config_text {
        None => SelectedTheme::Light,
        Some(text) => match parse_toml_entries(text.as_str()) {
            None => SelectedTheme::Light,
            Some(entries) => SelectedTheme::from_entries(&entries),
        },
    }
}

/// The palette file's record: one hex color text per slot.
#[derive(Clone, Debug)]
pub struct ThemeFile {
    pub bg_color1: String,
    pub bg_color2: String,
    pub bg_color3: String,
    pub txt_color: String,
    pub red: String,
    pub orange: String,
    pub yellow: String,
    pub green: String,
    pub blue: String,
    pub purple: String,
    pub pink: String,
}

/// The key of each slot in the palette file.
pub open spec fn slot_key(slot: ColorSlot) -> Seq<char> {
    match slot {
        ColorSlot::Bg1 => "bg_color1"@,
        ColorSlot::Bg2 => "bg_color2"@,
        ColorSlot::Bg3 => "bg_color3"@,
        ColorSlot::Txt => "txt_color"@,
        ColorSlot::Red => "red"@,
        ColorSlot::Orange => "orange"@,
        ColorSlot::Yellow => "yellow"@,
        ColorSlot::Green => "green"@,
        ColorSlot::Blue => "blue"@,
        ColorSlot::Purple => "purple"@,
        ColorSlot::Pink => "pink"@,
    }
}

/// The slots in the order in which the palette file lists them.
pub open spec fn all_slots() -> Seq<ColorSlot> {
    seq![
        ColorSlot::Bg1, ColorSlot::Bg2, ColorSlot::Bg3, ColorSlot::Txt, ColorSlot::Red,
        ColorSlot::Orange, ColorSlot::Yellow, ColorSlot::Green, ColorSlot::Blue,
        ColorSlot::Purple, ColorSlot::Pink,
    ]
}

/// The decoded color of a text, or `fallback` where the text is malformed.
pub open spec fn decoded_or(text: Seq<char>, fallback: Rgb) -> Rgb {
    match parse_color(text) {
        Ok(c) => c,
        Err(_) => fallback,
    }
}

/// The text under `slot`'s key among a palette document's entries.
pub open spec fn entry_text(entries: Seq<(Seq<char>, Option<Seq<char>>)>, slot: ColorSlot) -> Option<Seq<char>> {
    string_entry(entries, slot_key(slot))
}

/// The text under `slot`'s key in a palette file's text.
pub open spec fn config_value(text: Seq<char>, slot: ColorSlot) -> Option<Seq<char>> {
    match toml_entries(text) {
        None => None,
        Some(entries) => entry_text(entries, slot),
    }
}

/// A palette file's text is a TOML document with a string under every slot's key.
pub open spec fn config_has_all_slots(text: Seq<char>) -> bool {
    forall|slot: ColorSlot| #[trigger] config_value(text, slot) is Some
}

impl ThemeFile {
    /// The text held for `slot`.
    pub open spec fn text_of(self, slot: ColorSlot) -> Seq<char> {
        match slot {
            ColorSlot::Bg1 => self.bg_color1@,
            ColorSlot::Bg2 => self.bg_color2@,
            ColorSlot::Bg3 => self.bg_color3@,
            ColorSlot::Txt => self.txt_color@,
            ColorSlot::Red => self.red@,
            ColorSlot::Orange => self.orange@,
            ColorSlot::Yellow => self.yellow@,
            ColorSlot::Green => self.green@,
            ColorSlot::Blue => self.blue@,
            ColorSlot::Purple => self.purple@,
            ColorSlot::Pink => self.pink@,
        }
    }

    /// The file's entries, key and text, in the file's order.
    pub open spec fn entries(self) -> Seq<(Seq<char>, Seq<char>)> {
        all_slots().map_values(|slot: ColorSlot| (slot_key(slot), self.text_of(slot)))
    }

    /// The palette the file decodes to, each malformed text replaced by that slot's
    /// built-in color.
    pub open spec fn decoded(self) -> PaletteColors {
        let d = default_palette();
        PaletteColors {
            bg1: decoded_or(self.bg_color1@, d.bg1),
            bg2: decoded_or(self.bg_color2@, d.bg2),
            bg3: decoded_or(self.bg_color3@, d.bg3),
            txt: decoded_or(self.txt_color@, d.txt),
            red: decoded_or(self.red@, d.red),
            orange: decoded_or(self.orange@, d.orange),
            yellow: decoded_or(self.yellow@, d.yellow),
            green: decoded_or(self.green@, d.green),
            blue: decoded_or(self.blue@, d.blue),
            purple: decoded_or(self.purple@, d.purple),
            pink: decoded_or(self.pink@, d.pink),
        }
    }

    /// The text held for `slot`.
    pub fn text(&self, slot: ColorSlot) -> (r: &String)
        ensures
            r@ == self.text_of(slot),
    {
        match slot {
            ColorSlot::Bg1 => &self.bg_color1,
            ColorSlot::Bg2 => &self.bg_color2,
            ColorSlot::Bg3 => &self.bg_color3,
            ColorSlot::Txt => &self.txt_color,
            ColorSlot::Red => &self.red,
            ColorSlot::Orange => &self.orange,
            ColorSlot::Yellow => &self.yellow,
            ColorSlot::Green => &self.green,
            ColorSlot::Blue => &self.blue,
            ColorSlot::Purple => &self.purple,
            ColorSlot::Pink => &self.pink,
        }
    }

    /// Decodes the color of one slot, reporting a malformed text for that slot alone.
    pub fn decode(&self, slot: ColorSlot) -> (r: Result<Rgb, ColorError>)
        ensures
            r == parse_color(self.text_of(slot)),
    {
        col_from_str(self.text(slot).as_str())
    }
}

impl ThemeFile {
    /// The record that saving `colors` writes: each slot's color as six hex digits.
    pub fn from_colors(colors: &PaletteColors) -> (r: ThemeFile)
        ensures
            forall|slot: ColorSlot| #[trigger] r.text_of(slot) == color_hex(colors.color_of(slot)),
    {
        ThemeFile {
            bg_color1: string_from_col(&colors.bg1),
            bg_color2: string_from_col(&colors.bg2),
            bg_color3: string_from_col(&colors.bg3),
            txt_color: string_from_col(&colors.txt),
            red: string_from_col(&colors.red),
            orange: string_from_col(&colors.orange),
            yellow: string_from_col(&colors.yellow),
            green: string_from_col(&colors.green),
            blue: string_from_col(&colors.blue),
            purple: string_from_col(&colors.purple),
            pink: string_from_col(&colors.pink),
        }
    }

    /// Reads the record from a palette document's entries. It is there exactly when
    /// every slot's key holds a string; other entries are ignored.
    pub fn from_entries(entries: &Vec<(String, Option<String>)>) -> (r: Option<ThemeFile>)
        ensures
            r is Some <==> forall|slot: ColorSlot| #[trigger] entry_text(entries.deep_view(), slot) is Some,
            r matches Some(f) ==> forall|slot: ColorSlot|
                #[trigger] entry_text(entries.deep_view(), slot) == Some(f.text_of(slot)),
    {
        let ghost es = entries.deep_view();
        let bg_color1 = find_string_entry(entries, &String::from_str("bg_color1"));
        let bg_color2 = find_string_entry(entries, &String::from_str("bg_color2"));
        let bg_color3 = find_string_entry(entries, &String::from_str("bg_color3"));
        let txt_color = find_string_entry(entries, &String::from_str("txt_color"));
        let red = find_string_entry(entries, &String::from_str("red"));
        let orange = find_string_entry(entries, &String::from_str("orange"));
        let yellow = find_string_entry(entries, &String::from_str("yellow"));
        let green = find_string_entry(entries, &String::from_str("green"));
        let blue = find_string_entry(entries, &String::from_str("blue"));
        let purple = find_string_entry(entries, &String::from_str("purple"));
        let pink = find_string_entry(entries, &String::from_str("pink"));
        proof {
            assert(entry_text(es, ColorSlot::Bg1) == bg_color1.deep_view());
            assert(entry_text(es, ColorSlot::Bg2) == bg_color2.deep_view());
            assert(entry_text(es, ColorSlot::Bg3) == bg_color3.deep_view());
            assert(entry_text(es, ColorSlot::Txt) == txt_color.deep_view());
            assert(entry_text(es, ColorSlot::Red) == red.deep_view());
            assert(entry_text(es, ColorSlot::Orange) == orange.deep_view());
            assert(entry_text(es, ColorSlot::Yellow) == yellow.deep_view());
            assert(entry_text(es, ColorSlot::Green) == green.deep_view());
            assert(entry_text(es, ColorSlot::Blue) == blue.deep_view());
            assert(entry_text(es, ColorSlot::Purple) == purple.deep_view());
            assert(entry_text(es, ColorSlot::Pink) == pink.deep_view());
        }
        match (bg_color1, bg_color2, bg_color3, txt_color, red, orange, yellow, green, blue, purple, pink) {
            (
                Some(bg_color1),
                Some(bg_color2),
                Some(bg_color3),
                Some(txt_color),
                Some(red),
                Some(orange),
                Some(yellow),
                Some(green),
                Some(blue),
                Some(purple),
                Some(pink),
            ) => {
                let f = ThemeFile {
                    bg_color1,
                    bg_color2,
                    bg_color3,
                    txt_color,
                    red,
                    orange,
                    yellow,
                    green,
                    blue,
                    purple,
                    pink,
                };
                assert forall|slot: ColorSlot| #[trigger] entry_text(es, slot) == Some(f.text_of(slot)) by {
                    match slot {
                        ColorSlot::Bg1 => {},
                        ColorSlot::Bg2 => {},
                        ColorSlot::Bg3 => {},
                        ColorSlot::Txt => {},
                        ColorSlot::Red => {},
                        ColorSlot::Orange => {},
                        ColorSlot::Yellow => {},
                        ColorSlot::Green => {},
                        ColorSlot::Blue => {},
                        ColorSlot::Purple => {},
                        ColorSlot::Pink => {},
                    }
                }
                Some(f)
            },
            _ => None,
        }
    }

    /// Reads the record from a palette file's text. It is there exactly when the text
    /// is a TOML document with a string under every slot's key; other keys are ignored.
    pub fn from_toml(text: &str) -> (r: Option<ThemeFile>)
        ensures
            r is Some <==> config_has_all_slots(text@),
            r matches Some(f) ==> forall|slot: ColorSlot|
                #[trigger] config_value(text@, slot) == Some(f.text_of(slot)),
    {
        match parse_toml_entries(text) {
            None => {
                assert(config_value(text@, ColorSlot::Bg1) is None);
                None
            },
            Some(entries) => {
                let r = ThemeFile::from_entries(&entries);
                assert forall|slot: ColorSlot| #[trigger] config_value(text@, slot) == entry_text(entries.deep_view(), slot) by {}
                r
            },
        }
    }

    /// The text that the palette file holds for this record, as `toml` writes it.
    pub fn to_toml(&self) -> (r: Option<String>)
        ensures
            r.deep_view() == toml_text(self.entries()),
    {
        let mut entries: Vec<(String, String)> = Vec::new();
        entries.push((String::from_str("bg_color1"), self.bg_color1.clone()));
        entries.push((String::from_str("bg_color2"), self.bg_color2.clone()));
        entries.push((String::from_str("bg_color3"), self.bg_color3.clone()));
        entries.push((String::from_str("txt_color"), self.txt_color.clone()));
        entries.push((String::from_str("red"), self.red.clone()));
        entries.push((String::from_str("orange"), self.orange.clone()));
        entries.push((String::from_str("yellow"), self.yellow.clone()));
        entries.push((String::from_str("green"), self.green.clone()));
        entries.push((String::from_str("blue"), self.blue.clone()));
        entries.push((String::from_str("purple"), self.purple.clone()));
        entries.push((String::from_str("pink"), self.pink.clone()));
        assert(entries.deep_view() =~= self.entries());
        render_toml_strings(&entries)
    }

    /// Decodes every slot, putting the built-in color in place of a malformed text.
    pub fn colors_or_default(&self) -> (r: PaletteColors)
        ensures
            r == self.decoded(),
    {
        let d = PaletteColors::default_colors();
        PaletteColors {
            bg1: decoded_or_exec(&self.bg_color1, d.bg1),
            bg2: decoded_or_exec(&self.bg_color2, d.bg2),
            bg3: decoded_or_exec(&self.bg_color3, d.bg3),
            txt: decoded_or_exec(&self.txt_color, d.txt),
            red: decoded_or_exec(&self.red, d.red),
            orange: decoded_or_exec(&self.orange, d.orange),
            yellow: decoded_or_exec(&self.yellow, d.yellow),
            green: decoded_or_exec(&self.green, d.green),
            blue: decoded_or_exec(&self.blue, d.blue),
            purple: decoded_or_exec(&self.purple, d.purple),
            pink: decoded_or_exec(&self.pink, d.pink),
        }
    }
}

fn decoded_or_exec(text: &String, fallback: Rgb) -> (r: Rgb)
    ensures
        r == decoded_or(text@, fallback),
{
    match col_from_str(text.as_str()) {
        Ok(c) => c,
        Err(_) => fallback,
    }
}

/// The palette that the palette file's text (`None` where there is no file) yields.
/// No file, and a text without a string under every slot's key, yield the built-in
/// palette; otherwise each slot is decoded, a malformed one falling back to its
/// built-in color.
pub open spec fn palette_of_config(text: Option<Seq<char>>) -> PaletteColors {
    match text {
        None => default_palette(),
        Some(t) => if config_has_all_slots(t) {
            let d = default_palette();
            PaletteColors {
                bg1: decoded_or(config_value(t, ColorSlot::Bg1)->0, d.bg1),
                bg2: decoded_or(config_value(t, ColorSlot::Bg2)->0, d.bg2),
                bg3: decoded_or(config_value(t, ColorSlot::Bg3)->0, d.bg3),
                txt: decoded_or(config_value(t, ColorSlot::Txt)->0, d.txt),
                red: decoded_or(config_value(t, ColorSlot::Red)->0, d.red),
                orange: decoded_or(config_value(t, ColorSlot::Orange)->0, d.orange),
                yellow: decoded_or(config_value(t, ColorSlot::Yellow)->0, d.yellow),
                green: decoded_or(config_value(t, ColorSlot::Green)->0, d.green),
                blue: decoded_or(config_value(t, ColorSlot::Blue)->0, d.blue),
                purple: decoded_or(config_value(t, ColorSlot::Purple)->0, d.purple),
                pink: decoded_or(config_value(t, ColorSlot::Pink)->0, d.pink),
            }
        } else {
            default_palette()
        },
    }
}

/// Loads the palette from the palette file's text (`None` where there is no file).
pub fn load_palette(file_text: Option<String>) -> (r: PaletteColors)
    ensures
        r == palette_of_config(file_text.deep_view()),
{
    match file_text {
        None => PaletteColors::default_colors(),
        Some(text) => match ThemeFile::from_toml(text.as_str()) {
            None => PaletteColors::default_colors(),
            Some(f) => {
                proof {
                    assert(config_value(text@, ColorSlot::Bg1) == Some(f.text_of(ColorSlot::Bg1)));
                    assert(config_value(text@, ColorSlot::Bg2) == Some(f.text_of(ColorSlot::Bg2)));
                    assert(config_value(text@, ColorSlot::Bg3) == Some(f.text_of(ColorSlot::Bg3)));
                    assert(config_value(text@, ColorSlot::Txt) == Some(f.text_of(ColorSlot::Txt)));
                    assert(config_value(text@, ColorSlot::Red) == Some(f.text_of(ColorSlot::Red)));
                    assert(config_value(text@, ColorSlot::Orange) == Some(f.text_of(ColorSlot::Orange)));
                    assert(config_value(text@, ColorSlot::Yellow) == Some(f.text_of(ColorSlot::Yellow)));
                    assert(config_value(text@, ColorSlot::Green) == Some(f.text_of(ColorSlot::Green)));
                    assert(config_value(text@, ColorSlot::Blue) == Some(f.text_of(ColorSlot::Blue)));
                    assert(config_value(text@, ColorSlot::Purple) == Some(f.text_of(ColorSlot::Purple)));
                    assert(config_value(text@, ColorSlot::Pink) == Some(f.text_of(ColorSlot::Pink)));
                }
                f.colors_or_default()
            },
        },
    }
}

/// The text to write to the palette file for `colors`, as `toml` writes it.
pub fn palette_file_text(colors: &PaletteColors) -> (r: Option<String>)
    ensures
        r.deep_view() == toml_text(
            all_slots().map_values(|slot: ColorSlot| (slot_key(slot), color_hex(colors.color_of(slot)))),
        ),
{
    let file = ThemeFile::from_colors(colors);
    assert(file.entries() =~= all_slots().map_values(
        |slot: ColorSlot| (slot_key(slot), color_hex(colors.color_of(slot))),
    ));
    file.to_toml()
}

/// Saving then loading gives the palette back: a record written from `colors`
/// decodes, slot by slot, to exactly `colors`.
pub proof fn lemma_save_then_load(colors: PaletteColors, file: ThemeFile)
    requires
        forall|slot: ColorSlot| #[trigger] file.text_of(slot) == color_hex(colors.color_of(slot)),
    ensures
        file.decoded() == colors,
{
    assert(file.text_of(ColorSlot::Bg1) == color_hex(colors.bg1));
    assert(file.text_of(ColorSlot::Bg2) == color_hex(colors.bg2));
    assert(file.text_of(ColorSlot::Bg3) == color_hex(colors.bg3));
    assert(file.text_of(ColorSlot::Txt) == color_hex(colors.txt));
    assert(file.text_of(ColorSlot::Red) == color_hex(colors.red));
    assert(file.text_of(ColorSlot::Orange) == color_hex(colors.orange));
    assert(file.text_of(ColorSlot::Yellow) == color_hex(colors.yellow));
    assert(file.text_of(ColorSlot::Green) == color_hex(colors.green));
    assert(file.text_of(ColorSlot::Blue) == color_hex(colors.blue));
    assert(file.text_of(ColorSlot::Purple) == color_hex(colors.purple));
    assert(file.text_of(ColorSlot::Pink) == color_hex(colors.pink));
    lemma_color_round_trip(colors.bg1);
    lemma_color_round_trip(colors.bg2);
    lemma_color_round_trip(colors.bg3);
    lemma_color_round_trip(colors.txt);
    lemma_color_round_trip(colors.red);
    lemma_color_round_trip(colors.orange);
    lemma_color_round_trip(colors.yellow);
    lemma_color_round_trip(colors.green);
    lemma_color_round_trip(colors.blue);
    lemma_color_round_trip(colors.purple);
    lemma_color_round_trip(colors.pink);
}

} // verus!
