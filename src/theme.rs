//! Expands a palette into the three theme variants and their component styles.
//!
//! Lengths (radii, widths, offsets) are in tenths of a logical pixel.
use vstd::prelude::*;

use crate::color::{default_palette, PaletteColors, Rgb};
use crate::config::SelectedTheme;

verus! {

/// A shadow offset.
#[derive(Clone, Copy, Debug, PartialEq, Eq, Structural)]
pub struct Offset {
    pub x: i32,
    pub y: i32,
}

/// The look of a button.
#[derive(Clone, Copy, Debug, PartialEq, Eq, Structural)]
pub struct ButtonStyle {
    pub border_radius: u32,
    pub txt_color: Rgb,
    pub bg_color: Option<Rgb>,
    pub border_color: Rgb,
    pub border_width: u32,
    pub shadow_offset: Offset,
}

/// The application-wide colors of a variant.
#[derive(Clone, Copy, Debug, PartialEq, Eq, Structural)]
pub struct Palette {
    pub background: Rgb,
    pub text: Rgb,
    pub primary: Rgb,
    pub success: Rgb,
    pub danger: Rgb,
}

/// The look of a drop-down menu.
#[derive(Clone, Copy, Debug, PartialEq, Eq, Structural)]
pub struct MenuStyle {
    pub txt_color: Rgb,
    pub bg_color: Rgb,
    pub border_radius: u32,
    pub border_width: u32,
    pub border_color: Rgb,
    pub sel_txt_color: Rgb,
    pub sel_bg_color: Rgb,
}

/// The look of a pick list and of its menu.
#[derive(Clone, Copy, Debug, PartialEq, Eq, Structural)]
pub struct ListStyle {
    pub txt_color: Rgb,
    pub bg_color: Rgb,
    pub handle_color: Rgb,
    pub border_radius: u32,
    pub border_width: u32,
    pub border_color: Rgb,
    pub menu: MenuStyle,
}

/// One complete theme variant.
#[derive(Clone, Copy, Debug, PartialEq, Eq, Structural)]
pub struct CustomTheme {
    pub application: Palette,
    pub secondary: ButtonStyle,
    pub sidebar: ButtonStyle,
    pub list: ListStyle,
}

/// The three variants, built together.
#[derive(Clone, Copy, Debug, PartialEq, Eq, Structural)]
pub struct ThemeSet {
    pub light: CustomTheme,
    pub dark: CustomTheme,
    pub custom: CustomTheme,
}

/// A color from its three channels.
pub open spec fn rgb(r: u8, g: u8, b: u8) -> Rgb {
    Rgb { r, g, b }
}

/// A borderless, shadowless button with a radius of 2.0.
pub open spec fn flat_button(txt: Rgb, bg: Rgb) -> ButtonStyle {
    ButtonStyle {
        border_radius: 20,
        txt_color: txt,
        bg_color: Some(bg),
        border_color: rgb(0, 0, 0),
        border_width: 0,
        shadow_offset: Offset { x: 0, y: 0 },
    }
}

/// A list with a 5.0 radius and a 2.0 border, the menu drawn alike.
pub open spec fn framed_list(txt: Rgb, bg: Rgb, menu_bg: Rgb, sel_bg: Rgb) -> ListStyle {
    ListStyle {
        txt_color: txt,
        bg_color: bg,
        handle_color: txt,
        border_radius: 50,
        border_width: 20,
        border_color: txt,
        menu: MenuStyle {
            txt_color: txt,
            bg_color: menu_bg,
            border_radius: 50,
            border_width: 20,
            border_color: txt,
            sel_txt_color: txt,
            sel_bg_color: sel_bg,
        },
    }
}

/// The fixed light variant.
pub open spec fn light_theme() -> CustomTheme {
    CustomTheme {
        application: Palette {
            background: rgb(0xE0, 0xF5, 0xFF),
            text: rgb(0x00, 0x19, 0x36),
            primary: rgb(0x00, 0x77, 0xFF),
            success: rgb(0x00, 0xCB, 0x40),
            danger: rgb(0xFF, 0x4C, 0x00),
        },
        secondary: flat_button(rgb(0x00, 0x20, 0x46), rgb(0xC6, 0xEC, 0xFF)),
        sidebar: flat_button(rgb(0x00, 0x19, 0x36), rgb(0xD2, 0xF0, 0xFF)),
        list: framed_list(
            rgb(0x00, 0x19, 0x36),
            rgb(0xE0, 0xF5, 0xFF),
            rgb(0xE0, 0xF5, 0xFF),
            rgb(0x00, 0xF1, 0xD6),
        ),
    }
}

/// The fixed dark variant.
pub open spec fn dark_theme() -> CustomTheme {
    CustomTheme {
        application: Palette {
            background: rgb(0x00, 0x19, 0x36),
            text: rgb(0xE0, 0xF5, 0xFF),
            primary: rgb(0x00, 0xAB, 0xE1),
            success: rgb(0x00, 0xA9, 0x35),
            danger: rgb(0xC5, 0x3A, 0x00),
        },
        secondary: flat_button(rgb(0xE0, 0xF5, 0xFF), rgb(0x00, 0x29, 0x58)),
        sidebar: flat_button(rgb(0xE0, 0xF5, 0xFF), rgb(0x00, 0x20, 0x46)),
        list: framed_list(
            rgb(0xE0, 0xF5, 0xFF),
            rgb(0x00, 0x29, 0x58),
            rgb(0xE0, 0xF5, 0xFF),
            rgb(0x00, 0xCD, 0xB6),
        ),
    }
}

/// A borderless, shadowless button with a radius of 2.5, framed in `border`.
pub open spec fn palette_button(txt: Rgb, bg: Rgb, border: Rgb) -> ButtonStyle {
    ButtonStyle {
        border_radius: 25,
        txt_color: txt,
        bg_color: Some(bg),
        border_color: border,
        border_width: 0,
        shadow_offset: Offset { x: 0, y: 0 },
    }
}

/// The variant built from a user's palette: background `bg1`, text `txt`, primary
/// `blue`, success `green`, danger `red`; secondary buttons on `bg3` and the sidebar on
/// `bg2`, framed in `bg1`; the list drawn in `txt` on `bg1`, the chosen entry on `blue`.
pub open spec fn custom_theme(c: PaletteColors) -> CustomTheme {
    CustomTheme {
        application: Palette {
            background: c.bg1,
            text: c.txt,
            primary: c.blue,
            success: c.green,
            danger: c.red,
        },
        secondary: palette_button(c.txt, c.bg3, c.bg1),
        sidebar: palette_button(c.txt, c.bg2, c.bg1),
        list: framed_list(c.txt, c.bg1, c.bg1, c.blue),
    }
}

/// The set built from a palette, or from the built-in palette where there is none.
pub open spec fn theme_set_of(colors: Option<PaletteColors>) -> ThemeSet {
    let base = match colors {
        Some(c) => c,
        None => default_palette(),
    };
    ThemeSet { light: light_theme(), dark: dark_theme(), custom: custom_theme(base) }
}

/// The variant that `selected` picks out of `set`.
pub open spec fn active_of(set: ThemeSet, selected: SelectedTheme) -> CustomTheme {
    match selected {
        SelectedTheme::Light => set.light,
        SelectedTheme::Dark => set.dark,
        SelectedTheme::Custom => set.custom,
    }
}

fn flat_button_exec(txt: Rgb, bg: Rgb) -> (r: ButtonStyle)
    ensures
        r == flat_button(txt, bg),
{
    ButtonStyle {
        border_radius: 20,
        txt_color: txt,
        bg_color: Some(bg),
        border_color: Rgb { r: 0, g: 0, b: 0 },
        border_width: 0,
        shadow_offset: Offset { x: 0, y: 0 },
    }
}

fn framed_list_exec(txt: Rgb, bg: Rgb, menu_bg: Rgb, sel_bg: Rgb) -> (r: ListStyle)
    ensures
        r == framed_list(txt, bg, menu_bg, sel_bg),
{
    ListStyle {
        txt_color: txt,
        bg_color: bg,
        handle_color: txt,
        border_radius: 50,
        border_width: 20,
        border_color: txt,
        menu: MenuStyle {
            txt_color: txt,
            bg_color: menu_bg,
            border_radius: 50,
            border_width: 20,
            border_color: txt,
            sel_txt_color: txt,
            sel_bg_color: sel_bg,
        },
    }
}

/// The fixed light or dark variant; the custom one is not fixed, so it gives `None`.
pub fn generate_theme(theme_slot: SelectedTheme) -> (r: Option<CustomTheme>)
    ensures
        r == match theme_slot {
            SelectedTheme::Light => Some(light_theme()),
            SelectedTheme::Dark => Some(dark_theme()),
            SelectedTheme::Custom => None::<CustomTheme>,
        },
{
    match theme_slot {
        SelectedTheme::Light => {
            let text = Rgb { r: 0x00, g: 0x19, b: 0x36 };
            let background = Rgb { r: 0xE0, g: 0xF5, b: 0xFF };
            Some(CustomTheme {
                application: Palette {
                    background,
                    text,
                    primary: Rgb { r: 0x00, g: 0x77, b: 0xFF },
                    success: Rgb { r: 0x00, g: 0xCB, b: 0x40 },
                    danger: Rgb { r: 0xFF, g: 0x4C, b: 0x00 },
                },
                secondary: flat_button_exec(
                    Rgb { r: 0x00, g: 0x20, b: 0x46 },
                    Rgb { r: 0xC6, g: 0xEC, b: 0xFF },
                ),
                sidebar: flat_button_exec(text, Rgb { r: 0xD2, g: 0xF0, b: 0xFF }),
                list: framed_list_exec(
                    text,
                    background,
                    background,
                    Rgb { r: 0x00, g: 0xF1, b: 0xD6 },
                ),
            })
        },
        SelectedTheme::Dark => {
            let text = Rgb { r: 0xE0, g: 0xF5, b: 0xFF };
            let raised = Rgb { r: 0x00, g: 0x29, b: 0x58 };
            Some(CustomTheme {
                application: Palette {
                    background: Rgb { r: 0x00, g: 0x19, b: 0x36 },
                    text,
                    primary: Rgb { r: 0x00, g: 0xAB, b: 0xE1 },
                    success: Rgb { r: 0x00, g: 0xA9, b: 0x35 },
                    danger: Rgb { r: 0xC5, g: 0x3A, b: 0x00 },
                },
                secondary: flat_button_exec(text, raised),
                sidebar: flat_button_exec(text, Rgb { r: 0x00, g: 0x20, b: 0x46 }),
                list: framed_list_exec(text, raised, text, Rgb { r: 0x00, g: 0xCD, b: 0xB6 }),
            })
        },
        SelectedTheme::Custom => None,
    }
}

fn palette_button_exec(txt: Rgb, bg: Rgb, border: Rgb) -> (r: ButtonStyle)
    ensures
        r == palette_button(txt, bg, border),
{
    ButtonStyle {
        border_radius: 25,
        txt_color: txt,
        bg_color: Some(bg),
        border_color: border,
        border_width: 0,
        shadow_offset: Offset { x: 0, y: 0 },
    }
}

/// The custom variant built from a user's palette.
pub fn make_custom_theme(colors: &PaletteColors) -> (r: CustomTheme)
    ensures
        r == custom_theme(*colors),
{
    CustomTheme {
        application: Palette {
            background: colors.bg1,
            text: colors.txt,
            primary: colors.blue,
            success: colors.green,
            danger: colors.red,
        },
        secondary: palette_button_exec(colors.txt, colors.bg3, colors.bg1),
        sidebar: palette_button_exec(colors.txt, colors.bg2, colors.bg1),
        list: framed_list_exec(colors.txt, colors.bg1, colors.bg1, colors.blue),
    }
}

/// The swatch that shows one palette color: filled, lettered and framed in that color.
pub fn button_style_from_col(color: &Rgb) -> (r: ButtonStyle)
    ensures
        r == palette_button(*color, *color, *color),
{
    palette_button_exec(*color, *color, *color)
}

impl ThemeSet {
    /// Builds all three variants; only the custom one depends on `colors`, and it
    /// is built from the built-in palette where `colors` is `None`.
    pub fn derive(colors: Option<&PaletteColors>) -> (r: ThemeSet)
        ensures
            r == theme_set_of(match colors {
                Some(c) => Some(*c),
                None => None,
            }),
    {
        let base = match colors {
            Some(c) => *c,
            None => PaletteColors::default_colors(),
        };
        ThemeSet {
            light: generate_theme(SelectedTheme::Light).unwrap(),
            dark: generate_theme(SelectedTheme::Dark).unwrap(),
            custom: make_custom_theme(&base),
        }
    }

    /// The variant that the interface renders for `selected`.
    pub fn active(&self, selected: SelectedTheme) -> (r: CustomTheme)
        ensures
            r == active_of(*self, selected),
    {
        match selected {
            SelectedTheme::Light => self.light,
            SelectedTheme::Dark => self.dark,
            SelectedTheme::Custom => self.custom,
        }
    }
}

/// Deriving is a function of its input alone: equal palettes give equal sets.
pub proof fn lemma_derive_deterministic(a: Option<PaletteColors>, b: Option<PaletteColors>)
    requires
        a == b,
    ensures
        theme_set_of(a) == theme_set_of(b),
{
}

/// User colors reach only the custom variant: whatever the palette, the light and
/// dark variants are the fixed ones.
pub proof fn lemma_custom_isolation(a: Option<PaletteColors>, b: Option<PaletteColors>)
    ensures
        theme_set_of(a).light == light_theme(),
        theme_set_of(a).dark == dark_theme(),
        theme_set_of(a).light == theme_set_of(b).light,
        theme_set_of(a).dark == theme_set_of(b).dark,
{
}

} // verus!
