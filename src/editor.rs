//! The edit session: the palette being edited, the open color picker, and the
//! theme the interface renders, moved along by the interface's messages.
use vstd::prelude::*;

use crate::codec::color_hex;
use crate::color::{ColorSlot, PaletteColors, Rgb};
use crate::config::{
    all_slots, load_palette, load_selected_theme, palette_file_text, palette_of_config,
    selected_theme_of_config, slot_key, SelectedTheme,
};
use crate::theme::{active_of, theme_set_of, CustomTheme, ThemeSet};
use crate::toml_io::toml_text;

verus! {

/// What the interface asks of the session.
#[derive(Clone, Copy, Debug, PartialEq, Eq, Structural)]
pub enum Message {
    /// Open the color picker of a slot.
    OpenPicker(ColorSlot),
    /// The open picker's chosen color.
    SubmitColor(Rgb),
    /// Close the picker without a choice.
    ClosePicker,
    /// Write the palette to the palette file.
    Save,
}

/// What the surrounding program has to do after a message.
#[derive(Clone, Debug)]
pub enum Action {
    Nothing,
    /// Overwrite the palette file with this text.
    WritePalette(String),
    /// The palette could not be turned into a file's text; nothing is written.
    SaveFailed,
}

/// The text that saving `colors` writes, if `toml` writes one.
pub open spec fn saved_text(colors: PaletteColors) -> Option<Seq<char>> {
    toml_text(all_slots().map_values(|slot: ColorSlot| (slot_key(slot), color_hex(colors.color_of(slot)))))
}

/// The state of one edit session.
#[derive(Clone, Copy, Debug)]
pub struct Configurator {
    pub colors: PaletteColors,
    pub open_picker: Option<ColorSlot>,
    pub theme_set: ThemeSet,
    pub theme_type: SelectedTheme,
}

impl Configurator {
    /// Starts a session from the texts of the selector file and the palette file
    /// (`None` for a file that is not there).
    pub fn load(selector_text: Option<String>, palette_text: Option<String>) -> (r: Configurator)
        ensures
            r.colors == palette_of_config(palette_text.deep_view()),
            r.open_picker is None,
            r.theme_set == theme_set_of(Some(r.colors)),
            r.theme_type == selected_theme_of_config(selector_text.deep_view()),
    {
        let colors = load_palette(palette_text);
        Configurator {
            colors,
            open_picker: None,
            theme_set: ThemeSet::derive(Some(&colors)),
            theme_type: load_selected_theme(selector_text),
        }
    }

    /// Applies one message. A submitted color goes to the slot whose picker is open
    /// and is dropped where none is; the theme set stays as it was loaded.
    pub fn update(&mut self, message: Message) -> (r: Action)
        ensures
            final(self).theme_set == old(self).theme_set,
            final(self).theme_type == old(self).theme_type,
            match message {
                Message::OpenPicker(slot) => {
                    &&& final(self).open_picker == Some(slot)
                    &&& final(self).colors == old(self).colors
                    &&& r is Nothing
                },
                Message::SubmitColor(color) => {
                    &&& final(self).open_picker == old(self).open_picker
                    &&& r is Nothing
                    &&& match old(self).open_picker {
                        Some(slot) => {
                            &&& final(self).colors.color_of(slot) == color
                            &&& forall|other: ColorSlot|
                                other != slot ==> #[trigger] final(self).colors.color_of(other)
                                    == old(self).colors.color_of(other)
                        },
                        None => final(self).colors == old(self).colors,
                    }
                },
                Message::ClosePicker => {
                    &&& final(self).open_picker is None
                    &&& final(self).colors == old(self).colors
                    &&& r is Nothing
                },
                Message::Save => {
                    &&& final(self).open_picker == old(self).open_picker
                    &&& final(self).colors == old(self).colors
                    &&& match saved_text(old(self).colors) {
                        Some(t) => r matches Action::WritePalette(s) && s@ == t,
                        None => r is SaveFailed,
                    }
                },
            },
    {
        match message {
            Message::OpenPicker(slot) => {
                self.open_picker = Some(slot);
                Action::Nothing
            },
            Message::SubmitColor(color) => {
                match self.open_picker {
                    Some(slot) => self.colors.set(slot, color),
                    None => {},
                }
                Action::Nothing
            },
            Message::ClosePicker => {
                self.open_picker = None;
                Action::Nothing
            },
            Message::Save => match palette_file_text(&self.colors) {
                Some(text) => Action::WritePalette(text),
                None => Action::SaveFailed,
            },
        }
    }

    /// The variant that the interface renders.
    pub fn theme(&self) -> (r: CustomTheme)
        ensures
            r == active_of(self.theme_set, self.theme_type),
    {
        self.theme_set.active(self.theme_type)
    }
}

} // verus!
