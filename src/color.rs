use vstd::prelude::*;

verus! {

/// An opaque RGB color with 8-bit channels.
#[derive(Clone, Copy, Debug, PartialEq, Eq, Structural)]
pub struct Rgb {
    pub r: u8,
    pub g: u8,
    pub b: u8,
}

impl Rgb {
    pub fn new(r: u8, g: u8, b: u8) -> (c: Rgb)
        ensures
            c == (Rgb { r, g, b }),
    {
        Rgb { r, g, b }
    }
}

/// One of the eleven editable colors of a palette.
#[derive(Clone, Copy, Debug, PartialEq, Eq, Structural)]
pub enum ColorSlot {
    Bg1,
    Bg2,
    Bg3,
    Txt,
    Red,
    Orange,
    Yellow,
    Green,
    Blue,
    Purple,
    Pink,
}

/// The eleven base colors a user edits: three background shades, text, and seven accents.
#[derive(Clone, Copy, Debug, PartialEq, Eq, Structural)]
pub struct PaletteColors {
    pub bg1: Rgb,
    pub bg2: Rgb,
    pub bg3: Rgb,
    pub txt: Rgb,
    pub red: Rgb,
    pub orange: Rgb,
    pub yellow: Rgb,
    pub green: Rgb,
    pub blue: Rgb,
    pub purple: Rgb,
    pub pink: Rgb,
}

/// The built-in palette used when no palette file is available.
pub open spec fn default_palette() -> PaletteColors {
    PaletteColors {
        bg1: Rgb { r: 0x18, g: 0x19, b: 0x26 },
        bg2: Rgb { r: 0x1e, g: 0x20, b: 0x30 },
        bg3: Rgb { r: 0x24, g: 0x27, b: 0x3a },
        txt: Rgb { r: 0xca, g: 0xd3, b: 0xf5 },
        red: Rgb { r: 0xed, g: 0x87, b: 0x96 },
        orange: Rgb { r: 0xf5, g: 0xa9, b: 0x7f },
        yellow: Rgb { r: 0xee, g: 0xd4, b: 0x9f },
        green: Rgb { r: 0xa6, g: 0xda, b: 0x95 },
        blue: Rgb { r: 0x8a, g: 0xad, b: 0xf4 },
        purple: Rgb { r: 0xc6, g: 0xa0, b: 0xf6 },
        pink: Rgb { r: 0xf5, g: 0xbd, b: 0xe6 },
    }
}

impl PaletteColors {
    /// The color held in `slot`.
    pub open spec fn color_of(self, slot: ColorSlot) -> Rgb {
        match slot {
            ColorSlot::Bg1 => self.bg1,
            ColorSlot::Bg2 => self.bg2,
            ColorSlot::Bg3 => self.bg3,
            ColorSlot::Txt => self.txt,
            ColorSlot::Red => self.red,
            ColorSlot::Orange => self.orange,
            ColorSlot::Yellow => self.yellow,
            ColorSlot::Green => self.green,
            ColorSlot::Blue => self.blue,
            ColorSlot::Purple => self.purple,
            ColorSlot::Pink => self.pink,
        }
    }

    /// The built-in palette.
    pub fn default_colors() -> (r: PaletteColors)
        ensures
            r == default_palette(),
    {
        PaletteColors {
            bg1: Rgb { r: 0x18, g: 0x19, b: 0x26 },
            bg2: Rgb { r: 0x1e, g: 0x20, b: 0x30 },
            bg3: Rgb { r: 0x24, g: 0x27, b: 0x3a },
            txt: Rgb { r: 0xca, g: 0xd3, b: 0xf5 },
            red: Rgb { r: 0xed, g: 0x87, b: 0x96 },
            orange: Rgb { r: 0xf5, g: 0xa9, b: 0x7f },
            yellow: Rgb { r: 0xee, g: 0xd4, b: 0x9f },
            green: Rgb { r: 0xa6, g: 0xda, b: 0x95 },
            blue: Rgb { r: 0x8a, g: 0xad, b: 0xf4 },
            purple: Rgb { r: 0xc6, g: 0xa0, b: 0xf6 },
            pink: Rgb { r: 0xf5, g: 0xbd, b: 0xe6 },
        }
    }

    /// The color held in `slot`.
    pub fn get(&self, slot: ColorSlot) -> (r: Rgb)
        ensures
            r == self.color_of(slot),
    {
        match slot {
            ColorSlot::Bg1 => self.bg1,
            ColorSlot::Bg2 => self.bg2,
            ColorSlot::Bg3 => self.bg3,
            ColorSlot::Txt => self.txt,
            ColorSlot::Red => self.red,
            ColorSlot::Orange => self.orange,
            ColorSlot::Yellow => self.yellow,
            ColorSlot::Green => self.green,
            ColorSlot::Blue => self.blue,
            ColorSlot::Purple => self.purple,
            ColorSlot::Pink => self.pink,
        }
    }

    /// Replaces the color in `slot`, leaving the other ten as they were.
    pub fn set(&mut self, slot: ColorSlot, color: Rgb)
        ensures
            final(self).color_of(slot) == color,
            forall|other: ColorSlot| other != slot ==> final(self).color_of(other) == old(self).color_of(other),
    {
        match slot {
            ColorSlot::Bg1 => self.bg1 = color,
            ColorSlot::Bg2 => self.bg2 = color,
            ColorSlot::Bg3 => self.bg3 = color,
            ColorSlot::Txt => self.txt = color,
            ColorSlot::Red => self.red = color,
            ColorSlot::Orange => self.orange = color,
            ColorSlot::Yellow => self.yellow = color,
            ColorSlot::Green => self.green = color,
            ColorSlot::Blue => self.blue = color,
            ColorSlot::Purple => self.purple = color,
            ColorSlot::Pink => self.pink = color,
        }
    }
}

} // verus!
