//! Colour palettes that map the four Game Boy shades to display colours.
use vstd::prelude::*;

verus! {

/// A display colour: red, green, blue and alpha channels.
#[derive(Debug, Copy, Clone, PartialEq, Eq, Structural)]
pub struct Colour {
    pub r: u8,
    pub g: u8,
    pub b: u8,
    pub a: u8,
}

/// Four display colours, from the lightest shade (Game Boy value 0) to the darkest (3).
#[derive(Debug, Copy, Clone, PartialEq, Eq, Structural)]
pub struct Palette {
    /// The lightest colour of the palette.
    pub lightest: Colour,
    /// The light colour of the palette.
    pub light: Colour,
    /// The dark colour of the palette.
    pub dark: Colour,
    /// The darkest colour of the palette.
    pub darkest: Colour,
}

/// An opaque colour.
pub open spec fn opaque(r: u8, g: u8, b: u8) -> Colour {
    Colour { r, g, b, a: 0xFF }
}

/// The green palette of the DMG Game Boy screen.
pub open spec fn classic_green_spec() -> Palette {
    Palette {
        lightest: opaque(0x88, 0xC0, 0x77),
        light: opaque(0x4E, 0xA3, 0x50),
        dark: opaque(0x37, 0x76, 0x4B),
        darkest: opaque(0x23, 0x49, 0x3A),
    }
}

/// A purple palette.
pub open spec fn why_he_ourple_spec() -> Palette {
    Palette {
        lightest: opaque(0xCA, 0xB8, 0xE3),
        light: opaque(0x76, 0x5B, 0x87),
        dark: opaque(0x3C, 0x25, 0x4A),
        darkest: opaque(0x1A, 0x02, 0x21),
    }
}

/// The green palette of the DMG Game Boy screen.
pub fn classic_green() -> (r: Palette)
    ensures
        r == classic_green_spec(),
{
    Palette {
        lightest: Colour { r: 0x88, g: 0xC0, b: 0x77, a: 0xFF },
        light: Colour { r: 0x4E, g: 0xA3, b: 0x50, a: 0xFF },
        dark: Colour { r: 0x37, g: 0x76, b: 0x4B, a: 0xFF },
        darkest: Colour { r: 0x23, g: 0x49, b: 0x3A, a: 0xFF },
    }
}

/// A purple palette.
pub fn why_he_ourple() -> (r: Palette)
    ensures
        r == why_he_ourple_spec(),
{
    Palette {
        lightest: Colour { r: 0xCA, g: 0xB8, b: 0xE3, a: 0xFF },
        light: Colour { r: 0x76, g: 0x5B, b: 0x87, a: 0xFF },
        dark: Colour { r: 0x3C, g: 0x25, b: 0x4A, a: 0xFF },
        darkest: Colour { r: 0x1A, g: 0x02, b: 0x21, a: 0xFF },
    }
}

impl Palette {
    /// The colour of the Game Boy shade `num`: 0 = lightest, 1 = light, 2 = dark,
    /// 3 = darkest; other values are shown as the lightest colour.
    pub open spec fn colour_of(self, num: u8) -> Colour {
        if num == 1 {
            self.light
        } else if num == 2 {
            self.dark
        } else if num == 3 {
            self.darkest
        } else {
            self.lightest
        }
    }

    /// Get the lightest colour of the palette.
    pub fn lightest(&self) -> (r: &Colour)
        ensures
            *r == self.lightest,
    {
        &self.lightest
    }

    /// Get the light colour of the palette.
    pub fn light(&self) -> (r: &Colour)
        ensures
            *r == self.light,
    {
        &self.light
    }

    /// Get the dark colour of the palette.
    pub fn dark(&self) -> (r: &Colour)
        ensures
            *r == self.dark,
    {
        &self.dark
    }

    /// Get the darkest colour of the palette.
    pub fn darkest(&self) -> (r: &Colour)
        ensures
            *r == self.darkest,
    {
        &self.darkest
    }

    /// Get the colour corresponding to the Game Boy internal value.
    /// 0 = lightest
    /// 1 = light
    /// 2 = dark
    /// 3 = darkest
    pub fn num_to_hex(&self, num: u8) -> (r: &Colour)
        ensures
            *r == self.colour_of(num),
    {
        match num {
            1 => self.light(),
            2 => self.dark(),
            3 => self.darkest(),
            _ => self.lightest(),
        }
    }
}

impl Default for Palette {
    fn default() -> (r: Self)
        ensures
            r == classic_green_spec(),
    {
        classic_green()
    }
}

/// The varieties of preset palettes that can be used.
#[derive(Debug, Copy, Clone, PartialEq, Eq, Structural)]
pub enum PresetPalette {
    ClassicGreen,
    WhyHeOurple,
    MalibuBarbara,
    MintyPie,
}

impl Default for PresetPalette {
    fn default() -> (r: Self)
        ensures
            r == PresetPalette::ClassicGreen,
    {
        PresetPalette::ClassicGreen
    }
}

impl PresetPalette {
    /// Retrieve the [Palette] that corresponds with this palette preset. Only the classic
    /// green and the purple presets have colours defined; the others have none yet.
    pub fn get(&self) -> (r: Option<Palette>)
        ensures
            *self == PresetPalette::ClassicGreen ==> r == Some(classic_green_spec()),
            *self == PresetPalette::WhyHeOurple ==> r == Some(why_he_ourple_spec()),
            *self == PresetPalette::MalibuBarbara || *self == PresetPalette::MintyPie ==> r
                is None,
    {
        match *self {
            PresetPalette::ClassicGreen => Some(classic_green()),
            PresetPalette::WhyHeOurple => Some(why_he_ourple()),
            PresetPalette::MalibuBarbara => None,
            PresetPalette::MintyPie => None,
        }
    }
}

} // verus!
