use vstd::prelude::*;

verus! {

/// A color with 8-bit red, green, blue and alpha channels.
#[derive(Debug, Clone, Copy, PartialEq, Eq, Structural)]
pub struct Color {
    pub r: u8,
    pub g: u8,
    pub b: u8,
    pub a: u8,
}

impl Color {
    pub fn rgb(r: u8, g: u8, b: u8) -> (res: Color)
        ensures
            res == (Color { r, g, b, a: 255 }),
    {
        Color { r, g, b, a: 255 }
    }

    pub fn black() -> (res: Color)
        ensures
            res == (Color { r: 0, g: 0, b: 0, a: 255 }),
    {
        Color { r: 0, g: 0, b: 0, a: 255 }
    }

    pub fn white() -> (res: Color)
        ensures
            res == (Color { r: 255, g: 255, b: 255, a: 255 }),
    {
        Color { r: 255, g: 255, b: 255, a: 255 }
    }

    pub fn red() -> (res: Color)
        ensures
            res == (Color { r: 255, g: 0, b: 0, a: 255 }),
    {
        Color { r: 255, g: 0, b: 0, a: 255 }
    }

    pub fn cyan() -> (res: Color)
        ensures
            res == (Color { r: 0, g: 255, b: 255, a: 255 }),
    {
        Color { r: 0, g: 255, b: 255, a: 255 }
    }

    pub fn transparent_black() -> (res: Color)
        ensures
            res == (Color { r: 0, g: 0, b: 0, a: 0 }),
    {
        Color { r: 0, g: 0, b: 0, a: 0 }
    }
}

/// The palette of the game.
#[derive(Debug, Clone, Copy, PartialEq, Eq, Structural)]
pub struct Theme {
    pub dark: Color,
    pub light: Color,
    pub danger: Color,
    pub highlight: Color,
}

/// Names a color of a [`Theme`].
#[derive(Debug, Clone, Copy, PartialEq, Eq, Structural)]
pub enum ThemeColor {
    Dark,
    Light,
    Danger,
    Highlight,
}

impl Theme {
    /// The color that `color` names in the theme.
    pub open spec fn color_of(self, color: ThemeColor) -> Color {
        match color {
            ThemeColor::Dark => self.dark,
            ThemeColor::Light => self.light,
            ThemeColor::Danger => self.danger,
            ThemeColor::Highlight => self.highlight,
        }
    }

    /// Black and white with red danger and cyan highlights.
    pub fn classic() -> (res: Self)
        ensures
            res == (Theme {
                dark: Color { r: 0, g: 0, b: 0, a: 255 },
                light: Color { r: 255, g: 255, b: 255, a: 255 },
                danger: Color { r: 255, g: 0, b: 0, a: 255 },
                highlight: Color { r: 0, g: 255, b: 255, a: 255 },
            }),
    {
        Theme {
            dark: Color::black(),
            light: Color::white(),
            danger: Color::red(),
            highlight: Color::cyan(),
        }
    }

    /// The colors #2B3A67, #FFC482, #D34F73 and #61C9A8.
    pub fn test() -> (res: Self)
        ensures
            res == (Theme {
                dark: Color { r: 0x2B, g: 0x3A, b: 0x67, a: 255 },
                light: Color { r: 0xFF, g: 0xC4, b: 0x82, a: 255 },
                danger: Color { r: 0xD3, g: 0x4F, b: 0x73, a: 255 },
                highlight: Color { r: 0x61, g: 0xC9, b: 0xA8, a: 255 },
            }),
    {
        Theme {
            dark: Color::rgb(0x2B, 0x3A, 0x67),
            light: Color::rgb(0xFF, 0xC4, 0x82),
            danger: Color::rgb(0xD3, 0x4F, 0x73),
            highlight: Color::rgb(0x61, 0xC9, 0xA8),
        }
    }

    /// Make `dark` color transparent black.
    pub fn transparent(self) -> (res: Self)
        ensures
            res == (Theme { dark: Color { r: 0, g: 0, b: 0, a: 0 }, ..self }),
    {
        Theme { dark: Color::transparent_black(), ..self }
    }

    /// The color that `color` names in the theme.
    pub fn get_color(&self, color: ThemeColor) -> (res: Color)
        ensures
            res == self.color_of(color),
    {
        match color {
            ThemeColor::Dark => self.dark,
            ThemeColor::Light => self.light,
            ThemeColor::Danger => self.danger,
            ThemeColor::Highlight => self.highlight,
        }
    }
}

impl Default for Theme {
    fn default() -> (res: Self)
        ensures
            res == Theme::classic_spec(),
    {
        Theme::classic()
    }
}

impl Theme {
    /// The classic theme.
    pub open spec fn classic_spec() -> Theme {
        Theme {
            dark: Color { r: 0, g: 0, b: 0, a: 255 },
            light: Color { r: 255, g: 255, b: 255, a: 255 },
            danger: Color { r: 255, g: 0, b: 0, a: 255 },
            highlight: Color { r: 0, g: 255, b: 255, a: 255 },
        }
    }
}

} // verus!
