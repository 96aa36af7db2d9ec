use vstd::prelude::*;

verus! {

/// The sixteen colors of the text-mode palette.
#[derive(Debug, Clone, Copy, PartialEq, Eq, Structural)]
pub enum Color {
    Black,
    Blue,
    Green,
    Cyan,
    Red,
    Purple,
    Brown,
    Gray,
    DarkGray,
    LightBlue,
    LightGreen,
    LightCyan,
    LightRed,
    LightPurple,
    Yellow,
    White,
}

/// The palette index of a color, as the adapter encodes it.
pub open spec fn spec_color_code(color: Color) -> u8 {
    match color {
        Color::Black => 0x0,
        Color::Blue => 0x1,
        Color::Green => 0x2,
        Color::Cyan => 0x3,
        Color::Red => 0x4,
        Color::Purple => 0x5,
        Color::Brown => 0x6,
        Color::Gray => 0x7,
        Color::DarkGray => 0x8,
        Color::LightBlue => 0x9,
        Color::LightGreen => 0xA,
        Color::LightCyan => 0xB,
        Color::LightRed => 0xC,
        Color::LightPurple => 0xD,
        Color::Yellow => 0xE,
        Color::White => 0xF,
    }
}

impl Color {
    pub fn code(self) -> (v: u8)
        ensures
            v == spec_color_code(self),
    {
        match self {
            Color::Black => 0x0,
            Color::Blue => 0x1,
            Color::Green => 0x2,
            Color::Cyan => 0x3,
            Color::Red => 0x4,
            Color::Purple => 0x5,
            Color::Brown => 0x6,
            Color::Gray => 0x7,
            Color::DarkGray => 0x8,
            Color::LightBlue => 0x9,
            Color::LightGreen => 0xA,
            Color::LightCyan => 0xB,
            Color::LightRed => 0xC,
            Color::LightPurple => 0xD,
            Color::Yellow => 0xE,
            Color::White => 0xF,
        }
    }
}

/// The packed attribute byte of one screen cell: background palette index in
/// the high half, foreground in the low half.
#[derive(Debug, Clone, Copy, PartialEq, Eq, Structural)]
pub struct CharacterColor(u8);

impl CharacterColor {
    /// The packed byte.
    pub closed spec fn code_spec(&self) -> u8 {
        self.0
    }

    /// The value [`CharacterColor::new`] builds.
    pub closed spec fn spec_new(foreground: Color, background: Color) -> CharacterColor {
        CharacterColor((spec_color_code(background) * 16 + spec_color_code(foreground)) as u8)
    }

    pub fn new(foreground: Color, background: Color) -> (c: CharacterColor)
        ensures
            c == CharacterColor::spec_new(foreground, background),
            c.code_spec() == spec_color_code(background) * 16 + spec_color_code(foreground),
    {
        let fg = foreground.code();
        let bg = background.code();
        proof {
            assert(bg << 4 | fg == bg * 16 + fg) by (bit_vector)
                requires
                    fg <= 15,
                    bg <= 15,
            ;
        }
        CharacterColor(bg << 4 | fg)
    }

    /// The packed byte, as the adapter stores it.
    pub fn code(&self) -> (v: u8)
        ensures
            v == self.code_spec(),
    {
        self.0
    }

    /// The same attribute with the foreground replaced.
    pub closed spec fn spec_with_foreground(&self, foreground: Color) -> CharacterColor {
        CharacterColor(self.0 & 0xF0 | spec_color_code(foreground))
    }

    pub fn with_foreground(&self, foreground: Color) -> (c: CharacterColor)
        ensures
            c == self.spec_with_foreground(foreground),
    {
        CharacterColor(self.0 & 0xF0 | foreground.code())
    }

    /// The all-zero attribute: black on black, the cleared-cell color.
    pub fn zero() -> (c: CharacterColor)
        ensures
            c == CharacterColor::spec_zero(),
    {
        CharacterColor(0)
    }

    pub closed spec fn spec_zero() -> CharacterColor {
        CharacterColor(0)
    }

    /// `spec_zero` really is the all-zero attribute byte.
    pub proof fn lemma_zero_code()
        ensures
            CharacterColor::spec_zero().code_spec() == 0,
    {
    }
}

impl Default for CharacterColor {
    /// The cleared-cell attribute, as [`CharacterColor::zero`].
    fn default() -> (c: CharacterColor)
        ensures
            c == CharacterColor::spec_zero(),
    {
        CharacterColor(0)
    }
}

} // verus!
