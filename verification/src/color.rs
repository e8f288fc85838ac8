use vstd::prelude::*;

verus! {

/// A terminal colour: one of the sixteen ANSI colours, the terminal's reset
/// colour, a 24-bit RGB colour or an index into the 256-colour palette.
///
/// The variants are those of the colour type of the terminal drawing library
/// that the viewer renders with.
#[derive(Clone, Copy, Debug, PartialEq, Eq, Structural)]
pub enum Color {
    Reset,
    Black,
    Red,
    Green,
    Yellow,
    Blue,
    Magenta,
    Cyan,
    Gray,
    DarkGray,
    LightRed,
    LightGreen,
    LightYellow,
    LightBlue,
    LightMagenta,
    LightCyan,
    White,
    Rgb(u8, u8, u8),
    Indexed(u8),
}

impl Color {
    /// Whether displaying this colour needs 24-bit colour support.
    pub open spec fn spec_is_rgb(&self) -> bool {
        self is Rgb
    }

    /// Whether displaying this colour needs 24-bit colour support.
    #[verifier::when_used_as_spec(spec_is_rgb)]
    pub fn is_rgb(&self) -> (r: bool)
        ensures
            r == self.spec_is_rgb(),
    {
        match self {
            Color::Rgb(..) => true,
            _ => false,
        }
    }
}

/// Whether an optional colour is present and needs 24-bit colour support.
pub open spec fn opt_is_rgb(c: Option<Color>) -> bool {
    match c {
        Some(c) => c.spec_is_rgb(),
        None => false,
    }
}

} // verus!
