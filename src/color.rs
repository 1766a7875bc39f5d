use vstd::prelude::*;

verus! {

/// A colour with 8-bit red, green, blue and alpha channels.
#[derive(Clone, Copy, Debug, PartialEq, Eq, Structural)]
pub struct Rgba {
    pub red: u8,
    pub green: u8,
    pub blue: u8,
    pub alpha: u8,
}

impl Rgba {
    /// A colour from its four channels.
    pub fn new(red: u8, green: u8, blue: u8, alpha: u8) -> (c: Rgba)
        ensures
            c.red == red,
            c.green == green,
            c.blue == blue,
            c.alpha == alpha,
    {
        Rgba { red, green, blue, alpha }
    }

    /// An opaque colour from its three colour channels.
    pub fn opaque(red: u8, green: u8, blue: u8) -> (c: Rgba)
        ensures
            c == (Rgba { red, green, blue, alpha: 255 }),
    {
        Rgba { red, green, blue, alpha: 255 }
    }

    /// Opaque white.
    pub open spec fn white_spec() -> Rgba {
        Rgba { red: 255, green: 255, blue: 255, alpha: 255 }
    }

    /// Opaque mid gray.
    pub open spec fn gray_spec() -> Rgba {
        Rgba { red: 128, green: 128, blue: 128, alpha: 255 }
    }

    /// Opaque white.
    pub fn white() -> (c: Rgba)
        ensures
            c == Rgba::white_spec(),
    {
        Rgba::opaque(255, 255, 255)
    }

    /// Opaque mid gray.
    pub fn gray() -> (c: Rgba)
        ensures
            c == Rgba::gray_spec(),
    {
        Rgba::opaque(128, 128, 128)
    }
}

} // verus!
