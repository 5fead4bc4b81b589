use vstd::prelude::*;

verus! {

/// An RGB colour for one pad LED.
#[derive(Debug, Clone, Copy, PartialEq, Eq, Structural)]
pub struct Rgb {
    pub r: u8,
    pub g: u8,
    pub b: u8,
}

impl Rgb {
    /// A colour from its three channels.
    pub fn new(r: u8, g: u8, b: u8) -> (c: Rgb)
        ensures
            c == (Rgb { r, g, b }),
    {
        Rgb { r, g, b }
    }

    /// Off.
    pub fn black() -> (c: Rgb)
        ensures
            c == (Rgb { r: 0, g: 0, b: 0 }),
    {
        Rgb { r: 0, g: 0, b: 0 }
    }

    pub fn white() -> (c: Rgb)
        ensures
            c == (Rgb { r: 255, g: 255, b: 255 }),
    {
        Rgb { r: 255, g: 255, b: 255 }
    }

    /// A modifier pad at rest, and the cell of the current bank.
    pub fn red() -> (c: Rgb)
        ensures
            c == (Rgb { r: 255, g: 0, b: 0 }),
    {
        Rgb { r: 255, g: 0, b: 0 }
    }

    /// The held modifier, and the selected snap.
    pub fn green() -> (c: Rgb)
        ensures
            c == (Rgb { r: 0, g: 255, b: 0 }),
    {
        Rgb { r: 0, g: 255, b: 0 }
    }

    pub fn blue() -> (c: Rgb)
        ensures
            c == (Rgb { r: 0, g: 0, b: 255 }),
    {
        Rgb { r: 0, g: 0, b: 255 }
    }

    pub fn orange() -> (c: Rgb)
        ensures
            c == (Rgb { r: 255, g: 165, b: 0 }),
    {
        Rgb { r: 255, g: 165, b: 0 }
    }

    /// A populated snap.
    pub fn yellow() -> (c: Rgb)
        ensures
            c == (Rgb { r: 255, g: 255, b: 0 }),
    {
        Rgb { r: 255, g: 255, b: 0 }
    }

    /// The target of a running morph.
    pub fn purple() -> (c: Rgb)
        ensures
            c == (Rgb { r: 128, g: 0, b: 128 }),
    {
        Rgb { r: 128, g: 0, b: 128 }
    }

    pub fn cyan() -> (c: Rgb)
        ensures
            c == (Rgb { r: 0, g: 255, b: 255 }),
    {
        Rgb { r: 0, g: 255, b: 255 }
    }

    pub fn gray() -> (c: Rgb)
        ensures
            c == (Rgb { r: 128, g: 128, b: 128 }),
    {
        Rgb { r: 128, g: 128, b: 128 }
    }
}

} // verus!
