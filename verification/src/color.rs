use vstd::prelude::*;

verus! {

/// An RGBA color with one byte per channel.
#[derive(Clone, Copy, PartialEq, Eq, Structural, Debug)]
pub struct Rgba {
    pub r: u8,
    pub g: u8,
    pub b: u8,
    pub a: u8,
}

impl Rgba {
    pub fn new(r: u8, g: u8, b: u8, a: u8) -> (c: Rgba)
        ensures
            c == (Rgba { r, g, b, a }),
    {
        Rgba { r, g, b, a }
    }

    /// A fully opaque color from its red, green and blue channels.
    pub fn opaque(r: u8, g: u8, b: u8) -> (c: Rgba)
        ensures
            c == (Rgba { r, g, b, a: 255 }),
    {
        Rgba { r, g, b, a: 255 }
    }
}

/// A named color swatch. Entries are immutable once built; a list of them
/// changes only by whole-list replacement or by the reorder operation.
#[derive(Debug, PartialEq, Eq)]
pub struct ColorEntry {
    pub name: String,
    pub color: Rgba,
}

impl ColorEntry {
    pub fn new(name: String, color: Rgba) -> (e: ColorEntry)
        ensures
            e.name == name,
            e.color == color,
    {
        ColorEntry { name, color }
    }
}

impl Clone for ColorEntry {
    /// A clone is equal to the original, field for field.
    fn clone(&self) -> (r: Self)
        ensures
            r == *self,
    {
        ColorEntry { name: self.name.clone(), color: self.color }
    }
}

} // verus!
