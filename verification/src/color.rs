//! The RGBA colour value.

use vstd::prelude::*;

verus! {

/// An RGBA colour. Each channel ranges over the whole of `u8`; the alpha
/// channel is carried along and never interpreted.
pub struct Color {
    /// Red channel.
    pub r: u8,
    /// Green channel.
    pub g: u8,
    /// Blue channel.
    pub b: u8,
    /// Alpha channel.
    pub a: u8,
}

/// The number that packs three channels in the `0xRRGGBB` layout.
pub open spec fn pack_rgb(r: u8, g: u8, b: u8) -> nat {
    (b as nat) + (g as nat) * 0x100 + (r as nat) * 0x10000
}

impl Color {
    /// The packed value of this colour: red, green and blue only.
    pub open spec fn hex(self) -> nat {
        pack_rgb(self.r, self.g, self.b)
    }

    /// A colour with the four channels as given.
    pub fn new(r: u8, g: u8, b: u8, a: u8) -> (c: Color)
        ensures
            c == (Color { r, g, b, a }),
    {
        Color { r, g, b, a }
    }

    /// Overwrites all four channels.
    pub fn set(&mut self, r: u8, g: u8, b: u8, a: u8)
        ensures
            *final(self) == (Color { r, g, b, a }),
    {
        self.r = r;
        self.g = g;
        self.b = b;
        self.a = a;
    }

    /// The colour as one number in the `0xRRGGBB` layout. Alpha has no part
    /// in it.
    pub fn to_hex(&self) -> (h: u32)
        ensures
            h == self.hex(),
    {
        let r: u32 = self.r as u32;
        let g: u32 = self.g as u32;
        let b: u32 = self.b as u32;
        b + (g * 0x100) + (r * 0x10000)
    }

    /// Overwrites all four channels with those of `color`.
    pub fn set_from(&mut self, color: &Color)
        ensures
            *final(self) == *color,
    {
        self.set(color.r, color.g, color.b, color.a);
    }

    /// A new colour with the same four channels.
    pub fn clone(&self) -> (c: Color)
        ensures
            c == *self,
    {
        Color::new(self.r, self.g, self.b, self.a)
    }
}

/// Two colours that differ in alpha alone pack to the same number.
pub proof fn lemma_hex_ignores_alpha(c: Color, d: Color)
    requires
        c.r == d.r,
        c.g == d.g,
        c.b == d.b,
    ensures
        c.hex() == d.hex(),
{
}

/// The packed value holds each channel in a byte of its own: blue lowest,
/// then green, then red, and nothing above.
pub proof fn lemma_hex_layout(c: Color)
    ensures
        c.hex() % 0x100 == c.b,
        (c.hex() / 0x100) % 0x100 == c.g,
        c.hex() / 0x10000 == c.r,
        c.hex() < 0x100_0000,
{
}

} // verus!
