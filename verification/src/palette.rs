//! The palette: an ordered table of colours with a lookup that never fails.

use vstd::prelude::*;
use crate::color::Color;

verus! {

/// The colour that a lookup gives where the palette holds none.
pub open spec fn fallback_color() -> Color {
    Color { r: 0, g: 0, b: 0, a: 0 }
}

/// The colour that stands at `index` in `entries`, or the fallback colour
/// where `index` is not a position of `entries`.
pub open spec fn color_at(entries: Seq<Color>, index: int) -> Color {
    if 0 <= index < entries.len() {
        entries[index]
    } else {
        fallback_color()
    }
}

/// An entry of the reference table: the three channels as given,
/// alpha zero.
pub open spec fn rgb(r: u8, g: u8, b: u8) -> Color {
    Color { r, g, b, a: 0 }
}

/// The reference table of 256 colours: sixteen base colours, a ramp of
/// sixteen greys, three groups of hue ramps of falling brightness, and eight
/// closing entries of zero.
pub open spec fn reference_colors() -> Seq<Color> {
    seq![
        rgb(0x00, 0x00, 0x00), rgb(0x00, 0x00, 0xAA), rgb(0x00, 0xAA, 0x00), rgb(0x00, 0xAA, 0xAA),
        rgb(0xAA, 0x00, 0x00), rgb(0xAA, 0x00, 0xAA), rgb(0xAA, 0x55, 0x00), rgb(0xAA, 0xAA, 0xAA),
        rgb(0x55, 0x55, 0x55), rgb(0x55, 0x55, 0xFF), rgb(0x55, 0xFF, 0x55), rgb(0x55, 0xFF, 0xFF),
        rgb(0xFF, 0x55, 0x55), rgb(0xFF, 0x55, 0xFF), rgb(0xFF, 0xFF, 0x55), rgb(0xFF, 0xFF, 0xFF),
        rgb(0x00, 0x00, 0x00), rgb(0x10, 0x10, 0x10), rgb(0x20, 0x20, 0x20), rgb(0x35, 0x35, 0x35),
        rgb(0x45, 0x45, 0x45), rgb(0x55, 0x55, 0x55), rgb(0x65, 0x65, 0x65), rgb(0x75, 0x75, 0x75),
        rgb(0x8A, 0x8A, 0x8A), rgb(0x9A, 0x9A, 0x9A), rgb(0xAA, 0xAA, 0xAA), rgb(0xBA, 0xBA, 0xBA),
        rgb(0xCA, 0xCA, 0xCA), rgb(0xDF, 0xDF, 0xDF), rgb(0xEF, 0xEF, 0xEF), rgb(0xFF, 0xFF, 0xFF),
        rgb(0x00, 0x00, 0xFF), rgb(0x41, 0x00, 0xFF), rgb(0x82, 0x00, 0xFF), rgb(0xBE, 0x00, 0xFF),
        rgb(0xFF, 0x00, 0xFF), rgb(0xFF, 0x00, 0xBE), rgb(0xFF, 0x00, 0x82), rgb(0xFF, 0x00, 0x41),
        rgb(0xFF, 0x00, 0x00), rgb(0xFF, 0x41, 0x00), rgb(0xFF, 0x82, 0x00), rgb(0xFF, 0xBE, 0x00),
        rgb(0xFF, 0xFF, 0x00), rgb(0xBE, 0xFF, 0x00), rgb(0x82, 0xFF, 0x00), rgb(0x41, 0xFF, 0x00),
        rgb(0x00, 0xFF, 0x00), rgb(0x00, 0xFF, 0x41), rgb(0x00, 0xFF, 0x82), rgb(0x00, 0xFF, 0xBE),
        rgb(0x00, 0xFF, 0xFF), rgb(0x00, 0xBE, 0xFF), rgb(0x00, 0x82, 0xFF), rgb(0x00, 0x41, 0xFF),
        rgb(0x82, 0x82, 0xFF), rgb(0x9E, 0x82, 0xFF), rgb(0xBE, 0x82, 0xFF), rgb(0xDF, 0x82, 0xFF),
        rgb(0xFF, 0x82, 0xFF), rgb(0xFF, 0x82, 0xDF), rgb(0xFF, 0x82, 0xBE), rgb(0xFF, 0x82, 0x9E),
        rgb(0xFF, 0x82, 0x82), rgb(0xFF, 0x9E, 0x82), rgb(0xFF, 0xBE, 0x82), rgb(0xFF, 0xDF, 0x82),
        rgb(0xFF, 0xFF, 0x82), rgb(0xDF, 0xFF, 0x82), rgb(0xBE, 0xFF, 0x82), rgb(0x9E, 0xFF, 0x82),
        rgb(0x82, 0xFF, 0x82), rgb(0x82, 0xFF, 0x9E), rgb(0x82, 0xFF, 0xBE), rgb(0x82, 0xFF, 0xDF),
        rgb(0x82, 0xFF, 0xFF), rgb(0x82, 0xDF, 0xFF), rgb(0x82, 0xBE, 0xFF), rgb(0x82, 0x9E, 0xFF),
        rgb(0xBA, 0xBA, 0xFF), rgb(0xCA, 0xBA, 0xFF), rgb(0xDF, 0xBA, 0xFF), rgb(0xEF, 0xBA, 0xFF),
        rgb(0xFF, 0xBA, 0xFF), rgb(0xFF, 0xBA, 0xEF), rgb(0xFF, 0xBA, 0xDF), rgb(0xFF, 0xBA, 0xCA),
        rgb(0xFF, 0xBA, 0xBA), rgb(0xFF, 0xCA, 0xBA), rgb(0xFF, 0xDF, 0xBA), rgb(0xFF, 0xEF, 0xBA),
        rgb(0xFF, 0xFF, 0xBA), rgb(0xEF, 0xFF, 0xBA), rgb(0xDF, 0xFF, 0xBA), rgb(0xCA, 0xFF, 0xBA),
        rgb(0xBA, 0xFF, 0xBA), rgb(0xBA, 0xFF, 0xCA), rgb(0xBA, 0xFF, 0xDF), rgb(0xBA, 0xFF, 0xEF),
        rgb(0xBA, 0xFF, 0xFF), rgb(0xBA, 0xEF, 0xFF), rgb(0xBA, 0xDF, 0xFF), rgb(0xBA, 0xCA, 0xFF),
        rgb(0x00, 0x00, 0x71), rgb(0x1C, 0x00, 0x71), rgb(0x39, 0x00, 0x71), rgb(0x55, 0x00, 0x71),
        rgb(0x71, 0x00, 0x71), rgb(0x71, 0x00, 0x55), rgb(0x71, 0x00, 0x39), rgb(0x71, 0x00, 0x1C),
        rgb(0x71, 0x00, 0x00), rgb(0x71, 0x1C, 0x00), rgb(0x71, 0x39, 0x00), rgb(0x71, 0x55, 0x00),
        rgb(0x71, 0x71, 0x00), rgb(0x55, 0x71, 0x00), rgb(0x39, 0x71, 0x00), rgb(0x1C, 0x71, 0x00),
        rgb(0x00, 0x71, 0x00), rgb(0x00, 0x71, 0x1C), rgb(0x00, 0x71, 0x39), rgb(0x00, 0x71, 0x55),
        rgb(0x00, 0x71, 0x71), rgb(0x00, 0x55, 0x71), rgb(0x00, 0x39, 0x71), rgb(0x00, 0x1C, 0x71),
        rgb(0x39, 0x39, 0x71), rgb(0x45, 0x39, 0x71), rgb(0x55, 0x39, 0x71), rgb(0x61, 0x39, 0x71),
        rgb(0x71, 0x39, 0x71), rgb(0x71, 0x39, 0x61), rgb(0x71, 0x39, 0x55), rgb(0x71, 0x39, 0x45),
        rgb(0x71, 0x39, 0x39), rgb(0x71, 0x45, 0x39), rgb(0x71, 0x55, 0x39), rgb(0x71, 0x61, 0x39),
        rgb(0x71, 0x71, 0x39), rgb(0x61, 0x71, 0x39), rgb(0x55, 0x71, 0x39), rgb(0x45, 0x71, 0x39),
        rgb(0x39, 0x71, 0x39), rgb(0x39, 0x71, 0x45), rgb(0x39, 0x71, 0x55), rgb(0x39, 0x71, 0x61),
        rgb(0x39, 0x71, 0x71), rgb(0x39, 0x61, 0x71), rgb(0x39, 0x55, 0x71), rgb(0x39, 0x45, 0x71),
        rgb(0x51, 0x51, 0x71), rgb(0x59, 0x51, 0x71), rgb(0x61, 0x51, 0x71), rgb(0x69, 0x51, 0x71),
        rgb(0x71, 0x51, 0x71), rgb(0x71, 0x51, 0x69), rgb(0x71, 0x51, 0x61), rgb(0x71, 0x51, 0x59),
        rgb(0x71, 0x51, 0x51), rgb(0x71, 0x59, 0x51), rgb(0x71, 0x61, 0x51), rgb(0x71, 0x69, 0x51),
        rgb(0x71, 0x71, 0x51), rgb(0x69, 0x71, 0x51), rgb(0x61, 0x71, 0x51), rgb(0x59, 0x71, 0x51),
        rgb(0x51, 0x71, 0x51), rgb(0x51, 0x71, 0x59), rgb(0x51, 0x71, 0x61), rgb(0x51, 0x71, 0x69),
        rgb(0x51, 0x71, 0x71), rgb(0x51, 0x69, 0x71), rgb(0x51, 0x61, 0x71), rgb(0x51, 0x59, 0x71),
        rgb(0x00, 0x00, 0x41), rgb(0x10, 0x00, 0x41), rgb(0x20, 0x00, 0x41), rgb(0x31, 0x00, 0x41),
        rgb(0x41, 0x00, 0x41), rgb(0x41, 0x00, 0x31), rgb(0x41, 0x00, 0x20), rgb(0x41, 0x00, 0x10),
        rgb(0x41, 0x00, 0x00), rgb(0x41, 0x10, 0x00), rgb(0x41, 0x20, 0x00), rgb(0x41, 0x31, 0x00),
        rgb(0x41, 0x41, 0x00), rgb(0x31, 0x41, 0x00), rgb(0x20, 0x41, 0x00), rgb(0x10, 0x41, 0x00),
        rgb(0x00, 0x41, 0x00), rgb(0x00, 0x41, 0x10), rgb(0x00, 0x41, 0x20), rgb(0x00, 0x41, 0x31),
        rgb(0x00, 0x41, 0x41), rgb(0x00, 0x31, 0x41), rgb(0x00, 0x20, 0x41), rgb(0x00, 0x10, 0x41),
        rgb(0x20, 0x20, 0x41), rgb(0x28, 0x20, 0x41), rgb(0x31, 0x20, 0x41), rgb(0x39, 0x20, 0x41),
        rgb(0x41, 0x20, 0x41), rgb(0x41, 0x20, 0x39), rgb(0x41, 0x20, 0x31), rgb(0x41, 0x20, 0x28),
        rgb(0x41, 0x20, 0x20), rgb(0x41, 0x28, 0x20), rgb(0x41, 0x31, 0x20), rgb(0x41, 0x39, 0x20),
        rgb(0x41, 0x41, 0x20), rgb(0x39, 0x41, 0x20), rgb(0x31, 0x41, 0x20), rgb(0x28, 0x41, 0x20),
        rgb(0x20, 0x41, 0x20), rgb(0x20, 0x41, 0x28), rgb(0x20, 0x41, 0x31), rgb(0x20, 0x41, 0x39),
        rgb(0x20, 0x41, 0x41), rgb(0x20, 0x39, 0x41), rgb(0x20, 0x31, 0x41), rgb(0x20, 0x28, 0x41),
        rgb(0x2D, 0x2D, 0x41), rgb(0x31, 0x2D, 0x41), rgb(0x35, 0x2D, 0x41), rgb(0x3D, 0x2D, 0x41),
        rgb(0x41, 0x2D, 0x41), rgb(0x41, 0x2D, 0x3D), rgb(0x41, 0x2D, 0x35), rgb(0x41, 0x2D, 0x31),
        rgb(0x41, 0x2D, 0x2D), rgb(0x41, 0x31, 0x2D), rgb(0x41, 0x35, 0x2D), rgb(0x41, 0x3D, 0x2D),
        rgb(0x41, 0x41, 0x2D), rgb(0x3D, 0x41, 0x2D), rgb(0x35, 0x41, 0x2D), rgb(0x31, 0x41, 0x2D),
        rgb(0x2D, 0x41, 0x2D), rgb(0x2D, 0x41, 0x31), rgb(0x2D, 0x41, 0x35), rgb(0x2D, 0x41, 0x3D),
        rgb(0x2D, 0x41, 0x41), rgb(0x2D, 0x3D, 0x41), rgb(0x2D, 0x35, 0x41), rgb(0x2D, 0x31, 0x41),
        rgb(0x00, 0x00, 0x00), rgb(0x00, 0x00, 0x00), rgb(0x00, 0x00, 0x00), rgb(0x00, 0x00, 0x00),
        rgb(0x00, 0x00, 0x00), rgb(0x00, 0x00, 0x00), rgb(0x00, 0x00, 0x00), rgb(0x00, 0x00, 0x00),
    ]
}

/// An ordered table of colours, fixed once it is made, and one reserved
/// colour that answers every lookup outside the table.
pub struct Palette {
    colors: Vec<Color>,
    default_color: Color,
}

impl View for Palette {
    type V = Seq<Color>;

    closed spec fn view(&self) -> Seq<Color> {
        self.colors@
    }
}

impl Palette {
    #[verifier::type_invariant]
    spec fn reserved_is_fallback(self) -> bool {
        self.default_color == fallback_color()
    }

    /// A palette that holds `colors` as they come: same order, repeats kept.
    pub fn new(colors: Vec<Color>) -> (p: Palette)
        ensures
            p@ == colors@,
    {
        Palette { colors, default_color: Color::new(0, 0, 0, 0) }
    }

    /// The number of entries. The reserved colour is not counted.
    pub fn len(&self) -> (n: usize)
        ensures
            n == self@.len(),
    {
        self.colors.len()
    }

    /// The entry at `index`, or the reserved colour where there is none.
    /// Defined for every index.
    pub fn get_color(&self, index: usize) -> (c: &Color)
        ensures
            *c == color_at(self@, index as int),
    {
        proof {
            use_type_invariant(self);
        }
        if index < self.colors.len() {
            return &self.colors[index];
        }
        &self.default_color
    }

    /// A palette of its own with a copy of every entry, in the same order.
    pub fn clone(&self) -> (p: Palette)
        ensures
            p@ == self@,
    {
        let mut colors: Vec<Color> = Vec::new();
        let n: usize = self.colors.len();
        let mut i: usize = 0;
        while i < n
            invariant
                n == self@.len(),
                i <= n,
                colors@ == self@.take(i as int),
            decreases n - i,
        {
            colors.push(self.get_color(i).clone());
            i += 1;
            assert(colors@ =~= self@.take(i as int));
        }
        assert(self@.take(n as int) =~= self@);
        Palette::new(colors)
    }

    /// The reference palette of 256 colours.
    pub fn default() -> (p: Palette)
        ensures
            p@ == reference_colors(),
            p@.len() == 256,
    {
        let colors: Vec<Color> = vec![
            Color::new(0x00, 0x00, 0x00, 0x00), Color::new(0x00, 0x00, 0xAA, 0x00), Color::new(0x00, 0xAA, 0x00, 0x00), Color::new(0x00, 0xAA, 0xAA, 0x00),
            Color::new(0xAA, 0x00, 0x00, 0x00), Color::new(0xAA, 0x00, 0xAA, 0x00), Color::new(0xAA, 0x55, 0x00, 0x00), Color::new(0xAA, 0xAA, 0xAA, 0x00),
            Color::new(0x55, 0x55, 0x55, 0x00), Color::new(0x55, 0x55, 0xFF, 0x00), Color::new(0x55, 0xFF, 0x55, 0x00), Color::new(0x55, 0xFF, 0xFF, 0x00),
            Color::new(0xFF, 0x55, 0x55, 0x00), Color::new(0xFF, 0x55, 0xFF, 0x00), Color::new(0xFF, 0xFF, 0x55, 0x00), Color::new(0xFF, 0xFF, 0xFF, 0x00),
            Color::new(0x00, 0x00, 0x00, 0x00), Color::new(0x10, 0x10, 0x10, 0x00), Color::new(0x20, 0x20, 0x20, 0x00), Color::new(0x35, 0x35, 0x35, 0x00),
            Color::new(0x45, 0x45, 0x45, 0x00), Color::new(0x55, 0x55, 0x55, 0x00), Color::new(0x65, 0x65, 0x65, 0x00), Color::new(0x75, 0x75, 0x75, 0x00),
            Color::new(0x8A, 0x8A, 0x8A, 0x00), Color::new(0x9A, 0x9A, 0x9A, 0x00), Color::new(0xAA, 0xAA, 0xAA, 0x00), Color::new(0xBA, 0xBA, 0xBA, 0x00),
            Color::new(0xCA, 0xCA, 0xCA, 0x00), Color::new(0xDF, 0xDF, 0xDF, 0x00), Color::new(0xEF, 0xEF, 0xEF, 0x00), Color::new(0xFF, 0xFF, 0xFF, 0x00),
            Color::new(0x00, 0x00, 0xFF, 0x00), Color::new(0x41, 0x00, 0xFF, 0x00), Color::new(0x82, 0x00, 0xFF, 0x00), Color::new(0xBE, 0x00, 0xFF, 0x00),
            Color::new(0xFF, 0x00, 0xFF, 0x00), Color::new(0xFF, 0x00, 0xBE, 0x00), Color::new(0xFF, 0x00, 0x82, 0x00), Color::new(0xFF, 0x00, 0x41, 0x00),
            Color::new(0xFF, 0x00, 0x00, 0x00), Color::new(0xFF, 0x41, 0x00, 0x00), Color::new(0xFF, 0x82, 0x00, 0x00), Color::new(0xFF, 0xBE, 0x00, 0x00),
            Color::new(0xFF, 0xFF, 0x00, 0x00), Color::new(0xBE, 0xFF, 0x00, 0x00), Color::new(0x82, 0xFF, 0x00, 0x00), Color::new(0x41, 0xFF, 0x00, 0x00),
            Color::new(0x00, 0xFF, 0x00, 0x00), Color::new(0x00, 0xFF, 0x41, 0x00), Color::new(0x00, 0xFF, 0x82, 0x00), Color::new(0x00, 0xFF, 0xBE, 0x00),
            Color::new(0x00, 0xFF, 0xFF, 0x00), Color::new(0x00, 0xBE, 0xFF, 0x00), Color::new(0x00, 0x82, 0xFF, 0x00), Color::new(0x00, 0x41, 0xFF, 0x00),
            Color::new(0x82, 0x82, 0xFF, 0x00), Color::new(0x9E, 0x82, 0xFF, 0x00), Color::new(0xBE, 0x82, 0xFF, 0x00), Color::new(0xDF, 0x82, 0xFF, 0x00),
            Color::new(0xFF, 0x82, 0xFF, 0x00), Color::new(0xFF, 0x82, 0xDF, 0x00), Color::new(0xFF, 0x82, 0xBE, 0x00), Color::new(0xFF, 0x82, 0x9E, 0x00),
            Color::new(0xFF, 0x82, 0x82, 0x00), Color::new(0xFF, 0x9E, 0x82, 0x00), Color::new(0xFF, 0xBE, 0x82, 0x00), Color::new(0xFF, 0xDF, 0x82, 0x00),
            Color::new(0xFF, 0xFF, 0x82, 0x00), Color::new(0xDF, 0xFF, 0x82, 0x00), Color::new(0xBE, 0xFF, 0x82, 0x00), Color::new(0x9E, 0xFF, 0x82, 0x00),
            Color::new(0x82, 0xFF, 0x82, 0x00), Color::new(0x82, 0xFF, 0x9E, 0x00), Color::new(0x82, 0xFF, 0xBE, 0x00), Color::new(0x82, 0xFF, 0xDF, 0x00),
            Color::new(0x82, 0xFF, 0xFF, 0x00), Color::new(0x82, 0xDF, 0xFF, 0x00), Color::new(0x82, 0xBE, 0xFF, 0x00), Color::new(0x82, 0x9E, 0xFF, 0x00),
            Color::new(0xBA, 0xBA, 0xFF, 0x00), Color::new(0xCA, 0xBA, 0xFF, 0x00), Color::new(0xDF, 0xBA, 0xFF, 0x00), Color::new(0xEF, 0xBA, 0xFF, 0x00),
            Color::new(0xFF, 0xBA, 0xFF, 0x00), Color::new(0xFF, 0xBA, 0xEF, 0x00), Color::new(0xFF, 0xBA, 0xDF, 0x00), Color::new(0xFF, 0xBA, 0xCA, 0x00),
            Color::new(0xFF, 0xBA, 0xBA, 0x00), Color::new(0xFF, 0xCA, 0xBA, 0x00), Color::new(0xFF, 0xDF, 0xBA, 0x00), Color::new(0xFF, 0xEF, 0xBA, 0x00),
            Color::new(0xFF, 0xFF, 0xBA, 0x00), Color::new(0xEF, 0xFF, 0xBA, 0x00), Color::new(0xDF, 0xFF, 0xBA, 0x00), Color::new(0xCA, 0xFF, 0xBA, 0x00),
            Color::new(0xBA, 0xFF, 0xBA, 0x00), Color::new(0xBA, 0xFF, 0xCA, 0x00), Color::new(0xBA, 0xFF, 0xDF, 0x00), Color::new(0xBA, 0xFF, 0xEF, 0x00),
            Color::new(0xBA, 0xFF, 0xFF, 0x00), Color::new(0xBA, 0xEF, 0xFF, 0x00), Color::new(0xBA, 0xDF, 0xFF, 0x00), Color::new(0xBA, 0xCA, 0xFF, 0x00),
            Color::new(0x00, 0x00, 0x71, 0x00), Color::new(0x1C, 0x00, 0x71, 0x00), Color::new(0x39, 0x00, 0x71, 0x00), Color::new(0x55, 0x00, 0x71, 0x00),
            Color::new(0x71, 0x00, 0x71, 0x00), Color::new(0x71, 0x00, 0x55, 0x00), Color::new(0x71, 0x00, 0x39, 0x00), Color::new(0x71, 0x00, 0x1C, 0x00),
            Color::new(0x71, 0x00, 0x00, 0x00), Color::new(0x71, 0x1C, 0x00, 0x00), Color::new(0x71, 0x39, 0x00, 0x00), Color::new(0x71, 0x55, 0x00, 0x00),
            Color::new(0x71, 0x71, 0x00, 0x00), Color::new(0x55, 0x71, 0x00, 0x00), Color::new(0x39, 0x71, 0x00, 0x00), Color::new(0x1C, 0x71, 0x00, 0x00),
            Color::new(0x00, 0x71, 0x00, 0x00), Color::new(0x00, 0x71, 0x1C, 0x00), Color::new(0x00, 0x71, 0x39, 0x00), Color::new(0x00, 0x71, 0x55, 0x00),
            Color::new(0x00, 0x71, 0x71, 0x00), Color::new(0x00, 0x55, 0x71, 0x00), Color::new(0x00, 0x39, 0x71, 0x00), Color::new(0x00, 0x1C, 0x71, 0x00),
            Color::new(0x39, 0x39, 0x71, 0x00), Color::new(0x45, 0x39, 0x71, 0x00), Color::new(0x55, 0x39, 0x71, 0x00), Color::new(0x61, 0x39, 0x71, 0x00),
            Color::new(0x71, 0x39, 0x71, 0x00), Color::new(0x71, 0x39, 0x61, 0x00), Color::new(0x71, 0x39, 0x55, 0x00), Color::new(0x71, 0x39, 0x45, 0x00),
            Color::new(0x71, 0x39, 0x39, 0x00), Color::new(0x71, 0x45, 0x39, 0x00), Color::new(0x71, 0x55, 0x39, 0x00), Color::new(0x71, 0x61, 0x39, 0x00),
            Color::new(0x71, 0x71, 0x39, 0x00), Color::new(0x61, 0x71, 0x39, 0x00), Color::new(0x55, 0x71, 0x39, 0x00), Color::new(0x45, 0x71, 0x39, 0x00),
            Color::new(0x39, 0x71, 0x39, 0x00), Color::new(0x39, 0x71, 0x45, 0x00), Color::new(0x39, 0x71, 0x55, 0x00), Color::new(0x39, 0x71, 0x61, 0x00),
            Color::new(0x39, 0x71, 0x71, 0x00), Color::new(0x39, 0x61, 0x71, 0x00), Color::new(0x39, 0x55, 0x71, 0x00), Color::new(0x39, 0x45, 0x71, 0x00),
            Color::new(0x51, 0x51, 0x71, 0x00), Color::new(0x59, 0x51, 0x71, 0x00), Color::new(0x61, 0x51, 0x71, 0x00), Color::new(0x69, 0x51, 0x71, 0x00),
            Color::new(0x71, 0x51, 0x71, 0x00), Color::new(0x71, 0x51, 0x69, 0x00), Color::new(0x71, 0x51, 0x61, 0x00), Color::new(0x71, 0x51, 0x59, 0x00),
            Color::new(0x71, 0x51, 0x51, 0x00), Color::new(0x71, 0x59, 0x51, 0x00), Color::new(0x71, 0x61, 0x51, 0x00), Color::new(0x71, 0x69, 0x51, 0x00),
            Color::new(0x71, 0x71, 0x51, 0x00), Color::new(0x69, 0x71, 0x51, 0x00), Color::new(0x61, 0x71, 0x51, 0x00), Color::new(0x59, 0x71, 0x51, 0x00),
            Color::new(0x51, 0x71, 0x51, 0x00), Color::new(0x51, 0x71, 0x59, 0x00), Color::new(0x51, 0x71, 0x61, 0x00), Color::new(0x51, 0x71, 0x69, 0x00),
            Color::new(0x51, 0x71, 0x71, 0x00), Color::new(0x51, 0x69, 0x71, 0x00), Color::new(0x51, 0x61, 0x71, 0x00), Color::new(0x51, 0x59, 0x71, 0x00),
            Color::new(0x00, 0x00, 0x41, 0x00), Color::new(0x10, 0x00, 0x41, 0x00), Color::new(0x20, 0x00, 0x41, 0x00), Color::new(0x31, 0x00, 0x41, 0x00),
            Color::new(0x41, 0x00, 0x41, 0x00), Color::new(0x41, 0x00, 0x31, 0x00), Color::new(0x41, 0x00, 0x20, 0x00), Color::new(0x41, 0x00, 0x10, 0x00),
            Color::new(0x41, 0x00, 0x00, 0x00), Color::new(0x41, 0x10, 0x00, 0x00), Color::new(0x41, 0x20, 0x00, 0x00), Color::new(0x41, 0x31, 0x00, 0x00),
            Color::new(0x41, 0x41, 0x00, 0x00), Color::new(0x31, 0x41, 0x00, 0x00), Color::new(0x20, 0x41, 0x00, 0x00), Color::new(0x10, 0x41, 0x00, 0x00),
            Color::new(0x00, 0x41, 0x00, 0x00), Color::new(0x00, 0x41, 0x10, 0x00), Color::new(0x00, 0x41, 0x20, 0x00), Color::new(0x00, 0x41, 0x31, 0x00),
            Color::new(0x00, 0x41, 0x41, 0x00), Color::new(0x00, 0x31, 0x41, 0x00), Color::new(0x00, 0x20, 0x41, 0x00), Color::new(0x00, 0x10, 0x41, 0x00),
            Color::new(0x20, 0x20, 0x41, 0x00), Color::new(0x28, 0x20, 0x41, 0x00), Color::new(0x31, 0x20, 0x41, 0x00), Color::new(0x39, 0x20, 0x41, 0x00),
            Color::new(0x41, 0x20, 0x41, 0x00), Color::new(0x41, 0x20, 0x39, 0x00), Color::new(0x41, 0x20, 0x31, 0x00), Color::new(0x41, 0x20, 0x28, 0x00),
            Color::new(0x41, 0x20, 0x20, 0x00), Color::new(0x41, 0x28, 0x20, 0x00), Color::new(0x41, 0x31, 0x20, 0x00), Color::new(0x41, 0x39, 0x20, 0x00),
            Color::new(0x41, 0x41, 0x20, 0x00), Color::new(0x39, 0x41, 0x20, 0x00), Color::new(0x31, 0x41, 0x20, 0x00), Color::new(0x28, 0x41, 0x20, 0x00),
            Color::new(0x20, 0x41, 0x20, 0x00), Color::new(0x20, 0x41, 0x28, 0x00), Color::new(0x20, 0x41, 0x31, 0x00), Color::new(0x20, 0x41, 0x39, 0x00),
            Color::new(0x20, 0x41, 0x41, 0x00), Color::new(0x20, 0x39, 0x41, 0x00), Color::new(0x20, 0x31, 0x41, 0x00), Color::new(0x20, 0x28, 0x41, 0x00),
            Color::new(0x2D, 0x2D, 0x41, 0x00), Color::new(0x31, 0x2D, 0x41, 0x00), Color::new(0x35, 0x2D, 0x41, 0x00), Color::new(0x3D, 0x2D, 0x41, 0x00),
            Color::new(0x41, 0x2D, 0x41, 0x00), Color::new(0x41, 0x2D, 0x3D, 0x00), Color::new(0x41, 0x2D, 0x35, 0x00), Color::new(0x41, 0x2D, 0x31, 0x00),
            Color::new(0x41, 0x2D, 0x2D, 0x00), Color::new(0x41, 0x31, 0x2D, 0x00), Color::new(0x41, 0x35, 0x2D, 0x00), Color::new(0x41, 0x3D, 0x2D, 0x00),
            Color::new(0x41, 0x41, 0x2D, 0x00), Color::new(0x3D, 0x41, 0x2D, 0x00), Color::new(0x35, 0x41, 0x2D, 0x00), Color::new(0x31, 0x41, 0x2D, 0x00),
            Color::new(0x2D, 0x41, 0x2D, 0x00), Color::new(0x2D, 0x41, 0x31, 0x00), Color::new(0x2D, 0x41, 0x35, 0x00), Color::new(0x2D, 0x41, 0x3D, 0x00),
            Color::new(0x2D, 0x41, 0x41, 0x00), Color::new(0x2D, 0x3D, 0x41, 0x00), Color::new(0x2D, 0x35, 0x41, 0x00), Color::new(0x2D, 0x31, 0x41, 0x00),
            Color::new(0x00, 0x00, 0x00, 0x00), Color::new(0x00, 0x00, 0x00, 0x00), Color::new(0x00, 0x00, 0x00, 0x00), Color::new(0x00, 0x00, 0x00, 0x00),
            Color::new(0x00, 0x00, 0x00, 0x00), Color::new(0x00, 0x00, 0x00, 0x00), Color::new(0x00, 0x00, 0x00, 0x00), Color::new(0x00, 0x00, 0x00, 0x00),
        ];
        assert(colors@ =~= reference_colors());
        Palette::new(colors)
    }
}

/// Reading every position of a table in turn, first to last, gives the table
/// back.
pub proof fn lemma_lookups_rebuild_table(entries: Seq<Color>)
    ensures
        Seq::new(entries.len(), |i: int| color_at(entries, i)) == entries,
{
    assert(Seq::new(entries.len(), |i: int| color_at(entries, i)) =~= entries);
}

/// A lookup outside the table gives the same colour whatever the table
/// holds, and one inside it gives what the table holds there.
pub proof fn lemma_lookup_cases(entries: Seq<Color>, index: int)
    ensures
        0 <= index < entries.len() ==> color_at(entries, index) == entries[index],
        !(0 <= index < entries.len()) ==> color_at(entries, index) == fallback_color(),
        entries.len() == 0 ==> color_at(entries, index) == fallback_color(),
{
}

} // verus!
