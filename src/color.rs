use vstd::prelude::*;

verus! {

/// An RGBA color, one byte per channel.
#[derive(Copy, Clone, Debug, PartialEq, Eq, Structural, Hash)]
pub struct Color {
    pub r: u8,
    pub g: u8,
    pub b: u8,
    pub a: u8,
}

/// The color packed into one word, red in the highest byte and alpha in the lowest.
pub open spec fn packed(c: Color) -> u32 {
    (c.r as u32 * 0x100_0000 + c.g as u32 * 0x1_0000 + c.b as u32 * 0x100 + c.a as u32) as u32
}

impl Color {
    pub fn new(r: u8, g: u8, b: u8, a: u8) -> (c: Color)
        ensures
            c == (Color { r, g, b, a }),
    {
        Color { r, g, b, a }
    }

    pub fn black() -> (c: Color)
        ensures
            c == (Color { r: 0, g: 0, b: 0, a: 255 }),
    {
        Color { r: 0, g: 0, b: 0, a: 255 }
    }

    pub fn white() -> (c: Color)
        ensures
            c == (Color { r: 255, g: 255, b: 255, a: 255 }),
    {
        Color { r: 255, g: 255, b: 255, a: 255 }
    }

    pub fn red() -> (c: Color)
        ensures
            c == (Color { r: 255, g: 0, b: 0, a: 255 }),
    {
        Color { r: 255, g: 0, b: 0, a: 255 }
    }

    pub fn green() -> (c: Color)
        ensures
            c == (Color { r: 0, g: 255, b: 0, a: 255 }),
    {
        Color { r: 0, g: 255, b: 0, a: 255 }
    }

    pub fn blue() -> (c: Color)
        ensures
            c == (Color { r: 0, g: 0, b: 255, a: 255 }),
    {
        Color { r: 0, g: 0, b: 255, a: 255 }
    }

    /// The color as the vertex format stores it.
    pub fn to_u32(self) -> (w: u32)
        ensures
            w == packed(self),
    {
        let (r, g, b, a) = (self.r as u32, self.g as u32, self.b as u32, self.a as u32);
        let w = r << 24u32 | g << 16u32 | b << 8u32 | a;
        assert(w == r * 0x100_0000 + g * 0x1_0000 + b * 0x100 + a) by (bit_vector)
            requires
                r <= 255,
                g <= 255,
                b <= 255,
                a <= 255,
                w == r << 24u32 | g << 16u32 | b << 8u32 | a,
        ;
        w
    }
}

impl From<Color> for u32 {
    fn from(c: Color) -> (w: u32) {
        c.to_u32()
    }
}

impl vstd::std_specs::convert::FromSpecImpl<Color> for u32 {
    open spec fn obeys_from_spec() -> bool {
        true
    }

    open spec fn from_spec(c: Color) -> u32 {
        packed(c)
    }
}

} // verus!
