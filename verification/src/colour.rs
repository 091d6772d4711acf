//! Eight-bit RGB colours, brightness scaling, and the fixed palette.

use vstd::prelude::*;

verus! {

/// Number of entries in the palette.
pub const PALETTE_LEN: usize = 30;

/// Length of the palette prefix that the auto-advancing modes walk through.
pub const COLOUR_CYCLE_MAX: usize = 24;

/// A colour of three independent channels, each in `0..=255`.
#[derive(Copy, Clone, Debug, PartialEq, Eq, Structural)]
pub struct Colour {
    pub r: u8,
    pub g: u8,
    pub b: u8,
}

/// One channel multiplied by `factor / 255`, rounded down.
pub open spec fn scale_channel(value: u8, factor: u8) -> int {
    (value as int * factor as int) / 255
}

/// A scaled channel never exceeds the channel it was scaled from.
pub proof fn lemma_scale_channel_bounds(value: u8, factor: u8)
    ensures
        0 <= scale_channel(value, factor) <= value,
        scale_channel(value, 255) == value,
        scale_channel(value, 0) == 0,
{
    assert(0 <= value as int * factor as int <= value as int * 255) by (nonlinear_arith)
        requires
            0 <= value as int,
            0 <= factor as int <= 255,
    ;
}

fn scale_one(value: u8, factor: u8) -> (out: u8)
    ensures
        out as int == scale_channel(value, factor),
{
    proof {
        lemma_scale_channel_bounds(value, factor);
        assert(value as int * factor as int <= 255 * 255) by (nonlinear_arith)
            requires
                0 <= value as int <= 255,
                0 <= factor as int <= 255,
        ;
    }
    let wide: u32 = (value as u32) * (factor as u32) / 255;
    wide as u8
}

impl Colour {
    /// The colour with no light in any channel.
    pub open spec fn black() -> Colour {
        Colour { r: 0, g: 0, b: 0 }
    }

    /// The colour that `scale` returns.
    pub open spec fn scaled(self, factor: u8) -> Colour {
        Colour {
            r: scale_channel(self.r, factor) as u8,
            g: scale_channel(self.g, factor) as u8,
            b: scale_channel(self.b, factor) as u8,
        }
    }

    pub fn new(r: u8, g: u8, b: u8) -> (c: Colour)
        ensures
            c == (Colour { r, g, b }),
    {
        Colour { r, g, b }
    }

    /// Dims the colour: each channel becomes `channel * factor / 255`, rounded
    /// down. A factor of 255 changes nothing and a factor of 0 gives black.
    pub fn scale(self, factor: u8) -> (c: Colour)
        ensures
            c == self.scaled(factor),
            c.r as int == (self.r as int * factor as int) / 255,
            c.g as int == (self.g as int * factor as int) / 255,
            c.b as int == (self.b as int * factor as int) / 255,
            c.r <= self.r && c.g <= self.g && c.b <= self.b,
            factor == 255 ==> c == self,
            factor == 0 ==> c == Colour::black(),
    {
        proof {
            lemma_scale_channel_bounds(self.r, factor);
            lemma_scale_channel_bounds(self.g, factor);
            lemma_scale_channel_bounds(self.b, factor);
        }
        Colour {
            r: scale_one(self.r, factor),
            g: scale_one(self.g, factor),
            b: scale_one(self.b, factor),
        }
    }
}

/// The palette, in order.
pub open spec fn palette() -> Seq<Colour> {
    seq![
        Colour { r: 255, g: 0, b: 0 },
        Colour { r: 255, g: 32, b: 0 },
        Colour { r: 255, g: 64, b: 0 },
        Colour { r: 255, g: 128, b: 0 },
        Colour { r: 255, g: 255, b: 0 },
        Colour { r: 128, g: 255, b: 0 },
        Colour { r: 64, g: 255, b: 0 },
        Colour { r: 32, g: 255, b: 0 },
        Colour { r: 0, g: 255, b: 0 },
        Colour { r: 0, g: 255, b: 32 },
        Colour { r: 0, g: 255, b: 64 },
        Colour { r: 0, g: 255, b: 128 },
        Colour { r: 0, g: 255, b: 255 },
        Colour { r: 0, g: 128, b: 255 },
        Colour { r: 0, g: 64, b: 255 },
        Colour { r: 0, g: 32, b: 255 },
        Colour { r: 0, g: 0, b: 255 },
        Colour { r: 32, g: 0, b: 255 },
        Colour { r: 64, g: 0, b: 255 },
        Colour { r: 128, g: 0, b: 255 },
        Colour { r: 255, g: 0, b: 255 },
        Colour { r: 255, g: 0, b: 128 },
        Colour { r: 255, g: 0, b: 64 },
        Colour { r: 255, g: 0, b: 32 },
        Colour { r: 255, g: 255, b: 255 },
        Colour { r: 255, g: 255, b: 128 },
        Colour { r: 255, g: 255, b: 64 },
        Colour { r: 255, g: 192, b: 0 },
        Colour { r: 16, g: 255, b: 0 },
        Colour { r: 0, g: 80, b: 255 },
    ]
}

/// The palette colour that a cursor stands for: the cursor is taken modulo
/// the palette's length, so no cursor is out of bounds.
pub open spec fn palette_at(index: usize) -> Colour {
    palette()[(index % PALETTE_LEN) as int]
}

/// Looks up the palette colour for a cursor, modulo the palette's length.
pub fn palette_colour(index: usize) -> (c: Colour)
    ensures
        c == palette_at(index),
{
    let table: [Colour; 30] = [
        Colour { r: 255, g: 0, b: 0 },
        Colour { r: 255, g: 32, b: 0 },
        Colour { r: 255, g: 64, b: 0 },
        Colour { r: 255, g: 128, b: 0 },
        Colour { r: 255, g: 255, b: 0 },
        Colour { r: 128, g: 255, b: 0 },
        Colour { r: 64, g: 255, b: 0 },
        Colour { r: 32, g: 255, b: 0 },
        Colour { r: 0, g: 255, b: 0 },
        Colour { r: 0, g: 255, b: 32 },
        Colour { r: 0, g: 255, b: 64 },
        Colour { r: 0, g: 255, b: 128 },
        Colour { r: 0, g: 255, b: 255 },
        Colour { r: 0, g: 128, b: 255 },
        Colour { r: 0, g: 64, b: 255 },
        Colour { r: 0, g: 32, b: 255 },
        Colour { r: 0, g: 0, b: 255 },
        Colour { r: 32, g: 0, b: 255 },
        Colour { r: 64, g: 0, b: 255 },
        Colour { r: 128, g: 0, b: 255 },
        Colour { r: 255, g: 0, b: 255 },
        Colour { r: 255, g: 0, b: 128 },
        Colour { r: 255, g: 0, b: 64 },
        Colour { r: 255, g: 0, b: 32 },
        Colour { r: 255, g: 255, b: 255 },
        Colour { r: 255, g: 255, b: 128 },
        Colour { r: 255, g: 255, b: 64 },
        Colour { r: 255, g: 192, b: 0 },
        Colour { r: 16, g: 255, b: 0 },
        Colour { r: 0, g: 80, b: 255 },
    ];
    let slot: usize = index % PALETTE_LEN;
    assert(table@ =~= palette());
    table[slot]
}

} // verus!
