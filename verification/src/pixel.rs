//! Pixels and the intensity levels they are made from.

use vstd::prelude::*;

verus! {

/// One cell of a surface: red, green and blue, eight bits each, no alpha.
#[derive(Clone, Copy, Debug, PartialEq, Eq, Structural)]
pub struct Pixel {
    pub r: u8,
    pub g: u8,
    pub b: u8,
}

/// The channel value an intensity level stands for. A level is an intensity
/// already scaled to the channel range; whatever falls below 0 becomes 0 and
/// whatever exceeds 255 becomes 255.
pub open spec fn channel_of(level: int) -> u8 {
    if level <= 0 {
        0u8
    } else if level >= 255 {
        255u8
    } else {
        level as u8
    }
}

/// Clamps an intensity level into the channel range.
pub fn clamp_channel(level: i64) -> (c: u8)
    ensures
        c == channel_of(level as int),
{
    if level <= 0 {
        0
    } else if level >= 255 {
        255
    } else {
        level as u8
    }
}

impl Pixel {
    /// The pixel with all channels at zero.
    pub open spec fn black() -> Pixel {
        Pixel { r: 0, g: 0, b: 0 }
    }

    /// The pixel whose channels are the clamped levels `r`, `g`, `b`.
    pub open spec fn of_levels(r: int, g: int, b: int) -> Pixel {
        Pixel { r: channel_of(r), g: channel_of(g), b: channel_of(b) }
    }

    /// The grey pixel whose three channels are the clamped `level`.
    pub open spec fn grey(level: int) -> Pixel {
        Pixel::of_levels(level, level, level)
    }

    /// Channel `c` of the pixel in storage order: 0 is red, 1 green, 2 blue.
    pub open spec fn channel(self, c: int) -> u8 {
        if c == 0 {
            self.r
        } else if c == 1 {
            self.g
        } else {
            self.b
        }
    }

    /// Builds a pixel from three intensity levels, clamping each.
    pub fn from_levels(r: i64, g: i64, b: i64) -> (p: Pixel)
        ensures
            p == Pixel::of_levels(r as int, g as int, b as int),
    {
        Pixel { r: clamp_channel(r), g: clamp_channel(g), b: clamp_channel(b) }
    }
}

} // verus!
