//! The number of bytes that one pixel occupies.

use vstd::prelude::*;

verus! {

/// The layout of a pixel: one byte per channel, one to four channels.
#[derive(Clone, Copy, Debug, PartialEq, Eq, Structural)]
pub enum ColorDepth {
    /// Luminance.
    L8,
    /// Luminance and alpha.
    La8,
    /// Red, green, blue.
    Rgb8,
    /// Red, green, blue, alpha.
    Rgba8,
}

impl ColorDepth {
    /// The bytes of one pixel, as a number.
    pub open spec fn bytes(self) -> int {
        match self {
            ColorDepth::L8 => 1,
            ColorDepth::La8 => 2,
            ColorDepth::Rgb8 => 3,
            ColorDepth::Rgba8 => 4,
        }
    }

    /// The depth that the toolkit writes as `d`, where it is one.
    pub open spec fn decode(d: u8) -> Option<ColorDepth> {
        if d == 1 {
            Some(ColorDepth::L8)
        } else if d == 2 {
            Some(ColorDepth::La8)
        } else if d == 3 {
            Some(ColorDepth::Rgb8)
        } else if d == 4 {
            Some(ColorDepth::Rgba8)
        } else {
            None
        }
    }

    /// The bytes of one pixel, the number that the toolkit uses for this depth.
    pub fn to_u8(self) -> (d: u8)
        ensures
            d == self.bytes(),
    {
        match self {
            ColorDepth::L8 => 1,
            ColorDepth::La8 => 2,
            ColorDepth::Rgb8 => 3,
            ColorDepth::Rgba8 => 4,
        }
    }

    /// Reads a depth as the toolkit reports it. Only 1, 2, 3 and 4 are depths.
    pub fn from_u8(d: u8) -> (depth: Option<ColorDepth>)
        ensures
            depth == ColorDepth::decode(d),
            depth is Some <==> 1 <= d <= 4,
            depth matches Some(c) ==> c.bytes() == d,
    {
        match d {
            1 => Some(ColorDepth::L8),
            2 => Some(ColorDepth::La8),
            3 => Some(ColorDepth::Rgb8),
            4 => Some(ColorDepth::Rgba8),
            _ => None,
        }
    }

    /// Writing a depth as a number and reading it back gives the depth again.
    pub proof fn decode_inverts_bytes(self)
        ensures
            1 <= self.bytes() <= 4,
            ColorDepth::decode(self.bytes() as u8) == Some(self),
    {
    }
}

} // verus!
