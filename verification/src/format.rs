//! Texture formats.

use vstd::prelude::*;

verus! {

/// The texture format type.
#[derive(Clone, Copy, Debug, PartialEq, Eq, Structural)]
pub enum Format {
    SrgbAlpha,
    SbgrAlpha,
    RgbAlpha,
    BgrAlpha,
    Depth,
    Byte,
}

impl Format {
    /// The number of bytes per pixel.
    pub open spec fn spec_bytes(self) -> u32 {
        match self {
            Format::Byte => 1,
            _ => 4,
        }
    }

    /// Whether the format is a standard sRGB variant.
    pub open spec fn spec_is_standard(self) -> bool {
        self == Format::SrgbAlpha || self == Format::SbgrAlpha
    }

    /// Returns the number of bytes per pixel for this format.
    pub fn bytes(self) -> (n: u32)
        ensures
            n == self.spec_bytes(),
    {
        match self {
            Format::SrgbAlpha | Format::SbgrAlpha | Format::RgbAlpha | Format::BgrAlpha
            | Format::Depth => 4,
            Format::Byte => 1,
        }
    }

    /// Returns `true` if the format is a standard sRGB variant.
    pub fn is_standard(self) -> (b: bool)
        ensures
            b == self.spec_is_standard(),
    {
        match self {
            Format::SrgbAlpha | Format::SbgrAlpha => true,
            _ => false,
        }
    }

    /// The format of a window surface.
    pub fn window() -> (f: Self)
        ensures
            f == Format::SrgbAlpha,
    {
        Format::SrgbAlpha
    }
}

impl Default for Format {
    fn default() -> (f: Self)
        ensures
            f == Format::SrgbAlpha,
    {
        Format::SrgbAlpha
    }
}

/// Every format takes one or four bytes per pixel, and the standard ones four.
pub proof fn lemma_format_bytes(f: Format)
    ensures
        f.spec_bytes() == 1 || f.spec_bytes() == 4,
        f.spec_is_standard() ==> f.spec_bytes() == 4,
{
}

/// Every four-channel 8-bit color format, and the depth format, takes four bytes
/// per pixel; only the single-channel byte format takes one.
pub proof fn lemma_bytes_per_pixel(f: Format)
    ensures
        f.spec_bytes() == 1 <==> f == Format::Byte,
        f == Format::SrgbAlpha || f == Format::SbgrAlpha || f == Format::RgbAlpha || f == Format::BgrAlpha
            || f == Format::Depth ==> f.spec_bytes() == 4,
        f.spec_bytes() == 1 || f.spec_bytes() == 4,
{
}

} // verus!
