use vstd::prelude::*;

verus! {

/// An opaque colour as three 8-bit channels.
#[derive(Clone, Copy, Debug, PartialEq, Eq, Structural)]
pub struct Rgb {
    pub r: u8,
    pub g: u8,
    pub b: u8,
}

impl Rgb {
    pub fn from_rgb(r: u8, g: u8, b: u8) -> (c: Rgb)
        ensures
            c == (Rgb { r, g, b }),
    {
        Rgb { r, g, b }
    }

    pub fn white() -> (c: Rgb)
        ensures
            c == (Rgb { r: 255, g: 255, b: 255 }),
    {
        Rgb { r: 255, g: 255, b: 255 }
    }

    pub fn black() -> (c: Rgb)
        ensures
            c == (Rgb { r: 0, g: 0, b: 0 }),
    {
        Rgb { r: 0, g: 0, b: 0 }
    }
}

/// Sum of the three channels, in `[0, 765]`.
pub open spec fn channel_sum(c: Rgb) -> int {
    c.r as int + c.g as int + c.b as int
}

/// A colour is dark when its mean channel lies below half of full scale,
/// i.e. `(r + g + b) / 3 / 255 < 1/2`.
pub open spec fn is_dark(c: Rgb) -> bool {
    2 * channel_sum(c) < 3 * 255
}

/// The outline that stands out against `c`: white on a dark colour, black otherwise.
pub open spec fn contrast_of(c: Rgb) -> Rgb {
    if is_dark(c) {
        Rgb { r: 255, g: 255, b: 255 }
    } else {
        Rgb { r: 0, g: 0, b: 0 }
    }
}

/// Picks a black or white outline colour that contrasts with `color`: white
/// when the mean channel is below 127.5, black when it is at or above.
pub fn contrast_color(color: Rgb) -> (out: Rgb)
    ensures
        out == contrast_of(color),
{
    let sum: u32 = color.r as u32 + color.g as u32 + color.b as u32;
    if 2 * sum < 3 * 255 {
        Rgb::white()
    } else {
        Rgb::black()
    }
}

} // verus!
