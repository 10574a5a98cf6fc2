use vstd::prelude::*;
use crate::color::Rgb;

verus! {

/// Number of colours in each palette.
pub const PALETTE_LEN: usize = 12;

/// The light-theme palette: primary, red, green, blue, orange, cyan, yellow,
/// purple, brown, pink, indigo, mint.
pub open spec fn light_palette() -> Seq<Rgb> {
    seq![
        Rgb { r: 58, g: 58, b: 60 },
        Rgb { r: 255, g: 56, b: 60 },
        Rgb { r: 52, g: 199, b: 89 },
        Rgb { r: 0, g: 136, b: 255 },
        Rgb { r: 255, g: 141, b: 40 },
        Rgb { r: 0, g: 192, b: 232 },
        Rgb { r: 255, g: 204, b: 0 },
        Rgb { r: 203, g: 48, b: 224 },
        Rgb { r: 172, g: 127, b: 94 },
        Rgb { r: 255, g: 45, b: 85 },
        Rgb { r: 97, g: 85, b: 245 },
        Rgb { r: 0, g: 200, b: 179 },
    ]
}

/// The dark-theme palette, in the same order of hues as `light_palette`.
pub open spec fn dark_palette() -> Seq<Rgb> {
    seq![
        Rgb { r: 242, g: 243, b: 247 },
        Rgb { r: 255, g: 66, b: 69 },
        Rgb { r: 48, g: 209, b: 88 },
        Rgb { r: 0, g: 145, b: 255 },
        Rgb { r: 255, g: 146, b: 48 },
        Rgb { r: 60, g: 211, b: 254 },
        Rgb { r: 255, g: 214, b: 0 },
        Rgb { r: 219, g: 52, b: 242 },
        Rgb { r: 183, g: 138, b: 102 },
        Rgb { r: 255, g: 55, b: 95 },
        Rgb { r: 109, g: 124, b: 255 },
        Rgb { r: 0, g: 218, b: 195 },
    ]
}

/// The palette of the given theme.
pub open spec fn palette(dark_mode: bool) -> Seq<Rgb> {
    if dark_mode {
        dark_palette()
    } else {
        light_palette()
    }
}

/// Returns the system colour palette for the current theme.
pub fn get_colors(dark_mode: bool) -> (colors: [Rgb; PALETTE_LEN])
    ensures
        colors@ == palette(dark_mode),
{
    if dark_mode {
        let colors = [
            Rgb::from_rgb(242, 243, 247),
            Rgb::from_rgb(255, 66, 69),
            Rgb::from_rgb(48, 209, 88),
            Rgb::from_rgb(0, 145, 255),
            Rgb::from_rgb(255, 146, 48),
            Rgb::from_rgb(60, 211, 254),
            Rgb::from_rgb(255, 214, 0),
            Rgb::from_rgb(219, 52, 242),
            Rgb::from_rgb(183, 138, 102),
            Rgb::from_rgb(255, 55, 95),
            Rgb::from_rgb(109, 124, 255),
            Rgb::from_rgb(0, 218, 195),
        ];
        assert(colors@ =~= dark_palette());
        colors
    } else {
        let colors = [
            Rgb::from_rgb(58, 58, 60),
            Rgb::from_rgb(255, 56, 60),
            Rgb::from_rgb(52, 199, 89),
            Rgb::from_rgb(0, 136, 255),
            Rgb::from_rgb(255, 141, 40),
            Rgb::from_rgb(0, 192, 232),
            Rgb::from_rgb(255, 204, 0),
            Rgb::from_rgb(203, 48, 224),
            Rgb::from_rgb(172, 127, 94),
            Rgb::from_rgb(255, 45, 85),
            Rgb::from_rgb(97, 85, 245),
            Rgb::from_rgb(0, 200, 179),
        ];
        assert(colors@ =~= light_palette());
        colors
    }
}

} // verus!

verus! {

/// The two palettes both hold `PALETTE_LEN` colours, share none, and so in
/// particular differ in their first (primary) colour.
pub proof fn lemma_palettes_disjoint(i: int, j: int)
    requires
        0 <= i < PALETTE_LEN,
        0 <= j < PALETTE_LEN,
    ensures
        light_palette().len() == PALETTE_LEN,
        dark_palette().len() == PALETTE_LEN,
        light_palette()[i] != dark_palette()[j],
        light_palette()[0] != dark_palette()[0],
{
}

} // verus!
