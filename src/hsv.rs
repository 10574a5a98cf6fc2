use vstd::prelude::*;
use crate::color::Rgb;

verus! {

/// Fixed-point one: a fraction `f` in `[0, 1]` is carried as `f * UNIT`.
pub const UNIT: u32 = 10_000;

/// Sixty degrees of hue; a hue of `d` degrees is carried as `d * UNIT`.
pub const SIXTY_DEGREES: u32 = 60 * UNIT;

/// A full turn of hue, 360 degrees.
pub const FULL_TURN: u32 = 360 * UNIT;

/// Common denominator of the channel terms below: `UNIT` for the value,
/// `UNIT` for the saturation and `SIXTY_DEGREES` for the position in a sector.
pub open spec fn denom() -> int {
    UNIT as int * UNIT as int * SIXTY_DEGREES as int
}

/// Chroma `c = value * saturation`, over `denom()`.
pub open spec fn chroma(s: int, v: int) -> int {
    v * s * SIXTY_DEGREES as int
}

/// Secondary component `x = c * (1 - |(h / 60 mod 2) - 1|)`, over `denom()`.
pub open spec fn secondary(h: int, s: int, v: int) -> int {
    let sixty = SIXTY_DEGREES as int;
    let from_edge = h % (2 * sixty) - sixty;
    let dist = if from_edge < 0 { -from_edge } else { from_edge };
    v * s * (sixty - dist)
}

/// Offset `m = value - c`, over `denom()`.
pub open spec fn offset(s: int, v: int) -> int {
    v * (UNIT as int - s) * SIXTY_DEGREES as int
}

/// A channel level over `denom()` scaled to `[0, 255]` and truncated.
pub open spec fn level(n: int) -> int {
    255 * n / denom()
}

/// The colour of hue `hue` (degrees times `UNIT`, taken modulo a full turn),
/// saturation `s` and value `v` (both over `UNIT`), by the 60-degree sectors
/// of the HSV hexcone.
pub open spec fn hsv_color(hue: int, s: int, v: int) -> Rgb {
    let sixty = SIXTY_DEGREES as int;
    let h = hue % (FULL_TURN as int);
    let c = chroma(s, v);
    let x = secondary(h, s, v);
    let m = offset(s, v);
    let (r, g, b) = if h < sixty {
        (c, x, 0)
    } else if h < 2 * sixty {
        (x, c, 0)
    } else if h < 3 * sixty {
        (0, c, x)
    } else if h < 4 * sixty {
        (0, x, c)
    } else if h < 5 * sixty {
        (x, 0, c)
    } else {
        (c, 0, x)
    };
    Rgb { r: level(r + m) as u8, g: level(g + m) as u8, b: level(b + m) as u8 }
}

proof fn lemma_denom()
    ensures
        denom() == 60_000_000_000_000,
        SIXTY_DEGREES == 600_000,
        FULL_TURN == 3_600_000,
{
    assert(10_000int * 10_000int * 600_000int == 60_000_000_000_000int) by (nonlinear_arith);
}

/// Scales a channel term over `denom()` to an 8-bit level.
fn to_level(n: u64) -> (l: u8)
    requires
        n <= denom(),
    ensures
        l as int == level(n as int),
{
    let d: u64 = UNIT as u64 * UNIT as u64 * SIXTY_DEGREES as u64;
    proof {
        lemma_denom();
    }
    assert(255 * (n as int) / denom() <= 255) by (nonlinear_arith)
        requires
            n <= denom(),
            denom() == 60_000_000_000_000,
    ;
    assert(255 * (n as int) / denom() >= 0) by (nonlinear_arith)
        requires
            n >= 0,
            denom() == 60_000_000_000_000,
    ;
    ((255 * n) / d) as u8
}

/// Converts a hue (degrees times `UNIT`, any number of turns), a saturation
/// and a value (both over `UNIT`) to RGB.
pub fn hsv_to_rgb(hue: u32, saturation: u32, value: u32) -> (c: Rgb)
    requires
        saturation <= UNIT,
        value <= UNIT,
    ensures
        c == hsv_color(hue as int, saturation as int, value as int),
{
    proof {
        lemma_denom();
    }
    let sixty: u64 = SIXTY_DEGREES as u64;
    let h: u64 = (hue % FULL_TURN) as u64;
    let s: u64 = saturation as u64;
    let v: u64 = value as u64;
    let q: u64 = h % (2 * sixty);
    let dist: u64 = if q >= sixty { q - sixty } else { sixty - q };
    proof {
        assert(v * s <= UNIT * UNIT) by (nonlinear_arith)
            requires
                v <= UNIT,
                s <= UNIT,
        ;
        assert(v * (UNIT - s) <= UNIT * UNIT) by (nonlinear_arith)
            requires
                v <= UNIT,
                s <= UNIT,
        ;
        assert(v * s * (sixty - dist) <= v * s * sixty) by (nonlinear_arith)
            requires
                dist <= sixty,
        ;
        assert(v * s * sixty + v * (UNIT - s) * sixty == v * UNIT * sixty) by (nonlinear_arith);
        assert(v * UNIT * sixty <= denom()) by (nonlinear_arith)
            requires
                v <= UNIT,
                sixty == SIXTY_DEGREES,
        ;
    }
    let vs: u64 = v * s;
    let c: u64 = vs * sixty;
    let x: u64 = vs * (sixty - dist);
    let m: u64 = v * (UNIT as u64 - s) * sixty;
    let (r, g, b): (u64, u64, u64) = if h < sixty {
        (c, x, 0)
    } else if h < 2 * sixty {
        (x, c, 0)
    } else if h < 3 * sixty {
        (0, c, x)
    } else if h < 4 * sixty {
        (0, x, c)
    } else if h < 5 * sixty {
        (x, 0, c)
    } else {
        (c, 0, x)
    };
    Rgb::from_rgb(to_level(r + m), to_level(g + m), to_level(b + m))
}

} // verus!

verus! {

/// At full saturation and value every hue is a pure hue: in each 60-degree
/// sector of the (wrapped) hue one channel is at full scale and another at
/// zero, red leading from 0 degrees, green from 120 and blue from 240.
pub proof fn lemma_full_hue_sectors(hue: int)
    ensures
        ({
            let h = hue % (FULL_TURN as int);
            let sixty = SIXTY_DEGREES as int;
            let c = hsv_color(hue, UNIT as int, UNIT as int);
            &&& h < sixty ==> c.r == 255 && c.b == 0
            &&& sixty <= h < 2 * sixty ==> c.g == 255 && c.b == 0
            &&& 2 * sixty <= h < 3 * sixty ==> c.g == 255 && c.r == 0
            &&& 3 * sixty <= h < 4 * sixty ==> c.b == 255 && c.r == 0
            &&& 4 * sixty <= h < 5 * sixty ==> c.b == 255 && c.g == 0
            &&& 5 * sixty <= h ==> c.r == 255 && c.g == 0
        }),
{
    lemma_denom();
    let u = UNIT as int;
    assert(chroma(u, u) == denom());
    assert(offset(u, u) == 0);
    assert(level(denom()) == 255);
    assert(level(0) == 0);
}

} // verus!
