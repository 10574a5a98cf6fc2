use vstd::prelude::*;
use crate::color::{contrast_of, contrast_color, Rgb};
use crate::hsv::{hsv_color, hsv_to_rgb, UNIT};

verus! {

/// Number of strips the hue bar is drawn with.
pub const SEGMENTS: u32 = 100;

/// Slider position of consecutive strip edges, over `UNIT`.
pub const SEGMENT_STEP: u32 = UNIT / SEGMENTS;

/// An axis-aligned rectangle in screen coordinates, `y` growing downwards.
#[derive(Clone, Copy, Debug, PartialEq, Eq, Structural)]
pub struct Rect {
    pub left: i32,
    pub right: i32,
    pub top: i32,
    pub bottom: i32,
}

impl Rect {
    /// The rectangle spans a non-empty or degenerate area.
    pub open spec fn wf(self) -> bool {
        self.left <= self.right && self.top <= self.bottom
    }
}

#[derive(Clone, Copy, Debug, PartialEq, Eq, Structural)]
pub struct Point {
    pub x: i32,
    pub y: i32,
}

/// A mesh vertex with its own colour.
#[derive(Clone, Copy, Debug, PartialEq, Eq, Structural)]
pub struct Vertex {
    pub pos: Point,
    pub color: Rgb,
}

/// The gradient bar as a triangle mesh: each triangle holds three indices
/// into `vertices`.
pub struct Gradient {
    pub vertices: Vec<Vertex>,
    pub triangles: Vec<(u32, u32, u32)>,
}

/// The marker under the bar: a triangle pointing up at the current value,
/// filled with the colour there and outlined in a contrasting colour.
#[derive(Clone, Copy, Debug, PartialEq, Eq, Structural)]
pub struct Indicator {
    pub tip: Point,
    pub right_corner: Point,
    pub left_corner: Point,
    pub fill: Rgb,
    pub outline: Rgb,
}

/// The slider value under pointer abscissa `x`: `x` mapped linearly from
/// `[left, right]` onto `[0, UNIT]`, clamped at both ends, rounded down.
pub open spec fn remapped(x: int, left: int, right: int) -> int {
    if x <= left {
        0
    } else if right <= x {
        UNIT as int
    } else {
        UNIT as int * (x - left) / (right - left)
    }
}

/// The value after one frame of interaction: moved to the pointer while the
/// slider is pressed or dragged, kept otherwise.
pub open spec fn interacted(value: u32, pointer_x: Option<i32>, rect: Rect) -> u32 {
    match pointer_x {
        Some(x) => remapped(x as int, rect.left as int, rect.right as int) as u32,
        None => value,
    }
}

/// The point at fraction `t` (over `UNIT`) of the way from `a` to `b`, rounded down.
pub open spec fn lerp_at(a: int, b: int, t: int) -> int {
    a + (b - a) * t / UNIT as int
}

/// The hue colour shown at slider position `t` (over `UNIT`): hue `t` of a
/// full turn at full saturation and value.
pub open spec fn hue_at(t: int) -> Rgb {
    hsv_color(360 * t, UNIT as int, UNIT as int)
}

/// Vertex `j` of the gradient bar: edge `j / 2` of the strips, on the top
/// side for even `j`, on the bottom side for odd `j`.
pub open spec fn strip_vertex(rect: Rect, j: int) -> Vertex {
    let t = (j / 2) * SEGMENT_STEP as int;
    Vertex {
        pos: Point {
            x: lerp_at(rect.left as int, rect.right as int, t) as i32,
            y: if j % 2 == 0 { rect.top } else { rect.bottom },
        },
        color: hue_at(t),
    }
}

/// Triangle `j` of the gradient bar: each pair of consecutive triangles
/// covers one strip.
pub open spec fn strip_triangle(j: int) -> (u32, u32, u32) {
    (j as u32, (j + 1) as u32, (j + 2) as u32)
}

/// The indicator drawn for `value` on a slider occupying `rect`.
pub open spec fn indicator_of(value: u32, rect: Rect) -> Indicator {
    let x = lerp_at(rect.left as int, rect.right as int, value as int);
    let r = (rect.bottom - rect.top) / 4;
    let fill = hue_at(value as int);
    Indicator {
        tip: Point { x: x as i32, y: (rect.top + (rect.bottom - rect.top) / 2) as i32 },
        right_corner: Point { x: (x + r) as i32, y: rect.bottom },
        left_corner: Point { x: (x - r) as i32, y: rect.bottom },
        fill,
        outline: contrast_of(fill),
    }
}

proof fn lemma_lerp_bounds(a: int, b: int, t: int)
    requires
        a <= b,
        0 <= t <= UNIT,
    ensures
        a <= lerp_at(a, b, t) <= b,
{
    assert(0 <= (b - a) * t / UNIT as int <= b - a) by (nonlinear_arith)
        requires
            a <= b,
            0 <= t <= UNIT,
            UNIT == 10_000,
    ;
}

/// The slider value under pointer abscissa `pointer_x` on a slider spanning
/// `left..=right`.
pub fn slider_value(pointer_x: i32, left: i32, right: i32) -> (v: u32)
    requires
        left <= right,
    ensures
        v as int == remapped(pointer_x as int, left as int, right as int),
        v <= UNIT,
{
    if pointer_x <= left {
        0
    } else if right <= pointer_x {
        UNIT
    } else {
        let num: i64 = UNIT as i64 * (pointer_x as i64 - left as i64);
        let den: i64 = right as i64 - left as i64;
        proof {
            let (x, l, r) = (pointer_x as int, left as int, right as int);
            assert(0 <= UNIT as int * (x - l) / (r - l) < UNIT as int) by (nonlinear_arith)
                requires
                    l < x < r,
                    UNIT == 10_000,
            ;
        }
        (num / den) as u32
    }
}

/// Moves the slider value to the pointer, if the slider is pressed or
/// dragged this frame (`pointer_x` is then where the pointer is).
pub fn interact(value: &mut u32, pointer_x: Option<i32>, rect: Rect)
    requires
        rect.wf(),
    ensures
        *final(value) == interacted(*old(value), pointer_x, rect),
        *old(value) <= UNIT ==> *final(value) <= UNIT,
{
    if let Some(x) = pointer_x {
        *value = slider_value(x, rect.left, rect.right);
    }
}

/// The abscissa at fraction `t` (over `UNIT`) of the way from `a` to `b`.
fn lerp(a: i32, b: i32, t: u32) -> (x: i32)
    requires
        a <= b,
        t <= UNIT,
    ensures
        x as int == lerp_at(a as int, b as int, t as int),
{
    proof {
        lemma_lerp_bounds(a as int, b as int, t as int);
        assert(0 <= (b - a) * t <= (b - a) * UNIT) by (nonlinear_arith)
            requires
                a <= b,
                t <= UNIT,
        ;
    }
    let span: i64 = b as i64 - a as i64;
    (a as i64 + span * t as i64 / UNIT as i64) as i32
}

/// The colour of the hue bar at slider position `t`.
pub fn hue_color(t: u32) -> (c: Rgb)
    requires
        t <= UNIT,
    ensures
        c == hue_at(t as int),
{
    hsv_to_rgb(360 * t, UNIT, UNIT)
}

/// The gradient bar filling `rect`: `SEGMENTS` strips whose edges carry the
/// hue colour of their position, so that colours blend smoothly across it.
pub fn gradient_strip(rect: Rect) -> (g: Gradient)
    requires
        rect.wf(),
    ensures
        g.vertices@.len() == 2 * (SEGMENTS + 1),
        forall|j: int| 0 <= j < g.vertices@.len() ==> g.vertices@[j] == strip_vertex(rect, j),
        g.triangles@.len() == 2 * SEGMENTS,
        forall|j: int| 0 <= j < g.triangles@.len() ==> g.triangles@[j] == strip_triangle(j),
{
    let mut vertices: Vec<Vertex> = Vec::new();
    let mut i: u32 = 0;
    while i <= SEGMENTS
        invariant
            rect.wf(),
            i <= SEGMENTS + 1,
            vertices@.len() == 2 * i,
            forall|j: int| 0 <= j < vertices@.len() ==> vertices@[j] == strip_vertex(rect, j),
        decreases SEGMENTS + 1 - i,
    {
        let t: u32 = i * SEGMENT_STEP;
        let x = lerp(rect.left, rect.right, t);
        let color = hue_color(t);
        vertices.push(Vertex { pos: Point { x, y: rect.top }, color });
        vertices.push(Vertex { pos: Point { x, y: rect.bottom }, color });
        proof {
            assert forall|j: int| 0 <= j < vertices@.len() implies vertices@[j] == strip_vertex(
                rect,
                j,
            ) by {
                if j >= 2 * i {
                    assert(j / 2 == i);
                }
            }
        }
        i = i + 1;
    }
    let mut triangles: Vec<(u32, u32, u32)> = Vec::new();
    let mut j: u32 = 0;
    while j < 2 * SEGMENTS
        invariant
            j <= 2 * SEGMENTS,
            triangles@.len() == j,
            forall|k: int| 0 <= k < triangles@.len() ==> triangles@[k] == strip_triangle(k),
        decreases 2 * SEGMENTS - j,
    {
        triangles.push((j, j + 1, j + 2));
        j = j + 1;
    }
    Gradient { vertices, triangles }
}

/// The marker for `value` on a slider occupying `rect`.
pub fn indicator(value: u32, rect: Rect) -> (m: Indicator)
    requires
        rect.wf(),
        value <= UNIT,
        rect.right + (rect.bottom - rect.top) / 4 <= i32::MAX,
        rect.left - (rect.bottom - rect.top) / 4 >= i32::MIN,
    ensures
        m == indicator_of(value, rect),
{
    let x = lerp(rect.left, rect.right, value);
    proof {
        lemma_lerp_bounds(rect.left as int, rect.right as int, value as int);
    }
    let height: i64 = rect.bottom as i64 - rect.top as i64;
    let r: i64 = height / 4;
    let center_y: i64 = rect.top as i64 + height / 2;
    let fill = hue_color(value);
    Indicator {
        tip: Point { x, y: center_y as i32 },
        right_corner: Point { x: (x as i64 + r) as i32, y: rect.bottom },
        left_corner: Point { x: (x as i64 - r) as i32, y: rect.bottom },
        fill,
        outline: contrast_color(fill),
    }
}

} // verus!

verus! {

/// A pointer left of the slider sets its value to zero, one right of it to
/// full scale: positions outside the slider are clamped, never extrapolated.
pub proof fn lemma_outside_pointer_clamps(pointer_x: i32, rect: Rect)
    requires
        rect.wf(),
    ensures
        pointer_x < rect.left ==> forall|v: u32| interacted(v, Some(pointer_x), rect) == 0,
        pointer_x > rect.right ==> forall|v: u32|
            interacted(v, Some(pointer_x), rect) == UNIT,
{
}

/// Interacting twice with the same pointer gives the value that one
/// interaction gives.
pub proof fn lemma_interaction_idempotent(value: u32, pointer_x: Option<i32>, rect: Rect)
    requires
        rect.wf(),
    ensures
        interacted(interacted(value, pointer_x, rect), pointer_x, rect) == interacted(
            value,
            pointer_x,
            rect,
        ),
{
}

} // verus!
