use color_picker::{
    contrast_color, get_colors, gradient_strip, hsv_to_rgb, hue_color, indicator, interact,
    picker_frame, slider_value, FrameInput, Point, Rect, Rgb, FULL_TURN, PALETTE_LEN, SEGMENTS,
    UNIT,
};

fn rgb(r: u8, g: u8, b: u8) -> Rgb {
    Rgb::from_rgb(r, g, b)
}

fn deg(d: u32) -> u32 {
    d * UNIT
}

fn bar() -> Rect {
    Rect { left: 0, right: 200, top: 0, bottom: 20 }
}

fn no_input() -> FrameInput {
    FrameInput { swatch_clicked: None, slider_pointer: None, slider_touched: false, exit_clicked: false }
}

#[test]
fn palettes_have_twelve_colours_and_distinct_primaries() {
    let light = get_colors(false);
    let dark = get_colors(true);
    assert_eq!(light.len(), PALETTE_LEN);
    assert_eq!(dark.len(), 12);
    assert_eq!(light[0], rgb(58, 58, 60));
    assert_eq!(dark[0], rgb(242, 243, 247));
    assert_ne!(light[0], dark[0]);
    assert_eq!(light[11], rgb(0, 200, 179));
    assert_eq!(dark[11], rgb(0, 218, 195));
}

#[test]
fn palettes_are_disjoint() {
    let light = get_colors(false);
    let dark = get_colors(true);
    for a in light.iter() {
        for b in dark.iter() {
            assert_ne!(a, b);
        }
    }
}

#[test]
fn palettes_are_fixed() {
    assert_eq!(get_colors(true), get_colors(true));
    assert_eq!(get_colors(false), get_colors(false));
}

#[test]
fn primary_and_secondary_hues() {
    assert_eq!(hsv_to_rgb(deg(0), UNIT, UNIT), rgb(255, 0, 0));
    assert_eq!(hsv_to_rgb(deg(60), UNIT, UNIT), rgb(255, 255, 0));
    assert_eq!(hsv_to_rgb(deg(120), UNIT, UNIT), rgb(0, 255, 0));
    assert_eq!(hsv_to_rgb(deg(180), UNIT, UNIT), rgb(0, 255, 255));
    assert_eq!(hsv_to_rgb(deg(240), UNIT, UNIT), rgb(0, 0, 255));
    assert_eq!(hsv_to_rgb(deg(300), UNIT, UNIT), rgb(255, 0, 255));
}

#[test]
fn hue_between_sectors_blends() {
    assert_eq!(hsv_to_rgb(deg(30), UNIT, UNIT), rgb(255, 127, 0));
    assert_eq!(hsv_to_rgb(deg(210), UNIT, UNIT), rgb(0, 127, 255));
    assert_eq!(hsv_to_rgb(deg(330), UNIT, UNIT), rgb(255, 0, 127));
}

#[test]
fn full_turn_wraps_to_red() {
    assert_eq!(hsv_to_rgb(FULL_TURN, UNIT, UNIT), rgb(255, 0, 0));
    assert_eq!(hsv_to_rgb(FULL_TURN + deg(120), UNIT, UNIT), rgb(0, 255, 0));
}

#[test]
fn every_full_hue_has_a_full_and_an_empty_channel() {
    let mut hue: u32 = 0;
    while hue < FULL_TURN {
        let c = hsv_to_rgb(hue, UNIT, UNIT);
        let ch = [c.r, c.g, c.b];
        assert!(ch.contains(&255), "hue {}", hue);
        assert!(ch.contains(&0), "hue {}", hue);
        hue += 997;
    }
}

#[test]
fn saturation_and_value_scale_channels() {
    assert_eq!(hsv_to_rgb(deg(200), 0, UNIT), rgb(255, 255, 255));
    assert_eq!(hsv_to_rgb(deg(200), UNIT, 0), rgb(0, 0, 0));
    assert_eq!(hsv_to_rgb(deg(0), UNIT / 2, UNIT / 2), rgb(127, 63, 63));
}

#[test]
fn contrast_threshold() {
    assert_eq!(contrast_color(rgb(127, 127, 128)), Rgb::white());
    assert_eq!(contrast_color(rgb(127, 128, 128)), Rgb::black());
    assert_eq!(contrast_color(Rgb::black()), Rgb::white());
    assert_eq!(contrast_color(Rgb::white()), Rgb::black());
    assert_eq!(contrast_color(rgb(0, 0, 255)), Rgb::white());
    assert_eq!(contrast_color(rgb(0, 255, 255)), Rgb::black());
}

#[test]
fn slider_value_maps_and_clamps() {
    assert_eq!(slider_value(60, 10, 110), 5000);
    assert_eq!(slider_value(35, 10, 110), 2500);
    assert_eq!(slider_value(10, 10, 110), 0);
    assert_eq!(slider_value(110, 10, 110), UNIT);
    assert_eq!(slider_value(-500, 10, 110), 0);
    assert_eq!(slider_value(9, 10, 110), 0);
    assert_eq!(slider_value(111, 10, 110), UNIT);
    assert_eq!(slider_value(i32::MAX, 10, 110), UNIT);
    assert_eq!(slider_value(11, 10, 13), 3333);
}

#[test]
fn slider_value_on_degenerate_span() {
    assert_eq!(slider_value(5, 5, 5), 0);
    assert_eq!(slider_value(6, 5, 5), UNIT);
}

#[test]
fn interaction_is_idempotent() {
    let mut v: u32 = 1234;
    interact(&mut v, Some(150), bar());
    assert_eq!(v, 7500);
    interact(&mut v, Some(150), bar());
    assert_eq!(v, 7500);
    interact(&mut v, None, bar());
    assert_eq!(v, 7500);
}

#[test]
fn gradient_strip_mesh() {
    let g = gradient_strip(bar());
    assert_eq!(g.vertices.len(), 2 * (SEGMENTS as usize + 1));
    assert_eq!(g.triangles.len(), 2 * SEGMENTS as usize);
    assert_eq!(g.vertices[0].pos, Point { x: 0, y: 0 });
    assert_eq!(g.vertices[1].pos, Point { x: 0, y: 20 });
    assert_eq!(g.vertices[0].color, rgb(255, 0, 0));
    assert_eq!(g.vertices[100].pos, Point { x: 100, y: 0 });
    assert_eq!(g.vertices[100].color, rgb(0, 255, 255));
    assert_eq!(g.vertices[201].pos, Point { x: 200, y: 20 });
    assert_eq!(g.vertices[201].color, rgb(255, 0, 0));
    assert_eq!(g.triangles[0], (0, 1, 2));
    assert_eq!(g.triangles[1], (1, 2, 3));
    assert_eq!(g.triangles[199], (199, 200, 201));
}

#[test]
fn indicator_marks_the_value() {
    let m = indicator(5000, bar());
    assert_eq!(m.tip, Point { x: 100, y: 10 });
    assert_eq!(m.right_corner, Point { x: 105, y: 20 });
    assert_eq!(m.left_corner, Point { x: 95, y: 20 });
    assert_eq!(m.fill, rgb(0, 255, 255));
    assert_eq!(m.outline, Rgb::black());
    let blue = indicator(6667, bar());
    assert_eq!(blue.fill, rgb(0, 0, 255));
    assert_eq!(blue.outline, Rgb::white());
}

#[test]
fn half_value_selects_cyan() {
    assert_eq!(hue_color(UNIT / 2), rgb(0, 255, 255));
    let mut color = rgb(1, 2, 3);
    let mut value: u32 = 0;
    let input = FrameInput { slider_pointer: Some(100), slider_touched: true, ..no_input() };
    let close = picker_frame(&mut color, &mut value, false, bar(), input);
    assert!(!close);
    assert_eq!(value, 5000);
    assert_eq!(color, rgb(0, 255, 255));
}

#[test]
fn swatch_click_selects_palette_colour() {
    let mut color = rgb(1, 2, 3);
    let mut value: u32 = 250;
    let input = FrameInput { swatch_clicked: Some(3), ..no_input() };
    picker_frame(&mut color, &mut value, true, bar(), input);
    assert_eq!(color, rgb(0, 145, 255));
    assert_eq!(value, 250);
    picker_frame(&mut color, &mut value, false, bar(), input);
    assert_eq!(color, rgb(0, 136, 255));
}

#[test]
fn idle_frame_changes_nothing_and_exit_closes() {
    let mut color = rgb(1, 2, 3);
    let mut value: u32 = 250;
    assert!(!picker_frame(&mut color, &mut value, true, bar(), no_input()));
    assert_eq!((color, value), (rgb(1, 2, 3), 250));
    let exit = FrameInput { exit_clicked: true, ..no_input() };
    assert!(picker_frame(&mut color, &mut value, true, bar(), exit));
}

#[test]
fn touched_slider_overrides_swatch_click() {
    let mut color = rgb(1, 2, 3);
    let mut value: u32 = 0;
    let input = FrameInput {
        swatch_clicked: Some(0),
        slider_pointer: Some(-40),
        slider_touched: true,
        exit_clicked: false,
    };
    picker_frame(&mut color, &mut value, false, bar(), input);
    assert_eq!(value, 0);
    assert_eq!(color, rgb(255, 0, 0));
}
