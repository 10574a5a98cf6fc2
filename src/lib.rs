//! A hue-slider colour picker: fixed palettes, an HSV to RGB conversion in
//! fixed-point arithmetic, the slider's pointer interaction and the geometry of
//! what it draws, and the per-frame selection rules of the picker window.
//!
//! Fractions in `[0, 1]` (saturation, value, slider position) are carried as
//! integers in `[0, UNIT]`; hues as degrees times `UNIT`.

pub mod color;
pub mod hsv;
pub mod palette;
pub mod picker;
pub mod slider;

pub use color::{contrast_color, Rgb};
pub use hsv::{hsv_to_rgb, FULL_TURN, SIXTY_DEGREES, UNIT};
pub use palette::{get_colors, PALETTE_LEN};
pub use picker::{picker_frame, FrameInput};
pub use slider::{
    gradient_strip, hue_color, indicator, interact, slider_value, Gradient, Indicator, Point, Rect,
    Vertex, SEGMENTS, SEGMENT_STEP,
};
