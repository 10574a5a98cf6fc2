use vstd::prelude::*;
use crate::color::Rgb;
use crate::hsv::UNIT;
use crate::palette::{get_colors, palette, PALETTE_LEN};
use crate::slider::{hue_at, hue_color, interact, interacted, Rect};

verus! {

/// What the user did to the picker window in one frame.
#[derive(Clone, Copy, Debug, PartialEq, Eq, Structural)]
pub struct FrameInput {
    /// Index into the theme's palette of the swatch clicked, if any.
    pub swatch_clicked: Option<usize>,
    /// Pointer abscissa while the hue slider is pressed or dragged.
    pub slider_pointer: Option<i32>,
    /// The slider was clicked, changed or dragged.
    pub slider_touched: bool,
    /// The exit button was clicked.
    pub exit_clicked: bool,
}

/// The selected colour after a frame: the slider's hue when it was touched,
/// else the clicked swatch, else unchanged.
pub open spec fn selection_after(
    color: Rgb,
    value: u32,
    dark_mode: bool,
    input: FrameInput,
) -> Rgb {
    if input.slider_touched {
        hue_at(value as int)
    } else {
        match input.swatch_clicked {
            Some(i) => palette(dark_mode)[i as int],
            None => color,
        }
    }
}

/// Applies one frame of user input to the selected colour and the hue
/// slider's value (over `UNIT`); returns whether the window is to close.
pub fn picker_frame(
    color: &mut Rgb,
    value: &mut u32,
    dark_mode: bool,
    slider_rect: Rect,
    input: FrameInput,
) -> (close: bool)
    requires
        *old(value) <= UNIT,
        slider_rect.wf(),
        match input.swatch_clicked {
            Some(i) => i < PALETTE_LEN,
            None => true,
        },
    ensures
        *final(value) == interacted(*old(value), input.slider_pointer, slider_rect),
        *final(value) <= UNIT,
        *final(color) == selection_after(*old(color), *final(value), dark_mode, input),
        close == input.exit_clicked,
{
    if let Some(i) = input.swatch_clicked {
        let colors = get_colors(dark_mode);
        *color = colors[i];
    }
    interact(value, input.slider_pointer, slider_rect);
    if input.slider_touched {
        *color = hue_color(*value);
    }
    input.exit_clicked
}

} // verus!
