use vstd::prelude::*;

verus! {

/// Width of the popup window, in device pixels.
pub const WIDTH: i32 = 400;

/// Height of the popup window, in device pixels.
pub const HEIGHT: i32 = 600;

/// Width of the display assumed when none is known.
pub const FALLBACK_DISPLAY_WIDTH: i32 = 1920;

/// Height of the display assumed when none is known.
pub const FALLBACK_DISPLAY_HEIGHT: i32 = 1080;

/// A rectangle in device pixels: its top-left corner and its size.
#[derive(PartialEq, Eq, Structural, Debug, Clone, Copy)]
pub struct PixelBounds {
    pub x: i32,
    pub y: i32,
    pub width: i32,
    pub height: i32,
}

/// Half of `v`, rounded toward zero.
pub open spec fn half(v: int) -> int {
    if v >= 0 {
        v / 2
    } else {
        -((-v) / 2)
    }
}

/// The display that the window is placed on: the one given, else a
/// 1920 by 1080 display at the origin.
pub open spec fn chosen_display(display: Option<PixelBounds>) -> PixelBounds {
    match display {
        Some(d) => d,
        None => PixelBounds { x: 0, y: 0, width: FALLBACK_DISPLAY_WIDTH, height: FALLBACK_DISPLAY_HEIGHT },
    }
}

/// The centre of a display along one axis.
pub open spec fn center_of(origin: int, size: int) -> int {
    origin + half(size)
}

/// Whether a window of `width` by `height` centred on `d` has its centre and
/// its corner in range of device pixel coordinates.
pub open spec fn placement_fits(d: PixelBounds, width: int, height: int) -> bool {
    &&& i32::MIN <= center_of(d.x as int, d.width as int) <= i32::MAX
    &&& i32::MIN <= center_of(d.y as int, d.height as int) <= i32::MAX
    &&& i32::MIN <= center_of(d.x as int, d.width as int) - half(width) <= i32::MAX
    &&& i32::MIN <= center_of(d.y as int, d.height as int) - half(height) <= i32::MAX
}

/// The bounds of a window of `width` by `height` centred on `d`.
pub open spec fn centered_on(d: PixelBounds, width: i32, height: i32) -> PixelBounds {
    PixelBounds {
        x: (center_of(d.x as int, d.width as int) - half(width as int)) as i32,
        y: (center_of(d.y as int, d.height as int) - half(height as int)) as i32,
        width,
        height,
    }
}

fn halved(v: i32) -> (r: i64)
    ensures
        r == half(v as int),
{
    let w: i64 = v as i64;
    if w >= 0 {
        w / 2
    } else {
        -((-w) / 2)
    }
}

fn display_or_fallback(display: Option<PixelBounds>) -> (r: PixelBounds)
    ensures
        r == chosen_display(display),
{
    match display {
        Some(d) => d,
        None => PixelBounds { x: 0, y: 0, width: FALLBACK_DISPLAY_WIDTH, height: FALLBACK_DISPLAY_HEIGHT },
    }
}

fn in_device_range(v: i64) -> (r: bool)
    ensures
        r == (i32::MIN <= v <= i32::MAX),
{
    i32::MIN as i64 <= v && v <= i32::MAX as i64
}

/// Whether [`setup_window`] can place a window of this size: its centre and
/// corner coordinates stay within device pixel range.
pub fn placement_in_range(app_width: i32, app_height: i32, display: Option<PixelBounds>) -> (r: bool)
    ensures
        r == placement_fits(chosen_display(display), app_width as int, app_height as int),
{
    let d = display_or_fallback(display);
    let center_x: i64 = d.x as i64 + halved(d.width);
    let center_y: i64 = d.y as i64 + halved(d.height);
    in_device_range(center_x) && in_device_range(center_y) && in_device_range(center_x - halved(app_width))
        && in_device_range(center_y - halved(app_height))
}

/// The bounds of the popup window: `app_width` by `app_height`, centred on
/// `display`, or on the fallback display when none is known.
pub fn setup_window(app_width: i32, app_height: i32, display: Option<PixelBounds>) -> (r: PixelBounds)
    requires
        placement_fits(chosen_display(display), app_width as int, app_height as int),
    ensures
        r == centered_on(chosen_display(display), app_width, app_height),
{
    let d = display_or_fallback(display);
    let center_x: i64 = d.x as i64 + halved(d.width);
    let center_y: i64 = d.y as i64 + halved(d.height);
    let x: i64 = center_x - halved(app_width);
    let y: i64 = center_y - halved(app_height);
    PixelBounds { x: x as i32, y: y as i32, width: app_width, height: app_height }
}

} // verus!
