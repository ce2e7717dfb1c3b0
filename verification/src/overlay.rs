//! The caption overlay's appearance settings and where on a monitor's work
//! area the overlay is placed.

use vstd::prelude::*;
use vstd::string::*;

verus! {

#[derive(Clone, Copy, Debug, PartialEq, Eq, Structural)]
pub enum OverlayPosition {
    TopCenter,
    BottomCenter,
    BottomLeft,
    BottomRight,
}

#[derive(Clone, Copy, Debug, PartialEq, Eq, Structural)]
pub enum BilingualLayout {
    Stacked,
    SideBySide,
}

/// The overlay settings that validation reads, with whether the background
/// opacity lies between 0 and 1.
#[derive(Clone, Debug, PartialEq, Eq)]
pub struct OverlaySettingsOutline {
    pub font_size: u16,
    pub width: u32,
    pub maximum_lines: u8,
    pub reading_time_seconds: u16,
    pub fade_duration_ms: u16,
    pub background_opacity_in_range: bool,
    pub text_color: String,
    pub translated_text_color: String,
}

pub open spec fn hex_digit(c: char) -> bool {
    ('0' <= c && c <= '9') || ('a' <= c && c <= 'f') || ('A' <= c && c <= 'F')
}

/// A colour written `#rrggbb` in hexadecimal digits.
pub open spec fn hex_color(text: Seq<char>) -> bool {
    &&& text.len() == 7
    &&& text[0] == '#'
    &&& forall|i: int| 1 <= i < 7 ==> hex_digit(#[trigger] text[i])
}

pub fn is_hex_color(value: &str) -> (valid: bool)
    ensures
        valid == hex_color(value@),
{
    if value.unicode_len() != 7 || value.get_char(0) != '#' {
        return false;
    }
    let mut index: usize = 1;
    while index < 7
        invariant
            value@.len() == 7,
            1 <= index <= 7,
            forall|i: int| 1 <= i < index ==> hex_digit(#[trigger] value@[i]),
        decreases 7 - index,
    {
        let c = value.get_char(index);
        if !(('0' <= c && c <= '9') || ('a' <= c && c <= 'f') || ('A' <= c && c <= 'F')) {
            return false;
        }
        index = index + 1;
    }
    true
}

/// The first limit that `settings` break, as the message that reports it.
pub open spec fn settings_problem(settings: OverlaySettingsOutline) -> Option<Seq<char>> {
    if !(18 <= settings.font_size <= 96) {
        Some("Caption size must be between 18 and 96 pixels."@)
    } else if !(320 <= settings.width <= 1600) {
        Some("Caption width must be between 320 and 1600 pixels."@)
    } else if !(1 <= settings.maximum_lines <= 4) {
        Some("Maximum lines must be between 1 and 4."@)
    } else if !(3 <= settings.reading_time_seconds <= 60) {
        Some("Caption reading time must be between 3 and 60 seconds."@)
    } else if settings.fade_duration_ms > 5000 {
        Some("Caption fade duration must be at most 5 seconds."@)
    } else if !settings.background_opacity_in_range {
        Some("Background opacity must be between 0 and 1."@)
    } else if !hex_color(settings.text_color@) || !hex_color(settings.translated_text_color@) {
        Some("Caption colors must be six-digit hex colors."@)
    } else {
        None
    }
}

fn refuse(message: &str) -> (result: Result<(), String>)
    ensures
        result matches Err(text) && text@ == message@,
{
    Err(String::from_str(message))
}

/// Checks the overlay settings against their safe ranges.
pub fn validate_settings(settings: &OverlaySettingsOutline) -> (result: Result<(), String>)
    ensures
        match settings_problem(*settings) {
            None => result is Ok,
            Some(message) => result matches Err(text) && text@ == message,
        },
{
    if !(18 <= settings.font_size && settings.font_size <= 96) {
        return refuse("Caption size must be between 18 and 96 pixels.");
    }
    if !(320 <= settings.width && settings.width <= 1600) {
        return refuse("Caption width must be between 320 and 1600 pixels.");
    }
    if !(1 <= settings.maximum_lines && settings.maximum_lines <= 4) {
        return refuse("Maximum lines must be between 1 and 4.");
    }
    if !(3 <= settings.reading_time_seconds && settings.reading_time_seconds <= 60) {
        return refuse("Caption reading time must be between 3 and 60 seconds.");
    }
    if settings.fade_duration_ms > 5000 {
        return refuse("Caption fade duration must be at most 5 seconds.");
    }
    if !settings.background_opacity_in_range {
        return refuse("Background opacity must be between 0 and 1.");
    }
    if !is_hex_color(settings.text_color.as_str()) || !is_hex_color(
        settings.translated_text_color.as_str(),
    ) {
        return refuse("Caption colors must be six-digit hex colors.");
    }
    Ok(())
}

/// A monitor's work area, in physical pixels.
#[derive(Clone, Copy, Debug, PartialEq, Eq, Structural)]
pub struct WorkArea {
    pub x: i32,
    pub y: i32,
    pub width: u32,
    pub height: u32,
}

/// `n / 2`, rounded toward zero as integer division does.
pub open spec fn half_toward_zero(n: int) -> int {
    if n >= 0 { n / 2 } else { -((-n) / 2) }
}

pub open spec fn clamped(value: int, low: int, high: int) -> int {
    if value < low { low } else if value > high { high } else { value }
}

/// Where the overlay's top-left corner goes for `anchor`: `margin` pixels
/// inside the work area's edges (centred across for the centre positions),
/// but never outside the work area's top-left part that can hold it.
pub open spec fn overlay_position_spec(
    anchor: OverlayPosition,
    area: WorkArea,
    overlay_width: u32,
    overlay_height: u32,
    margin: i32,
) -> (i32, i32) {
    let margin: int = if margin > 0 { margin as int } else { 0 };
    let left = area.x + margin;
    let centered = area.x + half_toward_zero(area.width - overlay_width);
    let right = area.x + area.width - overlay_width - margin;
    let top = area.y + margin;
    let bottom = area.y + area.height - overlay_height - margin;
    let (x, y) = match anchor {
        OverlayPosition::TopCenter => (centered, top),
        OverlayPosition::BottomCenter => (centered, bottom),
        OverlayPosition::BottomLeft => (left, bottom),
        OverlayPosition::BottomRight => (right, bottom),
    };
    let maximum_x = area.x + if area.width >= overlay_width { area.width - overlay_width } else { 0 };
    let maximum_y = area.y + if area.height >= overlay_height { area.height - overlay_height } else { 0 };
    (clamped(x, area.x as int, maximum_x) as i32, clamped(y, area.y as int, maximum_y) as i32)
}

fn clamp_i64(value: i64, low: i64, high: i64) -> (result: i64)
    requires
        low <= high,
    ensures
        result == clamped(value as int, low as int, high as int),
{
    if value < low {
        low
    } else if value > high {
        high
    } else {
        value
    }
}

/// Places the overlay of `overlay_width` by `overlay_height` pixels on the
/// work area `area` at `anchor`.
pub fn anchored_overlay_position(
    anchor: OverlayPosition,
    area: WorkArea,
    overlay_width: u32,
    overlay_height: u32,
    margin: i32,
) -> (position: (i32, i32))
    ensures
        position == overlay_position_spec(anchor, area, overlay_width, overlay_height, margin),
{
    let origin_x = area.x as i64;
    let origin_y = area.y as i64;
    let width = area.width as i64;
    let height = area.height as i64;
    let overlay_w = overlay_width as i64;
    let overlay_h = overlay_height as i64;
    let margin = if margin > 0 {
        margin as i64
    } else {
        0
    };
    let left = origin_x + margin;
    let centered = origin_x + (width - overlay_w) / 2;
    let right = origin_x + width - overlay_w - margin;
    let top = origin_y + margin;
    let bottom = origin_y + height - overlay_h - margin;
    let (x, y) = match anchor {
        OverlayPosition::TopCenter => (centered, top),
        OverlayPosition::BottomCenter => (centered, bottom),
        OverlayPosition::BottomLeft => (left, bottom),
        OverlayPosition::BottomRight => (right, bottom),
    };
    let maximum_x = origin_x + if width >= overlay_w {
        width - overlay_w
    } else {
        0
    };
    let maximum_y = origin_y + if height >= overlay_h {
        height - overlay_h
    } else {
        0
    };
    let clamped_x = clamp_i64(x, origin_x, maximum_x);
    let clamped_y = clamp_i64(y, origin_y, maximum_y);
    (clamped_x as i32, clamped_y as i32)
}

/// The overlay never starts outside its work area: its corner lies in the
/// part of the area from which it fits, or at the area's corner when it is
/// larger than the area (when that part lies within the coordinate range).
pub proof fn overlay_stays_in_work_area(
    anchor: OverlayPosition,
    area: WorkArea,
    overlay_width: u32,
    overlay_height: u32,
    margin: i32,
)
    requires
        area.x + area.width <= i32::MAX,
        area.y + area.height <= i32::MAX,
    ensures
        ({
            let (x, y) = overlay_position_spec(anchor, area, overlay_width, overlay_height, margin);
            &&& area.x <= x
            &&& x <= area.x + if area.width >= overlay_width {
                area.width - overlay_width
            } else {
                0
            }
            &&& area.y <= y
            &&& y <= area.y + if area.height >= overlay_height {
                area.height - overlay_height
            } else {
                0
            }
        }),
{
}

/// The overlay sits at its anchor whenever it fits there: `margin` pixels
/// (none when negative) inside the work area's left, right, top or bottom
/// edge for the side it is anchored to, and centred across the area for the
/// centre positions.
pub proof fn overlay_sits_at_its_anchor(
    anchor: OverlayPosition,
    area: WorkArea,
    overlay_width: u32,
    overlay_height: u32,
    margin: i32,
)
    requires
        area.x + area.width <= i32::MAX,
        area.y + area.height <= i32::MAX,
        overlay_width + (if margin > 0 { margin as int } else { 0 }) <= area.width,
        overlay_height + (if margin > 0 { margin as int } else { 0 }) <= area.height,
    ensures
        ({
            let (x, y) = overlay_position_spec(anchor, area, overlay_width, overlay_height, margin);
            let inset: int = if margin > 0 { margin as int } else { 0 };
            &&& (anchor == OverlayPosition::BottomLeft || anchor == OverlayPosition::BottomCenter
                || anchor == OverlayPosition::BottomRight) ==> y == area.y + area.height
                - overlay_height - inset
            &&& anchor == OverlayPosition::TopCenter ==> y == area.y + inset
            &&& anchor == OverlayPosition::BottomLeft ==> x == area.x + inset
            &&& anchor == OverlayPosition::BottomRight ==> x == area.x + area.width - overlay_width
                - inset
            &&& (anchor == OverlayPosition::TopCenter || anchor == OverlayPosition::BottomCenter)
                ==> x == area.x + (area.width - overlay_width) / 2
        }),
{
}

} // verus!
