//! Where a screen-cast stream lies on the desktop. Portal compositor
//! coordinates and normalized capture pixels are distinct: only a unique,
//! exact logical monitor match can place an overlay over captured text.

use vstd::prelude::*;

use crate::contracts::PixelRect;
use crate::resources::{trim_bounds, trimmed};
use crate::text::{chars_of, parse_unsigned, parsed_unsigned};

verus! {

#[derive(Clone, Copy, Debug, PartialEq, Eq, Structural)]
pub struct LogicalRect {
    pub x: i32,
    pub y: i32,
    pub width: i32,
    pub height: i32,
}

/// What a screen-cast stream shows.
#[derive(Clone, Copy, Debug, PartialEq, Eq, Structural)]
pub enum PortalSource {
    Monitor,
    Window,
    Virtual,
}

/// What the compositor says of a stream: its kind, and for a monitor its
/// logical position and size.
#[derive(Clone, Copy, Debug, PartialEq, Eq)]
pub struct StreamInfo {
    pub source: PortalSource,
    pub logical_position: Option<(i32, i32)>,
    pub logical_size: Option<(u32, u32)>,
}

/// The pixel geometry of the stream's frames: the buffer, the part of it
/// that holds the picture, and the picture's size once rotated upright.
#[derive(Clone, Copy, Debug, PartialEq, Eq, Structural)]
pub struct FrameGeometry {
    pub raw_width: u32,
    pub raw_height: u32,
    pub crop: PixelRect,
    pub transform: u32,
    pub width: u32,
    pub height: u32,
}

#[derive(Clone, Copy, Debug, PartialEq, Eq)]
pub struct PortalGeometry {
    pub stream: StreamInfo,
    pub frame: FrameGeometry,
    pub region: Option<PixelRect>,
}

impl PixelRect {
    /// The whole of a `width` by `height` frame.
    pub fn full(width: u32, height: u32) -> (rect: Self)
        ensures
            rect == (PixelRect { x: 0, y: 0, width, height }),
    {
        PixelRect { x: 0, y: 0, width, height }
    }
}

/// How many of `monitors` are exactly `monitor`.
pub open spec fn count_equal(monitors: Seq<LogicalRect>, monitor: LogicalRect) -> nat
    decreases monitors.len(),
{
    if monitors.len() == 0 {
        0
    } else {
        count_equal(monitors.drop_last(), monitor) + if monitors.last() == monitor {
            1nat
        } else {
            0nat
        }
    }
}

/// `pixel` of `pixels` scaled to `logical` units, rounded to nearest.
pub open spec fn scaled(pixel: nat, logical: nat, pixels: nat) -> int {
    ((pixel * logical + pixels / 2) / pixels) as int
}

pub open spec fn fits_i32(value: int) -> bool {
    i32::MIN <= value <= i32::MAX
}

/// The logical rectangle that `region` of a `frame_width` by
/// `frame_height` picture covers on a monitor at `(x, y)` of `width` by
/// `height` logical units, when every coordinate fits.
pub open spec fn logical_region(
    x: i32,
    y: i32,
    width: u32,
    height: u32,
    frame_width: u32,
    frame_height: u32,
    region: PixelRect,
) -> Option<LogicalRect> {
    let left = scaled(region.x as nat, width as nat, frame_width as nat);
    let top = scaled(region.y as nat, height as nat, frame_height as nat);
    let right = scaled((region.x + region.width) as nat, width as nat, frame_width as nat);
    let bottom = scaled((region.y + region.height) as nat, height as nat, frame_height as nat);
    if fits_i32(left) && fits_i32(top) && fits_i32(right) && fits_i32(bottom) && right > left
        && bottom > top && fits_i32(x + left) && fits_i32(y + top) {
        Some(
            LogicalRect {
                x: (x + left) as i32,
                y: (y + top) as i32,
                width: (right - left) as i32,
                height: (bottom - top) as i32,
            },
        )
    } else {
        None
    }
}

/// Where on the desktop the captured picture, or its selected region,
/// lies: only for a whole, upright monitor stream that matches exactly one
/// of `monitors` and whose aspect agrees with the monitor's to one pixel.
pub open spec fn anchor_of(geometry: PortalGeometry, monitors: Seq<LogicalRect>) -> Option<LogicalRect> {
    let stream = geometry.stream;
    let frame = geometry.frame;
    match (stream.logical_position, stream.logical_size) {
        (Some((x, y)), Some((width, height))) => {
            let monitor = LogicalRect {
                x,
                y,
                width: width as i32,
                height: height as i32,
            };
            let wide: int = frame.width * height;
            let tall: int = frame.height * width;
            let cross = if wide >= tall { wide - tall } else { tall - wide };
            let region = match geometry.region {
                Some(region) => region,
                None => PixelRect { x: 0, y: 0, width: frame.width, height: frame.height },
            };
            if stream.source != PortalSource::Monitor || width > i32::MAX || height > i32::MAX
                || width == 0 || height == 0 || count_equal(monitors, monitor) != 1 || frame.crop
                != (PixelRect { x: 0, y: 0, width: frame.raw_width, height: frame.raw_height })
                || frame.width == 0 || frame.height == 0 || cross > if width >= height {
                width
            } else {
                height
            } || !region.fits_within_spec(frame.width, frame.height) {
                None
            } else {
                logical_region(x, y, width, height, frame.width, frame.height, region)
            }
        },
        _ => None,
    }
}

fn count_monitor(monitors: &[LogicalRect], monitor: LogicalRect) -> (count: usize)
    ensures
        count == count_equal(monitors@, monitor),
{
    let mut count: usize = 0;
    let mut index: usize = 0;
    while index < monitors.len()
        invariant
            index <= monitors@.len(),
            count == count_equal(monitors@.take(index as int), monitor),
            count <= index,
        decreases monitors@.len() - index,
    {
        assert(monitors@.take(index + 1).drop_last() =~= monitors@.take(index as int));
        if monitors[index] == monitor {
            count = count + 1;
        }
        index = index + 1;
    }
    assert(monitors@.take(monitors@.len() as int) =~= monitors@);
    count
}

fn scale(pixel: u32, logical: u32, pixels: u32) -> (value: Option<i32>)
    requires
        pixels > 0,
    ensures
        value == if fits_i32(scaled(pixel as nat, logical as nat, pixels as nat)) {
            Some(scaled(pixel as nat, logical as nat, pixels as nat) as i32)
        } else {
            None::<i32>
        },
{
    assert((pixel as nat) * (logical as nat) <= 0xffff_ffffnat * 0xffff_ffffnat) by (nonlinear_arith);
    let product = (pixel as u64) * (logical as u64);
    let value = (product + (pixels as u64) / 2) / (pixels as u64);
    if value > (i32::MAX as u64) {
        None
    } else {
        Some(value as i32)
    }
}

impl PortalGeometry {
    /// Where on the desktop the captured picture, or its selected region,
    /// lies, given the logical monitors of the desktop.
    pub fn anchor(&self, monitors: &[LogicalRect]) -> (anchored: Option<LogicalRect>)
        ensures
            anchored == anchor_of(*self, monitors@),
    {
        if self.stream.source != PortalSource::Monitor {
            return None;
        }
        let (x, y) = match self.stream.logical_position {
            Some(position) => position,
            None => return None,
        };
        let (width, height) = match self.stream.logical_size {
            Some(size) => size,
            None => return None,
        };
        if width > (i32::MAX as u32) || height > (i32::MAX as u32) {
            return None;
        }
        let monitor = LogicalRect { x, y, width: width as i32, height: height as i32 };
        if width == 0 || height == 0 || count_monitor(monitors, monitor) != 1 {
            return None;
        }
        if self.frame.crop != PixelRect::full(self.frame.raw_width, self.frame.raw_height)
            || self.frame.width == 0 || self.frame.height == 0 {
            return None;
        }
        assert((self.frame.width as nat) * (height as nat) <= 0xffff_ffffnat * 0xffff_ffffnat)
            by (nonlinear_arith);
        assert((self.frame.height as nat) * (width as nat) <= 0xffff_ffffnat * 0xffff_ffffnat)
            by (nonlinear_arith);
        let wide = (self.frame.width as u64) * (height as u64);
        let tall = (self.frame.height as u64) * (width as u64);
        let cross = if wide >= tall {
            wide - tall
        } else {
            tall - wide
        };
        let larger = if width >= height {
            width
        } else {
            height
        };
        if cross > (larger as u64) {
            return None;
        }
        let region = match self.region {
            Some(region) => region,
            None => PixelRect::full(self.frame.width, self.frame.height),
        };
        if !region.fits_within(self.frame.width, self.frame.height) {
            return None;
        }
        let left = match scale(region.x, width, self.frame.width) {
            Some(value) => value,
            None => return None,
        };
        let top = match scale(region.y, height, self.frame.height) {
            Some(value) => value,
            None => return None,
        };
        let right = match scale(region.x + region.width, width, self.frame.width) {
            Some(value) => value,
            None => return None,
        };
        let bottom = match scale(region.y + region.height, height, self.frame.height) {
            Some(value) => value,
            None => return None,
        };
        if !(right > left && bottom > top) {
            return None;
        }
        let anchored_x = match x.checked_add(left) {
            Some(value) => value,
            None => return None,
        };
        let anchored_y = match y.checked_add(top) {
            Some(value) => value,
            None => return None,
        };
        Some(LogicalRect { x: anchored_x, y: anchored_y, width: right - left, height: bottom - top })
    }
}

proof fn scaled_within(pixel: nat, logical: nat, pixels: nat)
    requires
        pixels > 0,
        pixel <= pixels,
    ensures
        0 <= scaled(pixel, logical, pixels) <= logical,
{
    assert(pixel * logical <= pixels * logical) by (nonlinear_arith)
        requires
            pixel <= pixels,
    ;
    assert((pixels * logical + pixels / 2) / pixels == logical) by (nonlinear_arith)
        requires
            pixels > 0,
    ;
    assert((pixel * logical + pixels / 2) / pixels <= (pixels * logical + pixels / 2) / pixels)
        by (nonlinear_arith)
        requires
            pixels > 0,
            pixel * logical <= pixels * logical,
    ;
}

/// An anchored overlay region lies on the monitor that the stream shows.
pub proof fn anchor_lies_on_the_monitor(geometry: PortalGeometry, monitors: Seq<LogicalRect>)
    ensures
        anchor_of(geometry, monitors) matches Some(rect) ==> ({
            let (x, y) = geometry.stream.logical_position->0;
            let (width, height) = geometry.stream.logical_size->0;
            &&& x <= rect.x
            &&& y <= rect.y
            &&& rect.width > 0
            &&& rect.height > 0
            &&& rect.x + rect.width <= x + width
            &&& rect.y + rect.height <= y + height
        }),
{
    if let Some(rect) = anchor_of(geometry, monitors) {
        let (x, y) = geometry.stream.logical_position->0;
        let (width, height) = geometry.stream.logical_size->0;
        let frame = geometry.frame;
        let region = match geometry.region {
            Some(region) => region,
            None => PixelRect { x: 0, y: 0, width: frame.width, height: frame.height },
        };
        scaled_within(region.x as nat, width as nat, frame.width as nat);
        scaled_within(region.y as nat, height as nat, frame.height as nat);
        scaled_within((region.x + region.width) as nat, width as nat, frame.width as nat);
        scaled_within((region.y + region.height) as nat, height as nat, frame.height as nat);
    }
}

/// The value typed into one field of the region form: its trimmed text read
/// as a `u32`, as `str::parse` reads it.
pub open spec fn entered_value(text: Seq<char>) -> Option<nat> {
    parsed_unsigned(trimmed(text), u32::MAX as nat)
}

fn entered_field(text: &str) -> (value: Option<u32>)
    ensures
        value == match entered_value(text@) {
            Some(v) => Some(v as u32),
            None => None,
        },
{
    let chars = chars_of(text);
    let (start, end) = trim_bounds(&chars);
    match parse_unsigned(&chars, start, end, u32::MAX as u64) {
        Some(v) => Some(v as u32),
        None => None,
    }
}

/// The region typed into the selector's four fields, when every field
/// holds a number.
pub fn entered_region(x: &str, y: &str, width: &str, height: &str) -> (region: Option<PixelRect>)
    ensures
        match (entered_value(x@), entered_value(y@), entered_value(width@), entered_value(height@)) {
            (Some(rx), Some(ry), Some(rw), Some(rh)) => region == Some(
                PixelRect { x: rx as u32, y: ry as u32, width: rw as u32, height: rh as u32 },
            ),
            _ => region is None,
        },
{
    let x = entered_field(x)?;
    let y = entered_field(y)?;
    let width = entered_field(width)?;
    let height = entered_field(height)?;
    Some(PixelRect { x, y, width, height })
}

/// The smallest region, in pixels, the region selector accepts.
pub const MIN_REGION_WIDTH: u32 = 80;

pub const MIN_REGION_HEIGHT: u32 = 60;

/// Whether the selector accepts `region` on a display of `width` by
/// `height` pixels: it lies on the display and is at least 80 by 60 pixels.
pub fn selectable_region(region: PixelRect, width: u32, height: u32) -> (accepted: bool)
    ensures
        accepted == (region.fits_within_spec(width, height) && region.width >= MIN_REGION_WIDTH
            && region.height >= MIN_REGION_HEIGHT),
{
    region.fits_within(width, height) && region.width >= MIN_REGION_WIDTH && region.height
        >= MIN_REGION_HEIGHT
}

} // verus!
