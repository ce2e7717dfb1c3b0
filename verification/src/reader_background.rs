//! Whether a captured region shows the translation reader's own background,
//! so that recognized text there is the app's output and not the source's.
//! Where to sample is computed by the caller from the region's bounds; this
//! module judges the sampled pixels.

use vstd::prelude::*;

verus! {

/// The reader's background color, in the blue, green, red order of the
/// captured pixels.
pub const READER_BLUE: u8 = 0x39;
pub const READER_GREEN: u8 = 0x2d;
pub const READER_RED: u8 = 0x13;

/// The most a color channel may differ from the reader's and still match,
/// allowing for rounding in the compositor's color conversion.
pub const READER_COLOR_TOLERANCE: u8 = 8;

/// The least number of the 49 samples that must match the background:
/// room is left for antialiased glyphs, without masking ordinary subtitles
/// that happen to hold the same words.
pub const READER_MIN_MATCHES: usize = 30;

pub open spec fn channel_close(actual: u8, expected: u8) -> bool {
    if actual >= expected {
        actual - expected <= READER_COLOR_TOLERANCE
    } else {
        expected - actual <= READER_COLOR_TOLERANCE
    }
}

/// Whether the pixel at byte `offset` of `pixels` has the reader's color.
pub open spec fn background_at(pixels: Seq<u8>, offset: int) -> bool {
    &&& offset + 3 <= pixels.len()
    &&& channel_close(pixels[offset], READER_BLUE)
    &&& channel_close(pixels[offset + 1], READER_GREEN)
    &&& channel_close(pixels[offset + 2], READER_RED)
}

/// How many of the sampled pixels at `offsets` have the reader's color.
pub open spec fn background_matches(pixels: Seq<u8>, offsets: Seq<usize>) -> nat
    decreases offsets.len(),
{
    if offsets.len() == 0 {
        0
    } else {
        background_matches(pixels, offsets.drop_last()) + if background_at(
            pixels,
            offsets.last() as int,
        ) {
            1nat
        } else {
            0nat
        }
    }
}

fn close(actual: u8, expected: u8) -> (near: bool)
    ensures
        near == channel_close(actual, expected),
{
    if actual >= expected {
        actual - expected <= READER_COLOR_TOLERANCE
    } else {
        expected - actual <= READER_COLOR_TOLERANCE
    }
}

/// Counts the sampled pixels that have the reader's color.
pub fn count_background_samples(pixels: &[u8], offsets: &Vec<usize>) -> (count: usize)
    ensures
        count == background_matches(pixels@, offsets@),
{
    let mut count: usize = 0;
    let mut index: usize = 0;
    while index < offsets.len()
        invariant
            index <= offsets@.len(),
            count == background_matches(pixels@, offsets@.take(index as int)),
            count <= index,
        decreases offsets@.len() - index,
    {
        let offset = offsets[index];
        assert(offsets@.take(index + 1).drop_last() =~= offsets@.take(index as int));
        assert(offsets@.take(index + 1).last() == offset);
        let length = pixels.len();
        if length >= 3 && offset <= length - 3 && close(pixels[offset], READER_BLUE) && close(
            pixels[offset + 1],
            READER_GREEN,
        ) && close(pixels[offset + 2], READER_RED) {
            count = count + 1;
        }
        index = index + 1;
    }
    assert(offsets@.take(offsets@.len() as int) =~= offsets@);
    count
}

/// Whether enough of the sampled pixels have the reader's color to take
/// the region for the reader itself.
pub fn has_reader_background_samples(pixels: &[u8], offsets: &Vec<usize>) -> (present: bool)
    ensures
        present == (background_matches(pixels@, offsets@) >= READER_MIN_MATCHES),
{
    count_background_samples(pixels, offsets) >= READER_MIN_MATCHES
}

} // verus!
