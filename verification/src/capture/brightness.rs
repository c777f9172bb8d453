//! Brightness statistics of captured frames, as the capture test reports
//! them: the brightest component seen and how many pixels are visibly lit.

use vstd::prelude::*;

use crate::frame::RgbFrame;

verus! {

/// A pixel counts as visible when its brightest component reaches this.
pub const VISIBLE_COMPONENT: u8 = 32;

/// The larger of two components.
pub open spec fn max_u8(a: u8, b: u8) -> u8 {
    if a >= b {
        a
    } else {
        b
    }
}

/// The brightest component of the pixel whose three bytes start at `base`.
pub open spec fn pixel_peak(pixels: Seq<u8>, base: int) -> u8 {
    max_u8(max_u8(pixels[base], pixels[base + 1]), pixels[base + 2])
}

/// The brightest component among the first `count` pixels of row `row`.
pub open spec fn row_peak(pixels: Seq<u8>, stride: int, row: int, count: nat) -> u8
    decreases count,
{
    if count == 0 {
        0
    } else {
        max_u8(
            row_peak(pixels, stride, row, (count - 1) as nat),
            pixel_peak(pixels, row * stride + (count - 1) * 3),
        )
    }
}

/// How many of the first `count` pixels of row `row` are visible.
pub open spec fn row_visible(pixels: Seq<u8>, stride: int, row: int, count: nat) -> nat
    decreases count,
{
    if count == 0 {
        0
    } else {
        row_visible(pixels, stride, row, (count - 1) as nat) + if pixel_peak(
            pixels,
            row * stride + (count - 1) * 3,
        ) >= VISIBLE_COMPONENT {
            1nat
        } else {
            0nat
        }
    }
}

/// The brightest component over the first `rows` rows of `width` pixels.
pub open spec fn rows_peak(pixels: Seq<u8>, stride: int, width: nat, rows: nat) -> u8
    decreases rows,
{
    if rows == 0 {
        0
    } else {
        max_u8(
            rows_peak(pixels, stride, width, (rows - 1) as nat),
            row_peak(pixels, stride, rows - 1, width),
        )
    }
}

/// How many pixels are visible over the first `rows` rows of `width` pixels.
pub open spec fn rows_visible(pixels: Seq<u8>, stride: int, width: nat, rows: nat) -> nat
    decreases rows,
{
    if rows == 0 {
        0
    } else {
        rows_visible(pixels, stride, width, (rows - 1) as nat) + row_visible(
            pixels,
            stride,
            rows - 1,
            width,
        )
    }
}

/// The complete rows of a frame's buffer: a trailing partial row is not
/// read.
pub open spec fn complete_rows(frame: &RgbFrame) -> nat {
    (frame.pixels@.len() / (frame.stride as nat)) as nat
}

/// How bright one frame is.
#[derive(Clone, Copy, Debug, PartialEq, Eq, Structural)]
pub struct FrameBrightness {
    /// The brightest component of any pixel.
    pub peak_component: u8,
    /// The pixels whose brightest component is at least 32.
    pub visible_pixels: usize,
}

proof fn lemma_row_visible_bounded(pixels: Seq<u8>, stride: int, row: int, count: nat)
    ensures
        row_visible(pixels, stride, row, count) <= count,
    decreases count,
{
    if count > 0 {
        lemma_row_visible_bounded(pixels, stride, row, (count - 1) as nat);
    }
}

proof fn lemma_rows_visible_bounded(pixels: Seq<u8>, stride: int, width: nat, rows: nat)
    ensures
        rows_visible(pixels, stride, width, rows) <= rows * width,
    decreases rows,
{
    if rows > 0 {
        lemma_rows_visible_bounded(pixels, stride, width, (rows - 1) as nat);
        lemma_row_visible_bounded(pixels, stride, rows - 1, width);
        assert((rows - 1) * width + width == rows * width) by (nonlinear_arith);
    }
}

/// Measures a frame over its complete rows, reading the first `width`
/// pixels of each. A zero stride, or one too short for a row of `width`
/// pixels, cannot be read.
pub fn frame_brightness(frame: &RgbFrame) -> (brightness: FrameBrightness)
    requires
        frame.stride > 0,
        frame.width * 3 <= frame.stride,
    ensures
        brightness.peak_component == rows_peak(
            frame.pixels@,
            frame.stride as int,
            frame.width as nat,
            complete_rows(frame),
        ),
        brightness.visible_pixels == rows_visible(
            frame.pixels@,
            frame.stride as int,
            frame.width as nat,
            complete_rows(frame),
        ),
{
    let stride = frame.stride;
    let width = frame.width;
    let len = frame.pixels.len();
    let rows = len / stride;
    let ghost p = frame.pixels@;
    assert(p.len() == len);
    proof {
        assert(rows * stride <= p.len()) by (nonlinear_arith)
            requires rows == p.len() / (stride as nat), stride > 0;
        assert(rows * width <= rows * stride) by (nonlinear_arith)
            requires width * 3 <= stride, rows >= 0;
    }
    let mut peak: u8 = 0;
    let mut visible: usize = 0;
    let mut row: usize = 0;
    while row < rows
        invariant
            p == frame.pixels@,
            stride == frame.stride,
            width == frame.width,
            stride > 0,
            width * 3 <= stride,
            rows == p.len() / (stride as nat),
            rows * stride <= p.len(),
            p.len() <= usize::MAX,
            rows * width <= rows * stride,
            row <= rows,
            peak == rows_peak(p, stride as int, width as nat, row as nat),
            visible == rows_visible(p, stride as int, width as nat, row as nat),
        decreases rows - row,
    {
        proof {
            lemma_rows_visible_bounded(p, stride as int, width as nat, row as nat);
            assert((row + 1) * stride <= rows * stride) by (nonlinear_arith)
                requires row < rows, stride > 0;
            assert(row * stride + stride == (row + 1) * stride) by (nonlinear_arith);
            assert(row * width + width <= rows * width) by (nonlinear_arith)
                requires row < rows;
        }
        let row_start = row * stride;
        let mut row_max: u8 = 0;
        let mut row_count: usize = 0;
        let mut column: usize = 0;
        while column < width
            invariant
                p == frame.pixels@,
                stride == frame.stride,
                width == frame.width,
                width * 3 <= stride,
                row < rows,
                row_start == row * stride,
                row_start + stride <= p.len(),
                row * width + width <= rows * width,
                rows * width <= rows * stride,
                rows * stride <= p.len(),
                p.len() <= usize::MAX,
                column <= width,
                row_max == row_peak(p, stride as int, row as int, column as nat),
                row_count == row_visible(p, stride as int, row as int, column as nat),
                visible == rows_visible(p, stride as int, width as nat, row as nat),
                visible <= row * width,
            decreases width - column,
        {
            proof {
                lemma_row_visible_bounded(p, stride as int, row as int, column as nat);
            }
            let base = row_start + column * 3;
            let red = frame.pixels[base];
            let green = frame.pixels[base + 1];
            let blue = frame.pixels[base + 2];
            let red_green = if red >= green { red } else { green };
            let component = if red_green >= blue { red_green } else { blue };
            if component > row_max {
                row_max = component;
            }
            if component >= VISIBLE_COMPONENT {
                row_count = row_count + 1;
            }
            column = column + 1;
        }
        proof {
            lemma_row_visible_bounded(p, stride as int, row as int, width as nat);
        }
        if row_max > peak {
            peak = row_max;
        }
        visible = visible + row_count;
        row = row + 1;
    }
    FrameBrightness { peak_component: peak, visible_pixels: visible }
}

/// What the capture test has seen so far.
#[derive(Clone, Copy, Debug, PartialEq, Eq, Structural)]
pub struct CaptureTestSummary {
    /// Frames with at least one nonzero component.
    pub non_black_frames: usize,
    /// The most visible pixels in any one frame.
    pub peak_visible_pixels: usize,
    /// The brightest component of any frame.
    pub peak_component: u8,
}

impl CaptureTestSummary {
    /// Nothing seen yet.
    pub fn new() -> (summary: CaptureTestSummary)
        ensures
            summary == (CaptureTestSummary {
                non_black_frames: 0,
                peak_visible_pixels: 0,
                peak_component: 0,
            }),
    {
        CaptureTestSummary { non_black_frames: 0, peak_visible_pixels: 0, peak_component: 0 }
    }

    /// Adds one measured frame.
    pub fn record(&mut self, frame: FrameBrightness)
        requires
            old(self).non_black_frames < usize::MAX,
        ensures
            final(self).non_black_frames == old(self).non_black_frames + if frame.peak_component
                != 0 {
                1int
            } else {
                0int
            },
            final(self).peak_visible_pixels == if frame.visible_pixels
                > old(self).peak_visible_pixels {
                frame.visible_pixels
            } else {
                old(self).peak_visible_pixels
            },
            final(self).peak_component == max_u8(old(self).peak_component, frame.peak_component),
    {
        if frame.peak_component != 0 {
            self.non_black_frames = self.non_black_frames + 1;
        }
        if frame.visible_pixels > self.peak_visible_pixels {
            self.peak_visible_pixels = frame.visible_pixels;
        }
        if frame.peak_component > self.peak_component {
            self.peak_component = frame.peak_component;
        }
    }
}

} // verus!
