//! Pacing and frame conversion for the Gamescope capture backend.

use vstd::prelude::*;

verus! {

/// Interval between accepted Gamescope frames (50 ms, 20 FPS), in
/// nanoseconds.
pub const FRAME_INTERVAL_NANOS: u64 = 50_000_000;

/// The first deadline of the schedule `base + k * interval` (k >= 0) that
/// lies after `now`.
pub open spec fn next_deadline_after(base: int, now: int) -> int {
    if base > now {
        base
    } else {
        base + ((now - base) / (FRAME_INTERVAL_NANOS as int) + 1) * FRAME_INTERVAL_NANOS
    }
}

/// Decides whether a frame arriving at `now` is taken, keeping a fixed
/// 20 FPS schedule. Before the next deadline the frame is skipped. Otherwise
/// it is taken and the deadline moves to the first slot of the schedule
/// after `now`; the first frame starts the schedule one interval later. A
/// late frame does not shift the long-term schedule.
pub fn advance_frame_deadline(next_frame_due: &mut Option<u64>, now: u64) -> (accepted: bool)
    requires
        now <= u64::MAX - 2 * FRAME_INTERVAL_NANOS,
    ensures
        match *old(next_frame_due) {
            Some(due) if now < due => !accepted && *final(next_frame_due) == Some(due),
            Some(due) => accepted && *final(next_frame_due) == Some(
                next_deadline_after(due as int, now as int) as u64,
            ),
            None => accepted && *final(next_frame_due) == Some(
                (now + FRAME_INTERVAL_NANOS) as u64,
            ),
        },
        accepted ==> match *final(next_frame_due) {
            Some(due) => now < due <= now + FRAME_INTERVAL_NANOS,
            None => false,
        },
{
    if let Some(due) = *next_frame_due {
        if now < due {
            return false;
        }
    }
    let base = match *next_frame_due {
        Some(due) => due,
        None => now + FRAME_INTERVAL_NANOS,
    };
    let mut next_due = base;
    while next_due <= now
        invariant
            base <= now + FRAME_INTERVAL_NANOS,
            now <= u64::MAX - 2 * FRAME_INTERVAL_NANOS,
            base <= next_due <= now + FRAME_INTERVAL_NANOS,
            (next_due - base) % (FRAME_INTERVAL_NANOS as int) == 0,
            next_due > base ==> next_due - FRAME_INTERVAL_NANOS <= now,
        decreases now + FRAME_INTERVAL_NANOS - next_due,
    {
        next_due = next_due + FRAME_INTERVAL_NANOS;
    }
    proof {
        lemma_first_deadline(base as int, next_due as int, now as int);
    }
    *next_frame_due = Some(next_due);
    true
}

proof fn lemma_first_deadline(base: int, next_due: int, now: int)
    requires
        base <= next_due,
        next_due > now,
        (next_due - base) % (FRAME_INTERVAL_NANOS as int) == 0,
        next_due > base ==> next_due - FRAME_INTERVAL_NANOS <= now,
        base >= 0,
        now >= 0,
    ensures
        next_due == next_deadline_after(base, now),
{
    let i = FRAME_INTERVAL_NANOS as int;
    if base <= now {
        let k = (next_due - base) / i;
        assert(next_due == base + k * i) by (nonlinear_arith)
            requires
                (next_due - base) % i == 0,
                k == (next_due - base) / i,
                i > 0,
        ;
        assert(base + (k - 1) * i <= now);
        assert(now < base + k * i);
        assert((now - base) / i == k - 1) by (nonlinear_arith)
            requires
                base + (k - 1) * i <= now,
                now < base + k * i,
                i > 0,
        ;
    }
}

/// Why a mapped Gamescope buffer could not be turned into a frame.
#[derive(Clone, Copy, Debug, PartialEq, Eq, Structural)]
pub enum BgrxLayoutError {
    InvalidDimensions,
    NegativeStride,
    RowSizeOverflow,
    StrideTooSmall { stride: usize, minimum: usize },
    FrameSizeOverflow,
    BufferTooShort { len: usize, required: usize },
    ScaledRowOverflow,
    Frame(crate::frame::FrameError),
}

/// Byte `k` of the scaled RGB frame: nearest-neighbour sampling of the
/// BGRx source, with the blue and red bytes swapped into RGB order.
pub open spec fn scaled_rgb_byte(
    source: Seq<u8>,
    offset: int,
    stride: int,
    width: int,
    height: int,
    target_width: int,
    target_height: int,
    k: int,
) -> u8 {
    let target_stride = target_width * 3;
    let target_y = k / target_stride;
    let target_x = (k % target_stride) / 3;
    let channel = k % 3;
    let source_y = target_y * height / target_height;
    let source_x = target_x * width / target_width;
    source[offset + source_y * stride + source_x * 4 + (2 - channel)]
}

/// Pixel (x, y) of the scaled frame holds, as R, G, B, the bytes at
/// offsets 2, 1 and 0 of BGRx source pixel (x * width / target_width,
/// y * height / target_height): the output keeps the source's left-to-right
/// and top-to-bottom order, and its first row and column come from the
/// source's first row and column.
pub proof fn lemma_scaled_pixel_source(
    source: Seq<u8>,
    offset: int,
    stride: int,
    width: int,
    height: int,
    target_width: int,
    target_height: int,
    x: int,
    y: int,
    channel: int,
)
    requires
        0 <= x < target_width,
        0 <= y < target_height,
        0 <= channel < 3,
    ensures
        scaled_rgb_byte(
            source,
            offset,
            stride,
            width,
            height,
            target_width,
            target_height,
            (y * target_width + x) * 3 + channel,
        ) == source[offset + (y * height / target_height) * stride + (x * width / target_width) * 4
            + (2 - channel)],
{
    let base = y * (target_width * 3) + x * 3;
    assert((y * target_width + x) * 3 + channel == base + channel) by (nonlinear_arith)
        requires base == y * (target_width * 3) + x * 3;
    lemma_byte_position(base, y, x, target_width, channel);
}

/// Output rows keep the source's order: a lower output row never samples
/// a higher source row, and the first output row samples the first source
/// row.
pub proof fn lemma_scaled_rows_keep_order(height: int, target_height: int, y1: int, y2: int)
    requires
        0 <= y1 <= y2 < target_height,
        height >= 0,
    ensures
        y1 * height / target_height <= y2 * height / target_height,
        0 * height / target_height == 0,
{
    assert(y1 * height <= y2 * height) by (nonlinear_arith)
        requires y1 <= y2, height >= 0;
    vstd::arithmetic::div_mod::lemma_div_is_ordered(y1 * height, y2 * height, target_height);
}

/// The bytes the source layout must provide: every row at `stride`
/// spacing after `offset`, the last row only up to its pixels.
pub open spec fn required_len(offset: int, stride: int, width: int, height: int) -> int {
    offset + stride * (height - 1) + width * 4
}

/// Scales a CPU-mapped BGRx buffer of `width` x `height` pixels (rows of
/// `stride` bytes starting `offset` bytes in) to 160 pixels wide, keeping
/// the aspect ratio, as a packed RGB frame.
pub fn frame_from_mapped_bgrx(
    width: u32,
    height: u32,
    offset: u32,
    stride: i32,
    source: &[u8],
) -> (result: Result<crate::frame::RgbFrame, BgrxLayoutError>)
    ensures
        result matches Ok(frame) ==> {
            let tw = frame.width as int;
            let th = frame.height as int;
            &&& crate::capture::gstreamer::proportional_dimensions_spec(width, height, 160)
                == Some((tw as u32, th as u32))
            &&& stride >= 0
            &&& width * 4 <= stride
            &&& required_len(offset as int, stride as int, width as int, height as int) <= source@.len()
            &&& frame.stride == tw * 3
            &&& frame.pixels@.len() == tw * 3 * th
            &&& forall|k: int| 0 <= k < frame.pixels@.len() ==> #[trigger] frame.pixels@[k]
                == scaled_rgb_byte(source@, offset as int, stride as int, width as int, height as int, tw, th, k)
        },
        crate::capture::gstreamer::proportional_dimensions_spec(width, height, 160) is None ==> result
            == Err::<crate::frame::RgbFrame, BgrxLayoutError>(BgrxLayoutError::InvalidDimensions),
        crate::capture::gstreamer::proportional_dimensions_spec(width, height, 160) is Some && stride < 0
            ==> result == Err::<crate::frame::RgbFrame, BgrxLayoutError>(BgrxLayoutError::NegativeStride),
        crate::capture::gstreamer::proportional_dimensions_spec(width, height, 160) is Some && stride >= 0 && width * 4 <= usize::MAX
            && (stride as int) < width * 4 ==> result == Err::<crate::frame::RgbFrame, BgrxLayoutError>(
            BgrxLayoutError::StrideTooSmall { stride: stride as usize, minimum: (width * 4) as usize },
        ),
        crate::capture::gstreamer::proportional_dimensions_spec(width, height, 160) is Some && stride >= 0 && width * 4 <= stride
            && required_len(offset as int, stride as int, width as int, height as int) <= usize::MAX
            && source@.len() < required_len(offset as int, stride as int, width as int, height as int)
            ==> result == Err::<crate::frame::RgbFrame, BgrxLayoutError>(BgrxLayoutError::BufferTooShort {
            len: source@.len() as usize,
            required: required_len(offset as int, stride as int, width as int, height as int) as usize,
        }),
        crate::capture::gstreamer::proportional_dimensions_spec(width, height, 160) matches Some((tw, th))
            && stride >= 0 && width * 4 <= stride
            && required_len(offset as int, stride as int, width as int, height as int) <= source@.len()
            && tw * 3 * th <= usize::MAX ==> result is Ok,
{
    let (target_width, target_height) = match crate::capture::gstreamer::proportional_dimensions(width, height, 160) {
        Some(dimensions) => dimensions,
        None => return Err(BgrxLayoutError::InvalidDimensions),
    };
    if stride < 0 {
        return Err(BgrxLayoutError::NegativeStride);
    }
    let stride = stride as usize;
    let w = width as usize;
    let h = height as usize;
    let off = offset as usize;
    let minimum_stride = match w.checked_mul(4) {
        Some(minimum) => minimum,
        None => return Err(BgrxLayoutError::RowSizeOverflow),
    };
    if stride < minimum_stride {
        return Err(BgrxLayoutError::StrideTooSmall { stride, minimum: minimum_stride });
    }
    let ghost needed = required_len(off as int, stride as int, w as int, h as int);
    let source_len = source.len();
    let rows = match stride.checked_mul(h - 1) {
        Some(rows) => rows,
        None => {
            proof {
                assert(needed > usize::MAX) by (nonlinear_arith)
                    requires
                        needed == off + stride * (h - 1) + w * 4,
                        stride * (h - 1) > usize::MAX,
                        off >= 0,
                        w >= 0,
                ;
            }
            return Err(BgrxLayoutError::FrameSizeOverflow);
        },
    };
    let required = match off.checked_add(rows) {
        Some(value) => match value.checked_add(minimum_stride) {
            Some(required) => required,
            None => return Err(BgrxLayoutError::FrameSizeOverflow),
        },
        None => return Err(BgrxLayoutError::FrameSizeOverflow),
    };
    if source_len < required {
        return Err(BgrxLayoutError::BufferTooShort { len: source_len, required });
    }
    let tw = target_width as usize;
    let th = target_height as usize;
    let target_stride = match tw.checked_mul(3) {
        Some(row) => row,
        None => return Err(BgrxLayoutError::ScaledRowOverflow),
    };
    let total = match target_stride.checked_mul(th) {
        Some(total) => total,
        None => return Err(BgrxLayoutError::ScaledRowOverflow),
    };
    let ghost expected = Seq::new(total as nat, |k: int| scaled_rgb_byte(source@, off as int, stride as int, w as int, h as int, tw as int, th as int, k));
    let mut pixels: Vec<u8> = Vec::new();
    let mut target_y: usize = 0;
    while target_y < th
        invariant
            0 < w, 0 < h, 0 < tw, 0 < th,
            w <= 0xffff_ffff, h <= 0xffff_ffff, tw <= 0xffff_ffff, th <= 0xffff_ffff,
            target_y <= th,
            target_stride == tw * 3,
            total == target_stride * th,
            stride >= w * 4,
            required == off + stride * (h - 1) + w * 4,
            required <= source@.len(),
            expected.len() == total,
            forall|k: int| 0 <= k < total ==> #[trigger] expected[k] == scaled_rgb_byte(source@, off as int, stride as int, w as int, h as int, tw as int, th as int, k),
            pixels@ =~= expected.take(target_y * target_stride),
        decreases th - target_y,
    {
        proof {
            lemma_scaled_index(target_y as int, h as int, th as int);
            assert((target_y as int) * (h as int) <= 0xffff_ffff * 0xffff_ffff) by (nonlinear_arith)
                requires target_y < th, th <= 0xffff_ffff, h <= 0xffff_ffff;
        }
        let source_y = ((target_y as u64) * (h as u64) / (th as u64)) as usize;
        let mut target_x: usize = 0;
        while target_x < tw
            invariant
                0 < w, 0 < h, 0 < tw, 0 < th,
                w <= 0xffff_ffff, h <= 0xffff_ffff, tw <= 0xffff_ffff, th <= 0xffff_ffff,
                target_y < th,
                target_x <= tw,
                target_stride == tw * 3,
                total == target_stride * th,
                stride >= w * 4,
                required == off + stride * (h - 1) + w * 4,
                required <= source@.len(),
                source_y == (target_y as int) * (h as int) / (th as int),
                source_y < h,
                expected.len() == total,
                forall|k: int| 0 <= k < total ==> #[trigger] expected[k] == scaled_rgb_byte(source@, off as int, stride as int, w as int, h as int, tw as int, th as int, k),
                pixels@ =~= expected.take(target_y * target_stride + target_x * 3),
            decreases tw - target_x,
        {
            proof {
                lemma_scaled_index(target_x as int, w as int, tw as int);
                assert((target_x as int) * (w as int) <= 0xffff_ffff * 0xffff_ffff) by (nonlinear_arith)
                    requires target_x < tw, tw <= 0xffff_ffff, w <= 0xffff_ffff;
            }
            let source_x = ((target_x as u64) * (w as u64) / (tw as u64)) as usize;
            proof {
                lemma_source_bounds(off as int, stride as int, w as int, h as int, source_y as int, source_x as int);
                lemma_target_position(target_y as int, target_x as int, tw as int, th as int);
            }
            let source_offset = off + source_y * stride + source_x * 4;
            let base = target_y * target_stride + target_x * 3;
            let ghost before = pixels@;
            pixels.push(source[source_offset + 2]);
            pixels.push(source[source_offset + 1]);
            pixels.push(source[source_offset]);
            proof {
                let b = base as int;
                lemma_byte_position(b, target_y as int, target_x as int, tw as int, 0);
                lemma_byte_position(b, target_y as int, target_x as int, tw as int, 1);
                lemma_byte_position(b, target_y as int, target_x as int, tw as int, 2);
                assert(b + 0 == b);
                assert(expected[b] == source@[source_offset + 2]);
                assert(expected[b + 1] == source@[source_offset + 1]);
                assert(expected[b + 2] == source@[source_offset as int]);
                assert(pixels@ =~= expected.take(b + 3));
            }
            target_x = target_x + 1;
        }
        proof {
            assert(target_y * target_stride + tw * 3 == (target_y + 1) * target_stride) by (nonlinear_arith)
                requires target_stride == tw * 3;
        }
        target_y = target_y + 1;
    }
    assert(pixels@ =~= expected);
    match crate::frame::RgbFrame::new(tw, th, target_stride, pixels) {
        Ok(frame) => Ok(frame),
        Err(error) => Err(BgrxLayoutError::Frame(error)),
    }
}

/// A target coordinate below `target` maps to a source coordinate below
/// `source`.
proof fn lemma_scaled_index(t: int, source: int, target: int)
    requires
        0 <= t < target,
        0 < source,
    ensures
        0 <= t * source / target < source,
{
    assert(0 <= t * source) by (nonlinear_arith)
        requires 0 <= t, 0 < source;
    assert(t * source < target * source) by (nonlinear_arith)
        requires 0 <= t < target, 0 < source;
    assert(t * source / target < source) by (nonlinear_arith)
        requires t * source < target * source, 0 < target, 0 <= t * source;
    assert(0 <= t * source / target) by (nonlinear_arith)
        requires 0 <= t * source, 0 < target;
}

proof fn lemma_source_bounds(offset: int, stride: int, width: int, height: int, y: int, x: int)
    requires
        0 <= offset,
        0 <= y < height,
        0 <= x < width,
        stride >= width * 4,
    ensures
        offset + y * stride + x * 4 + 2 < offset + stride * (height - 1) + width * 4,
        0 <= y * stride,
{
    assert(y * stride <= stride * (height - 1)) by (nonlinear_arith)
        requires 0 <= y <= height - 1, stride >= 0;
    assert(0 <= y * stride) by (nonlinear_arith)
        requires 0 <= y, stride >= 0;
}

proof fn lemma_target_position(y: int, x: int, tw: int, th: int)
    requires
        0 <= y < th,
        0 <= x < tw,
    ensures
        y * (tw * 3) + x * 3 + 3 <= tw * 3 * th,
        0 <= y * (tw * 3),
{
    assert(y * (tw * 3) + x * 3 + 3 <= (y + 1) * (tw * 3)) by (nonlinear_arith)
        requires x < tw;
    assert((y + 1) * (tw * 3) <= th * (tw * 3)) by (nonlinear_arith)
        requires y + 1 <= th, tw >= 0;
    assert(tw * 3 * th == th * (tw * 3)) by (nonlinear_arith);
    assert(0 <= y * (tw * 3)) by (nonlinear_arith)
        requires 0 <= y, 0 <= tw;
}

proof fn lemma_byte_position(base: int, y: int, x: int, tw: int, c: int)
    requires
        0 <= y,
        0 <= x < tw,
        0 <= c < 3,
        base == y * (tw * 3) + x * 3,
    ensures
        (base + c) / (tw * 3) == y,
        ((base + c) % (tw * 3)) / 3 == x,
        (base + c) % 3 == c,
{
    let ts = tw * 3;
    assert(0 <= x * 3 + c < ts);
    assert(base + c == y * ts + (x * 3 + c));
    assert((base + c) / ts == y && (base + c) % ts == x * 3 + c) by (nonlinear_arith)
        requires base + c == y * ts + (x * 3 + c), 0 <= x * 3 + c < ts, 0 <= y;
    assert((x * 3 + c) / 3 == x && (x * 3 + c) % 3 == c) by (nonlinear_arith)
        requires 0 <= c < 3;
    let m = y * tw + x;
    assert(base + c == 3 * m + c) by (nonlinear_arith)
        requires base + c == y * ts + (x * 3 + c), ts == tw * 3, m == y * tw + x;
    assert((base + c) % 3 == c) by (nonlinear_arith)
        requires base + c == 3 * m + c, 0 <= c < 3;
}

} // verus!
