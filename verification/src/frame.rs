//! Captured RGB frames and the per-zone pixel masks that partition them.

use vstd::prelude::*;

use crate::color::{zone_index, Zone};

verus! {

/// Why a frame's dimensions or byte buffer were refused.
#[derive(Clone, Copy, Debug, PartialEq, Eq, Structural)]
pub enum FrameError {
    ZeroWidth,
    ZeroHeight,
    StrideOverflow,
    StrideTooSmall,
    LengthOverflow,
    WrongLength,
}

/// A packed-or-padded 8-bit RGB frame: `height` rows of `stride` bytes, each
/// row starting with `width` RGB triples.
#[derive(Clone, Debug, PartialEq, Eq)]
pub struct RgbFrame {
    pub width: usize,
    pub height: usize,
    pub stride: usize,
    pub pixels: Vec<u8>,
}

/// The verdict on a frame layout, checked in this order: nonzero width,
/// nonzero height, a representable packed row, a stride that holds it, a
/// representable byte length, and a buffer of exactly that length.
pub open spec fn frame_layout_verdict(width: int, height: int, stride: int, len: int) -> Result<
    (),
    FrameError,
> {
    if width == 0 {
        Err(FrameError::ZeroWidth)
    } else if height == 0 {
        Err(FrameError::ZeroHeight)
    } else if width * 3 > usize::MAX {
        Err(FrameError::StrideOverflow)
    } else if stride < width * 3 {
        Err(FrameError::StrideTooSmall)
    } else if stride * height > usize::MAX {
        Err(FrameError::LengthOverflow)
    } else if len != stride * height {
        Err(FrameError::WrongLength)
    } else {
        Ok(())
    }
}

impl RgbFrame {
    /// A frame whose layout is consistent.
    pub open spec fn well_formed(&self) -> bool {
        frame_layout_verdict(
            self.width as int,
            self.height as int,
            self.stride as int,
            self.pixels@.len() as int,
        ) is Ok
    }

    /// Builds a frame after checking its layout.
    pub fn new(width: usize, height: usize, stride: usize, pixels: Vec<u8>) -> (result: Result<
        RgbFrame,
        FrameError,
    >)
        ensures
            match frame_layout_verdict(
                width as int,
                height as int,
                stride as int,
                pixels@.len() as int,
            ) {
                Ok(()) => result == Ok::<RgbFrame, FrameError>(
                    RgbFrame { width, height, stride, pixels },
                ),
                Err(error) => result == Err::<RgbFrame, FrameError>(error),
            },
    {
        if width == 0 {
            return Err(FrameError::ZeroWidth);
        }
        if height == 0 {
            return Err(FrameError::ZeroHeight);
        }
        let packed_stride = match width.checked_mul(3) {
            Some(packed) => packed,
            None => return Err(FrameError::StrideOverflow),
        };
        if stride < packed_stride {
            return Err(FrameError::StrideTooSmall);
        }
        let expected_len = match stride.checked_mul(height) {
            Some(len) => len,
            None => return Err(FrameError::LengthOverflow),
        };
        if pixels.len() != expected_len {
            return Err(FrameError::WrongLength);
        }
        Ok(RgbFrame { width, height, stride, pixels })
    }
}

/// Why zone masks could not be built.
#[derive(Clone, Copy, Debug, PartialEq, Eq, Structural)]
pub enum MaskError {
    ZeroWidth,
    ZeroHeight,
    PixelCountOverflow,
    WrongZoneCount,
}

/// The zone that owns pixel (x, y) of a `width` x `height` frame under the
/// built-in G560 layout.
///
/// The layout splits the frame at its vertical center line into a left and a
/// right half (a center column belongs to the right half) and mirrors the
/// left half's boundary onto the right. On the left, the front zone lies
/// inside a boundary from (0.50, 0.00) to a knee at (0.17, 0.70) and on to
/// (0.14, 1.00), in normalized coordinates. A pixel is tested at its center,
/// measured from the nearer side edge; a center exactly on the boundary is
/// front. Everything is scaled by 2 * width * height so the test is exact.
pub open spec fn g560_zone(x: int, y: int, width: int, height: int) -> Zone {
    let right_half = x >= width / 2;
    let left_x = if x <= width - 1 - x { x } else { width - 1 - x };
    let dx = 2 * left_x + 1;
    let dy = 2 * y + 1;
    let front = if 10 * dy <= 14 * height {
        70 * height * (width - dx) <= 33 * width * dy
    } else {
        100 * height * dx + 10 * width * dy >= 48 * width * height
    };
    if !right_half {
        if front {
            Zone::LeftFront
        } else {
            Zone::LeftRear
        }
    } else {
        if front {
            Zone::RightFront
        } else {
            Zone::RightRear
        }
    }
}

/// The zone that faces `zone` across the vertical center line.
pub open spec fn mirrored(zone: Zone) -> Zone {
    match zone {
        Zone::LeftRear => Zone::RightRear,
        Zone::LeftFront => Zone::RightFront,
        Zone::RightFront => Zone::LeftFront,
        Zone::RightRear => Zone::LeftRear,
    }
}

/// The G560 assignment of every pixel, in row-major order.
pub open spec fn g560_assignment(width: int, height: int) -> Seq<Zone> {
    Seq::new((width * height) as nat, |k: int| g560_zone(k % width, k / width, width, height))
}

/// The built-in layout is mirror-symmetric: a left-half pixel and its mirror
/// image in the right half belong to facing zones.
pub proof fn lemma_g560_mirror(x: int, y: int, width: int, height: int)
    requires
        width > 0,
        height > 0,
        0 <= x < width / 2,
        0 <= y < height,
    ensures
        g560_zone(width - 1 - x, y, width, height) == mirrored(g560_zone(x, y, width, height)),
{
}

/// Which side of the directed line from (ax, ay) to (bx, by) the point
/// (px, py) lies on: the cross product of the line's direction with the
/// point's offset from its start (zero on the line).
pub open spec fn cross(ax: int, ay: int, bx: int, by: int, px: int, py: int) -> int {
    (bx - ax) * (py - ay) - (by - ay) * (px - ax)
}

/// Whether a zone is one of the two front zones.
pub open spec fn is_front(zone: Zone) -> bool {
    zone == Zone::LeftFront || zone == Zone::RightFront
}

/// The G560 boundary in plain geometry. Take a pixel's center in
/// coordinates where the frame is `200 * width * height` units on each
/// side, measured across from the nearer side edge and down from the top:
/// the pixel lies on the left (its column below `width / 2`) or the right
/// half, and it is a front pixel exactly when its center is on the center
/// side of, or on, the boundary. Above the knee (at 0.70 of the height)
/// the boundary is the line from (0.50, 0.00) to (0.17, 0.70); below it,
/// the line from (0.17, 0.70) to (0.14, 1.00).
pub proof fn lemma_g560_boundary(x: int, y: int, width: int, height: int)
    requires
        width > 0,
        height > 0,
        0 <= x < width,
        0 <= y < height,
    ensures
        ({
            let zone = g560_assignment(width, height)[y * width + x];
            let unit = width * height;
            let near = if x <= width - 1 - x { x } else { width - 1 - x };
            let px = 100 * (2 * near + 1) * height;
            let py = 100 * (2 * y + 1) * width;
            &&& (x < width / 2) == (zone == Zone::LeftFront || zone == Zone::LeftRear)
            &&& py <= 140 * unit ==> (is_front(zone) <==> cross(
                100 * unit,
                0,
                34 * unit,
                140 * unit,
                px,
                py,
            ) <= 0)
            &&& py >= 140 * unit ==> (is_front(zone) <==> cross(
                34 * unit,
                140 * unit,
                28 * unit,
                200 * unit,
                px,
                py,
            ) <= 0)
        }),
{
    lemma_g560_assignment_at(x, y, width, height);
    let unit = width * height;
    let near = if x <= width - 1 - x { x } else { width - 1 - x };
    let dx = 2 * near + 1;
    let dy = 2 * y + 1;
    let px = 100 * dx * height;
    let py = 100 * dy * width;
    assert(cross(100 * unit, 0, 34 * unit, 140 * unit, px, py) == -200 * unit * (33 * width * dy
        - 70 * height * (width - dx))) by (nonlinear_arith)
        requires
            unit == width * height,
            px == 100 * dx * height,
            py == 100 * dy * width,
    ;
    assert(cross(34 * unit, 140 * unit, 28 * unit, 200 * unit, px, py) == -60 * unit * (100
        * height * dx + 10 * width * dy - 48 * width * height)) by (nonlinear_arith)
        requires
            unit == width * height,
            px == 100 * dx * height,
            py == 100 * dy * width,
    ;
    assert(unit > 0) by (nonlinear_arith)
        requires unit == width * height, width > 0, height > 0;
    assert((py <= 140 * unit) == (10 * dy <= 14 * height)) by (nonlinear_arith)
        requires unit == width * height, py == 100 * dy * width, width > 0;
    assert((py >= 140 * unit) == (10 * dy >= 14 * height)) by (nonlinear_arith)
        requires unit == width * height, py == 100 * dy * width, width > 0;
    lemma_sign_of_scaled(-200 * unit, 33 * width * dy - 70 * height * (width - dx));
    lemma_sign_of_scaled(-60 * unit, 100 * height * dx + 10 * width * dy - 48 * width * height);
    if 10 * dy == 14 * height {
        // At the knee both boundaries pass through (0.17, 0.70).
        assert(33 * width * dy - 70 * height * (width - dx) >= 0 <==> 100 * height * dx + 10
            * width * dy - 48 * width * height >= 0) by (nonlinear_arith)
            requires 10 * dy == 14 * height, width > 0, height > 0;
    }
}

/// Entry `y * width + x` of the row-major assignment is pixel (x, y).
proof fn lemma_g560_assignment_at(x: int, y: int, width: int, height: int)
    requires
        width > 0,
        height > 0,
        0 <= x < width,
        0 <= y < height,
    ensures
        0 <= y * width + x < width * height,
        g560_assignment(width, height)[y * width + x] == g560_zone(x, y, width, height),
{
    assert(0 <= y * width + x < width * height) by (nonlinear_arith)
        requires 0 <= x < width, 0 <= y < height;
    vstd::arithmetic::div_mod::lemma_fundamental_div_mod_converse(y * width + x, width, y, x);
}

/// A negative factor flips the sign of a product.
proof fn lemma_sign_of_scaled(factor: int, value: int)
    requires
        factor < 0,
    ensures
        (factor * value <= 0) == (value >= 0),
{
    assert((factor * value <= 0) == (value >= 0)) by (nonlinear_arith)
        requires factor < 0;
}

/// On an odd width the center column belongs to the right front zone.
pub proof fn lemma_g560_center_column(y: int, width: int, height: int)
    requires
        width > 0,
        width % 2 == 1,
        height > 0,
        0 <= y < height,
    ensures
        g560_zone(width / 2, y, width, height) == Zone::RightFront,
{
    let dx = 2 * (width / 2) + 1;
    assert(dx == width);
    assert(70 * height * (width - dx) == 0);
    assert(33 * width * (2 * y + 1) >= 0) by (nonlinear_arith)
        requires
            width > 0,
            y >= 0,
    ;
    assert(100 * height * dx >= 48 * width * height) by (nonlinear_arith)
        requires
            dx == width,
            height > 0,
            width > 0,
    ;
    assert(10 * width * (2 * y + 1) >= 0) by (nonlinear_arith)
        requires
            width > 0,
            y >= 0,
    ;
}

/// Exact integer evaluation of the G560 rule.
fn g560_zone_at_pixel(x: usize, y: usize, width: usize, height: usize) -> (zone: Zone)
    requires
        x < width,
        y < height,
        width * height <= usize::MAX,
    ensures
        zone == g560_zone(x as int, y as int, width as int, height as int),
{
    let right_half = x >= width / 2;
    let left_x = if x <= width - 1 - x {
        x
    } else {
        width - 1 - x
    };
    let w = width as u128;
    let h = height as u128;
    let dx = 2 * (left_x as u128) + 1;
    let dy = 2 * (y as u128) + 1;
    proof {
        assert(w * h <= usize::MAX);
        assert(dx <= w);
        assert(dy <= 2 * h);
        assert(h * (w - dx) <= h * w) by (nonlinear_arith)
            requires
                dx <= w,
        ;
        assert(w * dy <= w * (2 * h)) by (nonlinear_arith)
            requires
                dy <= 2 * h,
        ;
        assert(h * dx <= h * w) by (nonlinear_arith)
            requires
                dx <= w,
        ;
        assert(w * h == h * w) by (nonlinear_arith);
        assert(70 * h * (w - dx) == 70 * (h * (w - dx))) by (nonlinear_arith);
        assert(33 * w * dy == 33 * (w * dy)) by (nonlinear_arith);
        assert(100 * h * dx == 100 * (h * dx)) by (nonlinear_arith);
        assert(10 * w * dy == 10 * (w * dy)) by (nonlinear_arith);
        assert(48 * w * h == 48 * (w * h)) by (nonlinear_arith);
        assert(w * (2 * h) == 2 * (w * h)) by (nonlinear_arith);
    }
    let above_knee = 10 * dy <= 14 * h;
    let front = if above_knee {
        70 * h * (w - dx) <= 33 * w * dy
    } else {
        100 * h * dx + 10 * w * dy >= 48 * w * h
    };
    if !right_half {
        if front {
            Zone::LeftFront
        } else {
            Zone::LeftRear
        }
    } else {
        if front {
            Zone::RightFront
        } else {
            Zone::RightRear
        }
    }
}

/// A strictly increasing sequence of indices.
pub open spec fn strictly_increasing(s: Seq<usize>) -> bool {
    forall|i: int, j: int| 0 <= i < j < s.len() ==> s[i] < s[j]
}

/// For every pixel, the list of the zone that owns it, sorted; a mask set
/// with a width, a height and the owning zone of each pixel in row-major
/// order.
pub struct ZoneMasks {
    width: usize,
    height: usize,
    left_rear: Vec<usize>,
    left_front: Vec<usize>,
    right_front: Vec<usize>,
    right_rear: Vec<usize>,
    assignment: Ghost<Seq<Zone>>,
}

/// The index lists hold exactly the pixels that `assignment` gives each
/// zone, in increasing order.
pub open spec fn lists_match(lists: Seq<Seq<usize>>, assignment: Seq<Zone>) -> bool {
    &&& lists.len() == 4
    &&& forall|z: int| 0 <= z < 4 ==> strictly_increasing(#[trigger] lists[z])
    &&& forall|z: int, i: int|
        0 <= z < 4 && 0 <= i < lists[z].len() ==> #[trigger] lists[z][i] < assignment.len()
            && zone_index(assignment[lists[z][i] as int]) == z
    &&& forall|k: int|
        0 <= k < assignment.len() ==> #[trigger] lists[zone_index(assignment[k])].contains(
            k as usize,
        )
}

impl ZoneMasks {
    spec fn lists(&self) -> Seq<Seq<usize>> {
        seq![self.left_rear@, self.left_front@, self.right_front@, self.right_rear@]
    }

    /// The masks cover a frame of positive, representable size, and each
    /// zone's list holds exactly the pixels the assignment gives it.
    pub closed spec fn well_formed(&self) -> bool {
        &&& self.width > 0
        &&& self.height > 0
        &&& self.width * self.height <= usize::MAX
        &&& self.assignment@.len() == self.width * self.height
        &&& lists_match(self.lists(), self.assignment@)
    }

    /// The width the masks were built for.
    pub closed spec fn spec_width(&self) -> usize {
        self.width
    }

    /// The height the masks were built for.
    pub closed spec fn spec_height(&self) -> usize {
        self.height
    }

    /// The zone owning each pixel, in row-major order.
    pub closed spec fn assignment(&self) -> Seq<Zone> {
        self.assignment@
    }

    /// The sorted pixel indices of one zone.
    pub closed spec fn zone_indices(&self, zone: Zone) -> Seq<usize> {
        self.lists()[zone_index(zone)]
    }

    /// Every mask set covers its frame: a positive size whose pixel count is
    /// representable, one owner per pixel, and each zone's list holds
    /// exactly its pixels in increasing order.
    pub proof fn lemma_partition(&self)
        requires
            self.well_formed(),
        ensures
            self.spec_width() > 0,
            self.spec_height() > 0,
            self.spec_width() * self.spec_height() <= usize::MAX,
            self.assignment().len() == self.spec_width() * self.spec_height(),
            forall|zone: Zone| strictly_increasing(#[trigger] self.zone_indices(zone)),
            forall|zone: Zone, index: usize| #[trigger]
                self.zone_indices(zone).contains(index) <==> (index < self.assignment().len()
                    && self.assignment()[index as int] == zone),
    {
        let lists = self.lists();
        assert forall|zone: Zone| strictly_increasing(#[trigger] self.zone_indices(zone)) by {
            assert(0 <= zone_index(zone) < 4);
        }
        assert forall|zone: Zone, index: usize| #[trigger]
            self.zone_indices(zone).contains(index) <==> (index < self.assignment().len()
                && self.assignment()[index as int] == zone) by {
            let z = zone_index(zone);
            if self.zone_indices(zone).contains(index) {
                let i = choose|i: int| 0 <= i < lists[z].len() && lists[z][i] == index;
                assert(zone_index(self.assignment()[index as int]) == z);
                lemma_zone_index_injective(self.assignment()[index as int], zone);
            }
            if index < self.assignment().len() && self.assignment()[index as int] == zone {
                let k = index as int;
                assert(lists[zone_index(self.assignment@[k])].contains(k as usize));
            }
        }
    }

    /// The width the masks were built for.
    pub fn width(&self) -> (width: usize)
        ensures
            width == self.spec_width(),
    {
        self.width
    }

    /// The height the masks were built for.
    pub fn height(&self) -> (height: usize)
        ensures
            height == self.spec_height(),
    {
        self.height
    }

    /// The sorted row-major indices of the pixels a zone owns.
    pub fn indices(&self, zone: Zone) -> (indices: &[usize])
        ensures
            indices@ == self.zone_indices(zone),
    {
        match zone {
            Zone::LeftRear => self.left_rear.as_slice(),
            Zone::LeftFront => self.left_front.as_slice(),
            Zone::RightFront => self.right_front.as_slice(),
            Zone::RightRear => self.right_rear.as_slice(),
        }
    }

    /// Masks for the built-in G560 layout.
    pub fn compile_g560(width: usize, height: usize) -> (result: Result<ZoneMasks, MaskError>)
        ensures
            width == 0 ==> result == Err::<ZoneMasks, MaskError>(MaskError::ZeroWidth),
            width > 0 && height == 0 ==> result == Err::<ZoneMasks, MaskError>(
                MaskError::ZeroHeight,
            ),
            width > 0 && height > 0 && width * height > usize::MAX ==> result == Err::<
                ZoneMasks,
                MaskError,
            >(MaskError::PixelCountOverflow),
            width > 0 && height > 0 && width * height <= usize::MAX ==> (result matches Ok(masks)
                && masks.spec_width() == width && masks.spec_height() == height
                && masks.assignment() == g560_assignment(width as int, height as int)
                && masks.well_formed()),
    {
        if width == 0 {
            return Err(MaskError::ZeroWidth);
        }
        if height == 0 {
            return Err(MaskError::ZeroHeight);
        }
        let pixel_count = match width.checked_mul(height) {
            Some(count) => count,
            None => return Err(MaskError::PixelCountOverflow),
        };
        let ghost assignment = g560_assignment(width as int, height as int);
        let mut lr: Vec<usize> = Vec::new();
        let mut lf: Vec<usize> = Vec::new();
        let mut rf: Vec<usize> = Vec::new();
        let mut rr: Vec<usize> = Vec::new();
        let mut index: usize = 0;
        while index < pixel_count
            invariant
                width > 0,
                height > 0,
                pixel_count == width * height,
                assignment == g560_assignment(width as int, height as int),
                index <= pixel_count,
                lists_match(seq![lr@, lf@, rf@, rr@], assignment.take(index as int)),
            decreases pixel_count - index,
        {
            let x = index % width;
            let y = index / width;
            proof {
                assert(y < height) by (nonlinear_arith)
                    requires
                        index < width * height,
                        y == index / width,
                        width > 0,
                ;
            }
            let zone = g560_zone_at_pixel(x, y, width, height);
            assert(assignment[index as int] == zone);
            let ghost before = seq![lr@, lf@, rf@, rr@];
            match zone {
                Zone::LeftRear => lr.push(index),
                Zone::LeftFront => lf.push(index),
                Zone::RightFront => rf.push(index),
                Zone::RightRear => rr.push(index),
            }
            proof {
                lemma_lists_extend(before, seq![lr@, lf@, rf@, rr@], assignment, index as int);
            }
            index = index + 1;
        }
        assert(assignment.take(pixel_count as int) =~= assignment);
        Ok(ZoneMasks {
            width,
            height,
            left_rear: lr,
            left_front: lf,
            right_front: rf,
            right_rear: rr,
            assignment: Ghost(assignment),
        })
    }

    /// Masks from an explicit owner for every pixel, in row-major order.
    pub fn from_assignment(width: usize, height: usize, zones: &Vec<Zone>) -> (result: Result<
        ZoneMasks,
        MaskError,
    >)
        ensures
            width == 0 ==> result == Err::<ZoneMasks, MaskError>(MaskError::ZeroWidth),
            width > 0 && height == 0 ==> result == Err::<ZoneMasks, MaskError>(
                MaskError::ZeroHeight,
            ),
            width > 0 && height > 0 && width * height > usize::MAX ==> result == Err::<
                ZoneMasks,
                MaskError,
            >(MaskError::PixelCountOverflow),
            width > 0 && height > 0 && width * height <= usize::MAX && zones@.len() != width
                * height ==> result == Err::<ZoneMasks, MaskError>(MaskError::WrongZoneCount),
            width > 0 && height > 0 && width * height <= usize::MAX && zones@.len() == width
                * height ==> (result matches Ok(masks) && masks.spec_width() == width
                && masks.spec_height() == height && masks.assignment() == zones@
                && masks.well_formed()),
    {
        if width == 0 {
            return Err(MaskError::ZeroWidth);
        }
        if height == 0 {
            return Err(MaskError::ZeroHeight);
        }
        let pixel_count = match width.checked_mul(height) {
            Some(count) => count,
            None => return Err(MaskError::PixelCountOverflow),
        };
        if zones.len() != pixel_count {
            return Err(MaskError::WrongZoneCount);
        }
        let ghost assignment = zones@;
        let mut lr: Vec<usize> = Vec::new();
        let mut lf: Vec<usize> = Vec::new();
        let mut rf: Vec<usize> = Vec::new();
        let mut rr: Vec<usize> = Vec::new();
        let mut index: usize = 0;
        while index < pixel_count
            invariant
                pixel_count == zones@.len(),
                assignment == zones@,
                index <= pixel_count,
                lists_match(seq![lr@, lf@, rf@, rr@], assignment.take(index as int)),
            decreases pixel_count - index,
        {
            let zone = zones[index];
            let ghost before = seq![lr@, lf@, rf@, rr@];
            match zone {
                Zone::LeftRear => lr.push(index),
                Zone::LeftFront => lf.push(index),
                Zone::RightFront => rf.push(index),
                Zone::RightRear => rr.push(index),
            }
            proof {
                lemma_lists_extend(before, seq![lr@, lf@, rf@, rr@], assignment, index as int);
            }
            index = index + 1;
        }
        assert(assignment.take(pixel_count as int) =~= assignment);
        Ok(ZoneMasks {
            width,
            height,
            left_rear: lr,
            left_front: lf,
            right_front: rf,
            right_rear: rr,
            assignment: Ghost(assignment),
        })
    }

    /// The zone that owns pixel (x, y).
    pub fn zone_at(&self, x: usize, y: usize) -> (zone: Zone)
        requires
            self.well_formed(),
            x < self.spec_width(),
            y < self.spec_height(),
        ensures
            zone == self.assignment()[y * self.spec_width() + x],
    {
        proof {
            self.lemma_partition();
            assert(y * self.width + x < self.width * self.height) by (nonlinear_arith)
                requires
                    x < self.width,
                    y < self.height,
            ;
        }
        let index = y * self.width + x;
        let ghost owner = self.assignment@[index as int];
        assert(self.zone_indices(owner).contains(index));
        if sorted_contains(&self.left_rear, index) {
            assert(self.zone_indices(Zone::LeftRear).contains(index));
            Zone::LeftRear
        } else if sorted_contains(&self.left_front, index) {
            assert(self.zone_indices(Zone::LeftFront).contains(index));
            Zone::LeftFront
        } else if sorted_contains(&self.right_front, index) {
            assert(self.zone_indices(Zone::RightFront).contains(index));
            Zone::RightFront
        } else {
            proof {
                if owner != Zone::RightRear {
                    assert(false);
                }
            }
            Zone::RightRear
        }
    }
}

proof fn lemma_zone_index_injective(a: Zone, b: Zone)
    ensures
        zone_index(a) == zone_index(b) <==> a == b,
{
}

/// Appending pixel `index` to the list of its owner keeps the lists
/// matching the assignment's next prefix.
proof fn lemma_lists_extend(
    before: Seq<Seq<usize>>,
    after: Seq<Seq<usize>>,
    assignment: Seq<Zone>,
    index: int,
)
    requires
        0 <= index < assignment.len(),
        index <= usize::MAX,
        lists_match(before, assignment.take(index)),
        after.len() == 4,
        forall|z: int|
            0 <= z < 4 ==> #[trigger] after[z] == if z == zone_index(assignment[index]) {
                before[z].push(index as usize)
            } else {
                before[z]
            },
    ensures
        lists_match(after, assignment.take(index + 1)),
{
    let prefix = assignment.take(index);
    let next = assignment.take(index + 1);
    let owner = zone_index(assignment[index]);
    assert forall|z: int| 0 <= z < 4 implies strictly_increasing(#[trigger] after[z]) by {
        if z == owner {
            assert forall|i: int, j: int| 0 <= i < j < after[z].len() implies after[z][i]
                < after[z][j] by {
                if j == after[z].len() - 1 {
                    assert(before[z][i] < prefix.len());
                } else {
                    assert(strictly_increasing(before[z]));
                }
            }
        }
    }
    assert forall|z: int, i: int| 0 <= z < 4 && 0 <= i < after[z].len() implies #[trigger] after[z][i]
        < next.len() && zone_index(next[after[z][i] as int]) == z by {
        if z == owner && i == after[z].len() - 1 {
        } else {
            assert(before[z][i] < prefix.len());
            assert(next[before[z][i] as int] == prefix[before[z][i] as int]);
        }
    }
    assert forall|k: int| 0 <= k < next.len() implies #[trigger] after[zone_index(
        next[k],
    )].contains(k as usize) by {
        if k == index {
            assert(after[owner][after[owner].len() - 1] == index as usize);
        } else {
            assert(next[k] == prefix[k]);
            let z = zone_index(prefix[k]);
            assert(before[z].contains(k as usize));
            let i = choose|i: int| 0 <= i < before[z].len() && before[z][i] == k as usize;
            assert(after[z][i] == k as usize);
        }
    }
}

/// Binary search in a strictly increasing vector.
fn sorted_contains(values: &Vec<usize>, target: usize) -> (found: bool)
    requires
        strictly_increasing(values@),
    ensures
        found == values@.contains(target),
{
    let mut low: usize = 0;
    let mut high: usize = values.len();
    while low < high
        invariant
            0 <= low <= high <= values@.len(),
            strictly_increasing(values@),
            forall|i: int| 0 <= i < low ==> values@[i] < target,
            forall|i: int| high <= i < values@.len() ==> values@[i] > target,
        decreases high - low,
    {
        let middle = low + (high - low) / 2;
        if values[middle] == target {
            return true;
        } else if values[middle] < target {
            low = middle + 1;
        } else {
            high = middle;
        }
    }
    proof {
        if values@.contains(target) {
            let i = choose|i: int| 0 <= i < values@.len() && values@[i] == target;
            assert(false);
        }
    }
    false
}

} // verus!
