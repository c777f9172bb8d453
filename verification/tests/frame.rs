use logig560::frame::{FrameError, MaskError, RgbFrame, ZoneMasks};
use logig560::Zone;

const ZONES: [Zone; 4] = [Zone::LeftRear, Zone::LeftFront, Zone::RightFront, Zone::RightRear];

fn mirrored(zone: Zone) -> Zone {
    match zone {
        Zone::LeftRear => Zone::RightRear,
        Zone::LeftFront => Zone::RightFront,
        Zone::RightFront => Zone::LeftFront,
        Zone::RightRear => Zone::LeftRear,
    }
}

fn assert_complete_disjoint_masks(width: usize, height: usize) {
    let masks = ZoneMasks::compile_g560(width, height).unwrap();
    let mut memberships = vec![0_u8; width * height];
    for zone in ZONES {
        for &index in masks.indices(zone) {
            assert!(index < memberships.len());
            memberships[index] += 1;
        }
    }

    assert!(memberships.into_iter().all(|count| count == 1));

    for y in 0..height {
        for x in 0..width / 2 {
            assert_eq!(
                masks.zone_at(width - 1 - x, y),
                mirrored(masks.zone_at(x, y)),
                "mask is not horizontally symmetric at ({x}, {y}) for {width}x{height}"
            );
        }
        if width % 2 == 1 {
            assert_eq!(
                masks.zone_at(width / 2, y),
                Zone::RightFront,
                "center pixel is not owned by RightFront at y={y} for {width}x{height}"
            );
        }
    }
}

#[test]
fn packed_rgb_frame_rejects_wrong_byte_length() {
    assert!(RgbFrame::new(2, 2, 6, vec![0; 11]).is_err());
}

#[test]
fn g560_masks_cover_each_pixel_once_at_varied_resolutions() {
    for (width, height) in [(160, 90), (1, 1), (2, 2), (90, 160), (320, 90)] {
        assert_complete_disjoint_masks(width, height);
    }
}

#[test]
fn g560_masks_assign_representative_pixels() {
    let masks = ZoneMasks::compile_g560(160, 90).unwrap();

    assert_eq!(masks.zone_at(0, 0), Zone::LeftRear);
    assert_eq!(masks.zone_at(159, 0), Zone::RightRear);
    assert_eq!(masks.zone_at(80, 1), Zone::RightFront);
    assert_eq!(masks.zone_at(79, 89), Zone::LeftFront);
    assert_eq!(masks.zone_at(80, 89), Zone::RightFront);
}

#[test]
fn shared_diagonal_boundary_is_owned_by_mirrored_front_zones() {
    let masks = ZoneMasks::compile_g560(256, 128).unwrap();

    assert_eq!(masks.zone_at(111, 17), Zone::LeftFront);
    assert_eq!(masks.zone_at(144, 17), Zone::RightFront);
}

#[test]
fn g560_masks_remain_mirrored_across_resolution_sweep() {
    for width in 1..=128 {
        for height in [1, 2, 3, 17, 90, 128] {
            assert_complete_disjoint_masks(width, height);
        }
    }
}

#[test]
fn masks_report_their_dimensions_and_sorted_indices() {
    let masks = ZoneMasks::compile_g560(7, 3).unwrap();
    assert_eq!((masks.width(), masks.height()), (7, 3));
    for zone in ZONES {
        let indices = masks.indices(zone);
        assert!(indices.windows(2).all(|pair| pair[0] < pair[1]));
        for &index in indices {
            assert_eq!(masks.zone_at(index % 7, index / 7), zone);
        }
    }
}

#[test]
fn masks_refuse_empty_dimensions() {
    assert!(matches!(ZoneMasks::compile_g560(0, 90), Err(MaskError::ZeroWidth)));
    assert!(matches!(ZoneMasks::compile_g560(160, 0), Err(MaskError::ZeroHeight)));
    assert!(matches!(
        ZoneMasks::compile_g560(usize::MAX, 2),
        Err(MaskError::PixelCountOverflow)
    ));
}

#[test]
fn masks_from_an_assignment_keep_it() {
    let zones = vec![Zone::RightRear, Zone::LeftRear, Zone::LeftFront, Zone::RightFront];
    let masks = ZoneMasks::from_assignment(2, 2, &zones).unwrap();
    assert_eq!(masks.zone_at(0, 0), Zone::RightRear);
    assert_eq!(masks.zone_at(1, 0), Zone::LeftRear);
    assert_eq!(masks.zone_at(0, 1), Zone::LeftFront);
    assert_eq!(masks.zone_at(1, 1), Zone::RightFront);
    assert_eq!(masks.indices(Zone::LeftFront), &[2]);
}

#[test]
fn frame_accepts_padded_rows() {
    let frame = RgbFrame::new(2, 2, 8, vec![0; 16]).unwrap();
    assert_eq!((frame.width, frame.height, frame.stride), (2, 2, 8));
    assert_eq!(frame.pixels.len(), 16);
}

#[test]
fn frame_layout_errors_are_typed() {
    assert!(matches!(RgbFrame::new(0, 2, 6, vec![]), Err(FrameError::ZeroWidth)));
    assert!(matches!(RgbFrame::new(2, 0, 6, vec![]), Err(FrameError::ZeroHeight)));
    assert!(matches!(RgbFrame::new(2, 2, 5, vec![0; 10]), Err(FrameError::StrideTooSmall)));
}
