use logig560::{validate_manual_updates, ApiError, ManualZoneUpdate, RgbColor, ZoneId};

#[test]
fn manual_update_rejects_duplicate_zones() {
    let red = RgbColor { red: 255, green: 0, blue: 0 };
    let updates = vec![
        ManualZoneUpdate { zone: ZoneId::LeftFront, color: red, brightness: 100 },
        ManualZoneUpdate { zone: ZoneId::LeftFront, color: red, brightness: 50 },
    ];
    assert_eq!(
        validate_manual_updates(&updates),
        Err(ApiError::DuplicateZone(ZoneId::LeftFront))
    );
}

#[test]
fn brightness_must_be_at_most_one_hundred() {
    let update = ManualZoneUpdate {
        zone: ZoneId::RightRear,
        color: RgbColor { red: 1, green: 2, blue: 3 },
        brightness: 101,
    };
    assert_eq!(validate_manual_updates(&[update]), Err(ApiError::InvalidBrightness(101)));
}

#[test]
fn manual_update_rejects_an_empty_list() {
    assert_eq!(validate_manual_updates(&[]), Err(ApiError::EmptyManualUpdate));
}

#[test]
fn manual_update_accepts_a_nonempty_unique_subset() {
    let updates = vec![
        ManualZoneUpdate {
            zone: ZoneId::LeftRear,
            color: RgbColor { red: 1, green: 2, blue: 3 },
            brightness: 0,
        },
        ManualZoneUpdate {
            zone: ZoneId::RightFront,
            color: RgbColor { red: 4, green: 5, blue: 6 },
            brightness: 100,
        },
    ];

    assert_eq!(validate_manual_updates(&updates), Ok(()));
}

#[test]
fn first_error_in_list_order_is_reported() {
    let red = RgbColor { red: 255, green: 0, blue: 0 };
    let updates = vec![
        ManualZoneUpdate { zone: ZoneId::LeftRear, color: red, brightness: 100 },
        ManualZoneUpdate { zone: ZoneId::LeftRear, color: red, brightness: 100 },
        ManualZoneUpdate { zone: ZoneId::RightRear, color: red, brightness: 200 },
    ];
    assert_eq!(validate_manual_updates(&updates), Err(ApiError::DuplicateZone(ZoneId::LeftRear)));

    let updates = vec![
        ManualZoneUpdate { zone: ZoneId::LeftRear, color: red, brightness: 150 },
        ManualZoneUpdate { zone: ZoneId::LeftRear, color: red, brightness: 100 },
    ];
    assert_eq!(validate_manual_updates(&updates), Err(ApiError::InvalidBrightness(150)));
}

#[test]
fn all_four_zones_at_full_brightness_are_accepted() {
    let color = RgbColor { red: 9, green: 8, blue: 7 };
    let updates = vec![
        ManualZoneUpdate { zone: ZoneId::LeftRear, color, brightness: 100 },
        ManualZoneUpdate { zone: ZoneId::LeftFront, color, brightness: 100 },
        ManualZoneUpdate { zone: ZoneId::RightFront, color, brightness: 100 },
        ManualZoneUpdate { zone: ZoneId::RightRear, color, brightness: 100 },
    ];
    assert_eq!(validate_manual_updates(&updates), Ok(()));
}
