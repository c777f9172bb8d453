use logig560::transition::{TransitionController, ZoneFade, DEFAULT_TRANSITION_DURATION_NANOS};
use logig560::{Rgb8, ZoneColors};

const MILLI: u64 = 1_000_000;
const RED: Rgb8 = Rgb8 { r: 255, g: 0, b: 0 };
const BLUE: Rgb8 = Rgb8 { r: 0, g: 0, b: 255 };
const BLACK: Rgb8 = Rgb8 { r: 0, g: 0, b: 0 };
const RED_ZONES: ZoneColors = ZoneColors([RED; 4]);
const BLUE_ZONES: ZoneColors = ZoneColors([BLUE; 4]);

#[test]
fn default_duration_is_90_milliseconds() {
    assert_eq!(DEFAULT_TRANSITION_DURATION_NANOS, 90 * MILLI);
}

#[test]
fn a_new_controller_rests_on_its_initial_colors() {
    let transition = TransitionController::new(RED_ZONES, 90 * MILLI);
    assert!(transition.is_complete(0));
    assert_eq!(transition.fades_at(12345), [ZoneFade::Settled(RED); 4]);
    assert_eq!(transition.target(), RED_ZONES);
}

#[test]
fn fade_reaches_its_target_exactly_at_its_duration() {
    let start = 1_000 * MILLI;
    let mut transition = TransitionController::new(ZoneColors([BLACK; 4]), 90 * MILLI);
    transition.retarget(ZoneColors([BLACK; 4]), RED_ZONES, start);

    assert_eq!(
        transition.fades_at(start),
        [ZoneFade::Fading { start: BLACK, target: RED, elapsed: 0, duration: 90 * MILLI }; 4]
    );
    assert!(!transition.is_complete(start));
    assert!(!transition.is_complete(start + 89 * MILLI));
    assert_eq!(transition.fades_at(start + 90 * MILLI), [ZoneFade::Settled(RED); 4]);
    assert!(transition.is_complete(start + 90 * MILLI));
}

#[test]
fn a_moment_before_the_start_counts_as_no_time_elapsed() {
    let start = 1_000 * MILLI;
    let mut transition = TransitionController::new(ZoneColors([BLACK; 4]), 90 * MILLI);
    transition.retarget(ZoneColors([BLACK; 4]), RED_ZONES, start);
    assert_eq!(
        transition.fades_at(start - MILLI)[0],
        ZoneFade::Fading { start: BLACK, target: RED, elapsed: 0, duration: 90 * MILLI }
    );
}

#[test]
fn retargeting_starts_from_the_visible_colors() {
    let start = 1_000 * MILLI;
    let mut transition = TransitionController::new(ZoneColors([BLACK; 4]), 90 * MILLI);
    transition.retarget(ZoneColors([BLACK; 4]), RED_ZONES, start);

    let interruption = start + 45 * MILLI;
    let midway = Rgb8 { r: 128, g: 0, b: 0 };
    transition.retarget(ZoneColors([midway; 4]), BLUE_ZONES, interruption);

    assert_eq!(
        transition.fades_at(interruption),
        [ZoneFade::Fading { start: midway, target: BLUE, elapsed: 0, duration: 90 * MILLI }; 4]
    );
    assert_eq!(transition.fades_at(interruption + 90 * MILLI), [ZoneFade::Settled(BLUE); 4]);
}

#[test]
fn zone_specific_durations_finish_independently() {
    let start = 1_000 * MILLI;
    let mut transition = TransitionController::new(RED_ZONES, 90 * MILLI);
    transition.retarget_with_zone_durations(
        RED_ZONES,
        ZoneColors([BLACK, BLUE, BLUE, BLUE]),
        start,
        [200 * MILLI, 90 * MILLI, 90 * MILLI, 90 * MILLI],
    );

    let at_ninety = transition.fades_at(start + 90 * MILLI);
    assert_eq!(
        at_ninety[0],
        ZoneFade::Fading { start: RED, target: BLACK, elapsed: 90 * MILLI, duration: 200 * MILLI }
    );
    assert_eq!(&at_ninety[1..], &[ZoneFade::Settled(BLUE); 3]);
    assert!(!transition.is_complete(start + 90 * MILLI));
    assert!(transition.is_complete(start + 200 * MILLI));
    assert_eq!(
        transition.fades_at(start + 200 * MILLI),
        [
            ZoneFade::Settled(BLACK),
            ZoneFade::Settled(BLUE),
            ZoneFade::Settled(BLUE),
            ZoneFade::Settled(BLUE)
        ]
    );
}

#[test]
fn a_complete_fade_stays_complete() {
    let mut transition = TransitionController::new(RED_ZONES, 90 * MILLI);
    transition.retarget(RED_ZONES, BLUE_ZONES, 0);
    for later in [90 * MILLI, 91 * MILLI, 10_000 * MILLI, u64::MAX] {
        assert!(transition.is_complete(later));
    }
}
