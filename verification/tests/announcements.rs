//! What is announced about live windows, and the values underneath.

use hana_clerestory::device::RoleKey;
use hana_clerestory::geometry::UVec2;
use hana_clerestory::output_proof::cadence;
use hana_clerestory::output_proof::native_reading;
use hana_clerestory::output_proof::poll_windows_on_screen;
use hana_clerestory::output_proof::NextWindowOnScreenReadingAt;
use hana_clerestory::output_proof::ScriptedWindowOnScreenReadings;
use hana_clerestory::output_proof::WindowOnScreenObservation;
use hana_clerestory::output_proof::WindowOnScreenReading;
use hana_clerestory::resize_announcement::AnnouncedPhysicalSizes;
use hana_clerestory::role_map::RoleMap;
use hana_clerestory::text;
use hana_clerestory::time::OperatingSystemWorkDeadline;
use hana_clerestory::time::OperatingSystemWorkDeadlineStatus;
use hana_clerestory::time::TimeSpan;
use hana_clerestory::time::WindowStabilityInterval;
use hana_clerestory::time::WindowStabilityIntervalStatus;
use hana_clerestory::time::MAX_NANOSECONDS;

const WINDOW: u64 = 7;

fn windowed_app() -> AnnouncedPhysicalSizes {
    let mut announced = AnnouncedPhysicalSizes::new();
    announced.announce_unpublished_resizes(&vec![(WINDOW, UVec2::new(1_280, 720))]);
    announced
}

#[test]
fn announces_a_resolution_written_without_a_message() {
    let mut app = windowed_app();

    assert_eq!(
        app.announce_unpublished_resizes(&vec![(WINDOW, UVec2::new(3_456, 2_104))]),
        vec![(WINDOW, UVec2::new(3_456, 2_104))]
    );
}

#[test]
fn announces_nothing_for_a_window_whose_size_did_not_change() {
    let mut app = windowed_app();

    assert!(app
        .announce_unpublished_resizes(&vec![(WINDOW, UVec2::new(1_280, 720))])
        .is_empty());
}

#[test]
fn announces_nothing_on_the_frame_a_window_first_appears() {
    let mut announced = AnnouncedPhysicalSizes::new();

    assert!(announced
        .announce_unpublished_resizes(&vec![(WINDOW, UVec2::new(3_456, 2_104))])
        .is_empty());
}

#[test]
fn announces_each_change_once() {
    let mut app = windowed_app();
    app.announce_unpublished_resizes(&vec![(WINDOW, UVec2::new(3_456, 2_104))]);

    assert!(app
        .announce_unpublished_resizes(&vec![(WINDOW, UVec2::new(3_456, 2_104))])
        .is_empty());
}

#[test]
fn the_poll_reads_the_window_once_per_half_cadence() {
    let half_cadence = cadence().half().nanoseconds();
    let mut next_reading_at = NextWindowOnScreenReadingAt::new();
    let mut readings = ScriptedWindowOnScreenReadings::new();
    readings.script(WINDOW, WindowOnScreenReading::ReportedVisible);
    let mut elapsed = 0;
    poll_windows_on_screen(
        &mut next_reading_at,
        TimeSpan::from_nanoseconds(elapsed),
        &vec![WINDOW],
        &mut readings,
    );
    let readings_before = readings.readings_taken();

    let mut advance = |step: u128, readings: &mut ScriptedWindowOnScreenReadings| {
        elapsed += step;
        poll_windows_on_screen(
            &mut next_reading_at,
            TimeSpan::from_nanoseconds(elapsed),
            &vec![WINDOW],
            readings,
        )
    };

    assert_eq!(advance(half_cadence, &mut readings), vec![WINDOW]);
    assert_eq!(readings.readings_taken(), readings_before + 1);

    assert!(advance(half_cadence * 9 / 10, &mut readings).is_empty());
    assert_eq!(readings.readings_taken(), readings_before + 1);

    advance(half_cadence * 2 / 10, &mut readings);
    assert_eq!(readings.readings_taken(), readings_before + 2);
}

#[test]
fn only_a_visible_reading_confirms() {
    let mut readings = ScriptedWindowOnScreenReadings::new();
    readings.script(1, WindowOnScreenReading::ReportedVisible);
    readings.script(2, WindowOnScreenReading::ReportedOccluded);
    readings.script(3, WindowOnScreenReading::OnNoScreen);
    let confirmed = poll_windows_on_screen(
        &mut NextWindowOnScreenReadingAt::new(),
        TimeSpan::from_nanoseconds(0),
        &vec![1, 2, 3, 4],
        &mut readings,
    );
    assert_eq!(confirmed, vec![1]);
    assert_eq!(readings.readings_taken(), 4);
    assert_eq!(
        readings.observe(4),
        WindowOnScreenObservation::NoScriptedReading
    );
    assert!(!WindowOnScreenObservation::NoNativeWindowYet.confirms());
    assert_eq!(native_reading(true, true), WindowOnScreenReading::ReportedVisible);
    assert_eq!(native_reading(true, false), WindowOnScreenReading::ReportedOccluded);
    assert_eq!(native_reading(false, true), WindowOnScreenReading::OnNoScreen);
}

#[test]
fn time_spans_saturate_where_durations_do() {
    assert_eq!(
        TimeSpan::from_nanoseconds(u128::MAX).nanoseconds(),
        std::time::Duration::MAX.as_nanos()
    );
    assert_eq!(MAX_NANOSECONDS, std::time::Duration::MAX.as_nanos());
    let longest = TimeSpan::from_nanoseconds(MAX_NANOSECONDS);
    assert_eq!(longest.saturating_add(TimeSpan::from_milliseconds(1)), longest);
    assert_eq!(TimeSpan::from_milliseconds(3).nanoseconds(), 3_000_000);
}

#[test]
fn timers_expire_at_their_limit() {
    let step = TimeSpan::from_milliseconds(50);
    let mut deadline = OperatingSystemWorkDeadline::new(TimeSpan::from_milliseconds(100));
    assert_eq!(deadline.advance(step), OperatingSystemWorkDeadlineStatus::Pending);
    assert_eq!(deadline.advance(step), OperatingSystemWorkDeadlineStatus::Expired);
    let mut interval = WindowStabilityInterval::new(TimeSpan::from_milliseconds(100));
    assert_eq!(interval.advance(step), WindowStabilityIntervalStatus::Settling);
    interval.reset();
    assert_eq!(interval.advance(step), WindowStabilityIntervalStatus::Settling);
    assert_eq!(interval.advance(step), WindowStabilityIntervalStatus::Stable);
}

#[test]
fn text_helpers_agree_with_the_standard_library() {
    for number in [0, 7, 10, 42, 4_294_967_295, u64::MAX] {
        assert_eq!(text::decimal(number), number.to_string());
    }
    for number in [0, -1, i32::MIN, i32::MAX] {
        assert_eq!(text::signed_decimal(number), number.to_string());
    }
    for (left, right) in [("a", "b"), ("", "a"), ("a", "ab"), ("z", "\u{e4}"), ("b", "a"), ("a", "a")] {
        assert_eq!(text::precedes(left, right), left < right, "{left} {right}");
    }
    for (whole, prefix) in [("window:x", "window:"), ("win", "window:"), ("\u{e4}b", "\u{e4}")] {
        assert_eq!(
            text::without_prefix(whole, prefix).as_deref(),
            whole.strip_prefix(prefix)
        );
        assert_eq!(text::starts_with(whole, prefix), whole.starts_with(prefix));
    }
    for whole in ["card1-DP-3", "card1", "-x", ""] {
        assert_eq!(
            text::text_after_first(whole, '-').as_deref(),
            whole.split_once('-').map(|(_, rest)| rest)
        );
    }
    assert_eq!(text::joined("a\u{e4}", "b"), "a\u{e4}b");
}

#[test]
fn a_role_map_holds_one_value_for_each_role() {
    let role = |name: &str| RoleKey::new(name).expect("valid role");
    let mut map: RoleMap<u8> = RoleMap::new();
    assert!(map.is_empty());
    map.insert(role("a"), 1);
    map.insert(role("b"), 2);
    map.insert(role("a"), 3);
    assert_eq!(map.len(), 2);
    assert_eq!(map.get(&role("a")), Some(&3));
    assert_eq!(map.role_at(1).as_str(), "b");
    assert_eq!(*map.value_at(1), 2);
    map.remove(&role("a"));
    map.remove(&role("c"));
    assert_eq!(map.get(&role("a")), None);
    assert!(map.contains_key(&role("b")));
    assert!(!map.is_empty());
}
