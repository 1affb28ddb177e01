use slickscreen::util::pts_from_micros;
use slickscreen::util::stream_time_base;
use slickscreen::util::SlickscreenTime;
use slickscreen::util::TimeBase;
use slickscreen::util::PTS_MASK;
use slickscreen::video_recorder::idle_micros;
use slickscreen::video_recorder::next_frame_deadline;
use slickscreen::video_recorder::FRAME_INTERVAL_MICROS;
use std::time::Duration;
use std::time::Instant;

#[test]
fn pts_of_small_counts_is_the_count() {
    assert_eq!(pts_from_micros(0), 0);
    assert_eq!(pts_from_micros(1), 1);
    assert_eq!(pts_from_micros(1_000_000), 1_000_000);
    assert_eq!(pts_from_micros(i64::MAX as u128), i64::MAX);
}

#[test]
fn pts_wraps_at_sixty_three_bits() {
    assert_eq!(pts_from_micros(1u128 << 63), 0);
    assert_eq!(pts_from_micros((1u128 << 63) + 5), 5);
    assert_eq!(pts_from_micros(u128::MAX), i64::MAX);
    assert_eq!(pts_from_micros((1u128 << 64) + 7), 7);
}

#[test]
fn pts_mask_is_the_largest_timestamp() {
    assert_eq!(PTS_MASK, i64::MAX as u128);
}

#[test]
fn pts_keeps_the_order_of_readings() {
    let readings: [u128; 5] = [0, 10, 10, 16_666, 2_000_000];
    let mut last = pts_from_micros(readings[0]);
    for reading in readings {
        let pts = pts_from_micros(reading);
        assert!(last <= pts);
        last = pts;
    }
}

#[test]
fn pts_now_is_not_negative_and_does_not_go_back() {
    let time = SlickscreenTime::new(Instant::now());
    let mut last = time.pts_now();
    assert!(last >= 0);
    for _ in 0..1000 {
        let now = time.pts_now();
        assert!(now >= last);
        last = now;
    }
}

#[test]
fn pts_now_counts_from_the_origin() {
    let origin = Instant::now() - Duration::from_millis(250);
    let time = SlickscreenTime::new(origin);
    let pts = time.pts_now();
    assert!(pts >= 250_000);
    assert!(pts < 60_000_000);
}

#[test]
fn copies_of_a_time_reference_share_the_origin() {
    let origin = Instant::now() - Duration::from_millis(100);
    let time = SlickscreenTime::new(origin);
    let copy = time;
    let first = time.pts_now();
    let second = copy.pts_now();
    assert!(first >= 100_000);
    assert!(second >= first);
}

#[test]
fn stream_time_base_is_microseconds() {
    assert_eq!(
        stream_time_base(),
        TimeBase {
            numerator: 1,
            denominator: 1_000_000
        }
    );
}

#[test]
fn frame_interval_is_a_sixtieth_of_a_second() {
    assert_eq!(FRAME_INTERVAL_MICROS, 16666);
    assert_eq!(next_frame_deadline(0), 16666);
    assert_eq!(next_frame_deadline(1_000_000), 1_016_666);
}

#[test]
fn frame_deadline_saturates() {
    assert_eq!(next_frame_deadline(u64::MAX), u64::MAX);
    assert_eq!(next_frame_deadline(u64::MAX - 16666), u64::MAX);
    assert_eq!(next_frame_deadline(u64::MAX - 16667), u64::MAX - 1);
}

#[test]
fn idle_time_is_what_is_left_before_the_deadline() {
    assert_eq!(idle_micros(16666, 0), 16666);
    assert_eq!(idle_micros(16666, 6666), 10000);
    assert_eq!(idle_micros(16666, 16665), 1);
}

#[test]
fn idle_time_is_zero_once_the_deadline_has_passed() {
    assert_eq!(idle_micros(16666, 16666), 0);
    assert_eq!(idle_micros(16666, 20000), 0);
    assert_eq!(idle_micros(0, u64::MAX), 0);
}
