use herebedragons::clock::{Clock, InstantClock};
use herebedragons::frame_counter::FrameCounter;

#[test]
fn test_last_frame_duration() {
    let mut frame_counter = FrameCounter::default();

    assert!(frame_counter.last_frame_duration().is_none());
    assert!(frame_counter.avg_frame_duration().is_none());

    let now = 1000u64;
    frame_counter.frame_done(now);

    assert!(frame_counter.last_frame_duration().is_none());
    assert!(frame_counter.avg_frame_duration().is_none());

    frame_counter.frame_done(now + 30);

    assert_eq!(frame_counter.last_frame_duration(), Some(30));
    assert_eq!(frame_counter.avg_frame_duration(), Some(30));
}

#[test]
fn average_over_two_frames() {
    let mut frame_counter = FrameCounter::default();
    frame_counter.frame_done(0);
    frame_counter.frame_done(10);
    frame_counter.frame_done(40);
    assert_eq!(frame_counter.last_frame_duration(), Some(30));
    assert_eq!(frame_counter.avg_frame_duration(), Some(20));
}

#[test]
fn window_overwrites_oldest_sample() {
    let mut frame_counter = FrameCounter::default();
    // one slow frame, then sixteen 10 ms frames: the slow sample is
    // overwritten once the sixteen-slot window wraps
    frame_counter.frame_done(0);
    frame_counter.frame_done(1000);
    let mut t = 1000u64;
    for _ in 0..16 {
        t += 10;
        frame_counter.frame_done(t);
    }
    assert_eq!(frame_counter.last_frame_duration(), Some(10));
    assert_eq!(frame_counter.avg_frame_duration(), Some(10));
}

#[test]
fn zero_duration_frames() {
    let mut frame_counter = FrameCounter::default();
    frame_counter.frame_done(500);
    frame_counter.frame_done(500);
    assert_eq!(frame_counter.last_frame_duration(), Some(0));
    assert_eq!(frame_counter.avg_frame_duration(), Some(0));
}

#[test]
fn system_clock_reads_nonzero() {
    let first = InstantClock::now();
    let second = InstantClock::now();
    assert!(first > 0);
    assert!(second >= first);
}
